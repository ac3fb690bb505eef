use jre_bootstrap::outcome::{classify, FailureKind, LaunchOutcome, SpawnError, SpawnResult};
use jre_bootstrap::probe::{jar_launch, probe_step, version_check, Invocation, ProbePhase, ProbeStep};

#[test]
fn exit_code_zero_is_success() {
    assert_eq!(classify(SpawnResult::Exited(Some(0))), LaunchOutcome::Success);
    assert!(SpawnResult::Exited(Some(0)).is_success());
}

#[test]
fn nonzero_exit_code_is_runtime_invalid() {
    assert_eq!(classify(SpawnResult::Exited(Some(1))), LaunchOutcome::RuntimeInvalid);
    assert_eq!(classify(SpawnResult::Exited(Some(-1))), LaunchOutcome::RuntimeInvalid);
    assert_eq!(classify(SpawnResult::Exited(Some(i32::MAX))), LaunchOutcome::RuntimeInvalid);
    assert_eq!(classify(SpawnResult::Exited(Some(i32::MIN))), LaunchOutcome::RuntimeInvalid);
    assert!(!SpawnResult::Exited(Some(1)).is_success());
}

#[test]
fn signal_terminated_process_is_runtime_invalid() {
    assert_eq!(classify(SpawnResult::Exited(None)), LaunchOutcome::RuntimeInvalid);
    assert!(!SpawnResult::Exited(None).is_success());
}

#[test]
fn not_found_is_runtime_invalid() {
    assert_eq!(
        classify(SpawnResult::Failed(SpawnError::NotFound)),
        LaunchOutcome::RuntimeInvalid
    );
}

#[test]
fn permission_denied_is_its_own_outcome() {
    assert_eq!(
        classify(SpawnResult::Failed(SpawnError::PermissionDenied)),
        LaunchOutcome::PermissionDenied
    );
}

#[test]
fn other_spawn_errors_keep_their_code() {
    assert_eq!(
        classify(SpawnResult::Failed(SpawnError::Other(Some(8)))),
        LaunchOutcome::OsError(Some(8))
    );
    assert_eq!(
        classify(SpawnResult::Failed(SpawnError::Other(None))),
        LaunchOutcome::OsError(None)
    );
    assert!(!SpawnResult::Failed(SpawnError::Other(Some(0))).is_success());
}

#[test]
fn failure_kind_of_each_outcome() {
    assert_eq!(LaunchOutcome::Success.failure_kind(), None);
    assert_eq!(
        LaunchOutcome::RuntimeInvalid.failure_kind(),
        Some(FailureKind::RuntimeInvalid)
    );
    assert_eq!(
        LaunchOutcome::PermissionDenied.failure_kind(),
        Some(FailureKind::PermissionDenied)
    );
    assert_eq!(
        LaunchOutcome::OsError(Some(13)).failure_kind(),
        Some(FailureKind::OsError(Some(13)))
    );
}

#[test]
fn version_check_command_line() {
    let invocation = version_check("/opt/jre/bin/java");
    assert_eq!(
        invocation,
        Invocation {
            program: "/opt/jre/bin/java".to_string(),
            args: vec!["-version".to_string()],
        }
    );
}

#[test]
fn jar_launch_command_line() {
    let invocation = jar_launch("javaw", "C:\\Temp\\17quilt-installer.jar");
    assert_eq!(
        invocation,
        Invocation {
            program: "javaw".to_string(),
            args: vec!["-jar".to_string(), "C:\\Temp\\17quilt-installer.jar".to_string()],
        }
    );
}

#[test]
fn passed_version_check_leads_to_the_launch() {
    let step = probe_step(
        ProbePhase::Validation,
        SpawnResult::Exited(Some(0)),
        "/jre/bin/java",
        "/tmp/5quilt-installer.jar",
    );
    assert_eq!(
        step,
        ProbeStep::Run(Invocation {
            program: "/jre/bin/java".to_string(),
            args: vec!["-jar".to_string(), "/tmp/5quilt-installer.jar".to_string()],
        })
    );
}

#[test]
fn failed_version_check_ends_the_probe() {
    let failed = [
        (SpawnResult::Exited(Some(1)), LaunchOutcome::RuntimeInvalid),
        (SpawnResult::Exited(Some(127)), LaunchOutcome::RuntimeInvalid),
        (SpawnResult::Exited(None), LaunchOutcome::RuntimeInvalid),
        (SpawnResult::Failed(SpawnError::NotFound), LaunchOutcome::RuntimeInvalid),
        (SpawnResult::Failed(SpawnError::PermissionDenied), LaunchOutcome::PermissionDenied),
        (SpawnResult::Failed(SpawnError::Other(Some(24))), LaunchOutcome::OsError(Some(24))),
    ];
    for (result, outcome) in failed {
        let step = probe_step(ProbePhase::Validation, result, "java", "/tmp/1quilt-installer.jar");
        assert_eq!(step, ProbeStep::Done(outcome));
    }
}

#[test]
fn launch_result_ends_the_probe() {
    let results = [
        (SpawnResult::Exited(Some(0)), LaunchOutcome::Success),
        (SpawnResult::Exited(Some(1)), LaunchOutcome::RuntimeInvalid),
        (SpawnResult::Exited(None), LaunchOutcome::RuntimeInvalid),
        (SpawnResult::Failed(SpawnError::NotFound), LaunchOutcome::RuntimeInvalid),
        (SpawnResult::Failed(SpawnError::PermissionDenied), LaunchOutcome::PermissionDenied),
        (SpawnResult::Failed(SpawnError::Other(None)), LaunchOutcome::OsError(None)),
    ];
    for (result, outcome) in results {
        let step = probe_step(ProbePhase::Launch, result, "java", "/tmp/1quilt-installer.jar");
        assert_eq!(step, ProbeStep::Done(outcome));
    }
}

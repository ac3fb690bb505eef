use jre_bootstrap::cascade::{Action, Cascade, Event, State};
use jre_bootstrap::outcome::{classify, FailureKind, LaunchOutcome, SpawnError, SpawnResult};
use jre_bootstrap::probe::{probe_step, version_check, ProbePhase, ProbeStep};
use jre_bootstrap::recovery::{Dialog, DialogKind, DialogResponse};

const PAYLOAD: &str = "/tmp/77quilt-installer.jar";
const JRE_HELP: &str = "https://example.org/jre";

fn cascade_with(candidates: &[&str]) -> Cascade {
    Cascade::new(
        PAYLOAD.to_string(),
        candidates.iter().map(|c| c.to_string()).collect(),
        "java",
        JRE_HELP,
    )
}

fn probe_of(candidate: &str) -> Option<Action> {
    Some(Action::Probe { candidate: candidate.to_string(), payload: PAYLOAD.to_string() })
}

struct Run {
    probes: Vec<String>,
    dialogs: Vec<Dialog>,
    opened: Vec<String>,
    exit_code: Option<i32>,
}

/// Drives a controller to its end. `spawn` runs a command line; `answer`
/// answers a dialog.
fn drive(
    mut cascade: Cascade,
    mut spawn: impl FnMut(&str, &[String]) -> SpawnResult,
    answer: DialogResponse,
) -> Run {
    let mut run = Run { probes: vec![], dialogs: vec![], opened: vec![], exit_code: None };
    let mut action = Some(cascade.begin());
    let mut steps = 0;
    while let Some(current) = action {
        steps += 1;
        assert!(steps < 100);
        action = match current {
            Action::Extract { payload } => {
                assert_eq!(payload, PAYLOAD);
                cascade.step(Event::Extracted)
            }
            Action::Probe { candidate, payload } => {
                assert_eq!(payload, PAYLOAD);
                run.probes.push(candidate.clone());
                let first = version_check(&candidate);
                let result = spawn(&first.program, &first.args);
                let outcome = match probe_step(ProbePhase::Validation, result, &candidate, &payload)
                {
                    ProbeStep::Done(outcome) => outcome,
                    ProbeStep::Run(second) => {
                        let result = spawn(&second.program, &second.args);
                        match probe_step(ProbePhase::Launch, result, &candidate, &payload) {
                            ProbeStep::Done(outcome) => outcome,
                            ProbeStep::Run(_) => panic!("a probe has two commands"),
                        }
                    }
                };
                cascade.step(Event::Probed(outcome))
            }
            Action::Present(dialog) => {
                run.dialogs.push(dialog);
                cascade.step(Event::DialogClosed(answer))
            }
            Action::Exit { code, open_url } => {
                run.opened.extend(open_url);
                run.exit_code = Some(code);
                assert_eq!(cascade.state(), State::Exited(code));
                None
            }
        };
    }
    run
}

#[test]
fn begins_with_the_extraction() {
    let cascade = cascade_with(&["a"]);
    assert_eq!(cascade.state(), State::Extracting);
    assert_eq!(cascade.begin(), Action::Extract { payload: PAYLOAD.to_string() });
}

#[test]
fn probes_candidates_in_order_then_the_java_command() {
    let mut cascade = cascade_with(&["first", "second"]);
    assert_eq!(cascade.step(Event::Extracted), probe_of("first"));
    assert_eq!(cascade.state(), State::Probing { index: 0 });
    assert_eq!(cascade.step(Event::Probed(LaunchOutcome::RuntimeInvalid)), probe_of("second"));
    assert_eq!(cascade.state(), State::Probing { index: 1 });
    assert_eq!(cascade.step(Event::Probed(LaunchOutcome::OsError(Some(3)))), probe_of("java"));
    assert_eq!(cascade.state(), State::LastResortProbe);
}

#[test]
fn failed_candidate_does_not_end_the_cascade() {
    let failures = [
        LaunchOutcome::RuntimeInvalid,
        LaunchOutcome::PermissionDenied,
        LaunchOutcome::OsError(None),
    ];
    for failure in failures {
        let mut cascade = cascade_with(&["only"]);
        cascade.step(Event::Extracted);
        assert_eq!(cascade.step(Event::Probed(failure)), probe_of("java"));
        assert_eq!(cascade.state(), State::LastResortProbe);
    }
}

#[test]
fn successful_candidate_exits_with_zero() {
    let mut cascade = cascade_with(&["first", "second"]);
    cascade.step(Event::Extracted);
    assert_eq!(
        cascade.step(Event::Probed(LaunchOutcome::Success)),
        Some(Action::Exit { code: 0, open_url: None })
    );
    assert_eq!(cascade.state(), State::Exited(0));
}

#[test]
fn successful_last_resort_exits_with_zero() {
    let mut cascade = cascade_with(&[]);
    assert_eq!(cascade.step(Event::Extracted), probe_of("java"));
    assert_eq!(
        cascade.step(Event::Probed(LaunchOutcome::Success)),
        Some(Action::Exit { code: 0, open_url: None })
    );
    assert_eq!(cascade.state(), State::Exited(0));
}

#[test]
fn exited_controller_accepts_nothing() {
    let mut cascade = cascade_with(&["first", "second"]);
    cascade.step(Event::Extracted);
    cascade.step(Event::Probed(LaunchOutcome::Success));
    let events = [
        Event::Extracted,
        Event::ExtractionFailed("Other".to_string()),
        Event::Probed(LaunchOutcome::RuntimeInvalid),
        Event::Probed(LaunchOutcome::Success),
        Event::DialogClosed(DialogResponse::Confirmed),
    ];
    for event in events {
        assert_eq!(cascade.step(event), None);
        assert_eq!(cascade.state(), State::Exited(0));
    }
}

#[test]
fn unexpected_events_change_nothing() {
    let mut cascade = cascade_with(&["first"]);
    assert_eq!(cascade.step(Event::Probed(LaunchOutcome::Success)), None);
    assert_eq!(cascade.step(Event::DialogClosed(DialogResponse::Confirmed)), None);
    assert_eq!(cascade.state(), State::Extracting);
    cascade.step(Event::Extracted);
    assert_eq!(cascade.step(Event::Extracted), None);
    assert_eq!(cascade.step(Event::ExtractionFailed("x".to_string())), None);
    assert_eq!(cascade.step(Event::DialogClosed(DialogResponse::Dismissed)), None);
    assert_eq!(cascade.state(), State::Probing { index: 0 });
    cascade.step(Event::Probed(LaunchOutcome::RuntimeInvalid));
    cascade.step(Event::Probed(LaunchOutcome::RuntimeInvalid));
    assert_eq!(cascade.state(), State::Failed(FailureKind::RuntimeInvalid));
    assert_eq!(cascade.step(Event::Probed(LaunchOutcome::Success)), None);
    assert_eq!(cascade.step(Event::Extracted), None);
    assert_eq!(cascade.state(), State::Failed(FailureKind::RuntimeInvalid));
}

#[test]
fn last_failure_decides_the_dialog() {
    let mut cascade = cascade_with(&["first"]);
    cascade.step(Event::Extracted);
    cascade.step(Event::Probed(LaunchOutcome::PermissionDenied));
    let action = cascade.step(Event::Probed(LaunchOutcome::OsError(Some(11))));
    assert_eq!(cascade.state(), State::Failed(FailureKind::OsError(Some(11))));
    assert_eq!(
        action,
        Some(Action::Present(Dialog {
            kind: DialogKind::Confirm,
            title: "Failed to launch installer".to_string(),
            text: "The installer failed to launch due to issues with the current OS. Do you want to open a link for more information?".to_string(),
        }))
    );
    assert_eq!(
        cascade.step(Event::DialogClosed(DialogResponse::Confirmed)),
        Some(Action::Exit { code: 1, open_url: Some("https://quiltmc.org/".to_string()) })
    );
    assert_eq!(cascade.state(), State::Exited(1));
}

#[test]
fn no_candidates_and_java_not_found_is_runtime_invalid() {
    let mut cascade = cascade_with(&[]);
    assert_eq!(cascade.step(Event::Extracted), probe_of("java"));
    let outcome = classify(SpawnResult::Failed(SpawnError::NotFound));
    assert_eq!(outcome, LaunchOutcome::RuntimeInvalid);
    cascade.step(Event::Probed(outcome));
    assert_eq!(cascade.state(), State::Failed(FailureKind::RuntimeInvalid));
    assert_ne!(cascade.state(), State::Failed(FailureKind::OsError(None)));
}

#[test]
fn permission_denied_as_final_outcome_is_alert_only() {
    for answer in [DialogResponse::Dismissed, DialogResponse::Confirmed] {
        let mut cascade = cascade_with(&["first"]);
        cascade.step(Event::Extracted);
        cascade.step(Event::Probed(LaunchOutcome::RuntimeInvalid));
        let action = cascade.step(Event::Probed(LaunchOutcome::PermissionDenied));
        assert_eq!(
            action,
            Some(Action::Present(Dialog {
                kind: DialogKind::Alert,
                title: "Failed to launch installer".to_string(),
                text: "Did not have permission to launch Java for installer.".to_string(),
            }))
        );
        assert_eq!(
            cascade.step(Event::DialogClosed(answer)),
            Some(Action::Exit { code: 1, open_url: None })
        );
    }
}

#[test]
fn dialog_that_cannot_be_shown_opens_the_last_resort_page() {
    let finals = [
        LaunchOutcome::RuntimeInvalid,
        LaunchOutcome::PermissionDenied,
        LaunchOutcome::OsError(None),
    ];
    for last in finals {
        let mut cascade = cascade_with(&[]);
        cascade.step(Event::Extracted);
        cascade.step(Event::Probed(last));
        assert_eq!(
            cascade.step(Event::DialogClosed(DialogResponse::Unavailable)),
            Some(Action::Exit { code: 1, open_url: Some("https://quiltmc.org/".to_string()) })
        );
    }
}

#[test]
fn declined_question_exits_nonzero_without_page() {
    let mut cascade = cascade_with(&[]);
    cascade.step(Event::Extracted);
    cascade.step(Event::Probed(LaunchOutcome::RuntimeInvalid));
    assert_eq!(
        cascade.step(Event::DialogClosed(DialogResponse::Dismissed)),
        Some(Action::Exit { code: 1, open_url: None })
    );
}

#[test]
fn extraction_failure_is_fatal() {
    let mut cascade = cascade_with(&["first", "second"]);
    let action = cascade.step(Event::ExtractionFailed("StorageFull".to_string()));
    assert_eq!(cascade.state(), State::Failed(FailureKind::ExtractionFailure));
    assert_eq!(
        action,
        Some(Action::Present(Dialog {
            kind: DialogKind::Alert,
            title: "Failed to launch installer".to_string(),
            text: "Failed to extract installer.\nError: StorageFull".to_string(),
        }))
    );
    assert_eq!(
        cascade.step(Event::DialogClosed(DialogResponse::Dismissed)),
        Some(Action::Exit { code: 1, open_url: None })
    );
    assert_eq!(cascade.state(), State::Exited(1));
}

#[test]
fn extraction_failure_without_dialog_opens_the_last_resort_page() {
    let mut cascade = cascade_with(&[]);
    cascade.step(Event::ExtractionFailed("NotFound".to_string()));
    assert_eq!(
        cascade.step(Event::DialogClosed(DialogResponse::Unavailable)),
        Some(Action::Exit { code: 1, open_url: Some("https://quiltmc.org/".to_string()) })
    );
}

#[test]
fn end_to_end_third_candidate_succeeds() {
    let mut commands: Vec<String> = Vec::new();
    let run = drive(
        cascade_with(&["/a/java", "/b/java", "/c/java", "/d/java"]),
        |program, args| {
            commands.push(format!("{} {}", program, args.join(" ")));
            if program == "/c/java" {
                SpawnResult::Exited(Some(0))
            } else {
                SpawnResult::Exited(Some(1))
            }
        },
        DialogResponse::Confirmed,
    );
    assert_eq!(run.probes, vec!["/a/java", "/b/java", "/c/java"]);
    assert_eq!(run.probes.len(), 3);
    assert_eq!(run.exit_code, Some(0));
    assert!(run.dialogs.is_empty());
    assert!(run.opened.is_empty());
    assert_eq!(
        commands,
        vec![
            "/a/java -version",
            "/b/java -version",
            "/c/java -version",
            "/c/java -jar /tmp/77quilt-installer.jar",
        ]
    );
}

#[test]
fn end_to_end_three_candidates_two_invalid_then_success() {
    let run = drive(
        cascade_with(&["/a/java", "/b/java", "/c/java"]),
        |program, _args| {
            if program == "/c/java" {
                SpawnResult::Exited(Some(0))
            } else {
                SpawnResult::Failed(SpawnError::NotFound)
            }
        },
        DialogResponse::Confirmed,
    );
    assert_eq!(run.probes.len(), 3);
    assert_eq!(run.exit_code, Some(0));
    assert!(run.dialogs.is_empty());
    assert!(run.opened.is_empty());
}

#[test]
fn end_to_end_no_candidates_and_no_java() {
    let run = drive(
        cascade_with(&[]),
        |_program, _args| SpawnResult::Failed(SpawnError::NotFound),
        DialogResponse::Confirmed,
    );
    assert_eq!(run.probes, vec!["java"]);
    assert_eq!(
        run.dialogs,
        vec![Dialog {
            kind: DialogKind::Confirm,
            title: "Failed to launch installer".to_string(),
            text: "The installer failed to launch because it could not find a suitable Java runtime. Do you want to open a link for more information?".to_string(),
        }]
    );
    assert_eq!(run.opened, vec![JRE_HELP]);
    assert!(run.exit_code.is_some());
    assert_ne!(run.exit_code, Some(0));
}

#[test]
fn end_to_end_version_check_passes_but_launch_fails() {
    let mut commands = 0;
    let run = drive(
        cascade_with(&["/a/java"]),
        |_program, args| {
            commands += 1;
            if args[0] == "-version" {
                SpawnResult::Exited(Some(0))
            } else {
                SpawnResult::Exited(Some(1))
            }
        },
        DialogResponse::Dismissed,
    );
    assert_eq!(run.probes, vec!["/a/java", "java"]);
    assert_eq!(commands, 4);
    assert_eq!(run.dialogs.len(), 1);
    assert_eq!(run.dialogs[0].kind, DialogKind::Confirm);
    assert!(run.opened.is_empty());
    assert_eq!(run.exit_code, Some(1));
}

#[test]
fn end_to_end_every_candidate_is_tried_once() {
    let candidates: Vec<String> = (0..25).map(|i| format!("/jvm/{}/bin/java", i)).collect();
    let names: Vec<&str> = candidates.iter().map(|c| c.as_str()).collect();
    let run = drive(
        cascade_with(&names),
        |_program, _args| SpawnResult::Failed(SpawnError::PermissionDenied),
        DialogResponse::Dismissed,
    );
    let mut expected = candidates.clone();
    expected.push("java".to_string());
    assert_eq!(run.probes, expected);
    assert_eq!(run.dialogs.len(), 1);
    assert_eq!(run.dialogs[0].kind, DialogKind::Alert);
    assert!(run.opened.is_empty());
    assert_eq!(run.exit_code, Some(1));
}

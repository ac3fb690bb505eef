use jre_bootstrap::outcome::FailureKind;
use jre_bootstrap::recovery::{
    help_url, recovery_dialog, url_to_open, Dialog, DialogKind, DialogResponse, DIALOG_TITLE,
    EXIT_FAILURE, EXIT_SUCCESS, INSTALLER_LAST_RESORT_URL, OS_ISSUES_URL,
};

const JRE_HELP: &str = "https://example.org/jre";

#[test]
fn exit_codes() {
    assert_eq!(EXIT_SUCCESS, 0);
    assert_ne!(EXIT_FAILURE, 0);
    assert_eq!(EXIT_FAILURE, 1);
}

#[test]
fn fixed_urls_and_title() {
    assert_eq!(INSTALLER_LAST_RESORT_URL, "https://quiltmc.org/");
    assert_eq!(OS_ISSUES_URL, "https://quiltmc.org/");
    assert_eq!(DIALOG_TITLE, "Failed to launch installer");
}

#[test]
fn os_error_dialog_asks_about_the_os_page() {
    assert_eq!(
        recovery_dialog(FailureKind::OsError(Some(5)), "ignored"),
        Dialog {
            kind: DialogKind::Confirm,
            title: "Failed to launch installer".to_string(),
            text: "The installer failed to launch due to issues with the current OS. Do you want to open a link for more information?".to_string(),
        }
    );
    assert_eq!(
        help_url(FailureKind::OsError(None), JRE_HELP),
        Some("https://quiltmc.org/".to_string())
    );
}

#[test]
fn runtime_invalid_dialog_asks_about_the_jre_page() {
    assert_eq!(
        recovery_dialog(FailureKind::RuntimeInvalid, ""),
        Dialog {
            kind: DialogKind::Confirm,
            title: "Failed to launch installer".to_string(),
            text: "The installer failed to launch because it could not find a suitable Java runtime. Do you want to open a link for more information?".to_string(),
        }
    );
    assert_eq!(help_url(FailureKind::RuntimeInvalid, JRE_HELP), Some(JRE_HELP.to_string()));
}

#[test]
fn permission_denied_dialog_is_an_alert_without_page() {
    assert_eq!(
        recovery_dialog(FailureKind::PermissionDenied, ""),
        Dialog {
            kind: DialogKind::Alert,
            title: "Failed to launch installer".to_string(),
            text: "Did not have permission to launch Java for installer.".to_string(),
        }
    );
    assert_eq!(help_url(FailureKind::PermissionDenied, JRE_HELP), None);
}

#[test]
fn extraction_failure_dialog_names_the_error() {
    assert_eq!(
        recovery_dialog(FailureKind::ExtractionFailure, "PermissionDenied"),
        Dialog {
            kind: DialogKind::Alert,
            title: "Failed to launch installer".to_string(),
            text: "Failed to extract installer.\nError: PermissionDenied".to_string(),
        }
    );
    assert_eq!(help_url(FailureKind::ExtractionFailure, JRE_HELP), None);
}

#[test]
fn confirmed_question_opens_its_page() {
    assert_eq!(
        url_to_open(FailureKind::RuntimeInvalid, JRE_HELP, DialogResponse::Confirmed),
        Some(JRE_HELP.to_string())
    );
    assert_eq!(
        url_to_open(FailureKind::OsError(Some(1)), JRE_HELP, DialogResponse::Confirmed),
        Some("https://quiltmc.org/".to_string())
    );
}

#[test]
fn dismissed_dialog_opens_nothing() {
    let kinds = [
        FailureKind::ExtractionFailure,
        FailureKind::RuntimeInvalid,
        FailureKind::PermissionDenied,
        FailureKind::OsError(None),
    ];
    for kind in kinds {
        assert_eq!(url_to_open(kind, JRE_HELP, DialogResponse::Dismissed), None);
    }
}

#[test]
fn closed_alert_opens_nothing() {
    assert_eq!(
        url_to_open(FailureKind::PermissionDenied, JRE_HELP, DialogResponse::Confirmed),
        None
    );
    assert_eq!(
        url_to_open(FailureKind::ExtractionFailure, JRE_HELP, DialogResponse::Confirmed),
        None
    );
}

#[test]
fn unavailable_dialog_opens_the_last_resort_page() {
    let kinds = [
        FailureKind::ExtractionFailure,
        FailureKind::RuntimeInvalid,
        FailureKind::PermissionDenied,
        FailureKind::OsError(Some(2)),
    ];
    for kind in kinds {
        assert_eq!(
            url_to_open(kind, JRE_HELP, DialogResponse::Unavailable),
            Some("https://quiltmc.org/".to_string())
        );
    }
}

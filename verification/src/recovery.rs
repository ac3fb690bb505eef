//! The recovery presenter: what the user is shown when the installer could
//! not be started, and what follows from the user's answer.
//!
//! Each kind of failure has one dialog. Where a page can help, the dialog
//! asks whether to open it. Where the dialog itself cannot be shown, a last
//! page is opened without asking, so that the user is never left without
//! any sign of what happened.

use crate::outcome::FailureKind;
use vstd::prelude::*;

verus! {

/// The page that is opened when no dialog can be shown.
pub const INSTALLER_LAST_RESORT_URL: &'static str = "https://quiltmc.org/";

/// The page about trouble with the operating system.
pub const OS_ISSUES_URL: &'static str = "https://quiltmc.org/";

/// The title of every dialog.
pub const DIALOG_TITLE: &'static str = "Failed to launch installer";

/// What is said when the operating system could not start Java.
pub const OS_ERROR_TEXT: &'static str =
    "The installer failed to launch due to issues with the current OS. Do you want to open a link for more information?";

/// What is said when no working Java runtime was found.
pub const RUNTIME_INVALID_TEXT: &'static str =
    "The installer failed to launch because it could not find a suitable Java runtime. Do you want to open a link for more information?";

/// What is said when Java was not allowed to run.
pub const PERMISSION_DENIED_TEXT: &'static str =
    "Did not have permission to launch Java for installer.";

/// What is said when the installer archive could not be written; the
/// description of the error follows it.
pub const EXTRACTION_FAILURE_TEXT: &'static str = "Failed to extract installer.\nError: ";

/// The exit code of a run that handed over to the installer.
pub const EXIT_SUCCESS: i32 = 0;

/// The exit code of every run that did not.
pub const EXIT_FAILURE: i32 = 1;

/// The two forms of a dialog.
#[derive(Clone, Copy, Debug, PartialEq, Eq, Structural)]
pub enum DialogKind {
    /// States a fact. The user can only close it.
    Alert,
    /// Asks a question. The user accepts or declines.
    Confirm,
}

/// A modal dialog that reports an error.
#[derive(Clone, Debug, PartialEq, Eq)]
pub struct Dialog {
    pub kind: DialogKind,
    pub title: String,
    pub text: String,
}

/// What a [`Dialog`] holds, as sequences of characters.
pub struct DialogView {
    pub kind: DialogKind,
    pub title: Seq<char>,
    pub text: Seq<char>,
}

impl View for Dialog {
    type V = DialogView;

    open spec fn view(&self) -> DialogView {
        DialogView { kind: self.kind, title: self.title@, text: self.text@ }
    }
}

/// What came of showing a dialog.
#[derive(Clone, Copy, Debug, PartialEq, Eq, Structural)]
pub enum DialogResponse {
    /// The dialog could not be shown.
    Unavailable,
    /// The dialog was shown, and the user closed an alert or declined a
    /// question.
    Dismissed,
    /// The dialog was shown, and the user accepted what it asked.
    Confirmed,
}

/// The page that the dialog for `kind` offers to open, if it offers one.
/// `jre_help_url` is the platform's page about Java runtimes.
pub open spec fn help_url_spec(kind: FailureKind, jre_help_url: Seq<char>) -> Option<Seq<char>> {
    match kind {
        FailureKind::OsError(_) => Some(OS_ISSUES_URL@),
        FailureKind::RuntimeInvalid => Some(jre_help_url),
        FailureKind::PermissionDenied => None,
        FailureKind::ExtractionFailure => None,
    }
}

/// The form of the dialog for `kind`: a question where there is a page to
/// offer, an alert where there is nothing that the user could do.
pub open spec fn dialog_kind_spec(kind: FailureKind) -> DialogKind {
    match kind {
        FailureKind::OsError(_) => DialogKind::Confirm,
        FailureKind::RuntimeInvalid => DialogKind::Confirm,
        FailureKind::PermissionDenied => DialogKind::Alert,
        FailureKind::ExtractionFailure => DialogKind::Alert,
    }
}

/// The message of the dialog for `kind`. `detail` describes the error that
/// stopped the extraction, and is used for that kind alone.
pub open spec fn dialog_text_spec(kind: FailureKind, detail: Seq<char>) -> Seq<char> {
    match kind {
        FailureKind::OsError(_) => OS_ERROR_TEXT@,
        FailureKind::RuntimeInvalid => RUNTIME_INVALID_TEXT@,
        FailureKind::PermissionDenied => PERMISSION_DENIED_TEXT@,
        FailureKind::ExtractionFailure => EXTRACTION_FAILURE_TEXT@ + detail,
    }
}

/// The dialog for `kind`.
pub open spec fn recovery_dialog_spec(kind: FailureKind, detail: Seq<char>) -> DialogView {
    DialogView {
        kind: dialog_kind_spec(kind),
        title: DIALOG_TITLE@,
        text: dialog_text_spec(kind, detail),
    }
}

/// The page to open once the dialog for `kind` has been answered with
/// `response`, if any.
///
/// A dialog that could not be shown leads to the last-resort page. A
/// question that the user accepted leads to the page that it offered.
/// Nothing is opened otherwise.
pub open spec fn url_to_open_spec(
    kind: FailureKind,
    jre_help_url: Seq<char>,
    response: DialogResponse,
) -> Option<Seq<char>> {
    match response {
        DialogResponse::Unavailable => Some(INSTALLER_LAST_RESORT_URL@),
        DialogResponse::Confirmed => help_url_spec(kind, jre_help_url),
        DialogResponse::Dismissed => None,
    }
}

/// The view of a string that may be absent.
pub open spec fn text_view(text: Option<String>) -> Option<Seq<char>> {
    match text {
        Some(t) => Some(t@),
        None => None,
    }
}

/// The page that the dialog for `kind` offers to open, if it offers one.
pub fn help_url(kind: FailureKind, jre_help_url: &str) -> (url: Option<String>)
    ensures
        text_view(url) == help_url_spec(kind, jre_help_url@),
{
    match kind {
        FailureKind::OsError(_) => Some(String::from_str(OS_ISSUES_URL)),
        FailureKind::RuntimeInvalid => Some(String::from_str(jre_help_url)),
        FailureKind::PermissionDenied => None,
        FailureKind::ExtractionFailure => None,
    }
}

/// Builds the dialog that tells the user of a failure of the kind `kind`.
///
/// `detail` describes the error that stopped the extraction. It is used
/// for [`FailureKind::ExtractionFailure`] alone.
pub fn recovery_dialog(kind: FailureKind, detail: &str) -> (dialog: Dialog)
    ensures
        dialog@ == recovery_dialog_spec(kind, detail@),
{
    let title = String::from_str(DIALOG_TITLE);
    match kind {
        FailureKind::OsError(_) => Dialog {
            kind: DialogKind::Confirm,
            title,
            text: String::from_str(OS_ERROR_TEXT),
        },
        FailureKind::RuntimeInvalid => Dialog {
            kind: DialogKind::Confirm,
            title,
            text: String::from_str(RUNTIME_INVALID_TEXT),
        },
        FailureKind::PermissionDenied => Dialog {
            kind: DialogKind::Alert,
            title,
            text: String::from_str(PERMISSION_DENIED_TEXT),
        },
        FailureKind::ExtractionFailure => {
            let mut text = String::from_str(EXTRACTION_FAILURE_TEXT);
            text.append(detail);
            Dialog { kind: DialogKind::Alert, title, text }
        },
    }
}

/// Decides which page to open, if any, once the dialog for `kind` has been
/// answered with `response`.
pub fn url_to_open(
    kind: FailureKind,
    jre_help_url: &str,
    response: DialogResponse,
) -> (url: Option<String>)
    ensures
        text_view(url) == url_to_open_spec(kind, jre_help_url@, response),
{
    match response {
        DialogResponse::Unavailable => Some(String::from_str(INSTALLER_LAST_RESORT_URL)),
        DialogResponse::Confirmed => help_url(kind, jre_help_url),
        DialogResponse::Dismissed => None,
    }
}

/// A dialog asks a question exactly where it has a page to offer.
pub proof fn lemma_question_iff_page(kind: FailureKind, jre_help_url: Seq<char>)
    ensures
        dialog_kind_spec(kind) == DialogKind::Confirm <==> help_url_spec(kind, jre_help_url)
            is Some,
{
}

/// A failure for want of permission is told by an alert that offers no
/// page, and once that alert has been shown no page is opened, whatever the
/// user did.
pub proof fn lemma_permission_denied_is_alert_only(
    jre_help_url: Seq<char>,
    detail: Seq<char>,
    response: DialogResponse,
)
    requires
        response != DialogResponse::Unavailable,
    ensures
        recovery_dialog_spec(FailureKind::PermissionDenied, detail).kind == DialogKind::Alert,
        help_url_spec(FailureKind::PermissionDenied, jre_help_url) is None,
        url_to_open_spec(FailureKind::PermissionDenied, jre_help_url, response) is None,
{
}

/// A dialog that cannot be shown leads to the last-resort page, whatever
/// the failure was. A question that is declined, and an alert that is
/// closed, lead to no page.
pub proof fn lemma_presentation_failure_is_last_resort(kind: FailureKind, jre_help_url: Seq<char>)
    ensures
        url_to_open_spec(kind, jre_help_url, DialogResponse::Unavailable) == Some(
            INSTALLER_LAST_RESORT_URL@,
        ),
        url_to_open_spec(kind, jre_help_url, DialogResponse::Dismissed) is None,
{
}

} // verus!

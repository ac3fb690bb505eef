//! How one run of a child process ended, and what that says about the
//! runtime that was tried.

use vstd::prelude::*;

verus! {

/// Why the operating system did not start a child process.
#[derive(Clone, Copy, Debug, PartialEq, Eq, Structural)]
pub enum SpawnError {
    /// No file at the given path, or no such command on the search path.
    NotFound,
    /// The operating system refused to run the file.
    PermissionDenied,
    /// Any other failure, with the operating system's error code where it gave one.
    Other(Option<i32>),
}

/// What came of running one command to its end.
#[derive(Clone, Copy, Debug, PartialEq, Eq, Structural)]
pub enum SpawnResult {
    /// The process ran and ended. The exit code is absent where a signal ended it.
    Exited(Option<i32>),
    /// The process did not start.
    Failed(SpawnError),
}

/// The verdict on one attempt with one candidate runtime.
#[derive(Clone, Copy, Debug, PartialEq, Eq, Structural)]
pub enum LaunchOutcome {
    /// The process ran and exited with code zero.
    Success,
    /// The executable is missing, or it ran and did not exit with code zero.
    RuntimeInvalid,
    /// The operating system did not allow the executable to run.
    PermissionDenied,
    /// The process could not be started for another reason; the operating
    /// system's error code is kept where there was one.
    OsError(Option<i32>),
}

/// Why the bootstrap gave up, as far as the user is told.
#[derive(Clone, Copy, Debug, PartialEq, Eq, Structural)]
pub enum FailureKind {
    /// The installer archive could not be written to disk.
    ExtractionFailure,
    /// No working Java runtime was found.
    RuntimeInvalid,
    /// The operating system did not allow Java to run.
    PermissionDenied,
    /// The operating system could not start Java for another reason.
    OsError(Option<i32>),
}

impl LaunchOutcome {
    /// The kind of failure that this outcome is, and `None` for a success.
    pub open spec fn failure(self) -> Option<FailureKind> {
        match self {
            LaunchOutcome::Success => None,
            LaunchOutcome::RuntimeInvalid => Some(FailureKind::RuntimeInvalid),
            LaunchOutcome::PermissionDenied => Some(FailureKind::PermissionDenied),
            LaunchOutcome::OsError(code) => Some(FailureKind::OsError(code)),
        }
    }

    /// The kind of failure that this outcome is, and `None` for a success.
    pub fn failure_kind(self) -> (kind: Option<FailureKind>)
        ensures
            kind == self.failure(),
    {
        match self {
            LaunchOutcome::Success => None,
            LaunchOutcome::RuntimeInvalid => Some(FailureKind::RuntimeInvalid),
            LaunchOutcome::PermissionDenied => Some(FailureKind::PermissionDenied),
            LaunchOutcome::OsError(code) => Some(FailureKind::OsError(code)),
        }
    }
}

impl SpawnResult {
    /// True exactly for a process that exited with code zero.
    pub open spec fn succeeded(self) -> bool {
        self == SpawnResult::Exited(Some(0i32))
    }

    /// Whether the process ran and exited with code zero.
    pub fn is_success(&self) -> (r: bool)
        ensures
            r == self.succeeded(),
    {
        match self {
            SpawnResult::Exited(Some(code)) => *code == 0,
            _ => false,
        }
    }
}

/// The outcome that a process result stands for.
///
/// A process that ended by a signal has no exit code and counts as an
/// invalid runtime, like one that exited with a code other than zero.
pub open spec fn classify_spec(result: SpawnResult) -> LaunchOutcome {
    match result {
        SpawnResult::Exited(Some(code)) => if code == 0 {
            LaunchOutcome::Success
        } else {
            LaunchOutcome::RuntimeInvalid
        },
        SpawnResult::Exited(None) => LaunchOutcome::RuntimeInvalid,
        SpawnResult::Failed(SpawnError::NotFound) => LaunchOutcome::RuntimeInvalid,
        SpawnResult::Failed(SpawnError::PermissionDenied) => LaunchOutcome::PermissionDenied,
        SpawnResult::Failed(SpawnError::Other(code)) => LaunchOutcome::OsError(code),
    }
}

/// Maps the result of running a command to a launch outcome.
pub fn classify(result: SpawnResult) -> (outcome: LaunchOutcome)
    ensures
        outcome == classify_spec(result),
{
    match result {
        SpawnResult::Exited(Some(code)) => {
            if code == 0 {
                LaunchOutcome::Success
            } else {
                LaunchOutcome::RuntimeInvalid
            }
        },
        SpawnResult::Exited(None) => LaunchOutcome::RuntimeInvalid,
        SpawnResult::Failed(SpawnError::NotFound) => LaunchOutcome::RuntimeInvalid,
        SpawnResult::Failed(SpawnError::PermissionDenied) => LaunchOutcome::PermissionDenied,
        SpawnResult::Failed(SpawnError::Other(code)) => LaunchOutcome::OsError(code),
    }
}

} // verus!

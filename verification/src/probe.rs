//! The launch probe: one attempt to start the installer with one candidate
//! runtime.
//!
//! A probe runs at most two commands, one after the other. The first asks
//! the candidate for its version; only a candidate that answers with exit
//! code zero is then asked to run the installer archive. The functions here
//! say which command comes next and what the results add up to. Running the
//! commands is left to the caller.

use crate::outcome::{classify, classify_spec, LaunchOutcome, SpawnError, SpawnResult};
use vstd::prelude::*;

verus! {

/// A command line: the program to start and its arguments.
#[derive(Clone, Debug, PartialEq, Eq)]
pub struct Invocation {
    /// The program, as a path or as a bare command name.
    pub program: String,
    /// The arguments, in order.
    pub args: Vec<String>,
}

/// What an [`Invocation`] holds, as sequences of characters.
pub struct InvocationView {
    pub program: Seq<char>,
    pub args: Seq<Seq<char>>,
}

impl View for Invocation {
    type V = InvocationView;

    open spec fn view(&self) -> InvocationView {
        InvocationView { program: self.program@, args: self.args.deep_view() }
    }
}

/// The command of a probe whose result is awaited.
#[derive(Clone, Copy, Debug, PartialEq, Eq, Structural)]
pub enum ProbePhase {
    /// The version check that validates the candidate.
    Validation,
    /// The run of the installer archive.
    Launch,
}

/// How a probe goes on after a command has ended.
#[derive(Clone, Debug, PartialEq, Eq)]
pub enum ProbeStep {
    /// Run this command next and report its result in the phase
    /// [`ProbePhase::Launch`].
    Run(Invocation),
    /// The probe is over with this outcome.
    Done(LaunchOutcome),
}

/// What a [`ProbeStep`] holds, as sequences of characters.
pub enum ProbeStepView {
    Run(InvocationView),
    Done(LaunchOutcome),
}

impl View for ProbeStep {
    type V = ProbeStepView;

    open spec fn view(&self) -> ProbeStepView {
        match self {
            ProbeStep::Run(invocation) => ProbeStepView::Run(invocation@),
            ProbeStep::Done(outcome) => ProbeStepView::Done(*outcome),
        }
    }
}

/// The command `<candidate> -version`.
pub open spec fn version_check_spec(candidate: Seq<char>) -> InvocationView {
    InvocationView { program: candidate, args: seq!["-version"@] }
}

/// The command `<candidate> -jar <payload>`.
pub open spec fn jar_launch_spec(candidate: Seq<char>, payload: Seq<char>) -> InvocationView {
    InvocationView { program: candidate, args: seq!["-jar"@, payload] }
}

/// The step that follows when the command of `phase` has ended with `result`.
///
/// A version check that succeeds leads to the run of the archive. Every
/// other result ends the probe with its classification.
pub open spec fn probe_step_spec(
    phase: ProbePhase,
    result: SpawnResult,
    candidate: Seq<char>,
    payload: Seq<char>,
) -> ProbeStepView {
    if phase == ProbePhase::Validation && result.succeeded() {
        ProbeStepView::Run(jar_launch_spec(candidate, payload))
    } else {
        ProbeStepView::Done(classify_spec(result))
    }
}

/// The outcome of a whole probe whose version check ended with `validation`
/// and whose run of the archive, had it come to that, with `invocation`.
pub open spec fn probe_outcome(validation: SpawnResult, invocation: SpawnResult) -> LaunchOutcome {
    if validation.succeeded() {
        classify_spec(invocation)
    } else {
        classify_spec(validation)
    }
}

/// The command that validates `candidate`: the first command of every probe.
pub fn version_check(candidate: &str) -> (invocation: Invocation)
    ensures
        invocation@ == version_check_spec(candidate@),
{
    let mut args: Vec<String> = Vec::new();
    args.push(String::from_str("-version"));
    let invocation = Invocation { program: String::from_str(candidate), args };
    assert(invocation@.args =~= version_check_spec(candidate@).args);
    invocation
}

/// The command that runs the installer archive at `payload` with `candidate`.
pub fn jar_launch(candidate: &str, payload: &str) -> (invocation: Invocation)
    ensures
        invocation@ == jar_launch_spec(candidate@, payload@),
{
    let mut args: Vec<String> = Vec::new();
    args.push(String::from_str("-jar"));
    args.push(String::from_str(payload));
    let invocation = Invocation { program: String::from_str(candidate), args };
    assert(invocation@.args =~= jar_launch_spec(candidate@, payload@).args);
    invocation
}

/// Decides how the probe of `candidate` goes on, given that its command of
/// `phase` has ended with `result`.
pub fn probe_step(
    phase: ProbePhase,
    result: SpawnResult,
    candidate: &str,
    payload: &str,
) -> (step: ProbeStep)
    ensures
        step@ == probe_step_spec(phase, result, candidate@, payload@),
{
    match phase {
        ProbePhase::Validation => {
            if result.is_success() {
                ProbeStep::Run(jar_launch(candidate, payload))
            } else {
                ProbeStep::Done(classify(result))
            }
        },
        ProbePhase::Launch => ProbeStep::Done(classify(result)),
    }
}

/// A probe never runs more than its two commands: whatever the run of the
/// archive ends with, the probe is over, and its outcome is that of the two
/// results taken together.
pub proof fn lemma_probe_ends_after_invocation(
    validation: SpawnResult,
    invocation: SpawnResult,
    candidate: Seq<char>,
    payload: Seq<char>,
)
    ensures
        probe_step_spec(ProbePhase::Validation, validation, candidate, payload)
            is Run ==> probe_step_spec(ProbePhase::Launch, invocation, candidate, payload)
            == ProbeStepView::Done(probe_outcome(validation, invocation)),
        probe_step_spec(ProbePhase::Validation, validation, candidate, payload)
            is Done ==> probe_step_spec(ProbePhase::Validation, validation, candidate, payload)
            == ProbeStepView::Done(probe_outcome(validation, invocation)),
{
}

/// A probe succeeds only if both of its commands exited with code zero.
pub proof fn lemma_success_needs_both_commands(validation: SpawnResult, invocation: SpawnResult)
    ensures
        probe_outcome(validation, invocation) == LaunchOutcome::Success <==> validation.succeeded()
            && invocation.succeeded(),
{
}

/// A candidate whose version check exits with a code other than zero, or is
/// ended by a signal, is an invalid runtime, and the archive is not run with
/// it.
pub proof fn lemma_failed_version_check_is_runtime_invalid(
    code: Option<i32>,
    candidate: Seq<char>,
    payload: Seq<char>,
)
    requires
        code != Some(0i32),
    ensures
        probe_step_spec(ProbePhase::Validation, SpawnResult::Exited(code), candidate, payload)
            == ProbeStepView::Done(LaunchOutcome::RuntimeInvalid),
{
}

/// A command that the operating system refuses to start for want of
/// permission ends the probe as `PermissionDenied`, in either phase.
pub proof fn lemma_permission_denied_in_either_phase(
    phase: ProbePhase,
    candidate: Seq<char>,
    payload: Seq<char>,
)
    ensures
        probe_step_spec(
            phase,
            SpawnResult::Failed(SpawnError::PermissionDenied),
            candidate,
            payload,
        ) == ProbeStepView::Done(LaunchOutcome::PermissionDenied),
{
}

/// A command that is not found ends the probe as an invalid runtime, not as
/// an error of the operating system, in either phase.
pub proof fn lemma_not_found_is_runtime_invalid(
    phase: ProbePhase,
    candidate: Seq<char>,
    payload: Seq<char>,
)
    ensures
        probe_step_spec(phase, SpawnResult::Failed(SpawnError::NotFound), candidate, payload)
            == ProbeStepView::Done(LaunchOutcome::RuntimeInvalid),
{
}

} // verus!

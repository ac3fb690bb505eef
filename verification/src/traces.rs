//! What the escalation controller does over whole runs.
//!
//! The statements here are about the controller as a mathematical value
//! ([`CascadeView`]). The executable controller follows it step by step, so
//! they hold of every run that a driver can make.

use crate::cascade::{ActionView, CascadeView, EventView, State};
use crate::outcome::{classify_spec, FailureKind, LaunchOutcome, SpawnError, SpawnResult};
use crate::recovery::{
    recovery_dialog_spec, url_to_open_spec, DialogKind, DialogResponse, EXIT_FAILURE, EXIT_SUCCESS,
};
use vstd::prelude::*;

verus! {

/// The reports of a series of probes that ended with `outcomes`.
pub open spec fn probed(outcomes: Seq<LaunchOutcome>) -> Seq<EventView> {
    Seq::new(outcomes.len(), |i: int| EventView::Probed(outcomes[i]))
}

/// Whether none of `outcomes` is a success.
pub open spec fn all_failed(outcomes: Seq<LaunchOutcome>) -> bool {
    forall|i: int| 0 <= i < outcomes.len() ==> (#[trigger] outcomes[i]).failure() is Some
}

/// The requests to probe `count` runtimes, those in the places `from`,
/// `from + 1` and so on, each with the controller's archive.
pub open spec fn probes(c: CascadeView, from: int, count: nat) -> Seq<ActionView> {
    Seq::new(
        count,
        |i: int| ActionView::Probe { candidate: c.target(from + i), payload: c.payload },
    )
}

/// How many of `actions` ask for a dialog.
pub open spec fn dialogs(actions: Seq<ActionView>) -> nat
    decreases actions.len(),
{
    if actions.len() == 0 {
        0
    } else if actions.first() is Present {
        1 + dialogs(actions.drop_first())
    } else {
        dialogs(actions.drop_first())
    }
}

/// An event changes nothing but the state, and leaves the controller well
/// formed.
pub proof fn lemma_react_keeps_setup(c: CascadeView, event: EventView)
    requires
        c.wf(),
    ensures
        c.react(event).wf(),
        c.react(event) == (CascadeView { state: c.react(event).state, ..c }),
{
}

/// The controller never goes back: every event that it accepts brings it
/// strictly nearer to its end.
pub proof fn lemma_accepted_event_descends(c: CascadeView, event: EventView)
    requires
        c.wf(),
        c.accepts(event),
    ensures
        c.react(event).rank() < c.rank(),
{
}

/// The archive is written once: no event makes the controller ask for a
/// second extraction.
pub proof fn lemma_no_second_extraction(c: CascadeView, event: EventView)
    requires
        c.wf(),
        c.accepts(event),
    ensures
        !(c.action(event) is Extract),
        c.react(event).state != State::Extracting,
{
}

/// No runtime is probed before the archive is written: a controller that
/// is still extracting asks for a probe only when it is told that the
/// archive is there.
pub proof fn lemma_nothing_is_probed_before_extraction(c: CascadeView, event: EventView)
    requires
        c.state == State::Extracting,
        c.reaction(event) is Some,
        c.reaction(event)->Some_0 is Probe,
    ensures
        event == EventView::Extracted,
{
}

/// The exit code tells whether the installer was started: a run ends with
/// code zero exactly when the event that ended it was a probe's success.
pub proof fn lemma_exit_code_zero_means_launched(c: CascadeView, event: EventView)
    requires
        c.wf(),
        c.accepts(event),
        c.react(event).state is Exited,
    ensures
        c.react(event).state == State::Exited(EXIT_SUCCESS) <==> event == EventView::Probed(
            LaunchOutcome::Success,
        ),
        c.react(event).state == State::Exited(EXIT_SUCCESS) || c.react(event).state
            == State::Exited(EXIT_FAILURE),
        EXIT_SUCCESS == 0 && EXIT_FAILURE != 0,
{
}

/// A controller that has exited is at its end: it accepts no event, asks
/// for nothing and stays as it is, whatever it is told.
pub proof fn lemma_exited_is_terminal(c: CascadeView, events: Seq<EventView>)
    requires
        c.state is Exited,
    ensures
        c.run(events) == c,
        c.actions(events) == Seq::<ActionView>::empty(),
    decreases events.len(),
{
    if events.len() > 0 {
        lemma_exited_is_terminal(c, events.drop_first());
    }
}

/// Every run ends: however many events a controller with `n` candidates is
/// told, it answers at most `n + 3` of them with an action, and fewer the
/// further it has come.
pub proof fn lemma_runs_are_bounded(c: CascadeView, events: Seq<EventView>)
    requires
        c.wf(),
    ensures
        c.actions(events).len() <= c.rank(),
        c.rank() <= c.candidates.len() + 3,
        c.run(events).wf(),
    decreases events.len(),
{
    if events.len() > 0 {
        let next = c.react(events.first());
        lemma_react_keeps_setup(c, events.first());
        lemma_runs_are_bounded(next, events.drop_first());
        if c.accepts(events.first()) {
            lemma_accepted_event_descends(c, events.first());
        }
    }
}

/// The user sees one dialog at most: in no run does the controller ask for
/// a second one, and once a dialog has been asked for, or the run is over,
/// it asks for none.
pub proof fn lemma_at_most_one_dialog(c: CascadeView, events: Seq<EventView>)
    requires
        c.wf(),
    ensures
        dialogs(c.actions(events)) <= 1,
        c.state is Failed || c.state is Exited ==> dialogs(c.actions(events)) == 0,
    decreases events.len(),
{
    if events.len() > 0 {
        let next = c.react(events.first());
        let rest = next.actions(events.drop_first());
        lemma_react_keeps_setup(c, events.first());
        lemma_at_most_one_dialog(next, events.drop_first());
        match c.reaction(events.first()) {
            Some(action) => {
                let all = seq![action] + rest;
                assert(all.first() == action);
                assert(all.drop_first() =~= rest);
            },
            None => {},
        }
    }
}

/// A run of one event is one reaction.
pub proof fn lemma_run_of_one_event(c: CascadeView, event: EventView)
    ensures
        c.run(seq![event]) == c.react(event),
        c.actions(seq![event]) == (match c.reaction(event) {
            Some(action) => seq![action],
            None => Seq::empty(),
        }),
{
    let events = seq![event];
    assert(events.first() == event);
    assert(events.drop_first() =~= Seq::<EventView>::empty());
    let next = c.react(event);
    assert(next.run(events.drop_first()) == next);
    assert(next.actions(events.drop_first()) =~= Seq::<ActionView>::empty());
    match c.reaction(event) {
        Some(action) => {
            assert(seq![action] + Seq::<ActionView>::empty() =~= seq![action]);
        },
        None => {},
    }
}

/// A run can be told in two parts: the second part goes on where the first
/// part ended.
pub proof fn lemma_run_in_two_parts(c: CascadeView, first: Seq<EventView>, second: Seq<EventView>)
    ensures
        c.run(first + second) == c.run(first).run(second),
        c.actions(first + second) == c.actions(first) + c.run(first).actions(second),
    decreases first.len(),
{
    if first.len() == 0 {
        assert(first + second =~= second);
        assert(c.actions(first) + c.run(first).actions(second) =~= c.actions(second));
    } else {
        let next = c.react(first.first());
        assert((first + second).first() == first.first());
        assert((first + second).drop_first() =~= first.drop_first() + second);
        lemma_run_in_two_parts(next, first.drop_first(), second);
        let rest = next.actions(first.drop_first());
        let tail = next.run(first.drop_first()).actions(second);
        match c.reaction(first.first()) {
            Some(action) => {
                assert(seq![action] + (rest + tail) =~= (seq![action] + rest) + tail);
            },
            None => {},
        }
    }
}

/// The archive's path goes unchanged into every probe: each probe that is
/// asked for in a run is to use the path that the controller was set up
/// with.
pub proof fn lemma_every_probe_uses_the_payload(c: CascadeView, events: Seq<EventView>, i: int)
    requires
        c.wf(),
        0 <= i < c.actions(events).len(),
        c.actions(events)[i] is Probe,
    ensures
        c.actions(events)[i]->Probe_payload == c.payload,
    decreases events.len(),
{
    if events.len() > 0 {
        let next = c.react(events.first());
        lemma_react_keeps_setup(c, events.first());
        match c.reaction(events.first()) {
            Some(action) => {
                if i > 0 {
                    lemma_every_probe_uses_the_payload(next, events.drop_first(), i - 1);
                }
            },
            None => {
                lemma_every_probe_uses_the_payload(next, events.drop_first(), i);
            },
        }
    }
}

/// A candidate that fails does not end the run: whatever its failure was,
/// the next runtime is probed, and the failure leaves no other trace.
pub proof fn lemma_failed_candidate_is_followed(
    c: CascadeView,
    index: usize,
    outcome: LaunchOutcome,
)
    requires
        c.wf(),
        c.state == (State::Probing { index }),
        outcome.failure() is Some,
    ensures
        c.react(EventView::Probed(outcome)).state == c.probing(index + 1),
        !(c.react(EventView::Probed(outcome)).state is Exited),
        !(c.react(EventView::Probed(outcome)).state is Failed),
        c.reaction(EventView::Probed(outcome)) == Some(
            ActionView::Probe { candidate: c.target(index + 1), payload: c.payload },
        ),
{
}

/// A probe that succeeds ends the run at once with exit code zero, whether
/// it was a candidate's or the last resort's. Nothing is shown and no page
/// is opened.
pub proof fn lemma_success_exits(c: CascadeView)
    requires
        c.wf(),
        c.state is Probing || c.state is LastResortProbe,
    ensures
        c.react(EventView::Probed(LaunchOutcome::Success)).state == State::Exited(EXIT_SUCCESS),
        c.reaction(EventView::Probed(LaunchOutcome::Success)) == Some(
            ActionView::Exit { code: EXIT_SUCCESS, open_url: None },
        ),
{
}

/// While the runtimes fail one after the other, the controller goes through
/// them in their order, one probe for each.
///
/// A controller that probes the runtime in the place `position`, and is
/// told of as many failures as there are candidates from there on, or of
/// fewer, then probes the runtime that many places further on. In between
/// it has asked for the probes of the runtimes in between, and for nothing
/// else.
pub proof fn lemma_failures_move_on(c: CascadeView, position: int, failures: Seq<LaunchOutcome>)
    requires
        c.wf(),
        0 <= position,
        position + failures.len() <= c.candidates.len(),
        c.state == c.probing(position),
        all_failed(failures),
    ensures
        c.run(probed(failures)) == (CascadeView {
            state: c.probing(position + failures.len()),
            ..c
        }),
        c.actions(probed(failures)) == probes(c, position + 1, failures.len()),
    decreases failures.len(),
{
    let events = probed(failures);
    if failures.len() == 0 {
        assert(c.actions(events) =~= probes(c, position + 1, 0));
    } else {
        let first = EventView::Probed(failures[0]);
        assert(events.first() == first);
        assert(failures[0].failure() is Some);
        let next = c.react(first);
        assert(next == (CascadeView { state: c.probing(position + 1), ..c }));
        let rest = failures.drop_first();
        assert(events.drop_first() =~= probed(rest));
        assert(all_failed(rest)) by {
            assert forall|i: int| 0 <= i < rest.len() implies (#[trigger] rest[i]).failure()
                is Some by {
                assert(rest[i] == failures[i + 1]);
            }
        }
        lemma_failures_move_on(next, position + 1, rest);
        assert(next.probing(position + 1 + rest.len()) == c.probing(position + failures.len()));
        let head = ActionView::Probe { candidate: c.target(position + 1), payload: c.payload };
        assert(c.reaction(first) == Some(head));
        let tail = probes(next, position + 2, rest.len());
        assert(seq![head] + tail =~= probes(c, position + 1, failures.len())) by {
            assert forall|i: int| 0 <= i < failures.len() implies (seq![head] + tail)[i] == probes(
                c,
                position + 1,
                failures.len(),
            )[i] by {
                if i > 0 {
                    assert(tail[i - 1] == (ActionView::Probe {
                        candidate: next.target(position + 2 + (i - 1)),
                        payload: next.payload,
                    }));
                }
            }
        }
    }
}

/// The events of a run in which the archive is written and the probes end
/// with `outcomes`, one after the other.
pub open spec fn launch_events(outcomes: Seq<LaunchOutcome>) -> Seq<EventView> {
    seq![EventView::Extracted] + probed(outcomes)
}

/// Once the archive is written, and while the runtimes fail, the controller
/// probes them from the first on, in their order.
pub proof fn lemma_probing_starts_with_the_first(c: CascadeView, failures: Seq<LaunchOutcome>)
    requires
        c.wf(),
        c.state == State::Extracting,
        failures.len() <= c.candidates.len(),
        all_failed(failures),
    ensures
        c.run(launch_events(failures)) == (CascadeView {
            state: c.probing(failures.len() as int),
            ..c
        }),
        c.actions(launch_events(failures)) == probes(c, 0, failures.len() + 1),
{
    let start = seq![EventView::Extracted];
    let next = c.react(EventView::Extracted);
    lemma_run_of_one_event(c, EventView::Extracted);
    let first = ActionView::Probe { candidate: c.target(0), payload: c.payload };
    assert(c.actions(start) == seq![first]);
    lemma_run_in_two_parts(c, start, probed(failures));
    lemma_failures_move_on(next, 0, failures);
    assert(seq![first] + probes(next, 1, failures.len()) =~= probes(
        c,
        0,
        failures.len() + 1,
    )) by {
        assert forall|i: int| 0 <= i < failures.len() + 1 implies (seq![first] + probes(
            next,
            1,
            failures.len(),
        ))[i] == probes(c, 0, failures.len() + 1)[i] by {
            if i > 0 {
                assert(probes(next, 1, failures.len())[i - 1] == (ActionView::Probe {
                    candidate: next.target(1 + (i - 1)),
                    payload: next.payload,
                }));
            }
        }
    }
}

/// The first runtime that works ends the run, and no runtime after it is
/// probed.
///
/// Where the runtimes in the first places fail (`failures` holds their
/// outcomes, and may be empty) and the next one succeeds, the run ends
/// with exit code zero. The controller has then asked for one probe of each
/// of these runtimes, in their order, and then for the exit: as many probes
/// as there were failures, and one. No dialog is shown and no page opened.
pub proof fn lemma_first_success_ends_the_run(c: CascadeView, failures: Seq<LaunchOutcome>)
    requires
        c.wf(),
        c.state == State::Extracting,
        failures.len() <= c.candidates.len(),
        all_failed(failures),
    ensures
        c.run(launch_events(failures.push(LaunchOutcome::Success))) == (CascadeView {
            state: State::Exited(EXIT_SUCCESS),
            ..c
        }),
        c.actions(launch_events(failures.push(LaunchOutcome::Success))) == probes(
            c,
            0,
            failures.len() + 1,
        ).push(ActionView::Exit { code: EXIT_SUCCESS, open_url: None }),
{
    let before = launch_events(failures);
    let last = seq![EventView::Probed(LaunchOutcome::Success)];
    assert(launch_events(failures.push(LaunchOutcome::Success)) =~= before + last);
    lemma_probing_starts_with_the_first(c, failures);
    lemma_run_in_two_parts(c, before, last);
    let at = c.run(before);
    lemma_run_of_one_event(at, EventView::Probed(LaunchOutcome::Success));
    let exit = ActionView::Exit { code: EXIT_SUCCESS, open_url: None };
    assert(at.actions(last) == seq![exit]);
    assert(c.actions(before) + seq![exit] =~= c.actions(before).push(exit));
}

/// When every runtime has failed, the user is told of the last failure
/// alone.
///
/// Where all the candidates fail (`failures` holds their outcomes) and
/// then the Java command of the search path fails with `last`, the
/// controller has probed each of them once, in their order, and then asks
/// for the dialog of the kind of `last`. What the candidates failed with
/// plays no part.
pub proof fn lemma_exhaustion_reports_the_last_failure(
    c: CascadeView,
    failures: Seq<LaunchOutcome>,
    last: LaunchOutcome,
)
    requires
        c.wf(),
        c.state == State::Extracting,
        failures.len() == c.candidates.len(),
        all_failed(failures),
        last.failure() is Some,
    ensures
        c.run(launch_events(failures.push(last))) == (CascadeView {
            state: State::Failed(last.failure()->Some_0),
            ..c
        }),
        c.actions(launch_events(failures.push(last))) == probes(
            c,
            0,
            c.candidates.len() + 1,
        ).push(
            ActionView::Present(recovery_dialog_spec(last.failure()->Some_0, Seq::empty())),
        ),
{
    let before = launch_events(failures);
    let end = seq![EventView::Probed(last)];
    assert(launch_events(failures.push(last)) =~= before + end);
    lemma_probing_starts_with_the_first(c, failures);
    lemma_run_in_two_parts(c, before, end);
    let at = c.run(before);
    assert(at.state == State::LastResortProbe);
    lemma_run_of_one_event(at, EventView::Probed(last));
    let present = ActionView::Present(
        recovery_dialog_spec(last.failure()->Some_0, Seq::empty()),
    );
    assert(at.actions(end) == seq![present]);
    assert(c.actions(before) + seq![present] =~= c.actions(before).push(present));
}

/// With no candidate at all, a Java command that is not found on the search
/// path leaves the run failed for want of a runtime, not for an error of
/// the operating system, and the user is asked whether to open the page
/// about Java runtimes.
pub proof fn lemma_no_runtime_anywhere(c: CascadeView)
    requires
        c.wf(),
        c.state == State::Extracting,
        c.candidates.len() == 0,
    ensures
        ({
            let outcome = classify_spec(SpawnResult::Failed(SpawnError::NotFound));
            let events = launch_events(seq![outcome]);
            &&& outcome == LaunchOutcome::RuntimeInvalid
            &&& c.run(events).state == State::Failed(FailureKind::RuntimeInvalid)
            &&& c.actions(events) == seq![
                ActionView::Probe { candidate: c.java_command, payload: c.payload },
                ActionView::Present(
                    recovery_dialog_spec(FailureKind::RuntimeInvalid, Seq::empty()),
                ),
            ]
            &&& c.run(events).reaction(EventView::DialogClosed(DialogResponse::Confirmed)) == Some(
                ActionView::Exit { code: EXIT_FAILURE, open_url: Some(c.jre_help_url) },
            )
        }),
{
    let outcome = LaunchOutcome::RuntimeInvalid;
    let failures = Seq::<LaunchOutcome>::empty();
    assert(failures.push(outcome) =~= seq![outcome]);
    lemma_exhaustion_reports_the_last_failure(c, failures, outcome);
    assert(probes(c, 0, 1) =~= seq![
        ActionView::Probe { candidate: c.java_command, payload: c.payload },
    ]);
    assert(probes(c, 0, 1).push(
        ActionView::Present(recovery_dialog_spec(FailureKind::RuntimeInvalid, Seq::empty())),
    ) =~= seq![
        ActionView::Probe { candidate: c.java_command, payload: c.payload },
        ActionView::Present(recovery_dialog_spec(FailureKind::RuntimeInvalid, Seq::empty())),
    ]);
}

/// Where the last failure is one of permission, the user gets an alert and
/// nothing else: the dialog asks no question, and once it has been shown
/// the run ends with a code other than zero and no page is opened.
pub proof fn lemma_permission_denied_ends_with_an_alert(c: CascadeView, response: DialogResponse)
    requires
        c.wf(),
        c.state == State::LastResortProbe,
        response != DialogResponse::Unavailable,
    ensures
        ({
            let failed = c.react(EventView::Probed(LaunchOutcome::PermissionDenied));
            &&& failed.state == State::Failed(FailureKind::PermissionDenied)
            &&& c.reaction(EventView::Probed(LaunchOutcome::PermissionDenied)) == Some(
                ActionView::Present(
                    recovery_dialog_spec(FailureKind::PermissionDenied, Seq::empty()),
                ),
            )
            &&& recovery_dialog_spec(FailureKind::PermissionDenied, Seq::empty()).kind
                == DialogKind::Alert
            &&& failed.react(EventView::DialogClosed(response)).state == State::Exited(
                EXIT_FAILURE,
            )
            &&& failed.reaction(EventView::DialogClosed(response)) == Some(
                ActionView::Exit { code: EXIT_FAILURE, open_url: None },
            )
        }),
{
}

/// Every failure ends with a code other than zero: once the dialog is
/// answered, or could not be shown, the run is over with the failure code,
/// and the page that is opened, if any, is the one that follows from the
/// answer.
pub proof fn lemma_failure_exits_nonzero(
    c: CascadeView,
    kind: FailureKind,
    response: DialogResponse,
)
    requires
        c.state == State::Failed(kind),
    ensures
        c.react(EventView::DialogClosed(response)).state == State::Exited(EXIT_FAILURE),
        c.reaction(EventView::DialogClosed(response)) == Some(
            ActionView::Exit {
                code: EXIT_FAILURE,
                open_url: url_to_open_spec(kind, c.jre_help_url, response),
            },
        ),
        EXIT_FAILURE != 0,
{
}

/// An archive that cannot be written is fatal: no runtime is probed, the
/// user is shown an alert that says why, and the run ends with a code other
/// than zero.
pub proof fn lemma_extraction_failure_is_fatal(
    c: CascadeView,
    detail: Seq<char>,
    response: DialogResponse,
)
    requires
        c.state == State::Extracting,
    ensures
        ({
            let events = seq![
                EventView::ExtractionFailed(detail),
                EventView::DialogClosed(response),
            ];
            &&& c.run(events).state == State::Exited(EXIT_FAILURE)
            &&& c.actions(events) == seq![
                ActionView::Present(recovery_dialog_spec(FailureKind::ExtractionFailure, detail)),
                ActionView::Exit {
                    code: EXIT_FAILURE,
                    open_url: url_to_open_spec(
                        FailureKind::ExtractionFailure,
                        c.jre_help_url,
                        response,
                    ),
                },
            ]
            &&& recovery_dialog_spec(FailureKind::ExtractionFailure, detail).kind
                == DialogKind::Alert
        }),
{
    let events = seq![EventView::ExtractionFailed(detail), EventView::DialogClosed(response)];
    let failed = c.react(events.first());
    let rest = events.drop_first();
    assert(rest =~= seq![EventView::DialogClosed(response)]);
    lemma_run_of_one_event(failed, EventView::DialogClosed(response));
    let exit = ActionView::Exit {
        code: EXIT_FAILURE,
        open_url: url_to_open_spec(FailureKind::ExtractionFailure, c.jre_help_url, response),
    };
    assert(failed.actions(rest) == seq![exit]);
    assert(c.actions(events) =~= seq![
        ActionView::Present(recovery_dialog_spec(FailureKind::ExtractionFailure, detail)),
        exit,
    ]);
}

} // verus!

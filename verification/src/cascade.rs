//! The escalation controller: the order in which the runtimes are tried,
//! and what happens when none of them works.
//!
//! The controller is a state machine. It is told what happened (the
//! archive was written, a probe ended, a dialog was closed) and answers with
//! what to do next. It starts with the extraction of the archive, goes
//! through the candidates one at a time, tries the Java command of the
//! search path last, and ends either with a successful launch or with one
//! dialog about the last failure. It never goes back, and it never asks for
//! a second probe before the first has ended.

use crate::outcome::{FailureKind, LaunchOutcome};
use crate::recovery::{
    recovery_dialog, recovery_dialog_spec, text_view, url_to_open, url_to_open_spec, Dialog,
    DialogResponse, DialogView, EXIT_FAILURE, EXIT_SUCCESS,
};
use vstd::prelude::*;

verus! {

/// Where the controller stands.
#[derive(Clone, Copy, Debug, PartialEq, Eq, Structural)]
pub enum State {
    /// The installer archive is being written to disk.
    Extracting,
    /// The candidate at `index` is being probed. The candidates before it
    /// have failed, and those after it are still to be tried.
    Probing { index: usize },
    /// The Java command of the search path is being probed.
    LastResortProbe,
    /// Everything has failed, and the dialog about it is open.
    Failed(FailureKind),
    /// The run is over with this exit code.
    Exited(i32),
}

/// What the driver reports to the controller.
#[derive(Clone, Debug, PartialEq, Eq)]
pub enum Event {
    /// The installer archive has been written.
    Extracted,
    /// The installer archive could not be written. The text describes the
    /// error.
    ExtractionFailed(String),
    /// The probe that was asked for has ended with this outcome.
    Probed(LaunchOutcome),
    /// The dialog that was asked for has been answered.
    DialogClosed(DialogResponse),
}

/// What an [`Event`] holds, as sequences of characters.
pub enum EventView {
    Extracted,
    ExtractionFailed(Seq<char>),
    Probed(LaunchOutcome),
    DialogClosed(DialogResponse),
}

impl View for Event {
    type V = EventView;

    open spec fn view(&self) -> EventView {
        match self {
            Event::Extracted => EventView::Extracted,
            Event::ExtractionFailed(detail) => EventView::ExtractionFailed(detail@),
            Event::Probed(outcome) => EventView::Probed(*outcome),
            Event::DialogClosed(response) => EventView::DialogClosed(*response),
        }
    }
}

/// What the controller asks the driver to do.
#[derive(Clone, Debug, PartialEq, Eq)]
pub enum Action {
    /// Write the installer archive to `payload`, then report
    /// [`Event::Extracted`] or [`Event::ExtractionFailed`].
    Extract { payload: String },
    /// Probe `candidate` with the archive at `payload`, then report
    /// [`Event::Probed`].
    Probe { candidate: String, payload: String },
    /// Show this dialog, then report [`Event::DialogClosed`].
    Present(Dialog),
    /// Open the page at `open_url`, if there is one, and end the process
    /// with `code`.
    Exit { code: i32, open_url: Option<String> },
}

/// What an [`Action`] holds, as sequences of characters.
pub enum ActionView {
    Extract { payload: Seq<char> },
    Probe { candidate: Seq<char>, payload: Seq<char> },
    Present(DialogView),
    Exit { code: i32, open_url: Option<Seq<char>> },
}

impl View for Action {
    type V = ActionView;

    open spec fn view(&self) -> ActionView {
        match self {
            Action::Extract { payload } => ActionView::Extract { payload: payload@ },
            Action::Probe { candidate, payload } => ActionView::Probe {
                candidate: candidate@,
                payload: payload@,
            },
            Action::Present(dialog) => ActionView::Present(dialog@),
            Action::Exit { code, open_url } => ActionView::Exit {
                code: *code,
                open_url: text_view(*open_url),
            },
        }
    }
}

/// The controller as a mathematical value: what it was set up with, and
/// its state.
pub struct CascadeView {
    /// The candidates, in the order in which they are tried.
    pub candidates: Seq<Seq<char>>,
    /// The Java command of the search path, which is tried last.
    pub java_command: Seq<char>,
    /// The platform's page about Java runtimes.
    pub jre_help_url: Seq<char>,
    /// The path of the installer archive.
    pub payload: Seq<char>,
    pub state: State,
}

impl CascadeView {
    /// The controller as it is set up, before anything has happened.
    pub open spec fn initial(
        payload: Seq<char>,
        candidates: Seq<Seq<char>>,
        java_command: Seq<char>,
        jre_help_url: Seq<char>,
    ) -> CascadeView {
        CascadeView { candidates, java_command, jre_help_url, payload, state: State::Extracting }
    }

    /// The candidates can be counted by a machine, and a candidate that is
    /// being probed is one of them.
    pub open spec fn wf(self) -> bool {
        &&& self.candidates.len() <= usize::MAX
        &&& self.state matches State::Probing { index } ==> index < self.candidates.len()
    }

    /// The runtime that is tried in the `position`-th place: the candidates
    /// in their order, and the Java command of the search path after the
    /// last of them.
    pub open spec fn target(self, position: int) -> Seq<char> {
        if 0 <= position < self.candidates.len() {
            self.candidates[position]
        } else {
            self.java_command
        }
    }

    /// The state in which the runtime in the `position`-th place is probed.
    pub open spec fn probing(self, position: int) -> State {
        if 0 <= position < self.candidates.len() {
            State::Probing { index: position as usize }
        } else {
            State::LastResortProbe
        }
    }

    /// Whether `event` is what the controller waits for in its state. A
    /// controller that has exited waits for nothing.
    pub open spec fn accepts(self, event: EventView) -> bool {
        match self.state {
            State::Extracting => event is Extracted || event is ExtractionFailed,
            State::Probing { .. } => event is Probed,
            State::LastResortProbe => event is Probed,
            State::Failed(_) => event is DialogClosed,
            State::Exited(_) => false,
        }
    }

    /// The state that follows on `event`.
    ///
    /// Once the archive is written the first runtime is probed. A probe that
    /// succeeds ends the run with code zero. A candidate that fails is
    /// followed by the next runtime, and its failure is forgotten. The
    /// failure of the last-resort probe is the failure that the user is
    /// told of. Closing the dialog ends the run with a code other than zero.
    pub open spec fn next_state(self, event: EventView) -> State {
        match (self.state, event) {
            (State::Extracting, EventView::Extracted) => self.probing(0),
            (State::Extracting, EventView::ExtractionFailed(_)) => State::Failed(
                FailureKind::ExtractionFailure,
            ),
            (State::Probing { index }, EventView::Probed(outcome)) => match outcome.failure() {
                None => State::Exited(EXIT_SUCCESS),
                Some(_) => self.probing(index + 1),
            },
            (State::LastResortProbe, EventView::Probed(outcome)) => match outcome.failure() {
                None => State::Exited(EXIT_SUCCESS),
                Some(kind) => State::Failed(kind),
            },
            (State::Failed(_), EventView::DialogClosed(_)) => State::Exited(EXIT_FAILURE),
            _ => self.state,
        }
    }

    /// What the driver is asked to do when `event` has been accepted.
    pub open spec fn action(self, event: EventView) -> ActionView {
        match self.next_state(event) {
            State::Extracting => ActionView::Extract { payload: self.payload },
            State::Probing { index } => ActionView::Probe {
                candidate: self.target(index as int),
                payload: self.payload,
            },
            State::LastResortProbe => ActionView::Probe {
                candidate: self.java_command,
                payload: self.payload,
            },
            State::Failed(kind) => ActionView::Present(
                recovery_dialog_spec(
                    kind,
                    match event {
                        EventView::ExtractionFailed(detail) => detail,
                        _ => Seq::empty(),
                    },
                ),
            ),
            State::Exited(code) => ActionView::Exit {
                code,
                open_url: match (self.state, event) {
                    (State::Failed(kind), EventView::DialogClosed(response)) => url_to_open_spec(
                        kind,
                        self.jre_help_url,
                        response,
                    ),
                    _ => None,
                },
            },
        }
    }

    /// The controller after `event`: in the next state where it accepts the
    /// event, and unchanged where it does not.
    pub open spec fn react(self, event: EventView) -> CascadeView {
        if self.accepts(event) {
            CascadeView { state: self.next_state(event), ..self }
        } else {
            self
        }
    }

    /// What the controller asks for on `event`: one action where it accepts
    /// the event, and nothing where it does not.
    pub open spec fn reaction(self, event: EventView) -> Option<ActionView> {
        if self.accepts(event) {
            Some(self.action(event))
        } else {
            None
        }
    }

    /// How many events the controller can still accept at most.
    pub open spec fn rank(self) -> nat {
        match self.state {
            State::Extracting => self.candidates.len() + 3,
            State::Probing { index } => (self.candidates.len() - index + 2) as nat,
            State::LastResortProbe => 2,
            State::Failed(_) => 1,
            State::Exited(_) => 0,
        }
    }

    /// The controller after a series of events.
    pub open spec fn run(self, events: Seq<EventView>) -> CascadeView
        decreases events.len(),
    {
        if events.len() == 0 {
            self
        } else {
            self.react(events.first()).run(events.drop_first())
        }
    }

    /// The actions that the controller asks for in the course of a series
    /// of events, in their order.
    pub open spec fn actions(self, events: Seq<EventView>) -> Seq<ActionView>
        decreases events.len(),
    {
        if events.len() == 0 {
            Seq::empty()
        } else {
            let rest = self.react(events.first()).actions(events.drop_first());
            match self.reaction(events.first()) {
                Some(action) => seq![action] + rest,
                None => rest,
            }
        }
    }
}

/// The escalation controller.
///
/// A controller is made with [`Cascade::new`] and driven with
/// [`Cascade::step`]. What it was set up with never changes; only its state
/// does. Its mathematical value is a [`CascadeView`] that is well formed.
#[derive(Debug)]
pub struct Cascade {
    candidates: Vec<String>,
    java_command: String,
    jre_help_url: String,
    payload: String,
    state: State,
}

impl View for Cascade {
    type V = CascadeView;

    closed spec fn view(&self) -> CascadeView {
        CascadeView {
            candidates: self.candidates.deep_view(),
            java_command: self.java_command@,
            jre_help_url: self.jre_help_url@,
            payload: self.payload@,
            state: self.state,
        }
    }
}

impl Cascade {
    #[verifier::type_invariant]
    spec fn inv(self) -> bool {
        self@.wf()
    }

    /// Sets up a controller for the archive at `payload`, with the
    /// candidates in the order in which they are to be tried, the Java
    /// command of the search path and the platform's page about Java
    /// runtimes.
    pub fn new(
        payload: String,
        candidates: Vec<String>,
        java_command: &str,
        jre_help_url: &str,
    ) -> (cascade: Cascade)
        ensures
            cascade@ == CascadeView::initial(
                payload@,
                candidates.deep_view(),
                java_command@,
                jre_help_url@,
            ),
            cascade@.wf(),
    {
        assert(candidates.deep_view().len() == candidates.len());
        Cascade {
            candidates,
            java_command: String::from_str(java_command),
            jre_help_url: String::from_str(jre_help_url),
            payload,
            state: State::Extracting,
        }
    }

    /// The state of the controller.
    pub fn state(&self) -> (state: State)
        ensures
            state == self@.state,
            self@.wf(),
    {
        proof {
            use_type_invariant(self);
        }
        self.state
    }

    /// The first thing to do: write the installer archive.
    pub fn begin(&self) -> (action: Action)
        ensures
            action@ == (ActionView::Extract { payload: self@.payload }),
    {
        Action::Extract { payload: self.payload.clone() }
    }

    /// Takes in what has happened and says what to do next.
    ///
    /// An event that the controller does not wait for in its state changes
    /// nothing and is answered with `None`.
    pub fn step(&mut self, event: Event) -> (action: Option<Action>)
        ensures
            final(self)@ == old(self)@.react(event@),
            action_view(action) == old(self)@.reaction(event@),
            final(self)@.wf(),
    {
        proof {
            use_type_invariant(&*self);
        }
        match (self.state, event) {
            (State::Extracting, Event::Extracted) => Some(self.probe(0)),
            (State::Extracting, Event::ExtractionFailed(detail)) => {
                self.state = State::Failed(FailureKind::ExtractionFailure);
                Some(
                    Action::Present(
                        recovery_dialog(FailureKind::ExtractionFailure, detail.as_str()),
                    ),
                )
            },
            (State::Probing { index }, Event::Probed(outcome)) => match outcome.failure_kind() {
                None => Some(self.exit_after_launch()),
                Some(_) => {
                    assert(index < self.candidates.len());
                    Some(self.probe(index + 1))
                },
            },
            (State::LastResortProbe, Event::Probed(outcome)) => match outcome.failure_kind() {
                None => Some(self.exit_after_launch()),
                Some(kind) => {
                    self.state = State::Failed(kind);
                    Some(Action::Present(recovery_dialog(kind, "")))
                },
            },
            (State::Failed(kind), Event::DialogClosed(response)) => {
                let open_url = url_to_open(kind, self.jre_help_url.as_str(), response);
                self.state = State::Exited(EXIT_FAILURE);
                Some(Action::Exit { code: EXIT_FAILURE, open_url })
            },
            _ => None,
        }
    }

    /// Moves on to the probe of the runtime in the `position`-th place.
    fn probe(&mut self, position: usize) -> (action: Action)
        requires
            position <= old(self)@.candidates.len(),
        ensures
            final(self)@ == (CascadeView {
                state: old(self)@.probing(position as int),
                ..old(self)@
            }),
            action@ == (ActionView::Probe {
                candidate: old(self)@.target(position as int),
                payload: old(self)@.payload,
            }),
            final(self)@.wf(),
    {
        if position < self.candidates.len() {
            self.state = State::Probing { index: position };
            Action::Probe {
                candidate: self.candidates[position].clone(),
                payload: self.payload.clone(),
            }
        } else {
            self.state = State::LastResortProbe;
            Action::Probe { candidate: self.java_command.clone(), payload: self.payload.clone() }
        }
    }

    /// Ends the run after a probe that succeeded.
    fn exit_after_launch(&mut self) -> (action: Action)
        ensures
            final(self)@ == (CascadeView { state: State::Exited(EXIT_SUCCESS), ..old(self)@ }),
            action@ == (ActionView::Exit { code: EXIT_SUCCESS, open_url: None }),
            final(self)@.wf(),
    {
        proof {
            use_type_invariant(&*self);
        }
        self.state = State::Exited(EXIT_SUCCESS);
        Action::Exit { code: EXIT_SUCCESS, open_url: None }
    }
}

/// The view of an action that may be absent.
pub open spec fn action_view(action: Option<Action>) -> Option<ActionView> {
    match action {
        Some(a) => Some(a@),
        None => None,
    }
}

} // verus!

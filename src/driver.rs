use vstd::prelude::*;

use crate::errors::ClientError;
use crate::settings::ClientSettings;

verus! {

/// The six steps of a run, in the only order in which they are attempted.
#[derive(Debug, Clone, Copy, PartialEq, Eq, Structural)]
pub enum Step {
    /// Bind a local endpoint.
    Bind,
    /// Construct the transport context and start a session to the server.
    Initiate,
    /// Wait for the secure session to be established.
    AwaitSession,
    /// Open one bidirectional stream on the session.
    OpenStream,
    /// Write the payload on the outbound half of the stream.
    Write,
    /// Finish the outbound half.
    Finish,
}

/// What came of the operation of the pending step.
#[derive(Debug, Clone, Copy, PartialEq, Eq, Structural)]
pub enum Event {
    /// The operation completed.
    Succeeded,
    /// The local transport context could not be constructed.
    ContextFailed,
    /// The operation failed.
    Failed,
}

/// Where a run stands. Every state but `Done` and `Failed` has exactly one
/// pending step; those two are terminal.
#[derive(Debug, Clone, Copy, PartialEq, Eq, Structural)]
pub enum DriverState {
    /// Nothing done yet; binding is pending.
    Unbound,
    /// A local endpoint is bound; session initiation is pending.
    Bound,
    /// The session was initiated; its establishment is awaited.
    SessionPending,
    /// The session is established; opening a stream is pending.
    SessionEstablished,
    /// The stream is open; the payload write is pending.
    StreamOpen,
    /// The payload was written; finishing the outbound half is pending.
    PayloadWritten,
    /// Every step succeeded.
    Done,
    /// A step failed with this kind; nothing more is attempted.
    Failed(ClientError),
}

/// The steps of a complete run.
pub open spec fn step_order() -> Seq<Step> {
    seq![Step::Bind, Step::Initiate, Step::AwaitSession, Step::OpenStream, Step::Write, Step::Finish]
}

/// The step that a state waits on, if any.
pub open spec fn pending_step(s: DriverState) -> Option<Step> {
    match s {
        DriverState::Unbound => Some(Step::Bind),
        DriverState::Bound => Some(Step::Initiate),
        DriverState::SessionPending => Some(Step::AwaitSession),
        DriverState::SessionEstablished => Some(Step::OpenStream),
        DriverState::StreamOpen => Some(Step::Write),
        DriverState::PayloadWritten => Some(Step::Finish),
        _ => None,
    }
}

/// The state reached when a step succeeds.
pub open spec fn state_after(step: Step) -> DriverState {
    match step {
        Step::Bind => DriverState::Bound,
        Step::Initiate => DriverState::SessionPending,
        Step::AwaitSession => DriverState::SessionEstablished,
        Step::OpenStream => DriverState::StreamOpen,
        Step::Write => DriverState::PayloadWritten,
        Step::Finish => DriverState::Done,
    }
}

/// The kind reported when a step fails. Only session initiation tells the
/// failure to construct the transport context from a failed attempt.
pub open spec fn failure_kind(step: Step, ev: Event) -> ClientError {
    match step {
        Step::Bind => ClientError::QuicError,
        Step::Initiate => if ev == Event::ContextFailed {
            ClientError::QuicError
        } else {
            ClientError::LocallyClosed
        },
        Step::AwaitSession => ClientError::TimeOut,
        Step::OpenStream => ClientError::StreamOpeningError,
        Step::Write => ClientError::TimeOut,
        Step::Finish => ClientError::TimeOut,
    }
}

/// One transition: the pending step succeeds or fails; a terminal state
/// ignores every event.
pub open spec fn next_state(s: DriverState, ev: Event) -> DriverState {
    match pending_step(s) {
        Some(step) => if ev == Event::Succeeded {
            state_after(step)
        } else {
            DriverState::Failed(failure_kind(step, ev))
        },
        None => s,
    }
}

/// The result of a run that has ended; `None` while a step is pending.
pub open spec fn outcome_of(s: DriverState) -> Option<Result<(), ClientError>> {
    match s {
        DriverState::Done => Some(Ok(())),
        DriverState::Failed(e) => Some(Err(e)),
        _ => None,
    }
}

/// The state of a run that has been handed these events, from `Unbound`.
pub open spec fn run_state(events: Seq<Event>) -> DriverState
    decreases events.len(),
{
    if events.len() == 0 {
        DriverState::Unbound
    } else {
        next_state(run_state(events.drop_last()), events.last())
    }
}

/// The steps a run has attempted after these events: one for each event
/// that arrived while a step was pending.
pub open spec fn run_attempted(events: Seq<Event>) -> Seq<Step>
    decreases events.len(),
{
    if events.len() == 0 {
        Seq::empty()
    } else {
        let prev = events.drop_last();
        match pending_step(run_state(prev)) {
            Some(step) => run_attempted(prev).push(step),
            None => run_attempted(prev),
        }
    }
}

impl Step {
    /// The kind reported when this step fails with `ev`.
    pub fn failure_kind(&self, ev: Event) -> (r: ClientError)
        ensures
            r == failure_kind(*self, ev),
    {
        match self {
            Step::Bind => ClientError::QuicError,
            Step::Initiate => match ev {
                Event::ContextFailed => ClientError::QuicError,
                _ => ClientError::LocallyClosed,
            },
            Step::AwaitSession => ClientError::TimeOut,
            Step::OpenStream => ClientError::StreamOpeningError,
            Step::Write => ClientError::TimeOut,
            Step::Finish => ClientError::TimeOut,
        }
    }

    /// The state reached when this step succeeds.
    pub fn state_after(&self) -> (r: DriverState)
        ensures
            r == state_after(*self),
    {
        match self {
            Step::Bind => DriverState::Bound,
            Step::Initiate => DriverState::SessionPending,
            Step::AwaitSession => DriverState::SessionEstablished,
            Step::OpenStream => DriverState::StreamOpen,
            Step::Write => DriverState::PayloadWritten,
            Step::Finish => DriverState::Done,
        }
    }
}

impl DriverState {
    /// The step this state waits on; `None` once the run has ended.
    pub fn pending_step(&self) -> (r: Option<Step>)
        ensures
            r == pending_step(*self),
    {
        match self {
            DriverState::Unbound => Some(Step::Bind),
            DriverState::Bound => Some(Step::Initiate),
            DriverState::SessionPending => Some(Step::AwaitSession),
            DriverState::SessionEstablished => Some(Step::OpenStream),
            DriverState::StreamOpen => Some(Step::Write),
            DriverState::PayloadWritten => Some(Step::Finish),
            _ => None,
        }
    }

    /// The state that follows `ev`.
    pub fn next(&self, ev: Event) -> (r: DriverState)
        ensures
            r == next_state(*self, ev),
    {
        match self.pending_step() {
            Some(step) => match ev {
                Event::Succeeded => step.state_after(),
                _ => DriverState::Failed(step.failure_kind(ev)),
            },
            None => *self,
        }
    }

    /// The result of the run, once it has ended.
    pub fn outcome(&self) -> (r: Option<Result<(), ClientError>>)
        ensures
            r == outcome_of(*self),
    {
        match self {
            DriverState::Done => Some(Ok(())),
            DriverState::Failed(e) => Some(Err(*e)),
            _ => None,
        }
    }
}

/// What a driver holds, seen from the outside: its state, the steps it has
/// attempted, and every event it has been handed.
pub struct DriverView {
    pub state: DriverState,
    pub attempted: Seq<Step>,
    pub events: Seq<Event>,
}

/// Runs the session lifecycle one step at a time. The caller asks for the
/// pending step, performs it, and hands back the event; the driver decides
/// what comes next and what the run reports.
pub struct SessionDriver {
    settings: ClientSettings,
    state: DriverState,
    attempted: Vec<Step>,
    events: Ghost<Seq<Event>>,
}

impl View for SessionDriver {
    type V = DriverView;

    closed spec fn view(&self) -> DriverView {
        DriverView { state: self.state, attempted: self.attempted@, events: self.events@ }
    }
}

impl SessionDriver {
    /// The driver's state and attempted steps are those of a run handed its
    /// events.
    pub open spec fn wf(&self) -> bool {
        &&& self@.state == run_state(self@.events)
        &&& self@.attempted == run_attempted(self@.events)
    }

    /// The configuration the driver was made with.
    pub closed spec fn spec_settings(&self) -> ClientSettings {
        self.settings
    }

    /// A fresh driver: nothing attempted yet, binding pending.
    pub fn new(settings: ClientSettings) -> (r: SessionDriver)
        ensures
            r.wf(),
            r@.state == DriverState::Unbound,
            r@.attempted == Seq::<Step>::empty(),
            r@.events == Seq::<Event>::empty(),
            r.spec_settings() == settings,
    {
        SessionDriver {
            settings,
            state: DriverState::Unbound,
            attempted: Vec::new(),
            events: Ghost(Seq::empty()),
        }
    }

    /// The configuration the driver was made with.
    pub fn settings(&self) -> (r: &ClientSettings)
        ensures
            *r == self.spec_settings(),
    {
        &self.settings
    }

    /// The current state.
    pub fn state(&self) -> (r: DriverState)
        ensures
            r == self@.state,
    {
        self.state
    }

    /// The steps attempted so far, in order.
    pub fn attempted(&self) -> (r: &Vec<Step>)
        ensures
            r@ == self@.attempted,
    {
        &self.attempted
    }

    /// The step to perform next; `None` once the run has ended.
    pub fn next_step(&self) -> (r: Option<Step>)
        ensures
            r == pending_step(self@.state),
    {
        self.state.pending_step()
    }

    /// The result of the run: `None` while a step is pending, then `Ok` when
    /// every step succeeded or the kind of the first failure.
    pub fn outcome(&self) -> (r: Option<Result<(), ClientError>>)
        ensures
            r == outcome_of(self@.state),
    {
        self.state.outcome()
    }

    /// Hands the driver what came of its pending step. The step counts as
    /// attempted; once the run has ended the event changes nothing.
    pub fn advance(&mut self, ev: Event)
        ensures
            final(self)@.events == old(self)@.events.push(ev),
            final(self)@.state == next_state(old(self)@.state, ev),
            final(self)@.attempted == (match pending_step(old(self)@.state) {
                Some(step) => old(self)@.attempted.push(step),
                None => old(self)@.attempted,
            }),
            final(self).spec_settings() == old(self).spec_settings(),
            old(self).wf() ==> final(self).wf(),
    {
        match self.state.pending_step() {
            Some(step) => {
                self.attempted.push(step);
            },
            None => {},
        }
        self.state = self.state.next(ev);
        let ghost prev = self.events@;
        self.events = Ghost(prev.push(ev));
        proof {
            assert(self.events@.drop_last() =~= prev);
        }
    }
}

} // verus!

//! The broker: the state it keeps for one worker, and the step it takes
//! for each thing its driver reports.
//!
//! One call is a short conversation between the driver and the broker.
//! The driver reports something (`Input`), the broker answers with what
//! to do next (`Action`):
//!
//! ```text
//! Begin(request)  ->  Spawn            when no worker is held
//!                 ->  Write(line)      when one is
//! Spawned(Ok(w))  ->  Write(line)
//! Spawned(Err(e)) ->  Done(Err(SpawnFailure(e)))
//! Wrote(Ok(()))   ->  Await
//! Wrote(Err(e))   ->  Done(Err(WriteFailure(e)))
//! Event(..)       ->  Await, or Done(..)
//! ```
//!
//! The driver holds the broker exclusively from `Begin` to `Done`, which
//! is what keeps two calls from sharing the worker's streams.

use vstd::prelude::*;
use crate::codec::{decode_line, decode_reply, frame_request, reply_view, request_line};
use crate::error::{BrokerError, Failure};
use crate::event::{EventView, WorkerEvent};

verus! {

/// Where the broker stands in the current call.
#[derive(Clone, Copy, Debug, PartialEq, Eq, Structural)]
pub enum Phase {
    /// No call is under way.
    Idle,
    /// The driver was asked to start a worker.
    Spawning,
    /// The driver was asked to write the request line.
    Writing,
    /// The driver was asked for the worker's next event.
    Awaiting,
}

/// What the driver reports to the broker. `S` is the driver's handle on a
/// running worker; the broker stores it and never looks inside.
#[derive(Debug)]
pub enum Input<S> {
    /// A caller wants this request answered.
    Begin(String),
    /// How starting the worker went.
    Spawned(Result<S, String>),
    /// How writing the request line went.
    Wrote(Result<(), String>),
    /// The worker's next event, or `None` when its output has ended.
    Event(Option<WorkerEvent>),
}

/// What the broker asks of the driver.
#[derive(Debug, PartialEq, Eq)]
pub enum Action {
    /// Start a worker and report `Input::Spawned`.
    Spawn,
    /// Write these bytes to the worker's input and report `Input::Wrote`.
    Write(Vec<u8>),
    /// Wait for the worker's next event and report `Input::Event`.
    Await,
    /// The call is over: hand this to the caller.
    Done(Result<String, BrokerError>),
}

/// The mathematical content of an `Input`.
pub enum InputView<S> {
    Begin(Seq<char>),
    Spawned(Result<S, Seq<char>>),
    Wrote(Result<(), Seq<char>>),
    Event(Option<EventView>),
}

/// The mathematical content of an `Action`.
pub enum ActionView {
    Spawn,
    Write(Seq<u8>),
    Await,
    Done(Result<Seq<char>, Failure>),
}

/// The mathematical content of a result whose error is text.
pub open spec fn outcome_view<T>(outcome: Result<T, String>) -> Result<T, Seq<char>> {
    match outcome {
        Ok(value) => Ok(value),
        Err(why) => Err(why@),
    }
}

/// The mathematical content of an event that may be missing.
pub open spec fn event_view(event: Option<WorkerEvent>) -> Option<EventView> {
    match event {
        Some(e) => Some(e@),
        None => None,
    }
}

impl<S> View for Input<S> {
    type V = InputView<S>;

    open spec fn view(&self) -> InputView<S> {
        match self {
            Input::Begin(payload) => InputView::Begin(payload@),
            Input::Spawned(outcome) => InputView::Spawned(outcome_view(*outcome)),
            Input::Wrote(outcome) => InputView::Wrote(outcome_view(*outcome)),
            Input::Event(event) => InputView::Event(event_view(*event)),
        }
    }
}

impl View for Action {
    type V = ActionView;

    open spec fn view(&self) -> ActionView {
        match self {
            Action::Spawn => ActionView::Spawn,
            Action::Write(line) => ActionView::Write(line@),
            Action::Await => ActionView::Await,
            Action::Done(reply) => ActionView::Done(reply_view(*reply)),
        }
    }
}

/// The broker as a mathematical value: the worker it holds, where it
/// stands in the current call, and the request line that waits for a
/// worker to be started.
pub struct BrokerState<S> {
    pub session: Option<S>,
    pub phase: Phase,
    pub pending: Seq<u8>,
}

impl<S> BrokerState<S> {
    /// The broker as it is created: no worker, no call.
    pub open spec fn fresh() -> Self {
        BrokerState { session: None, phase: Phase::Idle, pending: Seq::empty() }
    }

    /// The states a broker can be in: a worker is held while it is written
    /// to or waited for, none is held while one is being started, and a
    /// request line waits only while a worker is being started.
    pub open spec fn wf(self) -> bool {
        &&& self.phase is Spawning ==> self.session is None
        &&& self.phase is Writing || self.phase is Awaiting ==> self.session is Some
        &&& !(self.phase is Spawning) ==> self.pending == Seq::<u8>::empty()
    }

    /// A caller enters with `payload`. A held worker is reused; without
    /// one, the request line is kept while a worker is started.
    pub open spec fn begin(self, payload: Seq<char>) -> (Self, ActionView) {
        if self.session is Some {
            (
                BrokerState { phase: Phase::Writing, ..self },
                ActionView::Write(request_line(payload)),
            )
        } else {
            (
                BrokerState { phase: Phase::Spawning, pending: request_line(payload), ..self },
                ActionView::Spawn,
            )
        }
    }

    /// The driver reports how starting the worker went. A started worker
    /// is kept and the waiting request line goes out to it; a failure ends
    /// the call and leaves the broker without a worker.
    pub open spec fn spawned(self, outcome: Result<S, Seq<char>>) -> (Self, ActionView) {
        match outcome {
            Ok(handle) => (
                BrokerState { session: Some(handle), phase: Phase::Writing, pending: Seq::empty() },
                ActionView::Write(self.pending),
            ),
            Err(why) => (
                BrokerState { session: None, phase: Phase::Idle, pending: Seq::empty() },
                ActionView::Done(Err(Failure::Spawn(why))),
            ),
        }
    }

    /// The driver reports how writing the request line went. A failure
    /// ends the call; the worker is kept.
    pub open spec fn wrote(self, outcome: Result<(), Seq<char>>) -> (Self, ActionView) {
        match outcome {
            Ok(_) => (BrokerState { phase: Phase::Awaiting, ..self }, ActionView::Await),
            Err(why) => (
                BrokerState { phase: Phase::Idle, ..self },
                ActionView::Done(Err(Failure::Write(why))),
            ),
        }
    }

    /// The driver reports the worker's next event. An output line is the
    /// response. The end of the process, or of its output, ends the call
    /// and drops the worker. Anything else is passed over.
    pub open spec fn observed(self, event: Option<EventView>) -> (Self, ActionView) {
        match event {
            Some(EventView::OutputLine(bytes)) => (
                BrokerState { phase: Phase::Idle, ..self },
                ActionView::Done(decode_reply(bytes)),
            ),
            Some(EventView::Terminated(_)) => (
                BrokerState { session: None, phase: Phase::Idle, ..self },
                ActionView::Done(Err(Failure::Terminated)),
            ),
            Some(_) => (self, ActionView::Await),
            None => (
                BrokerState { session: None, phase: Phase::Idle, ..self },
                ActionView::Done(Err(Failure::NoResponse)),
            ),
        }
    }

    /// The driver gives up on the call under way. The broker is ready for
    /// the next call; a worker that is held stays.
    pub open spec fn abandoned(self) -> Self {
        BrokerState { phase: Phase::Idle, pending: Seq::empty(), ..self }
    }

    /// Whether `input` is what the broker waits for.
    pub open spec fn accepts(self, input: InputView<S>) -> bool {
        match input {
            InputView::Begin(_) => self.phase is Idle,
            InputView::Spawned(_) => self.phase is Spawning,
            InputView::Wrote(_) => self.phase is Writing,
            InputView::Event(_) => self.phase is Awaiting,
        }
    }

    /// The broker's whole behaviour: the state after `input`, and what
    /// the driver is asked to do.
    pub open spec fn step(self, input: InputView<S>) -> (Self, ActionView) {
        match input {
            InputView::Begin(payload) => self.begin(payload),
            InputView::Spawned(outcome) => self.spawned(outcome),
            InputView::Wrote(outcome) => self.wrote(outcome),
            InputView::Event(event) => self.observed(event),
        }
    }
}

/// The broker for one worker. `S` is the driver's handle on a running
/// worker.
pub struct Broker<S> {
    session: Option<S>,
    phase: Phase,
    pending: Vec<u8>,
}

impl<S> View for Broker<S> {
    type V = BrokerState<S>;

    closed spec fn view(&self) -> BrokerState<S> {
        BrokerState { session: self.session, phase: self.phase, pending: self.pending@ }
    }
}

impl<S> Broker<S> {
    /// A broker that holds no worker. None is started before the first
    /// call.
    pub fn new() -> (broker: Self)
        ensures
            broker@ == BrokerState::<S>::fresh(),
            broker@.wf(),
    {
        Broker { session: None, phase: Phase::Idle, pending: Vec::new() }
    }

    /// Where the broker stands in the current call.
    pub fn phase(&self) -> (phase: Phase)
        ensures
            phase == self@.phase,
    {
        self.phase
    }

    /// Whether a worker is held.
    pub fn has_session(&self) -> (held: bool)
        ensures
            held == (self@.session is Some),
    {
        self.session.is_some()
    }

    /// The worker that is held, if any.
    pub fn session(&self) -> (handle: Option<&S>)
        ensures
            match handle {
                Some(h) => self@.session == Some(*h),
                None => self@.session is None,
            },
    {
        self.session.as_ref()
    }

    /// The worker that is held, if any, for the driver to write to and
    /// read from. Whatever the driver does to the handle, the broker
    /// still holds it, and nothing else about the broker changes.
    pub fn session_mut(&mut self) -> (handle: Option<&mut S>)
        ensures
            match handle {
                Some(h) => old(self)@.session == Some(*h) && final(self)@ == (BrokerState {
                    session: Some(*final(h)),
                    ..old(self)@
                }),
                None => old(self)@.session is None && final(self)@ == old(self)@,
            },
    {
        self.session.as_mut()
    }

    /// Whether `input` is what the broker waits for.
    pub fn accepts(&self, input: &Input<S>) -> (ok: bool)
        ensures
            ok == self@.accepts(input@),
    {
        match input {
            Input::Begin(_) => self.phase == Phase::Idle,
            Input::Spawned(_) => self.phase == Phase::Spawning,
            Input::Wrote(_) => self.phase == Phase::Writing,
            Input::Event(_) => self.phase == Phase::Awaiting,
        }
    }

    /// A caller enters with its request. Asks for the request line to be
    /// written to the held worker, or for a worker to be started when
    /// none is held.
    pub fn begin(&mut self, payload: &str) -> (action: Action)
        requires
            old(self)@.wf(),
            old(self)@.phase is Idle,
        ensures
            (final(self)@, action@) == old(self)@.begin(payload@),
            final(self)@.wf(),
    {
        let line = frame_request(payload);
        if self.session.is_some() {
            self.phase = Phase::Writing;
            Action::Write(line)
        } else {
            self.phase = Phase::Spawning;
            self.pending = line;
            Action::Spawn
        }
    }

    /// The driver reports how starting the worker went.
    pub fn spawned(&mut self, outcome: Result<S, String>) -> (action: Action)
        requires
            old(self)@.wf(),
            old(self)@.phase is Spawning,
        ensures
            (final(self)@, action@) == old(self)@.spawned(outcome_view(outcome)),
            final(self)@.wf(),
    {
        let mut line: Vec<u8> = Vec::new();
        std::mem::swap(&mut line, &mut self.pending);
        self.phase = Phase::Idle;
        match outcome {
            Ok(handle) => {
                self.session = Some(handle);
                self.phase = Phase::Writing;
                Action::Write(line)
            },
            Err(why) => Action::Done(Err(BrokerError::SpawnFailure(why))),
        }
    }

    /// The driver reports how writing the request line went.
    pub fn wrote(&mut self, outcome: Result<(), String>) -> (action: Action)
        requires
            old(self)@.wf(),
            old(self)@.phase is Writing,
        ensures
            (final(self)@, action@) == old(self)@.wrote(outcome_view(outcome)),
            final(self)@.wf(),
    {
        match outcome {
            Ok(_) => {
                self.phase = Phase::Awaiting;
                Action::Await
            },
            Err(why) => {
                self.phase = Phase::Idle;
                Action::Done(Err(BrokerError::WriteFailure(why)))
            },
        }
    }

    /// The driver reports the worker's next event, or `None` when the
    /// worker's output has ended.
    pub fn observed(&mut self, event: Option<WorkerEvent>) -> (action: Action)
        requires
            old(self)@.wf(),
            old(self)@.phase is Awaiting,
        ensures
            (final(self)@, action@) == old(self)@.observed(event_view(event)),
            final(self)@.wf(),
    {
        match event {
            Some(WorkerEvent::OutputLine(bytes)) => {
                self.phase = Phase::Idle;
                Action::Done(decode_line(bytes))
            },
            Some(WorkerEvent::Terminated(_)) => {
                self.session = None;
                self.phase = Phase::Idle;
                Action::Done(Err(BrokerError::BackendTerminated))
            },
            Some(_) => Action::Await,
            None => {
                self.session = None;
                self.phase = Phase::Idle;
                Action::Done(Err(BrokerError::NoResponse))
            },
        }
    }

    /// The driver gives up on the call under way, as when its caller has
    /// gone away. Without a call under way this changes nothing.
    pub fn abandon(&mut self)
        requires
            old(self)@.wf(),
        ensures
            final(self)@ == old(self)@.abandoned(),
            final(self)@.wf(),
            old(self)@.phase is Idle ==> final(self)@ == old(self)@,
    {
        self.phase = Phase::Idle;
        self.pending = Vec::new();
    }

    /// Takes one step: the broker moves to its next state and says what
    /// the driver is to do.
    pub fn step(&mut self, input: Input<S>) -> (action: Action)
        requires
            old(self)@.wf(),
            old(self)@.accepts(input@),
        ensures
            (final(self)@, action@) == old(self)@.step(input@),
            final(self)@.wf(),
    {
        match input {
            Input::Begin(payload) => self.begin(payload.as_str()),
            Input::Spawned(outcome) => self.spawned(outcome),
            Input::Wrote(outcome) => self.wrote(outcome),
            Input::Event(event) => self.observed(event),
        }
    }
}

} // verus!

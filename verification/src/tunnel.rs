//! The lifecycle that every tunnel goes through, whatever carries it:
//! prepare, signal readiness, serve, clean up. The driver decides the order
//! and the overall result; the caller performs each operation on its tunnel
//! and hands back how it ended.

pub mod laws;

use crate::errors::{spec_outcome, Error, ErrorView};
use vstd::prelude::*;

verus! {

/// The token that tells the caller's caller that the tunnel takes requests.
pub const READY_SIGNAL: &'static str = "READY";

/// How far a run of the lifecycle has come.
#[derive(Debug, Clone, Copy, PartialEq, Eq, Structural)]
pub enum DriverPhase {
    /// Nothing was asked for yet.
    Idle,
    /// The tunnel is being prepared.
    Preparing,
    /// The readiness signal is being emitted.
    Signalling,
    /// The tunnel is serving.
    Serving,
    /// The tunnel is being cleaned up.
    CleaningUp,
    /// The run has returned.
    Finished,
}

impl DriverPhase {
    /// The number of actions that can still follow this phase.
    pub open spec fn steps_left(self) -> nat {
        match self {
            DriverPhase::Idle => 5,
            DriverPhase::Preparing => 4,
            DriverPhase::Signalling => 3,
            DriverPhase::Serving => 2,
            DriverPhase::CleaningUp => 1,
            DriverPhase::Finished => 0,
        }
    }
}

/// What the caller reports to the driver.
#[derive(Debug, PartialEq, Eq)]
pub enum DriverEvent {
    /// The run is asked for.
    Start,
    /// The tunnel's `prepare` has returned.
    Prepared(Result<(), Error>),
    /// The readiness signal was emitted.
    ReadySignalled,
    /// The tunnel's `serve` has returned.
    Served(Result<(), Error>),
    /// The tunnel's `cleanup` has returned.
    CleanedUp(Result<(), Error>),
}

/// The mathematical content of a [`DriverEvent`].
pub enum DriverEventView {
    Start,
    Prepared(Result<(), ErrorView>),
    ReadySignalled,
    Served(Result<(), ErrorView>),
    CleanedUp(Result<(), ErrorView>),
}

impl View for DriverEvent {
    type V = DriverEventView;

    open spec fn view(&self) -> DriverEventView {
        match self {
            DriverEvent::Start => DriverEventView::Start,
            DriverEvent::Prepared(result) => DriverEventView::Prepared(spec_outcome(*result)),
            DriverEvent::ReadySignalled => DriverEventView::ReadySignalled,
            DriverEvent::Served(result) => DriverEventView::Served(spec_outcome(*result)),
            DriverEvent::CleanedUp(result) => DriverEventView::CleanedUp(spec_outcome(*result)),
        }
    }
}

/// What the driver asks of the caller.
#[derive(Debug, PartialEq, Eq)]
pub enum DriverAction {
    /// Call the tunnel's `prepare`, and report [`DriverEvent::Prepared`].
    Prepare,
    /// Write the token on a line of the standard output, and report
    /// [`DriverEvent::ReadySignalled`].
    SignalReady(&'static str),
    /// Call the tunnel's `serve`, and report [`DriverEvent::Served`].
    Serve,
    /// Call the tunnel's `cleanup`, and report [`DriverEvent::CleanedUp`].
    Cleanup,
    /// The run is over, with this result.
    Return(Result<(), Error>),
    /// The event has no place in the present phase; nothing changed.
    Rejected,
}

/// The mathematical content of a [`DriverAction`].
pub enum DriverActionView {
    Prepare,
    SignalReady(Seq<char>),
    Serve,
    Cleanup,
    Return(Result<(), ErrorView>),
    Rejected,
}

impl View for DriverAction {
    type V = DriverActionView;

    open spec fn view(&self) -> DriverActionView {
        match self {
            DriverAction::Prepare => DriverActionView::Prepare,
            DriverAction::SignalReady(token) => DriverActionView::SignalReady(token@),
            DriverAction::Serve => DriverActionView::Serve,
            DriverAction::Cleanup => DriverActionView::Cleanup,
            DriverAction::Return(result) => DriverActionView::Return(spec_outcome(*result)),
            DriverAction::Rejected => DriverActionView::Rejected,
        }
    }
}

/// The results of a tunnel's three operations in one run.
pub struct Outcomes {
    pub prepare: Result<(), ErrorView>,
    pub serve: Result<(), ErrorView>,
    pub cleanup: Result<(), ErrorView>,
}

impl Outcomes {
    /// The event with which the caller answers `action` in a run where the
    /// tunnel's operations end as `self` says. A run that has returned, or
    /// an event that was rejected, is answered by nothing.
    pub open spec fn answer(self, action: DriverActionView) -> Option<DriverEventView> {
        match action {
            DriverActionView::Prepare => Some(DriverEventView::Prepared(self.prepare)),
            DriverActionView::SignalReady(_) => Some(DriverEventView::ReadySignalled),
            DriverActionView::Serve => Some(DriverEventView::Served(self.serve)),
            DriverActionView::Cleanup => Some(DriverEventView::CleanedUp(self.cleanup)),
            DriverActionView::Return(_) => None,
            DriverActionView::Rejected => None,
        }
    }

    /// The result owed for the whole run: the failure of `prepare`, else
    /// the failure of `serve`, else whatever `cleanup` returned.
    pub open spec fn overall(self) -> Result<(), ErrorView> {
        match self.prepare {
            Err(failure) => Err(failure),
            Ok(_) => match self.serve {
                Err(failure) => Err(failure),
                Ok(_) => self.cleanup,
            },
        }
    }

    /// The actions of a whole run, in order: `serve` is left out when
    /// `prepare` failed, and nothing else ever is.
    pub open spec fn actions(self) -> Seq<DriverActionView> {
        if self.prepare is Ok {
            seq![
                DriverActionView::Prepare,
                DriverActionView::SignalReady(READY_SIGNAL@),
                DriverActionView::Serve,
                DriverActionView::Cleanup,
                DriverActionView::Return(self.overall()),
            ]
        } else {
            seq![
                DriverActionView::Prepare,
                DriverActionView::SignalReady(READY_SIGNAL@),
                DriverActionView::Cleanup,
                DriverActionView::Return(self.overall()),
            ]
        }
    }
}

/// One run of the lifecycle over one tunnel.
#[derive(Debug, PartialEq, Eq)]
pub struct Driver {
    /// How far the run has come.
    pub phase: DriverPhase,
    /// The failure of `prepare` or `serve`, once there is one.
    pub failure: Option<Error>,
}

/// The mathematical content of a [`Driver`], and the model of its steps.
pub struct DriverView {
    pub phase: DriverPhase,
    pub failure: Option<ErrorView>,
}

impl View for Driver {
    type V = DriverView;

    open spec fn view(&self) -> DriverView {
        DriverView {
            phase: self.phase,
            failure: match self.failure {
                Some(failure) => Some(failure@),
                None => None,
            },
        }
    }
}

/// The failure in `result`, if it holds one.
pub open spec fn spec_failure_of(result: Result<(), ErrorView>) -> Option<ErrorView> {
    match result {
        Ok(_) => None,
        Err(failure) => Some(failure),
    }
}

impl DriverView {
    /// A run that has not begun.
    pub open spec fn idle() -> DriverView {
        DriverView { phase: DriverPhase::Idle, failure: None }
    }

    /// One step of the run: the driver after `event`, and the action it
    /// asks for. The readiness signal follows `prepare` whatever it
    /// returned; `serve` follows only a `prepare` that succeeded; `cleanup`
    /// follows in every case; and the run returns the earlier failure, or
    /// else what `cleanup` returned.
    pub open spec fn step(self, event: DriverEventView) -> (DriverView, DriverActionView) {
        match (self.phase, event) {
            (DriverPhase::Idle, DriverEventView::Start) => (
                DriverView { phase: DriverPhase::Preparing, failure: None },
                DriverActionView::Prepare,
            ),
            (DriverPhase::Preparing, DriverEventView::Prepared(result)) => (
                DriverView { phase: DriverPhase::Signalling, failure: spec_failure_of(result) },
                DriverActionView::SignalReady(READY_SIGNAL@),
            ),
            (DriverPhase::Signalling, DriverEventView::ReadySignalled) => if self.failure is None {
                (DriverView { phase: DriverPhase::Serving, ..self }, DriverActionView::Serve)
            } else {
                (DriverView { phase: DriverPhase::CleaningUp, ..self }, DriverActionView::Cleanup)
            },
            (DriverPhase::Serving, DriverEventView::Served(result)) => (
                DriverView { phase: DriverPhase::CleaningUp, failure: spec_failure_of(result) },
                DriverActionView::Cleanup,
            ),
            (DriverPhase::CleaningUp, DriverEventView::CleanedUp(result)) => (
                DriverView { phase: DriverPhase::Finished, failure: None },
                DriverActionView::Return(
                    match self.failure {
                        Some(failure) => Err(failure),
                        None => result,
                    },
                ),
            ),
            _ => (self, DriverActionView::Rejected),
        }
    }

    /// The actions that the driver asks for, in order, from `event` on,
    /// when every action is answered as `outcomes` says.
    pub open spec fn run(self, event: DriverEventView, outcomes: Outcomes) -> Seq<DriverActionView>
        decreases self.phase.steps_left(),
    {
        let (next, action) = self.step(event);
        match outcomes.answer(action) {
            Some(reply) => seq![action] + next.run(reply, outcomes),
            None => seq![action],
        }
    }
}

/// The exit code of the host process for the result of a run: zero for
/// success, one for a failure.
pub fn exit_code(result: &Result<(), Error>) -> (code: i32)
    ensures
        code == if *result is Ok { 0i32 } else { 1i32 },
{
    match result {
        Ok(_) => 0,
        Err(_) => 1,
    }
}

impl Driver {
    /// A run that has not begun.
    pub fn new() -> (driver: Driver)
        ensures
            driver@ == DriverView::idle(),
    {
        Driver { phase: DriverPhase::Idle, failure: None }
    }

    /// Takes `event` and returns the action to perform next.
    pub fn step(&mut self, event: DriverEvent) -> (action: DriverAction)
        ensures
            final(self)@ == old(self)@.step(event@).0,
            action@ == old(self)@.step(event@).1,
    {
        match self.phase {
            DriverPhase::Idle => match event {
                DriverEvent::Start => {
                    self.phase = DriverPhase::Preparing;
                    self.failure = None;
                    DriverAction::Prepare
                },
                _ => DriverAction::Rejected,
            },
            DriverPhase::Preparing => match event {
                DriverEvent::Prepared(result) => {
                    self.phase = DriverPhase::Signalling;
                    self.failure = match result {
                        Ok(_) => None,
                        Err(failure) => Some(failure),
                    };
                    DriverAction::SignalReady(READY_SIGNAL)
                },
                _ => DriverAction::Rejected,
            },
            DriverPhase::Signalling => match event {
                DriverEvent::ReadySignalled => {
                    if self.failure.is_none() {
                        self.phase = DriverPhase::Serving;
                        DriverAction::Serve
                    } else {
                        self.phase = DriverPhase::CleaningUp;
                        DriverAction::Cleanup
                    }
                },
                _ => DriverAction::Rejected,
            },
            DriverPhase::Serving => match event {
                DriverEvent::Served(result) => {
                    self.phase = DriverPhase::CleaningUp;
                    self.failure = match result {
                        Ok(_) => None,
                        Err(failure) => Some(failure),
                    };
                    DriverAction::Cleanup
                },
                _ => DriverAction::Rejected,
            },
            DriverPhase::CleaningUp => match event {
                DriverEvent::CleanedUp(result) => {
                    self.phase = DriverPhase::Finished;
                    match self.failure.take() {
                        Some(failure) => DriverAction::Return(Err(failure)),
                        None => DriverAction::Return(result),
                    }
                },
                _ => DriverAction::Rejected,
            },
            DriverPhase::Finished => DriverAction::Rejected,
        }
    }
}

} // verus!

//! The service lifecycle as a transition table: phases, events, actions.
//!
//! The shared "running" flag of the service is `phase != Idle`. A start
//! request raises it before the first platform call is made; it falls again
//! when a platform call of the start attempt fails, or when the worker has
//! seen a stop signal.

use vstd::prelude::*;

verus! {

/// One platform call on the way to the foreground. They are made in this
/// order, and the first failure ends the attempt.
#[derive(Clone, Copy, Debug, PartialEq, Eq, Structural)]
pub enum PromoteStep {
    /// Register the notification channel (a no-op on old platform levels).
    CreateChannel,
    /// Build the ongoing notification that the service will show.
    BuildNotification,
    /// Hand the notification to the platform and enter the foreground.
    StartForeground,
}

impl PromoteStep {
    /// The step that follows `self`, or `None` after the last one.
    pub open spec fn successor(self) -> Option<PromoteStep> {
        match self {
            PromoteStep::CreateChannel => Some(PromoteStep::BuildNotification),
            PromoteStep::BuildNotification => Some(PromoteStep::StartForeground),
            PromoteStep::StartForeground => None,
        }
    }

    /// Position of the step in the promote sequence, counted from zero.
    pub open spec fn index(self) -> nat {
        match self {
            PromoteStep::CreateChannel => 0,
            PromoteStep::BuildNotification => 1,
            PromoteStep::StartForeground => 2,
        }
    }

    /// The first call of every start attempt.
    pub fn first() -> (step: PromoteStep)
        ensures
            step == PromoteStep::CreateChannel,
            step.index() == 0,
    {
        PromoteStep::CreateChannel
    }

    /// The call to make once `self` has succeeded.
    pub fn next(self) -> (following: Option<PromoteStep>)
        ensures
            following == self.successor(),
            following matches Some(s) ==> s.index() == self.index() + 1,
            following is None <==> self.index() == 2,
    {
        match self {
            PromoteStep::CreateChannel => Some(PromoteStep::BuildNotification),
            PromoteStep::BuildNotification => Some(PromoteStep::StartForeground),
            PromoteStep::StartForeground => None,
        }
    }
}

/// Where the service stands.
#[derive(Clone, Copy, Debug, PartialEq, Eq, Structural)]
pub enum Phase {
    /// Not running: no start attempt is under way and no worker waits.
    Idle,
    /// A start was taken; the given platform call is outstanding.
    Promoting(PromoteStep),
    /// In the foreground, with one worker waiting for the stop signal.
    Active,
}

impl Phase {
    /// The shared flag: raised from the moment a start is taken until the
    /// attempt fails or the worker has seen a stop signal.
    pub open spec fn running(self) -> bool {
        self != Phase::Idle
    }

    /// Number of workers that wait for a stop signal in this phase.
    pub open spec fn waiting_workers(self) -> nat {
        if self == Phase::Active {
            1
        } else {
            0
        }
    }

    /// Reads the shared flag.
    pub fn is_running(self) -> (flag: bool)
        ensures
            flag == self.running(),
    {
        match self {
            Phase::Idle => false,
            Phase::Promoting(_) => true,
            Phase::Active => true,
        }
    }

    /// The phase after `event`, and the action that the event leads to.
    pub fn on_event(self, event: Event) -> (outcome: (Phase, Action))
        ensures
            outcome == transition(self, event),
            outcome.1 == Action::Nothing <==> !takes_effect(self, event),
    {
        match self {
            Phase::Idle => match event {
                Event::StartRequested => {
                    let step = PromoteStep::first();
                    (Phase::Promoting(step), Action::Perform(step))
                },
                _ => (self, Action::Nothing),
            },
            Phase::Promoting(step) => match event {
                Event::StepSucceeded => match step.next() {
                    Some(following) => (Phase::Promoting(following), Action::Perform(following)),
                    None => (Phase::Active, Action::SpawnWorker),
                },
                Event::StepFailed => (Phase::Idle, Action::AbandonStart(step)),
                Event::StopRequested => (self, Action::Signalled),
                _ => (self, Action::Nothing),
            },
            Phase::Active => match event {
                Event::StopRequested => (self, Action::Signalled),
                Event::StopObserved => (Phase::Idle, Action::Demote),
                _ => (self, Action::Nothing),
            },
        }
    }
}

/// What can happen to the guard.
#[derive(Clone, Copy, Debug, PartialEq, Eq, Structural)]
pub enum Event {
    /// The service was asked to start.
    StartRequested,
    /// The outstanding platform call of the start attempt returned normally.
    StepSucceeded,
    /// The outstanding platform call of the start attempt was rejected.
    StepFailed,
    /// The service was asked to stop.
    StopRequested,
    /// The worker's wait for a stop signal has ended.
    StopObserved,
}

/// What an event leads to. All but `Signalled` are left for the caller to
/// carry out.
#[derive(Clone, Copy, Debug, PartialEq, Eq, Structural)]
pub enum Action {
    /// The event changed nothing and asks for nothing.
    Nothing,
    /// Make this platform call and report how it went.
    Perform(PromoteStep),
    /// The service is in the foreground: start the one worker that waits for
    /// the stop signal.
    SpawnWorker,
    /// This platform call failed; the flag is down again and a later start
    /// may retry. Report the failure.
    AbandonStart(PromoteStep),
    /// The stop request is taken: one stop signal goes on the channel, which
    /// the guard sees to itself. The flag stays up until the worker has
    /// seen the signal.
    Signalled,
    /// The flag is down: take the service out of the foreground.
    Demote,
}

/// Whether `event` takes effect in `phase`. An event that does not is
/// absorbed: nothing changes and nothing is asked of the caller.
pub open spec fn takes_effect(phase: Phase, event: Event) -> bool {
    match event {
        Event::StartRequested => !phase.running(),
        Event::StepSucceeded | Event::StepFailed => phase is Promoting,
        Event::StopRequested => phase.running(),
        Event::StopObserved => phase == Phase::Active,
    }
}

/// The transition table of the lifecycle.
pub open spec fn transition(phase: Phase, event: Event) -> (Phase, Action) {
    if !takes_effect(phase, event) {
        (phase, Action::Nothing)
    } else {
        match event {
            Event::StartRequested => (
                Phase::Promoting(PromoteStep::CreateChannel),
                Action::Perform(PromoteStep::CreateChannel),
            ),
            Event::StepSucceeded => match phase->Promoting_0.successor() {
                Some(following) => (Phase::Promoting(following), Action::Perform(following)),
                None => (Phase::Active, Action::SpawnWorker),
            },
            Event::StepFailed => (Phase::Idle, Action::AbandonStart(phase->Promoting_0)),
            Event::StopRequested => (phase, Action::Signalled),
            Event::StopObserved => (Phase::Idle, Action::Demote),
        }
    }
}

} // verus!

//! The process-wide guard of the service's run state.

use vstd::prelude::*;
use crate::lifecycle::{Action, Event, Phase, PromoteStep, transition};
use crate::signal::{
    handed_over, never_full, one_channel, open_stop_channel, same_channel, send_stop_signal,
    share_receiver,
};

verus! {

/// What a guard stands for in contracts.
pub struct GuardState {
    /// Where the service stands. The shared flag is `phase.running()`.
    pub phase: Phase,
    /// Stop signals that the channel has taken from the guard and no worker
    /// has reported as seen.
    pub signals: nat,
}

impl GuardState {
    /// The state of a fresh guard: not running, nothing on the channel.
    pub open spec fn initial() -> GuardState {
        GuardState { phase: Phase::Idle, signals: 0 }
    }

    /// The shared flag.
    pub open spec fn running(self) -> bool {
        self.phase.running()
    }
}

/// The count of outstanding stop signals after an event that led to `action`.
pub open spec fn signals_after(signals: nat, action: Action) -> nat {
    match action {
        Action::Signalled => signals + 1,
        Action::Demote => if signals > 0 { (signals - 1) as nat } else { 0 },
        _ => signals,
    }
}

/// One step of the guard: the state after `event`, and the action that the
/// event leads to.
pub open spec fn step(state: GuardState, event: Event) -> (GuardState, Action) {
    let (phase, action) = transition(state.phase, event);
    (GuardState { phase, signals: signals_after(state.signals, action) }, action)
}

/// The run state of the service together with its stop-signal channel.
///
/// One guard exists per process. The embedding program keeps it behind a
/// lock, hands it every event while holding the lock, and carries out the
/// returned action after releasing it.
pub struct ServiceGuard {
    phase: Phase,
    stop_tx: flume::Sender<()>,
    stop_rx: flume::Receiver<()>,
    /// How many of the signals sent the workers have reported as seen.
    reported: Ghost<nat>,
}

impl View for ServiceGuard {
    type V = GuardState;

    closed spec fn view(&self) -> GuardState {
        GuardState {
            phase: self.phase,
            signals: (handed_over(self.stop_tx) - self.reported@) as nat,
        }
    }
}

impl ServiceGuard {
    #[verifier::type_invariant]
    spec fn channel_in_order(self) -> bool {
        &&& never_full(self.stop_tx)
        &&& one_channel(self.stop_tx, self.stop_rx)
        &&& self.reported@ <= handed_over(self.stop_tx)
    }

    /// The guard's sending end of its stop-signal channel. Nothing but a
    /// stop request that is taken sends on it.
    pub closed spec fn sending_end(&self) -> flume::Sender<()> {
        self.stop_tx
    }

    /// The guard's own receiving end of its stop-signal channel. A guard
    /// keeps the channel it was created with.
    pub closed spec fn receiving_end(&self) -> flume::Receiver<()> {
        self.stop_rx
    }

    /// A guard for a service that is not running, with the two ends of a
    /// fresh channel on which nothing has been sent.
    pub fn new() -> (guard: ServiceGuard)
        ensures
            guard@ == GuardState::initial(),
            one_channel(guard.sending_end(), guard.receiving_end()),
            handed_over(guard.sending_end()) == 0,
    {
        let (stop_tx, stop_rx) = open_stop_channel();
        ServiceGuard { phase: Phase::Idle, stop_tx, stop_rx, reported: Ghost(0) }
    }

    /// Reads the shared flag.
    pub fn is_running(&self) -> (flag: bool)
        ensures
            flag == self@.running(),
    {
        self.phase.is_running()
    }

    /// Where the service stands.
    pub fn phase(&self) -> (phase: Phase)
        ensures
            phase == self@.phase,
    {
        self.phase
    }

    /// Takes one event. The guard moves as the transition table says. Where
    /// the event is a stop request that takes effect, exactly one signal is
    /// sent on the guard's channel before the call returns; on every other
    /// event the channel is given nothing. Every other action is left to
    /// the caller.
    pub fn handle(&mut self, event: Event) -> (action: Action)
        ensures
            (final(self)@, action) == step(old(self)@, event),
            final(self).receiving_end() == old(self).receiving_end(),
            one_channel(final(self).sending_end(), final(self).receiving_end()),
            handed_over(final(self).sending_end()) == handed_over(old(self).sending_end()) + (
            if action == Action::Signalled {
                1nat
            } else {
                0nat
            }),
            action != Action::Signalled ==> final(self).sending_end() == old(self).sending_end(),
    {
        proof {
            use_type_invariant(&*self);
        }
        let (phase, action) = self.phase.on_event(event);
        self.phase = phase;
        match action {
            Action::Signalled => {
                // The channel takes the signal as long as a receiving end
                // lives, and the guard keeps one.
                let _taken = send_stop_signal(&mut self.stop_tx, &self.stop_rx);
            },
            Action::Demote => {
                proof {
                    if self.reported@ < handed_over(self.stop_tx) {
                        self.reported@ = self.reported@ + 1;
                    }
                }
            },
            _ => {},
        }
        action
    }

    /// A start request. While the service runs it is absorbed, so that any
    /// number of requests in a row start one attempt. Otherwise the flag
    /// goes up and the caller is told to make the first platform call.
    pub fn request_start(&mut self) -> (action: Action)
        ensures
            (final(self)@, action) == step(old(self)@, Event::StartRequested),
            final(self).receiving_end() == old(self).receiving_end(),
            final(self).sending_end() == old(self).sending_end(),
            one_channel(final(self).sending_end(), final(self).receiving_end()),
            handed_over(final(self).sending_end()) == handed_over(old(self).sending_end()),
            old(self)@.running() ==> action == Action::Nothing && final(self)@ == old(self)@,
            !old(self)@.running() ==> action == Action::Perform(PromoteStep::CreateChannel)
                && final(self)@ == (GuardState {
                phase: Phase::Promoting(PromoteStep::CreateChannel),
                signals: old(self)@.signals,
            }),
    {
        self.handle(Event::StartRequested)
    }

    /// Reports how the outstanding platform call of a start attempt went.
    /// After a success the caller is told the next call, or, after the last
    /// one, to spawn the worker. After a failure the flag is down again, so
    /// that a later start can retry. Outside a start attempt the report is
    /// absorbed.
    pub fn step_finished(&mut self, succeeded: bool) -> (action: Action)
        ensures
            (final(self)@, action) == step(
                old(self)@,
                if succeeded {
                    Event::StepSucceeded
                } else {
                    Event::StepFailed
                },
            ),
            !(old(self)@.phase is Promoting) ==> action == Action::Nothing && final(self)@
                == old(self)@,
            old(self)@.phase is Promoting && !succeeded ==> !final(self)@.running() && action
                == Action::AbandonStart(old(self)@.phase->Promoting_0),
            old(self)@.phase is Promoting && succeeded ==> final(self)@.running(),
            final(self)@.signals == old(self)@.signals,
            final(self).receiving_end() == old(self).receiving_end(),
            final(self).sending_end() == old(self).sending_end(),
            one_channel(final(self).sending_end(), final(self).receiving_end()),
            handed_over(final(self).sending_end()) == handed_over(old(self).sending_end()),
    {
        if succeeded {
            self.handle(Event::StepSucceeded)
        } else {
            self.handle(Event::StepFailed)
        }
    }

    /// A stop request. While the service does not run it is absorbed: the
    /// channel is given nothing and nothing changes. Otherwise exactly one
    /// stop signal is sent on the guard's channel, which takes it; the flag
    /// stays up until the worker has seen it. The call does not block.
    pub fn request_stop(&mut self) -> (action: Action)
        ensures
            (final(self)@, action) == step(old(self)@, Event::StopRequested),
            final(self).receiving_end() == old(self).receiving_end(),
            one_channel(final(self).sending_end(), final(self).receiving_end()),
            handed_over(final(self).sending_end()) == handed_over(old(self).sending_end()) + (
            if action == Action::Signalled {
                1nat
            } else {
                0nat
            }),
            action != Action::Signalled ==> final(self).sending_end() == old(self).sending_end(),
            !old(self)@.running() ==> action == Action::Nothing && final(self)@ == old(self)@,
            old(self)@.running() ==> action == Action::Signalled && final(self)@ == (GuardState {
                phase: old(self)@.phase,
                signals: old(self)@.signals + 1,
            }),
    {
        self.handle(Event::StopRequested)
    }

    /// The worker reports that its wait has ended. The flag goes down
    /// before the service is taken out of the foreground, so that a failure
    /// of that call cannot block later starts. Where no worker waits the
    /// report is absorbed.
    pub fn stop_observed(&mut self) -> (action: Action)
        ensures
            (final(self)@, action) == step(old(self)@, Event::StopObserved),
            final(self).receiving_end() == old(self).receiving_end(),
            final(self).sending_end() == old(self).sending_end(),
            one_channel(final(self).sending_end(), final(self).receiving_end()),
            handed_over(final(self).sending_end()) == handed_over(old(self).sending_end()),
            old(self)@.phase != Phase::Active ==> action == Action::Nothing && final(self)@
                == old(self)@,
            old(self)@.phase == Phase::Active ==> action == Action::Demote
                && !final(self)@.running(),
    {
        self.handle(Event::StopObserved)
    }

    /// Another receiving end of the channel that the guard sends its stop
    /// signals on, for the worker to wait on. Every signal goes to one
    /// receiver only.
    pub fn stop_signal(&self) -> (handle: flume::Receiver<()>)
        ensures
            same_channel(self.receiving_end(), handle),
            one_channel(self.sending_end(), self.receiving_end()),
    {
        proof {
            use_type_invariant(self);
        }
        share_receiver(&self.stop_rx)
    }
}

} // verus!

//! What holds of the guard after any sequence of events.
//!
//! The functions here are ghost code: `run` replays a sequence of events
//! from a given state, `tally` counts what the events led to, and the proof
//! functions relate the two.

use vstd::prelude::*;
use crate::guard::{step, GuardState};
use crate::lifecycle::{Action, Event, Phase, PromoteStep};

verus! {

/// The state that `events`, taken in order, lead to from `start`.
pub open spec fn run(start: GuardState, events: Seq<Event>) -> GuardState
    decreases events.len(),
{
    if events.len() == 0 {
        start
    } else {
        step(run(start, events.drop_last()), events.last()).0
    }
}

/// The action that the last of `events` leads to when they are taken in
/// order from `start`.
pub open spec fn last_action(start: GuardState, events: Seq<Event>) -> Action
    recommends
        events.len() > 0,
{
    step(run(start, events.drop_last()), events.last()).1
}

/// Counts of what a sequence of events led to.
pub struct Tally {
    /// Start requests that raised the flag.
    pub starts_taken: nat,
    /// Start attempts that reached the foreground: workers spawned.
    pub starts_completed: nat,
    /// Start attempts that a failed platform call ended.
    pub starts_abandoned: nat,
    /// Stop requests that put a signal on the channel.
    pub stops_taken: nat,
    /// Stops that a worker saw: workers that ended their wait.
    pub stops_completed: nat,
}

impl Tally {
    /// Nothing has happened.
    pub open spec fn zero() -> Tally {
        Tally {
            starts_taken: 0,
            starts_completed: 0,
            starts_abandoned: 0,
            stops_taken: 0,
            stops_completed: 0,
        }
    }

    /// How often the flag went down.
    pub open spec fn flag_clears(self) -> nat {
        self.starts_abandoned + self.stops_completed
    }

    /// The counts of two histories taken together.
    pub open spec fn plus(self, later: Tally) -> Tally {
        Tally {
            starts_taken: self.starts_taken + later.starts_taken,
            starts_completed: self.starts_completed + later.starts_completed,
            starts_abandoned: self.starts_abandoned + later.starts_abandoned,
            stops_taken: self.stops_taken + later.stops_taken,
            stops_completed: self.stops_completed + later.stops_completed,
        }
    }

    /// The counts after one more event that led to `action`.
    pub open spec fn record(self, action: Action) -> Tally {
        match action {
            Action::Nothing => self,
            Action::Perform(step) => if step.index() == 0 {
                Tally { starts_taken: self.starts_taken + 1, ..self }
            } else {
                self
            },
            Action::SpawnWorker => Tally { starts_completed: self.starts_completed + 1, ..self },
            Action::AbandonStart(_) => Tally {
                starts_abandoned: self.starts_abandoned + 1,
                ..self
            },
            Action::Signalled => Tally { stops_taken: self.stops_taken + 1, ..self },
            Action::Demote => Tally { stops_completed: self.stops_completed + 1, ..self },
        }
    }
}

/// What `events`, taken in order from `start`, led to.
pub open spec fn tally(start: GuardState, events: Seq<Event>) -> Tally
    decreases events.len(),
{
    if events.len() == 0 {
        Tally::zero()
    } else {
        tally(start, events.drop_last()).record(last_action(start, events))
    }
}

/// A history can be replayed in two parts: the second part starts where
/// the first one ended, and the counts add up.
pub proof fn law_history_in_two_parts(start: GuardState, first: Seq<Event>, second: Seq<Event>)
    ensures
        run(start, first + second) == run(run(start, first), second),
        tally(start, first + second) == tally(start, first).plus(
            tally(run(start, first), second),
        ),
    decreases second.len(),
{
    let whole = first + second;
    if second.len() == 0 {
        assert(whole == first);
    } else {
        assert(whole.drop_last() == first + second.drop_last());
        assert(whole.last() == second.last());
        law_history_in_two_parts(start, first, second.drop_last());
    }
}

/// The flag counts starts against stops. Take any state in which the
/// service does not run, and any sequence of events from there. Then:
///
/// - the flag went up at most once more often than it went down, and it is
///   up exactly if it went up more often;
/// - every start that was taken has been completed or abandoned, except the
///   one that is under way;
/// - at most one more worker was spawned than have ended their wait, and a
///   worker waits exactly if one more was spawned;
/// - whenever no start attempt is under way, the service runs exactly if
///   more starts than stops were completed.
pub proof fn law_flag_counts_starts_against_stops(start: GuardState, events: Seq<Event>)
    requires
        !start.running(),
    ensures
        ({
            let end = run(start, events);
            let t = tally(start, events);
            &&& t.flag_clears() <= t.starts_taken <= t.flag_clears() + 1
            &&& end.running() <==> t.starts_taken > t.flag_clears()
            &&& t.starts_taken == t.starts_completed + t.starts_abandoned + (if end.phase
                is Promoting {
                1nat
            } else {
                0nat
            })
            &&& t.stops_completed <= t.starts_completed <= t.stops_completed + 1
            &&& end.phase == Phase::Active <==> t.starts_completed > t.stops_completed
            &&& end.phase.waiting_workers() == t.starts_completed - t.stops_completed
            &&& !(end.phase is Promoting) ==> (end.running() <==> t.starts_completed
                > t.stops_completed)
        }),
    decreases events.len(),
{
    if events.len() > 0 {
        law_flag_counts_starts_against_stops(start, events.drop_last());
    }
}

/// One worker at most. From a state in which the service does not run,
/// events among which no worker ends its wait spawn at most one worker,
/// however many start requests they hold; and they spawn one exactly if the
/// service is in the foreground at the end.
pub proof fn law_starts_in_a_row_spawn_one_worker(start: GuardState, events: Seq<Event>)
    requires
        !start.running(),
        forall|i: int| 0 <= i < events.len() ==> events[i] != Event::StopObserved,
    ensures
        tally(start, events).stops_completed == 0,
        tally(start, events).starts_completed <= 1,
        tally(start, events).starts_completed == 1 <==> run(start, events).phase == Phase::Active,
{
    law_flag_counts_starts_against_stops(start, events);
    lemma_no_wait_ends(start, events);
}

/// Events among which no worker ends its wait complete no stop.
proof fn lemma_no_wait_ends(start: GuardState, events: Seq<Event>)
    requires
        forall|i: int| 0 <= i < events.len() ==> events[i] != Event::StopObserved,
    ensures
        tally(start, events).stops_completed == 0,
    decreases events.len(),
{
    if events.len() > 0 {
        lemma_no_wait_ends(start, events.drop_last());
    }
}

/// Whether `events` holds nothing but start requests and platform calls
/// that succeeded.
pub open spec fn only_starts_and_successes(events: Seq<Event>) -> bool {
    forall|i: int|
        0 <= i < events.len() ==> events[i] == Event::StartRequested || events[i]
            == Event::StepSucceeded
}

/// The number of platform calls that succeeded after the first start
/// request.
pub open spec fn successes_since_first_start(events: Seq<Event>) -> nat
    decreases events.len(),
{
    if events.len() == 0 {
        0
    } else {
        let earlier = successes_since_first_start(events.drop_last());
        if events.last() == Event::StepSucceeded && events.drop_last().contains(
            Event::StartRequested,
        ) {
            earlier + 1
        } else {
            earlier
        }
    }
}

/// Exactly one worker. Take a state in which the service does not run, and
/// events that are start requests and successful platform calls only, in
/// any number and order. Then one start is taken if there is a start
/// request at all; and one worker is spawned, no more, once three calls
/// have succeeded after the first start request. Every further start
/// request is absorbed.
pub proof fn law_start_requests_share_one_attempt(start: GuardState, events: Seq<Event>)
    requires
        !start.running(),
        only_starts_and_successes(events),
    ensures
        ({
            let requested = events.contains(Event::StartRequested);
            let succeeded = successes_since_first_start(events);
            let end = run(start, events);
            let t = tally(start, events);
            &&& !requested ==> succeeded == 0 && end.phase == Phase::Idle
            &&& requested && succeeded < 3 ==> end.phase is Promoting
                && end.phase->Promoting_0.index() == succeeded
            &&& requested && succeeded >= 3 ==> end.phase == Phase::Active
            &&& t.starts_taken == (if requested {
                1nat
            } else {
                0nat
            })
            &&& t.starts_completed == (if requested && succeeded >= 3 {
                1nat
            } else {
                0nat
            })
            &&& end.signals == start.signals
        }),
    decreases events.len(),
{
    if events.len() > 0 {
        law_start_requests_share_one_attempt(start, events.drop_last());
        lemma_contains_by_last(events, Event::StartRequested);
    }
}

/// A sequence holds a value exactly if the value is its last element or
/// the elements before hold it.
proof fn lemma_contains_by_last(events: Seq<Event>, event: Event)
    requires
        events.len() > 0,
    ensures
        events.contains(event) <==> events.drop_last().contains(event) || events.last() == event,
{
    let before = events.drop_last();
    if events.contains(event) {
        let i = choose|i: int| 0 <= i < events.len() && events[i] == event;
        if i < events.len() - 1 {
            assert(before[i] == event);
        }
    }
    if before.contains(event) {
        let i = choose|i: int| 0 <= i < before.len() && before[i] == event;
        assert(events[i] == event);
    }
}

/// A start request that finds the service running is absorbed: in every
/// state, the second of two start requests in a row changes nothing and
/// asks for nothing.
pub proof fn law_second_start_is_absorbed(state: GuardState)
    ensures
        step(step(state, Event::StartRequested).0, Event::StartRequested) == (
            step(state, Event::StartRequested).0,
            Action::Nothing,
        ),
        step(state, Event::StartRequested).0.running(),
{
}

/// A stop request that finds the service not running is absorbed: the
/// state stays as it is, no signal is sent, and nothing is asked of the
/// caller. The counts of a history do not move either.
pub proof fn law_stop_while_idle_is_absorbed(start: GuardState, events: Seq<Event>)
    requires
        !run(start, events).running(),
    ensures
        run(start, events.push(Event::StopRequested)) == run(start, events),
        last_action(start, events.push(Event::StopRequested)) == Action::Nothing,
        tally(start, events.push(Event::StopRequested)) == tally(start, events),
{
    assert(events.push(Event::StopRequested).drop_last() == events);
}

/// A signal stays on the channel until a worker sees it. From any state,
/// events among which no worker ends its wait lose no signal: as many are
/// outstanding at the end as at the start, and one more for each stop
/// request that was taken.
pub proof fn law_signals_wait_for_the_worker(start: GuardState, events: Seq<Event>)
    requires
        forall|i: int| 0 <= i < events.len() ==> events[i] != Event::StopObserved,
    ensures
        run(start, events).signals == start.signals + tally(start, events).stops_taken,
    decreases events.len(),
{
    if events.len() > 0 {
        law_signals_wait_for_the_worker(start, events.drop_last());
    }
}

/// A full cycle brings the guard back to where it stood. From a state in
/// which the service does not run: a start, three platform calls that
/// succeed, a stop, and the worker's report lead to the same state again.
pub proof fn law_cycle_returns_to_rest(start: GuardState)
    requires
        !start.running(),
    ensures
        run(start, full_cycle()) == start,
        tally(start, full_cycle()) == (Tally {
            starts_taken: 1,
            starts_completed: 1,
            starts_abandoned: 0,
            stops_taken: 1,
            stops_completed: 1,
        }),
{
    reveal_with_fuel(run, 7);
    reveal_with_fuel(tally, 7);
}

/// Cycles can be repeated without end. From a state in which the service
/// does not run, any number of full cycles in a row leads back to that
/// state, and each of them spawns one worker and ends its wait.
pub proof fn law_cycles_repeat(start: GuardState, count: nat)
    requires
        !start.running(),
    ensures
        run(start, cycles(count)) == start,
        tally(start, cycles(count)) == (Tally {
            starts_taken: count,
            starts_completed: count,
            starts_abandoned: 0,
            stops_taken: count,
            stops_completed: count,
        }),
    decreases count,
{
    if count > 0 {
        let before = cycles((count - 1) as nat);
        law_cycles_repeat(start, (count - 1) as nat);
        law_cycle_returns_to_rest(start);
        law_history_in_two_parts(start, before, full_cycle());
    }
}

/// The events of `count` full cycles in a row.
pub open spec fn cycles(count: nat) -> Seq<Event>
    decreases count,
{
    if count == 0 {
        Seq::empty()
    } else {
        cycles((count - 1) as nat) + full_cycle()
    }
}

/// The events of one full cycle: a start request, the three platform calls
/// of the attempt succeeding, a stop request, and the end of the worker's
/// wait.
pub open spec fn full_cycle() -> Seq<Event> {
    seq![
        Event::StartRequested,
        Event::StepSucceeded,
        Event::StepSucceeded,
        Event::StepSucceeded,
        Event::StopRequested,
        Event::StopObserved,
    ]
}

/// A failed start can be retried. Whichever platform call of a start
/// attempt fails, the flag is down afterwards, no signal was sent or lost,
/// no retry is started by the guard itself, and the next start request is
/// taken.
pub proof fn law_failed_start_can_be_retried(state: GuardState)
    requires
        state.phase is Promoting,
    ensures
        ({
            let (failed, report) = step(state, Event::StepFailed);
            &&& !failed.running()
            &&& failed.signals == state.signals
            &&& report == Action::AbandonStart(state.phase->Promoting_0)
            &&& step(failed, Event::StartRequested).1 == Action::Perform(
                PromoteStep::CreateChannel,
            )
            &&& step(failed, Event::StartRequested).0.running()
        }),
{
}

} // verus!

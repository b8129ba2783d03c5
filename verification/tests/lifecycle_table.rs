use foreground_service::lifecycle::{Action, Event, Phase, PromoteStep};

const EVENTS: [Event; 5] = [
    Event::StartRequested,
    Event::StepSucceeded,
    Event::StepFailed,
    Event::StopRequested,
    Event::StopObserved,
];

const PHASES: [Phase; 5] = [
    Phase::Idle,
    Phase::Promoting(PromoteStep::CreateChannel),
    Phase::Promoting(PromoteStep::BuildNotification),
    Phase::Promoting(PromoteStep::StartForeground),
    Phase::Active,
];

#[test]
fn promote_steps_come_in_order() {
    assert_eq!(PromoteStep::first(), PromoteStep::CreateChannel);
    assert_eq!(PromoteStep::CreateChannel.next(), Some(PromoteStep::BuildNotification));
    assert_eq!(PromoteStep::BuildNotification.next(), Some(PromoteStep::StartForeground));
    assert_eq!(PromoteStep::StartForeground.next(), None);
}

#[test]
fn only_idle_is_not_running() {
    assert!(!Phase::Idle.is_running());
    assert!(Phase::Promoting(PromoteStep::CreateChannel).is_running());
    assert!(Phase::Promoting(PromoteStep::BuildNotification).is_running());
    assert!(Phase::Promoting(PromoteStep::StartForeground).is_running());
    assert!(Phase::Active.is_running());
}

#[test]
fn idle_takes_only_a_start() {
    let idle = Phase::Idle;
    assert_eq!(
        idle.on_event(Event::StartRequested),
        (Phase::Promoting(PromoteStep::CreateChannel), Action::Perform(PromoteStep::CreateChannel))
    );
    assert_eq!(idle.on_event(Event::StepSucceeded), (idle, Action::Nothing));
    assert_eq!(idle.on_event(Event::StepFailed), (idle, Action::Nothing));
    assert_eq!(idle.on_event(Event::StopRequested), (idle, Action::Nothing));
    assert_eq!(idle.on_event(Event::StopObserved), (idle, Action::Nothing));
}

#[test]
fn promoting_walks_through_the_steps() {
    let first = Phase::Promoting(PromoteStep::CreateChannel);
    let second = Phase::Promoting(PromoteStep::BuildNotification);
    let third = Phase::Promoting(PromoteStep::StartForeground);
    assert_eq!(
        first.on_event(Event::StepSucceeded),
        (second, Action::Perform(PromoteStep::BuildNotification))
    );
    assert_eq!(
        second.on_event(Event::StepSucceeded),
        (third, Action::Perform(PromoteStep::StartForeground))
    );
    assert_eq!(third.on_event(Event::StepSucceeded), (Phase::Active, Action::SpawnWorker));
}

#[test]
fn promoting_falls_back_to_idle_on_failure() {
    for step in [
        PromoteStep::CreateChannel,
        PromoteStep::BuildNotification,
        PromoteStep::StartForeground,
    ] {
        assert_eq!(
            Phase::Promoting(step).on_event(Event::StepFailed),
            (Phase::Idle, Action::AbandonStart(step))
        );
    }
}

#[test]
fn promoting_absorbs_starts_and_takes_stops() {
    for step in [
        PromoteStep::CreateChannel,
        PromoteStep::BuildNotification,
        PromoteStep::StartForeground,
    ] {
        let phase = Phase::Promoting(step);
        assert_eq!(phase.on_event(Event::StartRequested), (phase, Action::Nothing));
        assert_eq!(phase.on_event(Event::StopRequested), (phase, Action::Signalled));
        assert_eq!(phase.on_event(Event::StopObserved), (phase, Action::Nothing));
    }
}

#[test]
fn active_takes_stops_and_the_workers_report() {
    let active = Phase::Active;
    assert_eq!(active.on_event(Event::StartRequested), (active, Action::Nothing));
    assert_eq!(active.on_event(Event::StepSucceeded), (active, Action::Nothing));
    assert_eq!(active.on_event(Event::StepFailed), (active, Action::Nothing));
    assert_eq!(active.on_event(Event::StopRequested), (active, Action::Signalled));
    assert_eq!(active.on_event(Event::StopObserved), (Phase::Idle, Action::Demote));
}

#[test]
fn absorbed_events_change_nothing() {
    for phase in PHASES {
        for event in EVENTS {
            let (next, action) = phase.on_event(event);
            if action == Action::Nothing {
                assert_eq!(next, phase);
            }
        }
    }
}

/// Replays every sequence of events up to the given length and checks, after
/// each event, that the flag and the worker agree with the counts.
fn explore(phase: Phase, counts: [u32; 4], depth: u32) {
    let [taken, cleared, spawned, retired] = counts;
    assert!(cleared <= taken && taken <= cleared + 1);
    assert_eq!(phase.is_running(), taken > cleared);
    assert!(retired <= spawned && spawned <= retired + 1);
    assert_eq!(phase == Phase::Active, spawned > retired);
    if !matches!(phase, Phase::Promoting(_)) {
        assert_eq!(phase.is_running(), spawned > retired);
    }
    if depth == 0 {
        return;
    }
    for event in EVENTS {
        let (next, action) = phase.on_event(event);
        let mut counts = counts;
        match action {
            Action::Perform(PromoteStep::CreateChannel) => counts[0] += 1,
            Action::AbandonStart(_) => counts[1] += 1,
            Action::SpawnWorker => counts[2] += 1,
            Action::Demote => {
                counts[1] += 1;
                counts[3] += 1;
            }
            _ => {}
        }
        explore(next, counts, depth - 1);
    }
}

#[test]
fn flag_counts_starts_against_stops_on_every_short_history() {
    explore(Phase::Idle, [0, 0, 0, 0], 7);
}

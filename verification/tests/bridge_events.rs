use foreground_service::bridge::{forward, is_mobile_platform, request_for, Platform, UiEvent};
use foreground_service::guard::ServiceGuard;
use foreground_service::lifecycle::{Action, Event, Phase, PromoteStep};

#[test]
fn window_events_map_to_guard_requests() {
    assert_eq!(request_for(UiEvent::StartRequested), Event::StartRequested);
    assert_eq!(request_for(UiEvent::StopRequested), Event::StopRequested);
}

#[test]
fn start_event_reaches_the_guard_as_a_start_request() {
    let mut guard = ServiceGuard::new();
    assert_eq!(
        forward(&mut guard, UiEvent::StartRequested),
        Action::Perform(PromoteStep::CreateChannel)
    );
    assert!(guard.is_running());
    assert_eq!(forward(&mut guard, UiEvent::StartRequested), Action::Nothing);
}

#[test]
fn stop_event_reaches_the_guard_as_a_stop_request() {
    let mut guard = ServiceGuard::new();
    assert_eq!(forward(&mut guard, UiEvent::StopRequested), Action::Nothing);
    forward(&mut guard, UiEvent::StartRequested);
    assert_eq!(forward(&mut guard, UiEvent::StopRequested), Action::Signalled);
    assert_eq!(guard.stop_signal().len(), 1);
    assert_eq!(guard.phase(), Phase::Promoting(PromoteStep::CreateChannel));
}

#[test]
fn presentation_flag_follows_the_platform() {
    assert!(is_mobile_platform(Platform::Android));
    assert!(!is_mobile_platform(Platform::Desktop));
}

//! The bridge between the window and the guard: two events that the window
//! raises, and one flag that it is given when it is created.

use vstd::prelude::*;
use crate::guard::{step, ServiceGuard};
use crate::lifecycle::{Action, Event};
use crate::signal::{handed_over, one_channel};

verus! {

/// An event raised by the window. Neither carries data, and neither has
/// an answer that the window waits for.
#[derive(Clone, Copy, Debug, PartialEq, Eq, Structural)]
pub enum UiEvent {
    /// The user asked for the service to start.
    StartRequested,
    /// The user asked for the service to stop.
    StopRequested,
}

/// Where the window runs.
#[derive(Clone, Copy, Debug, PartialEq, Eq, Structural)]
pub enum Platform {
    /// The mobile platform, which has foreground services.
    Android,
    /// Anywhere else.
    Desktop,
}

/// The guard request that a window event stands for.
pub open spec fn request_of(event: UiEvent) -> Event {
    match event {
        UiEvent::StartRequested => Event::StartRequested,
        UiEvent::StopRequested => Event::StopRequested,
    }
}

/// The request that the guard is to take for a window event.
pub fn request_for(event: UiEvent) -> (request: Event)
    ensures
        request == request_of(event),
{
    match event {
        UiEvent::StartRequested => Event::StartRequested,
        UiEvent::StopRequested => Event::StopRequested,
    }
}

/// Forwards a window event to the guard: a start event becomes a start
/// request, a stop event a stop request, and nothing else reaches the guard.
pub fn forward(guard: &mut ServiceGuard, event: UiEvent) -> (action: Action)
    ensures
        (final(guard)@, action) == step(old(guard)@, request_of(event)),
        final(guard).receiving_end() == old(guard).receiving_end(),
        one_channel(final(guard).sending_end(), final(guard).receiving_end()),
        handed_over(final(guard).sending_end()) == handed_over(old(guard).sending_end()) + (
        if action == Action::Signalled {
            1nat
        } else {
            0nat
        }),
        action != Action::Signalled ==> final(guard).sending_end() == old(guard).sending_end(),
        event == UiEvent::StartRequested ==> action == Action::Nothing || action is Perform,
        event == UiEvent::StopRequested ==> action == Action::Nothing || action
            == Action::Signalled,
{
    match event {
        UiEvent::StartRequested => guard.request_start(),
        UiEvent::StopRequested => guard.request_stop(),
    }
}

/// The presentation flag that the window is given when it is created:
/// whether it runs on the mobile platform.
pub fn is_mobile_platform(platform: Platform) -> (flag: bool)
    ensures
        flag <==> platform == Platform::Android,
{
    match platform {
        Platform::Android => true,
        Platform::Desktop => false,
    }
}

} // verus!

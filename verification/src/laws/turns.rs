//! What the main loop does, turn by turn.

use crate::run::{next_step, RunAction, RunPhase};
use crate::state::{AnimationState, WindowView};
use vstd::prelude::*;

verus! {

/// In a native window, each turn that begins, at first or after one that ended without a wish to
/// stop, takes in events: it handles those that have come in while the page is animated and the
/// application is not suspended, and waits for some otherwise. So between two calls of the browser
/// engine at the end of a turn, the windowing system is always asked for events.
pub proof fn turns_of_native_windows_take_in_events(window: WindowView, phase: RunPhase)
    requires
        window.headless is None,
        phase == RunPhase::Begin || phase == RunPhase::Called || phase == RunPhase::Unblocked,
    ensures
        ({
            let is_drawing = window.animation_state == AnimationState::Animating
                && !window.suspended;
            next_step(window, phase, false) == if is_drawing {
                (RunPhase::Polled, RunAction::PollEvents)
            } else {
                (RunPhase::EventHandled, RunAction::WaitForEvents)
            }
        }),
{
}

/// In a headless window, each turn calls the browser engine, after five milliseconds if there is
/// nothing to do.
pub proof fn turns_of_headless_windows_call_servo(
    window: WindowView,
    later: WindowView,
    phase: RunPhase,
    stop: bool,
)
    requires
        window.headless is Some,
        phase == RunPhase::Begin || phase == RunPhase::Called || phase == RunPhase::Unblocked,
    ensures
        ({
            let (next, action) = next_step(window, phase, false);
            if window.events.len() == 0 {
                &&& action == RunAction::Sleep(5)
                &&& next_step(later, next, stop) == (RunPhase::Called, RunAction::CallServo)
            } else {
                &&& action == RunAction::CallServo
                &&& next == RunPhase::Called
            }
        }),
{
}

/// Once the events that had come in are handled, or the time to wait is over, the browser engine is
/// called whatever happened, and the turn ends.
pub proof fn polling_and_sleeping_lead_to_servo(window: WindowView, phase: RunPhase, stop: bool)
    requires
        phase == RunPhase::Polled || phase == RunPhase::Slept,
    ensures
        next_step(window, phase, stop) == (RunPhase::Called, RunAction::CallServo),
{
}

/// A turn that ends with a wish to stop ends the loop.
pub proof fn wish_to_stop_ends_the_loop(window: WindowView, phase: RunPhase)
    requires
        phase == RunPhase::Called || phase == RunPhase::Unblocked,
    ensures
        next_step(window, phase, true).1 == RunAction::Exit,
{
}

/// While the loop waits, an event that leaves something to report makes it call the browser engine
/// once, unless the application is suspended.
pub proof fn events_are_reported_while_waiting(window: WindowView, stop: bool)
    ensures
        next_step(window, RunPhase::EventHandled, stop) == (
            RunPhase::CalledOnEvent,
            RunAction::CallServo,
        ) <==> window.events.len() > 0 && !window.suspended,
{
}

/// After an event that was reported, and after one that was not to be, the wait ends if the browser
/// engine wants to stop or the page is animated and not suspended, and goes on otherwise.
pub proof fn waiting_goes_on_until_something_is_to_do(
    window: WindowView,
    phase: RunPhase,
    stop: bool,
)
    requires
        phase == RunPhase::CalledOnEvent || (phase == RunPhase::EventHandled && (
        window.events.len() == 0 || window.suspended)),
    ensures
        ({
            let is_drawing = window.animation_state == AnimationState::Animating
                && !window.suspended;
            next_step(window, phase, stop) == if stop || is_drawing {
                (RunPhase::Unblocked, RunAction::StopWaiting)
            } else {
                (RunPhase::EventHandled, RunAction::KeepWaiting)
            }
        }),
{
}

} // verus!

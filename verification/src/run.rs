//! The main loop, one step at a time.
//!
//! The loop alternates between the windowing system, the browser engine and its own decisions.
//! A caller keeps the phase of the loop and what the browser engine returned last, asks for the
//! next step, does what the step says, and asks again.

use crate::state::WindowView;
use crate::window::Window;
use vstd::prelude::*;

verus! {

/// How far the loop has come.
#[derive(Clone, Copy, Debug, PartialEq, Eq, Structural)]
pub enum RunPhase {
    /// A turn of the loop begins.
    Begin,
    /// The events that had come in were handled.
    Polled,
    /// The time to wait is over.
    Slept,
    /// The browser engine was called, and the turn ends.
    Called,
    /// While waiting for events, one came in and was handled.
    EventHandled,
    /// While waiting for events, the browser engine was called.
    CalledOnEvent,
    /// The wait for events ended.
    Unblocked,
}

/// What to do next.
#[derive(Clone, Copy, Debug, PartialEq, Eq, Structural)]
pub enum RunAction {
    /// Handle the events that have come in, and go on at once.
    PollEvents,
    /// Wait for events, and go on whenever one was handled.
    WaitForEvents,
    /// Go on waiting for events.
    KeepWaiting,
    /// Stop waiting for events.
    StopWaiting,
    /// Wait for some milliseconds.
    Sleep(u64),
    /// Call the browser engine, and note whether it wants to stop.
    CallServo,
    /// Leave the loop.
    Exit,
}

/// The milliseconds that a headless window waits for if there is nothing to do, so as not to
/// keep a processor busy.
pub const IDLE_MILLIS: u64 = 5;

/// The start of a turn. While the page is animated, drawing a frame takes up the time; otherwise
/// the loop waits for something to happen.
pub open spec fn begin_turn(window: WindowView) -> (RunPhase, RunAction) {
    if window.headless is Some {
        if window.events.len() == 0 {
            (RunPhase::Slept, RunAction::Sleep(IDLE_MILLIS))
        } else {
            (RunPhase::Called, RunAction::CallServo)
        }
    } else if window.is_animating() {
        (RunPhase::Polled, RunAction::PollEvents)
    } else {
        (RunPhase::EventHandled, RunAction::WaitForEvents)
    }
}

/// The end of a turn.
pub open spec fn end_turn(window: WindowView, stop: bool) -> (RunPhase, RunAction) {
    if stop {
        (RunPhase::Begin, RunAction::Exit)
    } else {
        begin_turn(window)
    }
}

/// After an event, the wait goes on unless the loop is to stop or the page is animated.
pub open spec fn after_event(window: WindowView, stop: bool) -> (RunPhase, RunAction) {
    if stop || window.is_animating() {
        (RunPhase::Unblocked, RunAction::StopWaiting)
    } else {
        (RunPhase::EventHandled, RunAction::KeepWaiting)
    }
}

/// The next step, and the phase that it leads to.
pub open spec fn next_step(window: WindowView, phase: RunPhase, stop: bool) -> (
    RunPhase,
    RunAction,
) {
    match phase {
        RunPhase::Begin => begin_turn(window),
        RunPhase::Polled => (RunPhase::Called, RunAction::CallServo),
        RunPhase::Slept => (RunPhase::Called, RunAction::CallServo),
        RunPhase::Called => end_turn(window, stop),
        RunPhase::EventHandled => if window.events.len() > 0 && !window.suspended {
            (RunPhase::CalledOnEvent, RunAction::CallServo)
        } else {
            after_event(window, stop)
        },
        RunPhase::CalledOnEvent => after_event(window, stop),
        RunPhase::Unblocked => end_turn(window, stop),
    }
}

impl Window {
    fn begin_turn(&self) -> (step: (RunPhase, RunAction))
        ensures
            step == begin_turn(self@),
    {
        if self.is_headless() {
            if !self.has_events() {
                (RunPhase::Slept, RunAction::Sleep(IDLE_MILLIS))
            } else {
                (RunPhase::Called, RunAction::CallServo)
            }
        } else if self.is_animating() {
            (RunPhase::Polled, RunAction::PollEvents)
        } else {
            (RunPhase::EventHandled, RunAction::WaitForEvents)
        }
    }

    fn end_turn(&self, stop: bool) -> (step: (RunPhase, RunAction))
        ensures
            step == end_turn(self@, stop),
    {
        if stop {
            (RunPhase::Begin, RunAction::Exit)
        } else {
            self.begin_turn()
        }
    }

    fn after_event(&self, stop: bool) -> (step: (RunPhase, RunAction))
        ensures
            step == after_event(self@, stop),
    {
        if stop || self.is_animating() {
            (RunPhase::Unblocked, RunAction::StopWaiting)
        } else {
            (RunPhase::EventHandled, RunAction::KeepWaiting)
        }
    }

    /// The next step of the main loop, and the phase to ask for the one after it with. `stop` is
    /// what the browser engine returned last, and `false` before it was called.
    pub fn run(&self, phase: RunPhase, stop: bool) -> (step: (RunPhase, RunAction))
        ensures
            step == next_step(self@, phase, stop),
    {
        match phase {
            RunPhase::Begin => self.begin_turn(),
            RunPhase::Polled => (RunPhase::Called, RunAction::CallServo),
            RunPhase::Slept => (RunPhase::Called, RunAction::CallServo),
            RunPhase::Called => self.end_turn(stop),
            RunPhase::EventHandled => {
                if self.has_events() && !self.is_suspended() {
                    (RunPhase::CalledOnEvent, RunAction::CallServo)
                } else {
                    self.after_event(stop)
                }
            },
            RunPhase::CalledOnEvent => self.after_event(stop),
            RunPhase::Unblocked => self.end_turn(stop),
        }
    }
}

} // verus!

//! The window event loop as a small state machine: each window event maps
//! to one renderer call and a continue-or-exit verdict.
use vstd::prelude::*;

verus! {

/// A window-system event, with the id of the window it concerns.
#[derive(Clone, Copy, Debug, PartialEq, Eq, Structural)]
pub enum LoopEvent {
    CloseRequested { window: u64 },
    RedrawRequested { window: u64 },
    /// All pending input events have been handled.
    EventsCleared,
    /// The loop is being torn down.
    LoopDestroyed,
    Other,
}

/// What the loop does in answer to one event.
#[derive(Clone, Copy, Debug, PartialEq, Eq, Structural)]
pub enum LoopAction {
    /// Stop the loop.
    Exit,
    /// Ask the window for a redraw.
    RequestRedraw,
    /// Draw one frame.
    DrawFrame,
    /// Wait for the device to finish all work.
    WaitIdle,
    /// Nothing to do; keep waiting for events.
    Continue,
}

pub open spec fn loop_action(event: LoopEvent, own_window: u64) -> LoopAction {
    match event {
        LoopEvent::CloseRequested { window } => if window == own_window {
            LoopAction::Exit
        } else {
            LoopAction::Continue
        },
        LoopEvent::RedrawRequested { window } => if window == own_window {
            LoopAction::DrawFrame
        } else {
            LoopAction::Continue
        },
        LoopEvent::EventsCleared => LoopAction::RequestRedraw,
        LoopEvent::LoopDestroyed => LoopAction::WaitIdle,
        LoopEvent::Other => LoopAction::Continue,
    }
}

/// Decides what the loop does with `event` for the window `own_window`.
pub fn dispatch(event: LoopEvent, own_window: u64) -> (r: LoopAction)
    ensures
        r == loop_action(event, own_window),
{
    match event {
        LoopEvent::CloseRequested { window } => if window == own_window {
            LoopAction::Exit
        } else {
            LoopAction::Continue
        },
        LoopEvent::RedrawRequested { window } => if window == own_window {
            LoopAction::DrawFrame
        } else {
            LoopAction::Continue
        },
        LoopEvent::EventsCleared => LoopAction::RequestRedraw,
        LoopEvent::LoopDestroyed => LoopAction::WaitIdle,
        LoopEvent::Other => LoopAction::Continue,
    }
}

} // verus!

//! What a window application does with the events that reach it.

use vstd::prelude::*;
use crate::event::Event;

verus! {

/// What the application does in response to an event, besides asking
/// for the next frame.
#[derive(Debug, Clone, Copy, PartialEq, Eq, Structural)]
pub enum WindowAction {
    /// Leave the event loop.
    Exit,
    /// Draw a frame.
    Draw,
    /// Do nothing.
    Ignore,
}

impl Event {
    /// The action that an event asks of the application: a request to
    /// close ends the event loop, a request to redraw draws a frame, and
    /// everything else is left to the widgets.
    pub open spec fn asks(self) -> WindowAction {
        match self {
            Event::CloseRequested => WindowAction::Exit,
            Event::RedrawRequested => WindowAction::Draw,
            _ => WindowAction::Ignore,
        }
    }

    /// The action to take when the window receives this event.
    pub fn window_action(&self) -> (action: WindowAction)
        ensures
            action == self.asks(),
    {
        match self {
            Event::CloseRequested => WindowAction::Exit,
            Event::RedrawRequested => WindowAction::Draw,
            _ => WindowAction::Ignore,
        }
    }
}

} // verus!

//! Input events, as plain values.

use vstd::prelude::*;
use crate::geometry::Point;

verus! {

/// Whether a button went down or came up.
#[derive(Debug, Clone, Copy, PartialEq, Eq, Structural)]
pub enum ElementState {
    Pressed,
    Released,
}

/// The buttons of a pointing device.
#[derive(Debug, Clone, Copy, PartialEq, Eq, Structural)]
pub enum MouseButton {
    Left,
    Right,
    Middle,
    Back,
    Forward,
    Other(u16),
}

/// What a window reports to its widgets.
#[derive(Debug, Clone, Copy, PartialEq, Eq, Structural)]
pub enum Event {
    /// The cursor moved to `position`, relative to the window's top-left corner.
    CursorMoved { position: Point },
    /// A button of the pointing device changed state.
    MouseInput { state: ElementState, button: MouseButton },
    /// The user asked for the window to be closed.
    CloseRequested,
    /// The window's contents have to be drawn again.
    RedrawRequested,
    /// Any other event.
    Other,
}

} // verus!

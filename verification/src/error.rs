//! Errors reported while a window application is set up.

use vstd::prelude::*;

verus! {

/// Possible errors during context initialisation.
#[derive(Debug, Clone, Copy, PartialEq, Eq, Structural)]
pub enum WindowCreationError {
    /// Error while creating the event loop.
    EventLoopCreation,
    /// Error while creating the renderer.
    RendererCreation,
}

impl WindowCreationError {
    /// The text that describes each error to a reader.
    pub open spec fn message_text(self) -> Seq<char> {
        match self {
            WindowCreationError::EventLoopCreation => "Failed to create the event loop."@,
            WindowCreationError::RendererCreation => "Failed to create the renderer."@,
        }
    }

    /// Human-readable description of the error.
    pub fn message(&self) -> (text: String)
        ensures
            text@ == self.message_text(),
    {
        match self {
            WindowCreationError::EventLoopCreation => "Failed to create the event loop.".to_owned(),
            WindowCreationError::RendererCreation => "Failed to create the renderer.".to_owned(),
        }
    }
}

} // verus!

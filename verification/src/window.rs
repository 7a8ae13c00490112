//! The window as a command sees it: the calls that can be made on it, how a
//! call can end, and what a completed call leaves behind.

use crate::geometry::{Position, Size};
use vstd::prelude::*;

verus! {

/// A call that the host is asked to make on its window.
#[derive(Clone, Copy, Debug, PartialEq, Eq, Structural)]
pub enum WindowCall {
    /// Give the window this size.
    SetSize(Size),
    /// Move the window's top-left corner here.
    SetPosition(Position),
    /// Close the window.
    Close,
}

/// How a call ended, as the host reports it back.
#[derive(Debug, PartialEq, Eq)]
pub enum CallOutcome {
    /// The call went through.
    Completed,
    /// The call failed; the text is the host's report of the failure.
    Failed(String),
}

/// What can be observed of a window: whether it is open, and its frame.
pub struct WindowModel {
    pub open: bool,
    pub size: Size,
    pub position: Position,
}

impl WindowCall {
    /// The window after this call has completed on the window `before`. A call
    /// changes what it names and nothing else.
    pub open spec fn effect(self, before: WindowModel) -> WindowModel {
        match self {
            WindowCall::SetSize(size) => WindowModel { size, ..before },
            WindowCall::SetPosition(position) => WindowModel { position, ..before },
            WindowCall::Close => WindowModel { open: false, ..before },
        }
    }

    /// The window after this call has ended with `outcome` on the window
    /// `before`. A call is made whole or not at all: one that failed has
    /// changed nothing.
    pub open spec fn answered(self, before: WindowModel, outcome: CallOutcome) -> WindowModel {
        match outcome {
            CallOutcome::Completed => self.effect(before),
            CallOutcome::Failed(_) => before,
        }
    }
}

} // verus!

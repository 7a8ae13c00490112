//! Closing the window.
//!
//! The command asks for one call and ends well once that call has completed.
//! It has no other way to end: a window that cannot be closed is a fault
//! that stops the host, not an error that the command reports.

use crate::error::CommandError;
use crate::window::{CallOutcome, WindowCall, WindowModel};
use vstd::pervasive::unreached;
use vstd::prelude::*;

verus! {

/// Starts a close command: the one call to make is the one that closes the
/// window.
pub fn begin() -> (call: WindowCall)
    ensures
        call == WindowCall::Close,
{
    WindowCall::Close
}

/// Ends a close command whose call has completed. A host whose call failed
/// does not come here: it stops.
pub fn finish(outcome: CallOutcome) -> (result: Result<(), CommandError>)
    requires
        outcome is Completed,
    ensures
        result == Ok::<(), CommandError>(()),
{
    match outcome {
        CallOutcome::Completed => Ok(()),
        CallOutcome::Failed(_) => unreached(),
    }
}

/// The window that a close command leaves behind when its call completes.
pub open spec fn closed(before: WindowModel) -> WindowModel {
    WindowCall::Close.effect(before)
}

/// After a close command whose call completed the window is no longer open;
/// its frame is as it was.
pub proof fn lemma_close_leaves_window_closed(before: WindowModel)
    ensures
        !closed(before).open,
        closed(before).size == before.size,
        closed(before).position == before.position,
{
}

} // verus!

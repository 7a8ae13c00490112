//! Placing the window when the application starts.

use crate::error::CommandError;
use crate::geometry::Position;
use crate::window::{CallOutcome, WindowCall};
use vstd::prelude::*;

verus! {

/// Starts the placement: the one call to make moves the window's corner to
/// `initial`, wherever the host wants it.
pub fn begin(initial: Position) -> (call: WindowCall)
    ensures
        call == WindowCall::SetPosition(initial),
{
    WindowCall::SetPosition(initial)
}

/// Ends the placement with the outcome of its call. The start goes on either
/// way: a window that could not be moved stays where it came up.
pub fn finish(outcome: CallOutcome) -> (result: Result<(), CommandError>)
    ensures
        result == Ok::<(), CommandError>(()),
{
    match outcome {
        CallOutcome::Completed => Ok(()),
        CallOutcome::Failed(_) => Ok(()),
    }
}

} // verus!

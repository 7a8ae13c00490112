//! What a command reports when it does not succeed.

use vstd::prelude::*;
use vstd::string::*;

verus! {

/// Why a command failed.
#[derive(Debug, PartialEq, Eq)]
pub enum CommandError {
    /// The command was given a position that names no edge.
    InvalidArgument,
    /// A call on the window failed; the text is what the host reported.
    OperationFailed(String),
}

impl CommandError {
    /// The text that stands for this error: a fixed text for a position that
    /// names no edge, the host's own report for a failed call.
    pub open spec fn text(self) -> Seq<char> {
        match self {
            CommandError::InvalidArgument => "Invalid position"@,
            CommandError::OperationFailed(report) => report@,
        }
    }

    /// The message handed to the front end in place of this error.
    pub fn message(&self) -> (message: String)
        ensures
            message@ == self.text(),
    {
        match self {
            CommandError::InvalidArgument => String::from_str("Invalid position"),
            CommandError::OperationFailed(report) => report.clone(),
        }
    }
}

} // verus!

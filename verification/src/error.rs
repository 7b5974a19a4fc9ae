//! Failures of sending a message and of waiting for its response.

use vstd::prelude::*;

verus! {

/// Errors that can occur when sending a message.
#[derive(Debug, PartialEq, Eq, Structural, Hash)]
#[non_exhaustive]
pub enum Error {
    /// The mailbox has been disconnected.
    Disconnected,
    /// Handling of the message was interrupted.
    Interrupted,
    /// Error occurred while wrapping a message.
    Wrapper,
}

impl Error {
    /// The text that describes this error to a reader.
    pub open spec fn description(self) -> Seq<char> {
        match self {
            Error::Disconnected => "mailbox disconnected"@,
            Error::Interrupted => "message handling interrupted"@,
            Error::Wrapper => "wrapper error"@,
        }
    }

    /// Returns the description of this error.
    pub fn message(&self) -> (text: &'static str)
        ensures
            text@ == self.description(),
    {
        match self {
            Error::Disconnected => "mailbox disconnected",
            Error::Interrupted => "message handling interrupted",
            Error::Wrapper => "wrapper error",
        }
    }
}

} // verus!

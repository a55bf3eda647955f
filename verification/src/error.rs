//! Errors that the library itself reports.

use vstd::prelude::*;
use vstd::string::StringExecFns;

verus! {

/// What a command or a search can fail with inside the library.
#[derive(Debug, Clone, Copy, PartialEq, Eq, Structural)]
pub enum Error {
    /// A command was used outside of a guild.
    CommandNotRunInGuild,
    /// The channel has no search tags.
    NoTagsSet,
    /// The lower limit of a timeout range is under the global minimum.
    MinTimeoutTooLow,
    /// The upper limit of a timeout range is over the global maximum.
    MaxTimeoutTooHigh,
}

impl Error {
    /// Text of the error as it is shown to a user.
    pub open spec fn spec_message(self) -> Seq<char> {
        match self {
            Error::CommandNotRunInGuild => "Command must be run in guild"@,
            Error::NoTagsSet => "No tags have been set"@,
            Error::MinTimeoutTooLow => "Minimum timeout is too low"@,
            Error::MaxTimeoutTooHigh => "Maximum timeout is too high"@,
        }
    }

    /// Text of the error as it is shown to a user.
    pub fn message(&self) -> (text: String)
        ensures
            text@ == self.spec_message(),
    {
        match self {
            Error::CommandNotRunInGuild => String::from_str("Command must be run in guild"),
            Error::NoTagsSet => String::from_str("No tags have been set"),
            Error::MinTimeoutTooLow => String::from_str("Minimum timeout is too low"),
            Error::MaxTimeoutTooHigh => String::from_str("Maximum timeout is too high"),
        }
    }
}

} // verus!

//! The errors that the operations of the player report.

use vstd::prelude::*;

verus! {

/// Why an operation was refused.
#[derive(Clone, Copy, Debug, PartialEq, Eq, Structural)]
pub enum PlayerError {
    /// The queue is in a state in which the operation is not legal.
    InvalidState,
    /// A playlist name holds something other than lower-case letters.
    InvalidName,
    /// No playlist is stored under the name.
    NotFound,
    /// A locator could not be turned into a track.
    ResolutionFailed,
    /// Durable storage could not be read or written.
    IoFailure,
}

/// What a member of the guild is told about `error`.
pub open spec fn message_of(error: PlayerError) -> Seq<char> {
    match error {
        PlayerError::InvalidState => "Nothing to do that with right now"@,
        PlayerError::InvalidName => "Must provide a valid name [a-z]"@,
        PlayerError::NotFound => "No queue was saved under that name"@,
        PlayerError::ResolutionFailed => "Error sourcing ffmpeg"@,
        PlayerError::IoFailure => "Could not read or write the saved queue"@,
    }
}

impl PlayerError {
    /// What a member of the guild is told about the error.
    pub fn message(&self) -> (text: &'static str)
        ensures
            text@ == message_of(*self),
    {
        match self {
            PlayerError::InvalidState => "Nothing to do that with right now",
            PlayerError::InvalidName => "Must provide a valid name [a-z]",
            PlayerError::NotFound => "No queue was saved under that name",
            PlayerError::ResolutionFailed => "Error sourcing ffmpeg",
            PlayerError::IoFailure => "Could not read or write the saved queue",
        }
    }

    /// Whether the error is one that a member's input brought about, as
    /// against one of the machine: a wrong state and a wrong name are.
    pub fn is_user_error(&self) -> (user: bool)
        ensures
            user == (*self is InvalidState || *self is InvalidName),
    {
        match self {
            PlayerError::InvalidState | PlayerError::InvalidName => true,
            _ => false,
        }
    }
}

} // verus!

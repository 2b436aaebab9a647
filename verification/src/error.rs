//! The ways in which a run can fail.

use vstd::prelude::*;

verus! {

/// Why a run was given up. Every one of them ends the run: nothing is
/// retried, and the next scheduled run starts over.
#[derive(Debug, Clone, Copy, PartialEq, Eq, Structural)]
pub enum RunError {
    /// The state store holds no refresh token for the music service.
    NoRefreshToken,
    /// The playlist has no track.
    NoLastTrack,
    /// Whoever added the newest track is not on the roster.
    NoNextUser,
    /// The message could not be turned into a request body.
    Encoding,
    /// A call to one of the outside services failed.
    CallFailed,
    /// An event arrived that the run was not waiting for.
    UnexpectedEvent,
}

impl RunError {
    /// The text that describes the error.
    pub open spec fn spec_message(self) -> Seq<char> {
        match self {
            RunError::NoRefreshToken => "no spotify_refresh_token"@,
            RunError::NoLastTrack => "no last_track"@,
            RunError::NoNextUser => "no next_user"@,
            RunError::Encoding => "message encoding failed"@,
            RunError::CallFailed => "external call failed"@,
            RunError::UnexpectedEvent => "unexpected event"@,
        }
    }

    /// The text that describes the error, for the log of the run.
    pub fn message(&self) -> (text: &'static str)
        ensures
            text@ == self.spec_message(),
    {
        match self {
            RunError::NoRefreshToken => "no spotify_refresh_token",
            RunError::NoLastTrack => "no last_track",
            RunError::NoNextUser => "no next_user",
            RunError::Encoding => "message encoding failed",
            RunError::CallFailed => "external call failed",
            RunError::UnexpectedEvent => "unexpected event",
        }
    }
}

} // verus!

use vstd::prelude::*;

verus! {

/// Why an operation on a lobby or on the registry was refused.
#[derive(Clone, Copy, Debug, PartialEq, Eq, Structural)]
pub enum GameError {
    /// No lobby has the code, or the lobby has no such gap.
    NotFound,
    /// The lobby is not in the phase that the operation belongs to.
    InvalidPhase,
    /// The gap to be filled has not been claimed.
    NotClaimed,
    /// The gap to be claimed already has a claimant.
    AlreadyClaimed,
    /// The gap to be filled was claimed by another token.
    WrongClaimant,
    /// No joined player has the token.
    UserNotFound,
    /// The channel had subscribers and yet did not take the event.
    BroadcastFailure,
    /// The template store could not be reached.
    ConfigurationFailure,
}

impl GameError {
    /// The HTTP status under which an error is reported.
    pub open spec fn status(self) -> u16 {
        match self {
            GameError::NotFound | GameError::UserNotFound => 404,
            GameError::InvalidPhase
            | GameError::NotClaimed
            | GameError::AlreadyClaimed
            | GameError::WrongClaimant => 400,
            GameError::BroadcastFailure | GameError::ConfigurationFailure => 500,
        }
    }

    /// The words in which an error is reported.
    pub open spec fn words(self) -> Seq<char> {
        match self {
            GameError::NotFound => "Not found"@,
            GameError::InvalidPhase => "Not allowed in this phase of the game"@,
            GameError::NotClaimed => "Gap not claimed"@,
            GameError::AlreadyClaimed => "Gap already claimed"@,
            GameError::WrongClaimant => "Gap claimed by another user"@,
            GameError::UserNotFound => "User not found"@,
            GameError::BroadcastFailure => "Failed to send user joined message"@,
            GameError::ConfigurationFailure => "Failed to reach the game store"@,
        }
    }

    /// This error in words, for the caller to read.
    pub fn message(self) -> (message: String)
        ensures
            message@ == self.words(),
    {
        match self {
            GameError::NotFound => "Not found".to_string(),
            GameError::InvalidPhase => "Not allowed in this phase of the game".to_string(),
            GameError::NotClaimed => "Gap not claimed".to_string(),
            GameError::AlreadyClaimed => "Gap already claimed".to_string(),
            GameError::WrongClaimant => "Gap claimed by another user".to_string(),
            GameError::UserNotFound => "User not found".to_string(),
            GameError::BroadcastFailure => "Failed to send user joined message".to_string(),
            GameError::ConfigurationFailure => "Failed to reach the game store".to_string(),
        }
    }

    /// The HTTP status under which this error is reported: 404 for what is
    /// absent, 400 for what the caller may not do now, 500 for what failed
    /// on the server's side.
    pub fn status_code(self) -> (code: u16)
        ensures
            code == self.status(),
    {
        match self {
            GameError::NotFound | GameError::UserNotFound => 404,
            GameError::InvalidPhase
            | GameError::NotClaimed
            | GameError::AlreadyClaimed
            | GameError::WrongClaimant => 400,
            GameError::BroadcastFailure | GameError::ConfigurationFailure => 500,
        }
    }
}

} // verus!

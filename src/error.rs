use vstd::prelude::*;

verus! {

/// Every way in which a run of the player can fail.
#[derive(Debug, Clone, Copy, PartialEq, Eq, Structural)]
pub enum PlayError {
    /// The login page holds no anti-forgery token.
    TokenNotFound,
    /// The login form was refused.
    AuthenticationFailed,
    /// A protocol call answered with a non-success status.
    HttpError { status: u16 },
    /// Creating a game answered with a non-success status.
    GameStartFailed { status: u16 },
    /// The persisted answer table cannot be read.
    StorageCorrupt,
    /// The answer table cannot be written.
    StorageWriteError,
    /// A URL of the service cannot be parsed or joined.
    InvalidUrl,
    /// The stored answer for an image is none of the question's suggestions.
    UnknownStoredAnswer,
    /// The feedback names a suggestion that the question does not hold.
    UnknownCorrectSuggestion,
}

} // verus!

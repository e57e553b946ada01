//! The ways in which a game with Akinator can fail.

use vstd::prelude::*;

verus! {

/// An error of the Akinator client.
#[derive(Clone, Copy, PartialEq, Eq, Structural)]
pub enum AkinatorError {
    SessionNotFound,
    ConnectionError,
    QuestionLimitExceeded,
    InvalidResponse,
    UnexpectedError,
    CannotBackAnyMore,
}

/// The text by which each error describes itself.
pub open spec fn error_message(e: AkinatorError) -> Seq<char> {
    match e {
        AkinatorError::SessionNotFound => "Session not found"@,
        AkinatorError::ConnectionError => "Connection error"@,
        AkinatorError::QuestionLimitExceeded => "Question limit exceeded"@,
        AkinatorError::InvalidResponse => "Invalid response"@,
        AkinatorError::UnexpectedError => "Unexpected error"@,
        AkinatorError::CannotBackAnyMore => "Cannot back any more"@,
    }
}

impl AkinatorError {
    /// The human-readable description of the error, as its `Debug` and
    /// `Display` forms print it.
    pub fn message(&self) -> (r: &'static str)
        ensures
            r@ == error_message(*self),
    {
        match self {
            AkinatorError::SessionNotFound => "Session not found",
            AkinatorError::ConnectionError => "Connection error",
            AkinatorError::QuestionLimitExceeded => "Question limit exceeded",
            AkinatorError::InvalidResponse => "Invalid response",
            AkinatorError::UnexpectedError => "Unexpected error",
            AkinatorError::CannotBackAnyMore => "Cannot back any more",
        }
    }
}

} // verus!

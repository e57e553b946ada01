//! Reading the session and the first question out of the page with which
//! the site opens a game.

use vstd::prelude::*;

use crate::akinator::{AkinatorSession, SessionView};
use crate::error::AkinatorError;
use crate::pattern::{capture_first_group, regex_compiles, regex_first_group};

verus! {

/// The pattern whose first group is the session of a game.
pub const SESSION_PATTERN: &'static str = r#"session:\s*'(.+)'"#;

/// The pattern whose first group is the signature of a game's session.
pub const SIGNATURE_PATTERN: &'static str = r#"signature:\s*'(.+)'"#;

/// The pattern whose first group is the text of the first question.
pub const QUESTION_PATTERN: &'static str =
    r#"<p class=\"question-text\" id=\"question-label\">\s*(.+)\s*</p>"#;

/// The session read from the captures of the session and signature
/// patterns.
pub open spec fn session_from(
    session: Option<Option<Seq<char>>>,
    signature: Option<Option<Seq<char>>>,
) -> Result<SessionView, AkinatorError> {
    match session {
        None => Err(AkinatorError::SessionNotFound),
        Some(None) => Err(AkinatorError::UnexpectedError),
        Some(Some(s)) => match signature {
            Some(Some(g)) => Ok(SessionView { session: s, signature: g }),
            _ => Err(AkinatorError::UnexpectedError),
        },
    }
}

/// The question read from the capture of the question pattern.
pub open spec fn question_from(question: Option<Option<Seq<char>>>) -> Result<
    Seq<char>,
    AkinatorError,
> {
    match question {
        Some(Some(q)) => Ok(q),
        _ => Err(AkinatorError::UnexpectedError),
    }
}

/// The session that the page `body` gives: read from the captures of the
/// two patterns, or unexpected when the library refuses one of them.
pub open spec fn body_session(body: Seq<char>) -> Result<SessionView, AkinatorError> {
    if regex_compiles(SESSION_PATTERN@) && regex_compiles(SIGNATURE_PATTERN@) {
        session_from(
            regex_first_group(SESSION_PATTERN@, body),
            regex_first_group(SIGNATURE_PATTERN@, body),
        )
    } else {
        Err(AkinatorError::UnexpectedError)
    }
}

/// The first question that the page `body` gives.
pub open spec fn body_question(body: Seq<char>) -> Result<Seq<char>, AkinatorError> {
    if regex_compiles(QUESTION_PATTERN@) {
        question_from(regex_first_group(QUESTION_PATTERN@, body))
    } else {
        Err(AkinatorError::UnexpectedError)
    }
}

/// The mathematical form of the result of reading a session.
pub open spec fn session_result_view(r: Result<AkinatorSession, AkinatorError>) -> Result<
    SessionView,
    AkinatorError,
> {
    match r {
        Ok(s) => Ok(s@),
        Err(e) => Err(e),
    }
}

/// The mathematical form of the result of reading a text.
pub open spec fn text_result_view(r: Result<String, AkinatorError>) -> Result<
    Seq<char>,
    AkinatorError,
> {
    match r {
        Ok(s) => Ok(s@),
        Err(e) => Err(e),
    }
}

/// The session of a game from the captures of the session pattern and the
/// signature pattern: no match of the first means no session; a missing
/// group or no signature is unexpected.
pub fn session_from_captures(
    session: Option<Option<String>>,
    signature: Option<Option<String>>,
) -> (r: Result<AkinatorSession, AkinatorError>)
    ensures
        session_result_view(r) == session_from(session.deep_view(), signature.deep_view()),
{
    let session = match session {
        None => {
            return Err(AkinatorError::SessionNotFound);
        },
        Some(None) => {
            return Err(AkinatorError::UnexpectedError);
        },
        Some(Some(s)) => s,
    };
    let signature = match signature {
        Some(Some(g)) => g,
        _ => {
            return Err(AkinatorError::UnexpectedError);
        },
    };
    Ok(AkinatorSession { session, signature })
}

/// The first question from the capture of the question pattern.
pub fn question_from_capture(question: Option<Option<String>>) -> (r: Result<String, AkinatorError>)
    ensures
        text_result_view(r) == question_from(question.deep_view()),
{
    match question {
        Some(Some(q)) => Ok(q),
        _ => Err(AkinatorError::UnexpectedError),
    }
}

/// Reads the session and its signature out of the page that opens a game.
/// Should the regular expression library refuse a pattern, the error is
/// unexpected.
pub fn session_from_body(body: &str) -> (r: Result<AkinatorSession, AkinatorError>)
    ensures
        session_result_view(r) == body_session(body@),
{
    let session = match capture_first_group(SESSION_PATTERN, body) {
        Ok(c) => c,
        Err(_) => {
            return Err(AkinatorError::UnexpectedError);
        },
    };
    let signature = match capture_first_group(SIGNATURE_PATTERN, body) {
        Ok(c) => c,
        Err(_) => {
            return Err(AkinatorError::UnexpectedError);
        },
    };
    session_from_captures(session, signature)
}

/// Reads the first question out of the page that opens a game. Should the
/// regular expression library refuse the pattern, the error is unexpected.
pub fn get_question_from_body(body: &str) -> (r: Result<String, AkinatorError>)
    ensures
        text_result_view(r) == body_question(body@),
{
    match capture_first_group(QUESTION_PATTERN, body) {
        Ok(c) => question_from_capture(c),
        Err(_) => Err(AkinatorError::UnexpectedError),
    }
}

/// A page whose session pattern does not match has no session; a page
/// whose session and signature are both captured gives exactly those two
/// texts; every other shape of captures is unexpected.
pub proof fn law_session_comes_from_its_captures(
    session: Option<Option<Seq<char>>>,
    signature: Option<Option<Seq<char>>>,
)
    ensures
        session is None ==> session_from(session, signature) == Err::<SessionView, AkinatorError>(
            AkinatorError::SessionNotFound,
        ),
        (session is Some && session->0 is Some && signature is Some && signature->0 is Some)
            ==> session_from(session, signature) == Ok::<SessionView, AkinatorError>(
            SessionView { session: session->0->0, signature: signature->0->0 },
        ),
        session is Some && !(session matches Some(Some(_)) && signature matches Some(Some(_)))
            ==> session_from(session, signature) == Err::<SessionView, AkinatorError>(
            AkinatorError::UnexpectedError,
        ),
{
}

/// The first question is exactly the captured text, and a page without it
/// is unexpected.
pub proof fn law_question_comes_from_its_capture(question: Option<Option<Seq<char>>>)
    ensures
        question matches Some(Some(q)) ==> question_from(question) == Ok::<Seq<char>, AkinatorError>(q),
        !(question matches Some(Some(_))) ==> question_from(question) == Err::<
            Seq<char>,
            AkinatorError,
        >(AkinatorError::UnexpectedError),
{
}

} // verus!

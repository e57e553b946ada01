//! What the GitHub client decides: which personal access tokens it takes,
//! the header that carries one, and what a GraphQL response amounts to.

use vstd::prelude::*;

use crate::text::{has_prefix, starts_with};
use crate::web::{header_value_accepts, valid_header_text};

verus! {

/// The prefix of every personal access token.
pub const PAT_PREFIX: &'static str = "ghp_";

/// A personal access token of GitHub.
pub struct Pat {
    token: String,
}

/// The refusal of a text that is no personal access token.
#[derive(Clone, Copy, PartialEq, Eq, Structural)]
pub enum PatError {
    InvalidPersonalAccessToken,
}

impl PatError {
    /// The description of the refusal.
    pub fn message(&self) -> (r: &'static str)
        ensures
            r@ == "Invalid personal access token"@,
    {
        "Invalid personal access token"
    }
}

/// The refusal of a text that cannot be an HTTP header value.
#[derive(Clone, Copy, Debug, PartialEq, Eq, Structural)]
pub enum HeaderError {
    InvalidHeaderValue,
}

impl HeaderError {
    /// The description of the refusal.
    pub fn message(&self) -> (r: &'static str)
        ensures
            r@ == "failed to parse header value"@,
    {
        "failed to parse header value"
    }
}

impl Clone for Pat {
    fn clone(&self) -> (r: Self)
        ensures
            r@ == self@,
    {
        proof {
            use_type_invariant(self);
        }
        Pat { token: self.token.clone() }
    }
}

impl View for Pat {
    type V = Seq<char>;

    closed spec fn view(&self) -> Seq<char> {
        self.token@
    }
}

impl Pat {
    #[verifier::type_invariant]
    spec fn well_formed(self) -> bool {
        has_prefix(self.token@, PAT_PREFIX@)
    }

    /// Takes `s` as a personal access token; refuses it unless it starts
    /// with `ghp_`.
    pub fn from_str(s: &str) -> (r: Result<Pat, PatError>)
        ensures
            r is Ok <==> has_prefix(s@, PAT_PREFIX@),
            r matches Ok(p) ==> p@ == s@,
            r matches Err(e) ==> e == PatError::InvalidPersonalAccessToken,
    {
        if !starts_with(s, PAT_PREFIX) {
            return Err(PatError::InvalidPersonalAccessToken);
        }
        Ok(Pat { token: s.to_string() })
    }

    /// The token, which always starts with `ghp_`.
    pub fn token(&self) -> (r: &str)
        ensures
            r@ == self@,
            has_prefix(self@, PAT_PREFIX@),
    {
        proof {
            use_type_invariant(self);
        }
        self.token.as_str()
    }

    /// The value of the `Authorization` header that presents the token;
    /// an error when the token holds a character that a header value cannot.
    pub fn authorization(&self) -> (r: Result<String, HeaderError>)
        ensures
            r is Ok <==> valid_header_text("bearer "@ + self@),
            r matches Ok(v) ==> v@ == "bearer "@ + self@,
            r matches Err(e) ==> e == HeaderError::InvalidHeaderValue,
    {
        let mut s = "bearer ".to_string();
        s.append(self.token.as_str());
        if header_value_accepts(s.as_str()) {
            Ok(s)
        } else {
            Err(HeaderError::InvalidHeaderValue)
        }
    }
}

/// Why a GraphQL response yields no data.
#[derive(Clone, Copy, Debug, PartialEq, Eq, Structural)]
pub enum GraphqlError {
    /// The response reports errors.
    QueryFailed,
    /// The response has neither data nor errors.
    UnexpectedFormat,
}

/// What a GraphQL response with `data` amounts to, given whether it reports
/// errors: the data when there are data and no errors; otherwise a failure,
/// and reported errors take precedence over data.
pub fn query_outcome<D>(data: Option<D>, has_errors: bool) -> (r: Result<D, GraphqlError>)
    ensures
        has_errors ==> r == Err::<D, GraphqlError>(GraphqlError::QueryFailed),
        !has_errors && data is None ==> r == Err::<D, GraphqlError>(GraphqlError::UnexpectedFormat),
        !has_errors && data is Some ==> r == Ok::<D, GraphqlError>(data->0),
{
    match (data, has_errors) {
        (Some(d), false) => Ok(d),
        (_, true) => Err(GraphqlError::QueryFailed),
        _ => Err(GraphqlError::UnexpectedFormat),
    }
}

} // verus!

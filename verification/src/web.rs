//! Parsing absolute URLs with the `Url` type that `reqwest` re-exports.

use vstd::prelude::*;

verus! {

/// What `reqwest::Url::parse` makes of `input`: `None` when it refuses the
/// text, otherwise the serialization of the parsed URL (what `Display` and
/// `String::from` give for it).
pub uninterp spec fn parsed_url(input: Seq<char>) -> Option<Seq<char>>;

/// Parses `input` with `reqwest::Url::parse` and returns the serialization
/// of the result. The contract claims that the result is `parsed_url` of the
/// input.
#[verifier::external_body]
pub(crate) fn parse_url(input: &str) -> (r: Option<String>)
    ensures
        r.deep_view() == parsed_url(input@),
{
    match reqwest::Url::parse(input) {
        Ok(u) => Some(String::from(u)),
        Err(_) => None,
    }
}

/// What `reqwest::Url::join` gives for the URL that `reqwest::Url::parse`
/// makes of `base`, joined with `path`: `None` when either refuses,
/// otherwise the serialization of the joined URL.
pub uninterp spec fn joined_url(base: Seq<char>, path: Seq<char>) -> Option<Seq<char>>;

/// Parses `base` with `reqwest::Url::parse`, joins `path` to it with
/// `Url::join` and returns the serialization of the result. The contract
/// claims that the result is `joined_url` of the two texts.
#[verifier::external_body]
pub(crate) fn join_url(base: &str, path: &str) -> (r: Option<String>)
    ensures
        r.deep_view() == joined_url(base@, path@),
{
    match reqwest::Url::parse(base) {
        Err(_) => None,
        Ok(u) => match u.join(path) {
            Ok(j) => Some(String::from(j)),
            Err(_) => None,
        },
    }
}

/// `c` may stand in an HTTP header value: a tab, or any character from the
/// space upwards other than DEL (each byte of its UTF-8 encoding is then a
/// tab or at least a space and not DEL).
pub open spec fn header_char(c: char) -> bool {
    c == '\t' || (' ' <= c && c != '\x7f')
}

/// Every character of `s` may stand in an HTTP header value.
pub open spec fn valid_header_text(s: Seq<char>) -> bool {
    forall|i: int| 0 <= i < s.len() ==> header_char(#[trigger] s[i])
}

/// Whether `reqwest::header::HeaderValue::from_str` accepts `text`. The
/// contract claims what its source shows: it accepts exactly the texts
/// every byte of which is a tab, or at least a space and not DEL.
#[verifier::external_body]
pub(crate) fn header_value_accepts(text: &str) -> (r: bool)
    ensures
        r == valid_header_text(text@),
{
    reqwest::header::HeaderValue::from_str(text).is_ok()
}

} // verus!

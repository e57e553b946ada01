//! Capturing text with a regular expression of the `regex` crate.

use vstd::prelude::*;

verus! {

#[verifier::external_type_specification]
#[verifier::external_body]
pub struct ExRegexError(regex::Error);

/// Whether `regex::Regex::new` accepts `pattern` (it refuses malformed
/// patterns and those whose compiled form exceeds its default size limit).
pub uninterp spec fn regex_compiles(pattern: Seq<char>) -> bool;

/// What `regex::Regex::captures` followed by `Captures::get(1)` give for
/// `pattern` on `haystack`: `None` when there is no match; `Some(None)` when
/// the leftmost-first match does not take part in group 1; otherwise the
/// text of group 1 in that match.
pub uninterp spec fn regex_first_group(pattern: Seq<char>, haystack: Seq<char>) -> Option<
    Option<Seq<char>>,
>;

/// Compiles `pattern` with `regex::Regex::new` and applies it to `haystack`
/// with `Regex::captures` and `Captures::get(1)`. The contract claims that
/// compilation succeeds exactly when `regex_compiles` holds and that the
/// captured text is `regex_first_group` of the pattern and the haystack.
#[verifier::external_body]
pub(crate) fn capture_first_group(pattern: &str, haystack: &str) -> (r: Result<
    Option<Option<String>>,
    regex::Error,
>)
    ensures
        r is Ok <==> regex_compiles(pattern@),
        r matches Ok(c) ==> c.deep_view() == regex_first_group(pattern@, haystack@),
{
    match regex::Regex::new(pattern) {
        Err(e) => Err(e),
        Ok(re) => match re.captures(haystack) {
            None => Ok(None),
            Some(caps) => match caps.get(1) {
                None => Ok(Some(None)),
                Some(m) => Ok(Some(Some(m.as_str().to_string()))),
            },
        },
    }
}

} // verus!

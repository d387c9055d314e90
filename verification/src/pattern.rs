//! Searching a text for a regular expression, done by the `regex` crate.

use vstd::prelude::*;

verus! {

/// The access-token cookie with its value, which runs up to the next `;`.
pub const ACCESS_TOKEN_PATTERN: &'static str = "api_access_token=([^;]*)";

/// The anti-forgery marker with its value, which runs up to the closing quote.
pub const CSRF_PATTERN: &'static str = "\"csrfToken\":\"([^\"]*)\"";

/// Whether `pattern` is one of the regular expressions of this crate.
pub open spec fn is_known_pattern(pattern: Seq<char>) -> bool {
    pattern == ACCESS_TOKEN_PATTERN@ || pattern == CSRF_PATTERN@
}

/// The part of `haystack` that the first match of the regular expression
/// `pattern` covers, as the `regex` crate finds it; `None` where nothing in
/// `haystack` matches or `pattern` is not a regular expression it accepts.
pub uninterp spec fn regex_first_match(pattern: Seq<char>, haystack: Seq<char>) -> Option<Seq<char>>;

/// Compiles `pattern` with `regex::Regex::new` and searches `haystack` with
/// `Regex::find`, returning the matched text (`Match::as_str`).
///
/// Nothing is proved of this function. Its contract claims one thing of the
/// `regex` crate: that what is found depends on the two texts alone, so that
/// it can be called `regex_first_match`. A pattern that does not compile gives
/// `None`, as a search without a match does. The claim is made for the
/// patterns of this crate only: whether a large pattern compiles depends on a
/// size limit that need not bite alike on every machine.
#[verifier::external_body]
pub(crate) fn first_match(pattern: &str, haystack: &str) -> (found: Option<String>)
    requires
        is_known_pattern(pattern@),
    ensures
        found.deep_view() == regex_first_match(pattern@, haystack@),
{
    match regex::Regex::new(pattern) {
        Ok(re) => re.find(haystack).map(|m| m.as_str().to_string()),
        Err(_) => None,
    }
}

} // verus!

//! Reading the bearer token and the anti-forgery token out of what the server sent.

use crate::error::{result_view, ApiError, ApiErrorView};
use crate::pattern::{first_match, regex_first_match, ACCESS_TOKEN_PATTERN, CSRF_PATTERN};
use crate::text::{same_text, text_before, trim_ends, before, trimmed};
use vstd::prelude::*;
use vstd::string::StrSliceExecFns;
use vstd::string::StringExecFns;

verus! {

/// The name of the cookie whose value is the bearer token.
pub const ACCESS_TOKEN_COOKIE: &'static str = "api_access_token";

/// What precedes the bearer token in a `Set-Cookie` value.
pub const ACCESS_TOKEN_PREFIX: &'static str = "api_access_token=";

/// What precedes the anti-forgery token in a page that embeds it.
pub const CSRF_PREFIX: &'static str = "\"csrfToken\":\"";

/// The detail of the error reported for a page without the anti-forgery marker.
pub const CSRF_MISSING: &'static str = "no csrf token in the page";

/// The name of the cookie that a `Set-Cookie` value sets: what stands before
/// its first `=`.
pub open spec fn cookie_name_of(raw: Seq<char>) -> Seq<char> {
    before(raw, '=')
}

/// The bearer token in the matched text `name=value`: what follows the name
/// and the `=`.
pub open spec fn access_token_of(matched: Seq<char>) -> Option<Seq<char>> {
    trimmed(matched, ACCESS_TOKEN_PREFIX@.len(), 0)
}

/// The bearer token that a `Set-Cookie` value holds, if it holds one.
pub open spec fn access_token_in(raw: Seq<char>) -> Option<Seq<char>> {
    match regex_first_match(ACCESS_TOKEN_PATTERN@, raw) {
        Some(matched) => access_token_of(matched),
        None => None,
    }
}

/// The anti-forgery token in the matched text `"csrfToken":"value"`: what
/// stands between the marker and the closing quote.
pub open spec fn csrf_token_of(matched: Seq<char>) -> Option<Seq<char>> {
    trimmed(matched, CSRF_PREFIX@.len(), 1)
}

/// The anti-forgery token that a page embeds, if it embeds one.
pub open spec fn csrf_token_in(body: Seq<char>) -> Option<Seq<char>> {
    match regex_first_match(CSRF_PATTERN@, body) {
        Some(matched) => csrf_token_of(matched),
        None => None,
    }
}

/// The anti-forgery token that a page embeds, or the failure to find one.
pub open spec fn csrf_token_or_failure(body: Seq<char>) -> Result<Seq<char>, ApiErrorView> {
    match csrf_token_in(body) {
        Some(token) => Ok(token),
        None => Err(ApiErrorView::CsrfFetchFailure(CSRF_MISSING@)),
    }
}

/// The name of the cookie that the `Set-Cookie` value `raw` sets.
pub fn cookie_name(raw: &str) -> (name: String)
    ensures
        name@ == cookie_name_of(raw@),
{
    text_before(raw, '=')
}

/// Whether the `Set-Cookie` value `raw` sets the access-token cookie.
pub fn names_access_token(raw: &str) -> (named: bool)
    ensures
        named == (cookie_name_of(raw@) == ACCESS_TOKEN_COOKIE@),
{
    let name = cookie_name(raw);
    same_text(name.as_str(), ACCESS_TOKEN_COOKIE)
}

/// Takes the bearer token out of a match of `ACCESS_TOKEN_PATTERN`.
pub fn access_token_of_match(matched: &str) -> (token: Option<String>)
    ensures
        token.deep_view() == access_token_of(matched@),
{
    trim_ends(matched, ACCESS_TOKEN_PREFIX.unicode_len(), 0)
}

/// Takes the anti-forgery token out of a match of `CSRF_PATTERN`.
pub fn csrf_token_of_match(matched: &str) -> (token: Option<String>)
    ensures
        token.deep_view() == csrf_token_of(matched@),
{
    trim_ends(matched, CSRF_PREFIX.unicode_len(), 1)
}

/// Reads the bearer token out of a raw `Set-Cookie` value: the value of the
/// access-token cookie, up to the next `;`. `None` where the value does not
/// hold that cookie.
pub fn extract_access_token(raw: &str) -> (token: Option<String>)
    ensures
        token.deep_view() == access_token_in(raw@),
{
    match first_match(ACCESS_TOKEN_PATTERN, raw) {
        Some(matched) => access_token_of_match(matched.as_str()),
        None => None,
    }
}

/// Reads the anti-forgery token out of a page. A page without the marker is an
/// error: no default is made up.
pub fn extract_csrf_token(body: &str) -> (token: Result<String, ApiError>)
    ensures
        result_view(token) == csrf_token_or_failure(body@),
{
    let found = match first_match(CSRF_PATTERN, body) {
        Some(matched) => csrf_token_of_match(matched.as_str()),
        None => None,
    };
    match found {
        Some(t) => Ok(t),
        None => Err(ApiError::CsrfFetchFailure(String::from_str(CSRF_MISSING))),
    }
}

} // verus!

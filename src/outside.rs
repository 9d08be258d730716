//! The calls into outside crates that the library relies on, each with the
//! contract that its source shows.

use vstd::prelude::*;
use hyper::http::header::InvalidHeaderName;
use hyper::http::uri::InvalidUri;
use hyper::Uri;

verus! {

#[verifier::external_type_specification]
#[verifier::external_body]
pub struct ExUri(hyper::Uri);

#[verifier::external_type_specification]
#[verifier::external_body]
pub struct ExInvalidUri(hyper::http::uri::InvalidUri);

#[verifier::external_type_specification]
#[verifier::external_body]
pub struct ExInvalidHeaderName(hyper::http::header::InvalidHeaderName);

/// Whether a text is accepted by the URI grammar of the `http` crate.
pub uninterp spec fn uri_parses(s: Seq<char>) -> bool;

/// Relies on `Uri::from_str` (the `http` crate, through hyper): the text is
/// parsed as a URI, and whether that succeeds depends on the text alone.
#[verifier::external_body]
pub(crate) fn parse_uri(s: &str) -> (r: Result<Uri, InvalidUri>)
    ensures
        r.is_ok() == uri_parses(s@),
{
    s.parse::<Uri>()
}

/// A character that the `http` crate accepts in a header name.
pub open spec fn is_header_char(c: char) -> bool {
    ('a' <= c <= 'z') || ('A' <= c <= 'Z') || ('0' <= c <= '9') || c == '!' || c == '"' || c
        == '#' || c == '$' || c == '%' || c == '&' || c == '\'' || c == '*' || c == '+' || c
        == '-' || c == '.' || c == '^' || c == '_' || c == '`' || c == '|' || c == '~'
}

/// Code point of a character after ASCII lowercasing.
pub open spec fn ascii_lower_code(c: u32) -> u32 {
    if 65 <= c <= 90 {
        (c + 32) as u32
    } else {
        c
    }
}

/// Relies on `HeaderName::try_from(String)` and `HeaderName::as_str` (the
/// `http` crate, through hyper): a name of 1 to 65535 header characters is
/// accepted and comes back lowercased; anything else is refused.
#[verifier::external_body]
pub(crate) fn parse_header_name(s: String) -> (r: Result<String, InvalidHeaderName>)
    ensures
        r.is_ok() == (0 < s@.len() <= 65535 && forall|i: int|
            0 <= i < s@.len() ==> is_header_char(#[trigger] s@[i])),
        r matches Ok(n) ==> n@.len() == s@.len() && forall|i: int|
            0 <= i < s@.len() ==> #[trigger] n@[i] as u32 == ascii_lower_code(s@[i] as u32),
{
    hyper::http::HeaderName::try_from(s).map(|h| h.as_str().to_string())
}

} // verus!

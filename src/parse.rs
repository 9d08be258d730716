//! Parsers for the policy variants: authentication source, login
//! credentials handler and session endpoint handler.

use vstd::prelude::*;
use hyper::Uri;
use crate::outside::{parse_uri, uri_parses};
use crate::text::{has_prefix_ignore_ascii_case, starts_with_ignore_ascii_case, str_eq, strip_prefix};

verus! {

/// Why a raw configuration value could not be parsed.
#[derive(Debug, Clone, PartialEq, Eq)]
pub enum ParseError {
    /// The value matches none of the accepted words and prefixes.
    InvalidValue,
    /// The endpoint after a callback prefix is no absolute HTTP(S) URI.
    InvalidUri { uri: String },
    /// A header name holds characters that header names cannot hold.
    InvalidHeaderName { name: String },
}

/// An absolute URI with the scheme `http` or `https` (in any case) and a host.
pub open spec fn is_normal_http_uri(s: Seq<char>) -> bool {
    (has_prefix_ignore_ascii_case(s, "http://"@) || has_prefix_ignore_ascii_case(s, "https://"@))
        && uri_parses(s)
}

/// Parses `s` as an absolute HTTP(S) URI.
pub fn parse_normal_http_uri(s: &str) -> (r: Result<Uri, ParseError>)
    ensures
        r.is_ok() == is_normal_http_uri(s@),
        r matches Err(e) ==> (e matches ParseError::InvalidUri { uri } && uri@ == s@),
{
    if !(starts_with_ignore_ascii_case(s, "http://") || starts_with_ignore_ascii_case(
        s,
        "https://",
    )) {
        return Err(ParseError::InvalidUri { uri: s.to_owned() });
    }
    match parse_uri(s) {
        Ok(uri) => Ok(uri),
        Err(_) => Err(ParseError::InvalidUri { uri: s.to_owned() }),
    }
}

/// The part of `s` after a prefix.
pub open spec fn after(s: Seq<char>, prefix: Seq<char>) -> Seq<char> {
    s.subrange(prefix.len() as int, s.len() as int)
}

/// What a parser returns for a `<prefix><url>` value: a callback to the URI
/// where it is one, else the URI error.
pub open spec fn callback_outcome<T>(url: Seq<char>, r: Result<T, ParseError>) -> bool {
    if is_normal_http_uri(url) {
        r.is_ok()
    } else {
        r matches Err(ParseError::InvalidUri { uri }) && uri@ == url
    }
}

/// How incoming requests establish who is making them.
#[derive(Debug, PartialEq, Eq)]
pub enum AuthSource {
    /// Written `none`: no authentication.
    Disabled,
    TobiraSession,
    Callback(Uri),
    TrustAuthHeaders,
}

/// What parsing `s` as an `AuthSource` returns.
pub open spec fn auth_source_parsed(s: Seq<char>, r: Result<AuthSource, ParseError>) -> bool {
    if s == "none"@ {
        r == Ok::<AuthSource, ParseError>(AuthSource::Disabled)
    } else if s == "trust-auth-headers"@ {
        r == Ok::<AuthSource, ParseError>(AuthSource::TrustAuthHeaders)
    } else if s == "tobira-session"@ {
        r == Ok::<AuthSource, ParseError>(AuthSource::TobiraSession)
    } else if "callback:"@.is_prefix_of(s) {
        callback_outcome(after(s, "callback:"@), r) && (r matches Ok(v) ==> v is Callback)
    } else {
        r == Err::<AuthSource, ParseError>(ParseError::InvalidValue)
    }
}

impl AuthSource {
    /// Parses a raw configuration value.
    pub fn try_from(value: String) -> (r: Result<AuthSource, ParseError>)
        ensures
            auth_source_parsed(value@, r),
    {
        let v = value.as_str();
        if str_eq(v, "none") {
            Ok(AuthSource::Disabled)
        } else if str_eq(v, "trust-auth-headers") {
            Ok(AuthSource::TrustAuthHeaders)
        } else if str_eq(v, "tobira-session") {
            Ok(AuthSource::TobiraSession)
        } else if let Some(url) = strip_prefix(v, "callback:") {
            assert(url@ == after(v@, "callback:"@));
            match parse_normal_http_uri(url) {
                Ok(uri) => Ok(AuthSource::Callback(uri)),
                Err(e) => Err(e),
            }
        } else {
            Err(ParseError::InvalidValue)
        }
    }

    pub open spec fn spec_label(&self) -> Seq<char> {
        match self {
            AuthSource::Disabled => "none"@,
            AuthSource::TobiraSession => "tobira-session"@,
            AuthSource::Callback(_) => "callback"@,
            AuthSource::TrustAuthHeaders => "trust-auth-headers"@,
        }
    }

    /// A stable name of the variant, for messages.
    pub fn label(&self) -> (r: &'static str)
        ensures
            r@ == self.spec_label(),
    {
        match self {
            AuthSource::Disabled => "none",
            AuthSource::TobiraSession => "tobira-session",
            AuthSource::Callback(_) => "callback",
            AuthSource::TrustAuthHeaders => "trust-auth-headers",
        }
    }
}

/// Every value that parses as an `AuthSource` gives back, through `label`, the
/// word it was written with; a callback is labelled `callback`.
pub proof fn lemma_auth_source_label(s: Seq<char>, src: AuthSource)
    requires
        auth_source_parsed(s, Ok(src)),
    ensures
        s == "none"@ ==> src == AuthSource::Disabled && src.spec_label() == s,
        s == "trust-auth-headers"@ ==> src == AuthSource::TrustAuthHeaders && src.spec_label() == s,
        s == "tobira-session"@ ==> src == AuthSource::TobiraSession && src.spec_label() == s,
        "callback:"@.is_prefix_of(s) ==> src is Callback && src.spec_label() == "callback"@,
{
    reveal_strlit("none");
    reveal_strlit("trust-auth-headers");
    reveal_strlit("tobira-session");
    reveal_strlit("callback:");
    if "callback:"@.is_prefix_of(s) {
        assert(s.subrange(0, 9) == "callback:"@);
        assert(s.subrange(0, 9)[0] == s[0]);
        assert(s[0] == 'c');
        assert(s != "none"@);
        assert(s != "trust-auth-headers"@);
        assert(s != "tobira-session"@);
    }
}

/// How a user ID and password sent to the login form are checked.
#[derive(Debug, PartialEq, Eq)]
pub enum LoginCredentialsHandler {
    /// Written `none`: the login form is not used.
    Disabled,
    Opencast,
    Callback(Uri),
}

/// What parsing `s` as a `LoginCredentialsHandler` returns.
pub open spec fn login_handler_parsed(
    s: Seq<char>,
    r: Result<LoginCredentialsHandler, ParseError>,
) -> bool {
    if s == "none"@ {
        r == Ok::<LoginCredentialsHandler, ParseError>(LoginCredentialsHandler::Disabled)
    } else if s == "opencast"@ {
        r == Ok::<LoginCredentialsHandler, ParseError>(LoginCredentialsHandler::Opencast)
    } else if "login-callback:"@.is_prefix_of(s) {
        callback_outcome(after(s, "login-callback:"@), r) && (r matches Ok(v) ==> v is Callback)
    } else {
        r == Err::<LoginCredentialsHandler, ParseError>(ParseError::InvalidValue)
    }
}

impl LoginCredentialsHandler {
    /// Parses a raw configuration value.
    pub fn try_from(value: String) -> (r: Result<LoginCredentialsHandler, ParseError>)
        ensures
            login_handler_parsed(value@, r),
    {
        let v = value.as_str();
        if str_eq(v, "none") {
            Ok(LoginCredentialsHandler::Disabled)
        } else if str_eq(v, "opencast") {
            Ok(LoginCredentialsHandler::Opencast)
        } else if let Some(url) = strip_prefix(v, "login-callback:") {
            assert(url@ == after(v@, "login-callback:"@));
            match parse_normal_http_uri(url) {
                Ok(uri) => Ok(LoginCredentialsHandler::Callback(uri)),
                Err(e) => Err(e),
            }
        } else {
            Err(ParseError::InvalidValue)
        }
    }

    pub open spec fn spec_label(&self) -> Seq<char> {
        match self {
            LoginCredentialsHandler::Disabled => "none"@,
            LoginCredentialsHandler::Opencast => "opencast"@,
            LoginCredentialsHandler::Callback(_) => "login-callback"@,
        }
    }

    /// A stable name of the variant, for messages.
    pub fn label(&self) -> (r: &'static str)
        ensures
            r@ == self.spec_label(),
    {
        match self {
            LoginCredentialsHandler::Disabled => "none",
            LoginCredentialsHandler::Opencast => "opencast",
            LoginCredentialsHandler::Callback(_) => "login-callback",
        }
    }
}

/// How requests to the session endpoint are authenticated.
#[derive(Debug, PartialEq, Eq)]
pub enum SessionEndpointHandler {
    /// Written `none`: the session endpoint creates no sessions.
    Disabled,
    Callback(Uri),
    TrustAuthHeaders,
}

/// What parsing `s` as a `SessionEndpointHandler` returns.
pub open spec fn session_handler_parsed(
    s: Seq<char>,
    r: Result<SessionEndpointHandler, ParseError>,
) -> bool {
    if s == "none"@ {
        r == Ok::<SessionEndpointHandler, ParseError>(SessionEndpointHandler::Disabled)
    } else if s == "trust-auth-headers"@ {
        r == Ok::<SessionEndpointHandler, ParseError>(SessionEndpointHandler::TrustAuthHeaders)
    } else if "callback:"@.is_prefix_of(s) {
        callback_outcome(after(s, "callback:"@), r) && (r matches Ok(v) ==> v is Callback)
    } else {
        r == Err::<SessionEndpointHandler, ParseError>(ParseError::InvalidValue)
    }
}

impl SessionEndpointHandler {
    /// Parses a raw configuration value.
    pub fn try_from(value: String) -> (r: Result<SessionEndpointHandler, ParseError>)
        ensures
            session_handler_parsed(value@, r),
    {
        let v = value.as_str();
        if str_eq(v, "none") {
            Ok(SessionEndpointHandler::Disabled)
        } else if str_eq(v, "trust-auth-headers") {
            Ok(SessionEndpointHandler::TrustAuthHeaders)
        } else if let Some(url) = strip_prefix(v, "callback:") {
            assert(url@ == after(v@, "callback:"@));
            match parse_normal_http_uri(url) {
                Ok(uri) => Ok(SessionEndpointHandler::Callback(uri)),
                Err(e) => Err(e),
            }
        } else {
            Err(ParseError::InvalidValue)
        }
    }

    pub open spec fn spec_label(&self) -> Seq<char> {
        match self {
            SessionEndpointHandler::Disabled => "none"@,
            SessionEndpointHandler::Callback(_) => "login-callback"@,
            SessionEndpointHandler::TrustAuthHeaders => "trust-auth-headers"@,
        }
    }

    /// A stable name of the variant, for messages.
    pub fn label(&self) -> (r: &'static str)
        ensures
            r@ == self.spec_label(),
    {
        match self {
            SessionEndpointHandler::Disabled => "none",
            SessionEndpointHandler::Callback(_) => "login-callback",
            SessionEndpointHandler::TrustAuthHeaders => "trust-auth-headers",
        }
    }
}

} // verus!

//! The authentication configuration tree, its cross-field validation, and the
//! resolution of a principal's user role.

use vstd::prelude::*;
use std::time::Duration;
use crate::outside::{ascii_lower_code, is_header_char, parse_header_name};
use crate::parse::{AuthSource, LoginCredentialsHandler, ParseError, SessionEndpointHandler};
use crate::text::{eq_ignore_ascii_case, starts_with, str_eq_ignore_ascii_case};

verus! {

/// A syntactically valid HTTP header name, held in lowercase.
#[derive(Debug, Clone)]
pub struct HeaderName {
    name: String,
}

/// Whether `s` is a valid header name: 1 to 65535 header characters.
pub open spec fn is_header_name(s: Seq<char>) -> bool {
    0 < s.len() <= 65535 && forall|i: int| 0 <= i < s.len() ==> is_header_char(#[trigger] s[i])
}

/// Whether `n` is `s` with its ASCII letters lowercased.
pub open spec fn is_lowercase_of(n: Seq<char>, s: Seq<char>) -> bool {
    n.len() == s.len() && forall|i: int|
        0 <= i < s.len() ==> #[trigger] n[i] as u32 == ascii_lower_code(s[i] as u32)
}

impl View for HeaderName {
    type V = Seq<char>;

    closed spec fn view(&self) -> Seq<char> {
        self.name@
    }
}

impl HeaderName {
    /// Parses a header name; it is kept in lowercase.
    pub fn try_from(s: String) -> (r: Result<HeaderName, ParseError>)
        ensures
            r.is_ok() == is_header_name(s@),
            r matches Ok(h) ==> is_lowercase_of(h@, s@),
            r matches Err(e) ==> (e matches ParseError::InvalidHeaderName { name } && name@ == s@),
    {
        let copy = s.clone();
        match parse_header_name(s) {
            Ok(name) => Ok(HeaderName { name }),
            Err(_) => Err(ParseError::InvalidHeaderName { name: copy }),
        }
    }

    pub fn as_str(&self) -> (r: &str)
        ensures
            r@ == self@,
    {
        self.name.as_str()
    }
}

/// Parses each entry of `names` as a header name, in order; the first entry
/// that is none is the error.
pub fn parse_callback_headers(names: Vec<String>) -> (r: Result<Vec<HeaderName>, ParseError>)
    ensures
        match r {
            Ok(v) => v@.len() == names@.len() && forall|i: int|
                0 <= i < names@.len() ==> is_header_name(names@[i]@) && is_lowercase_of(
                    #[trigger] v@[i]@,
                    names@[i]@,
                ),
            Err(e) => exists|i: int|
                0 <= i < names@.len() && !is_header_name(#[trigger] names@[i]@) && (forall|j: int|
                    0 <= j < i ==> is_header_name(names@[j]@)) && (e matches ParseError::InvalidHeaderName {
                    name,
                } && name@ == names@[i]@),
        },
{
    let mut out: Vec<HeaderName> = Vec::new();
    let mut i: usize = 0;
    while i < names.len()
        invariant
            i <= names@.len(),
            out@.len() == i,
            forall|j: int| 0 <= j < i ==> #[trigger] is_header_name(names@[j]@),
            forall|j: int| 0 <= j < i ==> is_lowercase_of(#[trigger] out@[j]@, names@[j]@),
        decreases names@.len() - i,
    {
        let name = names[i].clone();
        match HeaderName::try_from(name) {
            Ok(h) => out.push(h),
            Err(e) => {
                return Err(e);
            },
        }
        i = i + 1;
    }
    Ok(out)
}

/// A text shown in the interface, given per language as (language, text).
#[derive(Debug, Clone)]
pub struct TranslatedString {
    pub translations: Vec<(String, String)>,
}

/// A shared secret. It is not printed by `Debug`; `expose_secret` is the
/// one way to read it.
pub struct SecretKey {
    secret: String,
}

impl View for SecretKey {
    type V = Seq<char>;

    closed spec fn view(&self) -> Seq<char> {
        self.secret@
    }
}

impl SecretKey {
    pub fn new(secret: String) -> (r: SecretKey)
        ensures
            r@ == secret@,
    {
        SecretKey { secret }
    }

    pub fn expose_secret(&self) -> (r: &str)
        ensures
            r@ == self@,
    {
        self.secret.as_str()
    }
}

/// How sessions of the built-in session management are created.
#[derive(Debug)]
pub struct SessionConfig {
    /// How to create sessions from login credentials (user ID and password).
    pub from_login_credentials: LoginCredentialsHandler,
    /// How requests to the session endpoint are authenticated.
    pub from_session_endpoint: SessionEndpointHandler,
    /// How long a session lasts.
    pub duration: Duration,
}

/// What an authentication callback is sent.
#[derive(Debug)]
pub struct CallbackConfig {
    /// Headers forwarded to the callback.
    pub relevant_headers: Option<Vec<HeaderName>>,
    /// Cookies forwarded to the callback.
    pub relevant_cookies: Option<Vec<String>>,
    /// How long a callback's answer is cached; zero disables caching.
    pub cache_duration: Duration,
}

/// Texts of the built-in login page.
#[derive(Debug, Clone)]
pub struct LoginPageConfig {
    pub user_id_label: Option<TranslatedString>,
    pub password_label: Option<TranslatedString>,
    pub note: Option<TranslatedString>,
}

/// Names of the roles that grant rights, and the prefixes of user roles.
#[derive(Debug, Clone)]
pub struct RoleConfig {
    pub moderator: String,
    pub upload: String,
    pub studio: String,
    pub editor: String,
    pub user_realm: String,
    /// A role that starts with one of these is a user role.
    pub user_role_prefixes: Vec<String>,
}

impl RoleConfig {
    pub open spec fn prefixes(&self) -> Seq<Seq<char>> {
        self.user_role_prefixes@.map_values(|p: String| p@)
    }
}

impl Default for RoleConfig {
    /// The role names that Opencast uses for these rights, and `ROLE_USER_`
    /// as the one user role prefix.
    fn default() -> (r: RoleConfig)
        ensures
            r.moderator@ == "ROLE_TOBIRA_MODERATOR"@,
            r.upload@ == "ROLE_TOBIRA_UPLOAD"@,
            r.studio@ == "ROLE_TOBIRA_STUDIO"@,
            r.editor@ == "ROLE_TOBIRA_EDITOR"@,
            r.user_realm@ == "ROLE_USER"@,
            r.prefixes() == seq!["ROLE_USER_"@],
    {
        let mut user_role_prefixes: Vec<String> = Vec::new();
        user_role_prefixes.push(String::from_str("ROLE_USER_"));
        let r = RoleConfig {
            moderator: String::from_str("ROLE_TOBIRA_MODERATOR"),
            upload: String::from_str("ROLE_TOBIRA_UPLOAD"),
            studio: String::from_str("ROLE_TOBIRA_STUDIO"),
            editor: String::from_str("ROLE_TOBIRA_EDITOR"),
            user_realm: String::from_str("ROLE_USER"),
            user_role_prefixes,
        };
        assert(r.prefixes() =~= seq!["ROLE_USER_"@]);
        r
    }
}

/// Whether `role` starts with one of `prefixes`.
pub open spec fn has_user_role_prefix(prefixes: Seq<Seq<char>>, role: Seq<char>) -> bool {
    exists|k: int| 0 <= k < prefixes.len() && #[trigger] prefixes[k].is_prefix_of(role)
}

/// Authentication and authorization settings.
pub struct AuthConfig {
    /// How incoming requests are authenticated.
    pub source: AuthSource,
    /// Link of the login button; unset, it leads to the built-in login page.
    pub login_link: Option<String>,
    /// Link of the logout button.
    pub logout_link: Option<String>,
    /// Shared secret of trusted external applications.
    pub trusted_external_key: Option<SecretKey>,
    /// Whether users are logged in to Opencast before following links to it.
    pub pre_auth_external_links: bool,
    pub session: SessionConfig,
    pub callback: CallbackConfig,
    pub login_page: LoginPageConfig,
    pub roles: RoleConfig,
}

/// The first rule of a configuration that it breaks.
#[derive(Debug, Clone, Copy, PartialEq, Eq, Structural)]
pub enum ValidationError {
    /// A login link is set together with texts of the built-in login page.
    LoginLinkWithLoginPage,
    /// No logout link, though the source is a callback.
    MissingLogoutLinkForCallback,
    /// No logout link, though the source trusts the auth headers.
    MissingLogoutLinkForTrustAuthHeaders,
    /// A callback is used, but neither relevant headers nor cookies are set.
    CallbackWithoutRelevance,
    /// Relevant headers or cookies are set, but no callback is used.
    RelevanceWithoutCallback,
    /// Relevant cookies are set, though the cookie header is relevant.
    RedundantCookies,
    /// The source is the built-in session, but no way to create one is set.
    NoSessionSource,
    /// A way to create sessions is set, but the source is not the session.
    UnusedSessionSource,
}

impl ValidationError {
    pub open spec fn spec_message(&self) -> Seq<char> {
        match self {
            ValidationError::LoginLinkWithLoginPage => "'auth.login_link' is set, but so are some 'auth.login_page.*' values. That makes no sense."@,
            ValidationError::MissingLogoutLinkForCallback => "'auth.logout_link' is not set, but 'auth.source' is 'callback'. That would mean the logout button does nothing. You have to set a logout link."@,
            ValidationError::MissingLogoutLinkForTrustAuthHeaders => "'auth.logout_link' is not set, but 'auth.source' is 'trust-auth-headers'. That would mean the logout button does nothing. You have to set a logout link."@,
            ValidationError::CallbackWithoutRelevance => "'auth.source' is 'callback', which means 'relevant_headers' and/or 'relevant_cookies' need to be set, but they are not."@,
            ValidationError::RelevanceWithoutCallback => "'auth.source' is not 'callback', but 'relevant_headers' and/or 'relevant_cookies' is set, which makes no sense."@,
            ValidationError::RedundantCookies => "'auth.callback.relevant_headers' contains 'Cookie', so the full cookie header is always included, and thus it makes no sense to set 'auth.callback.relevant_cookies'. But it is set."@,
            ValidationError::NoSessionSource => "'auth.source' is 'tobira-session', but no way to create sessions is configured: set 'auth.session.from_login_credentials' or 'auth.session.from_session_endpoint'"@,
            ValidationError::UnusedSessionSource => "'auth.source' is not 'tobira-session', but 'auth.session.from_login_credentials' or 'auth.session.from_session_endpoint' is set."@,
        }
    }

    /// The text shown to the operator.
    pub fn message(&self) -> (r: &'static str)
        ensures
            r@ == self.spec_message(),
    {
        match self {
            ValidationError::LoginLinkWithLoginPage => "'auth.login_link' is set, but so are some 'auth.login_page.*' values. That makes no sense.",
            ValidationError::MissingLogoutLinkForCallback => "'auth.logout_link' is not set, but 'auth.source' is 'callback'. That would mean the logout button does nothing. You have to set a logout link.",
            ValidationError::MissingLogoutLinkForTrustAuthHeaders => "'auth.logout_link' is not set, but 'auth.source' is 'trust-auth-headers'. That would mean the logout button does nothing. You have to set a logout link.",
            ValidationError::CallbackWithoutRelevance => "'auth.source' is 'callback', which means 'relevant_headers' and/or 'relevant_cookies' need to be set, but they are not.",
            ValidationError::RelevanceWithoutCallback => "'auth.source' is not 'callback', but 'relevant_headers' and/or 'relevant_cookies' is set, which makes no sense.",
            ValidationError::RedundantCookies => "'auth.callback.relevant_headers' contains 'Cookie', so the full cookie header is always included, and thus it makes no sense to set 'auth.callback.relevant_cookies'. But it is set.",
            ValidationError::NoSessionSource => "'auth.source' is 'tobira-session', but no way to create sessions is configured: set 'auth.session.from_login_credentials' or 'auth.session.from_session_endpoint'",
            ValidationError::UnusedSessionSource => "'auth.source' is not 'tobira-session', but 'auth.session.from_login_credentials' or 'auth.session.from_session_endpoint' is set.",
        }
    }
}

impl AuthConfig {
    pub open spec fn login_page_set(&self) -> bool {
        self.login_page.user_id_label is Some || self.login_page.password_label is Some
            || self.login_page.note is Some
    }

    pub open spec fn callback_used(&self) -> bool {
        self.source is Callback || self.session.from_session_endpoint is Callback
    }

    pub open spec fn relevance_set(&self) -> bool {
        self.callback.relevant_headers is Some || self.callback.relevant_cookies is Some
    }

    pub open spec fn cookie_header_relevant(&self) -> bool {
        self.callback.relevant_headers matches Some(v) && exists|i: int|
            0 <= i < v@.len() && eq_ignore_ascii_case(#[trigger] v@[i]@, "cookie"@)
    }

    pub open spec fn session_sources_defined(&self) -> bool {
        !(self.session.from_login_credentials is Disabled)
            || !(self.session.from_session_endpoint is Disabled)
    }

    /// The outcome of validation: the first rule broken, in a fixed order.
    pub open spec fn validation(&self) -> Result<(), ValidationError> {
        if self.login_link is Some && self.login_page_set() {
            Err(ValidationError::LoginLinkWithLoginPage)
        } else if self.logout_link is None && self.source is Callback {
            Err(ValidationError::MissingLogoutLinkForCallback)
        } else if self.logout_link is None && self.source is TrustAuthHeaders {
            Err(ValidationError::MissingLogoutLinkForTrustAuthHeaders)
        } else if self.callback_used() && !self.relevance_set() {
            Err(ValidationError::CallbackWithoutRelevance)
        } else if !self.callback_used() && self.relevance_set() {
            Err(ValidationError::RelevanceWithoutCallback)
        } else if self.cookie_header_relevant() && self.callback.relevant_cookies is Some {
            Err(ValidationError::RedundantCookies)
        } else if self.source is TobiraSession && !self.session_sources_defined() {
            Err(ValidationError::NoSessionSource)
        } else if !(self.source is TobiraSession) && self.session_sources_defined() {
            Err(ValidationError::UnusedSessionSource)
        } else {
            Ok(())
        }
    }

    /// Checks the rules that span several fields; the first one broken is
    /// the error.
    pub fn validate(&self) -> (r: Result<(), ValidationError>)
        ensures
            r == self.validation(),
    {
        let login_page_set = self.login_page.user_id_label.is_some()
            || self.login_page.password_label.is_some() || self.login_page.note.is_some();
        if self.login_link.is_some() && login_page_set {
            return Err(ValidationError::LoginLinkWithLoginPage);
        }
        if self.logout_link.is_none() {
            match self.source {
                AuthSource::Callback(_) => {
                    return Err(ValidationError::MissingLogoutLinkForCallback);
                },
                AuthSource::TrustAuthHeaders => {
                    return Err(ValidationError::MissingLogoutLinkForTrustAuthHeaders);
                },
                _ => {},
            }
        }
        let relevance_set = self.callback.relevant_headers.is_some()
            || self.callback.relevant_cookies.is_some();
        let callback_used = matches!(self.source, AuthSource::Callback(_)) || matches!(
            self.session.from_session_endpoint,
            SessionEndpointHandler::Callback(_)
        );
        if callback_used && !relevance_set {
            return Err(ValidationError::CallbackWithoutRelevance);
        }
        if !callback_used && relevance_set {
            return Err(ValidationError::RelevanceWithoutCallback);
        }
        let cookie_header_relevant = match &self.callback.relevant_headers {
            Some(v) => contains_cookie_header(v),
            None => false,
        };
        if cookie_header_relevant && self.callback.relevant_cookies.is_some() {
            return Err(ValidationError::RedundantCookies);
        }
        let session_sources_defined = !matches!(
            self.session.from_login_credentials,
            LoginCredentialsHandler::Disabled
        ) || !matches!(self.session.from_session_endpoint, SessionEndpointHandler::Disabled);
        let is_session = matches!(self.source, AuthSource::TobiraSession);
        if is_session && !session_sources_defined {
            return Err(ValidationError::NoSessionSource);
        }
        if !is_session && session_sources_defined {
            return Err(ValidationError::UnusedSessionSource);
        }
        Ok(())
    }
}

/// Whether one of `headers` is the cookie header.
fn contains_cookie_header(headers: &Vec<HeaderName>) -> (r: bool)
    ensures
        r == exists|i: int|
            0 <= i < headers@.len() && eq_ignore_ascii_case(#[trigger] headers@[i]@, "cookie"@),
{
    let mut i: usize = 0;
    while i < headers.len()
        invariant
            i <= headers@.len(),
            forall|j: int|
                0 <= j < i ==> !eq_ignore_ascii_case(#[trigger] headers@[j]@, "cookie"@),
        decreases headers@.len() - i,
    {
        if str_eq_ignore_ascii_case(headers[i].as_str(), "cookie") {
            return true;
        }
        i = i + 1;
    }
    false
}

/// What a lookup of a user role reports besides its result.
#[derive(Debug, Clone, Copy, PartialEq, Eq)]
pub enum RoleWarning<'a> {
    /// The principal has no user role, though it needs exactly one.
    NoUserRole { username: &'a str },
    /// The principal has more than one user role: the first two found.
    MultipleUserRoles { username: &'a str, first: &'a str, second: &'a str },
}

impl AuthConfig {
    /// Whether `role` is a user role of this configuration.
    pub open spec fn spec_is_user_role(&self, role: Seq<char>) -> bool {
        has_user_role_prefix(self.roles.prefixes(), role)
    }

    /// `i` is the index of the first user role in `roles`.
    pub open spec fn first_user_role(&self, roles: Seq<&str>, i: int) -> bool {
        0 <= i < roles.len() && self.spec_is_user_role(roles[i]@) && forall|j: int|
            0 <= j < i ==> !self.spec_is_user_role(#[trigger] roles[j]@)
    }

    /// `k` is the index of the next user role after the one at `i`.
    pub open spec fn next_user_role(&self, roles: Seq<&str>, i: int, k: int) -> bool {
        i < k < roles.len() && self.spec_is_user_role(roles[k]@) && forall|j: int|
            i < j < k ==> !self.spec_is_user_role(#[trigger] roles[j]@)
    }

    /// Whether `role` starts with one of the user role prefixes.
    pub fn is_user_role(&self, role: &str) -> (r: bool)
        ensures
            r == self.spec_is_user_role(role@),
    {
        let prefixes = &self.roles.user_role_prefixes;
        let mut k: usize = 0;
        while k < prefixes.len()
            invariant
                prefixes@ == self.roles.user_role_prefixes@,
                k <= prefixes@.len(),
                forall|m: int| 0 <= m < k ==> !(#[trigger] self.roles.prefixes()[m]).is_prefix_of(role@),
            decreases prefixes@.len() - k,
        {
            if starts_with(role, prefixes[k].as_str()) {
                assert(self.roles.prefixes()[k as int].is_prefix_of(role@));
                return true;
            }
            k = k + 1;
        }
        false
    }

    /// Index of the first user role in `roles` at `start` or after it.
    fn next_user_role_from(&self, roles: &[&str], start: usize) -> (r: Option<usize>)
        requires
            start <= roles@.len(),
        ensures
            match r {
                Some(k) => start <= k < roles@.len() && self.spec_is_user_role(roles@[k as int]@)
                    && forall|j: int| start <= j < k ==> !self.spec_is_user_role(#[trigger] roles@[j]@),
                None => forall|j: int|
                    start <= j < roles@.len() ==> !self.spec_is_user_role(#[trigger] roles@[j]@),
            },
    {
        let mut k: usize = start;
        while k < roles.len()
            invariant
                start <= k <= roles@.len(),
                forall|j: int| start <= j < k ==> !self.spec_is_user_role(#[trigger] roles@[j]@),
            decreases roles@.len() - k,
        {
            if self.is_user_role(roles[k]) {
                return Some(k);
            }
            k = k + 1;
        }
        None
    }

    /// The user role among `roles`: the first one in order. Where there is
    /// none, or more than one, a warning says so; with more than one it names
    /// the first two.
    pub fn find_user_role<'a>(&self, username: &'a str, roles: &[&'a str]) -> (r: (
        Option<&'a str>,
        Option<RoleWarning<'a>>,
    ))
        ensures
            match r.0 {
                None => (forall|j: int|
                    0 <= j < roles@.len() ==> !self.spec_is_user_role(#[trigger] roles@[j]@))
                    && r.1 == Some(RoleWarning::NoUserRole { username }),
                Some(role) => exists|i: int|
                    #[trigger] self.first_user_role(roles@, i) && role == roles@[i] && (((forall|
                        k: int,
                    |
                        i < k < roles@.len() ==> !self.spec_is_user_role(#[trigger] roles@[k]@))
                        && r.1 is None) || exists|k: int|
                        #[trigger] self.next_user_role(roles@, i, k) && r.1 == Some(
                            RoleWarning::MultipleUserRoles {
                                username,
                                first: roles@[i],
                                second: roles@[k],
                            },
                        )),
            },
    {
        match self.next_user_role_from(roles, 0) {
            None => (None, Some(RoleWarning::NoUserRole { username })),
            Some(i) => {
                let first = roles[i];
                assert(self.first_user_role(roles@, i as int));
                match self.next_user_role_from(roles, i + 1) {
                    None => (Some(first), None),
                    Some(k) => {
                        assert(self.next_user_role(roles@, i as int, k as int));
                        (
                            Some(first),
                            Some(RoleWarning::MultipleUserRoles { username, first, second: roles[k] }),
                        )
                    },
                }
            },
        }
    }
}

} // verus!

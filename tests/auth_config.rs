use std::time::Duration;

use tobira::config::{
    parse_callback_headers, AuthConfig, CallbackConfig, HeaderName, LoginPageConfig, RoleConfig,
    RoleWarning, SecretKey, SessionConfig, TranslatedString, ValidationError,
};
use tobira::parse::{
    parse_normal_http_uri, AuthSource, LoginCredentialsHandler, ParseError,
    SessionEndpointHandler,
};

fn text(s: &str) -> TranslatedString {
    TranslatedString { translations: vec![("en".to_string(), s.to_string())] }
}

fn uri(s: &str) -> hyper::Uri {
    s.parse().unwrap()
}

fn roles(prefixes: &[&str]) -> RoleConfig {
    RoleConfig {
        moderator: "ROLE_TOBIRA_MODERATOR".to_string(),
        upload: "ROLE_TOBIRA_UPLOAD".to_string(),
        studio: "ROLE_TOBIRA_STUDIO".to_string(),
        editor: "ROLE_TOBIRA_EDITOR".to_string(),
        user_realm: "ROLE_USER".to_string(),
        user_role_prefixes: prefixes.iter().map(|p| p.to_string()).collect(),
    }
}

/// A configuration that breaks no rule.
fn base() -> AuthConfig {
    AuthConfig {
        source: AuthSource::Disabled,
        login_link: None,
        logout_link: None,
        trusted_external_key: None,
        pre_auth_external_links: false,
        session: SessionConfig {
            from_login_credentials: LoginCredentialsHandler::Disabled,
            from_session_endpoint: SessionEndpointHandler::Disabled,
            duration: Duration::from_secs(30 * 24 * 60 * 60),
        },
        callback: CallbackConfig {
            relevant_headers: None,
            relevant_cookies: None,
            cache_duration: Duration::from_secs(5 * 60),
        },
        login_page: LoginPageConfig { user_id_label: None, password_label: None, note: None },
        roles: roles(&["ROLE_USER_"]),
    }
}

fn headers(names: &[&str]) -> Vec<HeaderName> {
    parse_callback_headers(names.iter().map(|s| s.to_string()).collect()).unwrap()
}

#[test]
fn auth_source_literals_parse_and_label() {
    let s = AuthSource::try_from("none".to_string()).unwrap();
    assert_eq!(s, AuthSource::Disabled);
    assert_eq!(s.label(), "none");
    let s = AuthSource::try_from("trust-auth-headers".to_string()).unwrap();
    assert_eq!(s, AuthSource::TrustAuthHeaders);
    assert_eq!(s.label(), "trust-auth-headers");
    let s = AuthSource::try_from("tobira-session".to_string()).unwrap();
    assert_eq!(s, AuthSource::TobiraSession);
    assert_eq!(s.label(), "tobira-session");
    let s = AuthSource::try_from("callback:https://x.example/cb".to_string()).unwrap();
    assert_eq!(s, AuthSource::Callback(uri("https://x.example/cb")));
    assert_eq!(s.label(), "callback");
}

#[test]
fn auth_source_rejects_other_values() {
    assert_eq!(AuthSource::try_from("None".to_string()), Err(ParseError::InvalidValue));
    assert_eq!(AuthSource::try_from("".to_string()), Err(ParseError::InvalidValue));
    assert_eq!(
        AuthSource::try_from("login-callback:https://x.example/cb".to_string()),
        Err(ParseError::InvalidValue)
    );
}

#[test]
fn callback_needs_absolute_http_uri() {
    assert_eq!(
        AuthSource::try_from("callback:ftp://x.example/cb".to_string()),
        Err(ParseError::InvalidUri { uri: "ftp://x.example/cb".to_string() })
    );
    assert_eq!(
        AuthSource::try_from("callback:/cb".to_string()),
        Err(ParseError::InvalidUri { uri: "/cb".to_string() })
    );
    assert_eq!(
        AuthSource::try_from("callback:http://".to_string()),
        Err(ParseError::InvalidUri { uri: "http://".to_string() })
    );
    assert_eq!(
        AuthSource::try_from("callback:https://x.example/a b".to_string()),
        Err(ParseError::InvalidUri { uri: "https://x.example/a b".to_string() })
    );
    assert!(parse_normal_http_uri("HTTP://x.example:8080/cb?q=1").is_ok());
}

#[test]
fn login_handler_needs_login_callback_prefix() {
    assert_eq!(
        LoginCredentialsHandler::try_from("callback:https://x.example/cb".to_string()),
        Err(ParseError::InvalidValue)
    );
    let h = LoginCredentialsHandler::try_from("login-callback:https://x.example/cb".to_string())
        .unwrap();
    assert_eq!(h, LoginCredentialsHandler::Callback(uri("https://x.example/cb")));
    assert_eq!(h.label(), "login-callback");
    let h = LoginCredentialsHandler::try_from("opencast".to_string()).unwrap();
    assert_eq!(h, LoginCredentialsHandler::Opencast);
    assert_eq!(h.label(), "opencast");
    let h = LoginCredentialsHandler::try_from("none".to_string()).unwrap();
    assert_eq!(h, LoginCredentialsHandler::Disabled);
    assert_eq!(h.label(), "none");
}

#[test]
fn session_endpoint_handler_parses() {
    let h = SessionEndpointHandler::try_from("callback:http://x.example/s".to_string()).unwrap();
    assert_eq!(h, SessionEndpointHandler::Callback(uri("http://x.example/s")));
    assert_eq!(h.label(), "login-callback");
    let h = SessionEndpointHandler::try_from("trust-auth-headers".to_string()).unwrap();
    assert_eq!(h, SessionEndpointHandler::TrustAuthHeaders);
    assert_eq!(h.label(), "trust-auth-headers");
    assert_eq!(SessionEndpointHandler::try_from("none".to_string()).unwrap().label(), "none");
    assert_eq!(
        SessionEndpointHandler::try_from("opencast".to_string()),
        Err(ParseError::InvalidValue)
    );
}

#[test]
fn header_names_are_lowercased() {
    let hs = headers(&["Cookie", "X-Forwarded-For"]);
    assert_eq!(hs.len(), 2);
    assert_eq!(hs[0].as_str(), "cookie");
    assert_eq!(hs[1].as_str(), "x-forwarded-for");
}

#[test]
fn invalid_header_name_is_reported() {
    let r = parse_callback_headers(vec!["x-ok".to_string(), "bad header".to_string(), "".to_string()]);
    assert_eq!(r.unwrap_err(), ParseError::InvalidHeaderName { name: "bad header".to_string() });
    assert_eq!(
        HeaderName::try_from(String::new()).unwrap_err(),
        ParseError::InvalidHeaderName { name: String::new() }
    );
    assert!(parse_callback_headers(vec![]).unwrap().is_empty());
}

#[test]
fn base_configuration_is_valid() {
    assert_eq!(base().validate(), Ok(()));
}

#[test]
fn login_link_excludes_login_page() {
    let mut c = base();
    c.login_link = Some("x".to_string());
    c.login_page.note = Some(text("y"));
    let e = c.validate().unwrap_err();
    assert_eq!(e, ValidationError::LoginLinkWithLoginPage);
    assert!(e.message().contains("auth.login_link"));

    let mut c = base();
    c.login_link = Some("x".to_string());
    assert_eq!(c.validate(), Ok(()));
}

#[test]
fn trust_auth_headers_needs_logout_link() {
    let mut c = base();
    c.source = AuthSource::TrustAuthHeaders;
    let e = c.validate().unwrap_err();
    assert_eq!(e, ValidationError::MissingLogoutLinkForTrustAuthHeaders);
    assert!(e.message().contains("'trust-auth-headers'"));

    c.logout_link = Some("/logout".to_string());
    assert_eq!(c.validate(), Ok(()));
}

#[test]
fn callback_needs_logout_link_first() {
    let mut c = base();
    c.source = AuthSource::Callback(uri("https://x.example/cb"));
    let e = c.validate().unwrap_err();
    assert_eq!(e, ValidationError::MissingLogoutLinkForCallback);
    assert!(e.message().contains("'callback'"));
}

#[test]
fn callback_relevance_and_cookie_redundancy() {
    let mut c = base();
    c.source = AuthSource::Callback(uri("https://x.example/cb"));
    c.logout_link = Some("/logout".to_string());
    assert_eq!(c.validate(), Err(ValidationError::CallbackWithoutRelevance));

    c.callback.relevant_headers = Some(headers(&["Cookie"]));
    c.callback.relevant_cookies = Some(vec!["sid".to_string()]);
    assert_eq!(c.validate(), Err(ValidationError::RedundantCookies));

    c.callback.relevant_headers = Some(headers(&["Authorization"]));
    assert_eq!(c.validate(), Ok(()));
}

#[test]
fn relevance_without_callback_is_refused() {
    let mut c = base();
    c.callback.relevant_cookies = Some(vec!["sid".to_string()]);
    assert_eq!(c.validate(), Err(ValidationError::RelevanceWithoutCallback));

    c.source = AuthSource::TobiraSession;
    c.session.from_session_endpoint =
        SessionEndpointHandler::Callback(uri("https://x.example/session"));
    assert_eq!(c.validate(), Ok(()));
}

#[test]
fn tobira_session_needs_a_session_source() {
    let mut c = base();
    c.source = AuthSource::TobiraSession;
    let e = c.validate().unwrap_err();
    assert_eq!(e, ValidationError::NoSessionSource);
    assert!(e.message().contains("no way to create sessions"));

    c.session.from_login_credentials = LoginCredentialsHandler::Opencast;
    assert_eq!(c.validate(), Ok(()));
}

#[test]
fn session_source_without_tobira_session_is_refused() {
    let mut c = base();
    c.session.from_login_credentials = LoginCredentialsHandler::Opencast;
    assert_eq!(c.validate(), Err(ValidationError::UnusedSessionSource));
}

#[test]
fn single_user_role_is_found() {
    let c = base();
    let r = c.find_user_role("alice", &["ROLE_ADMIN", "ROLE_USER_ALICE"]);
    assert_eq!(r, (Some("ROLE_USER_ALICE"), None));
}

#[test]
fn ambiguous_user_role_takes_first() {
    let c = base();
    let r = c.find_user_role("bob", &["ROLE_USER_BOB", "ROLE_USER_BOB2"]);
    assert_eq!(
        r,
        (
            Some("ROLE_USER_BOB"),
            Some(RoleWarning::MultipleUserRoles {
                username: "bob",
                first: "ROLE_USER_BOB",
                second: "ROLE_USER_BOB2",
            })
        )
    );
}

#[test]
fn missing_user_role_is_reported() {
    let c = base();
    let r = c.find_user_role("carol", &["ROLE_ADMIN"]);
    assert_eq!(r, (None, Some(RoleWarning::NoUserRole { username: "carol" })));
    let r = c.find_user_role("dave", &[]);
    assert_eq!(r, (None, Some(RoleWarning::NoUserRole { username: "dave" })));
}

#[test]
fn any_prefix_marks_a_user_role() {
    let mut c = base();
    c.roles = roles(&["ROLE_USER_", "ROLE_LDAP_"]);
    assert!(c.is_user_role("ROLE_LDAP_EVE"));
    assert!(c.is_user_role("ROLE_USER_"));
    assert!(!c.is_user_role("ROLE_USER"));
    let r = c.find_user_role("eve", &["ROLE_X", "ROLE_LDAP_EVE", "ROLE_Y", "ROLE_USER_EVE", "ROLE_USER_E2"]);
    assert_eq!(
        r,
        (
            Some("ROLE_LDAP_EVE"),
            Some(RoleWarning::MultipleUserRoles {
                username: "eve",
                first: "ROLE_LDAP_EVE",
                second: "ROLE_USER_EVE",
            })
        )
    );
    c.roles = roles(&[]);
    assert!(!c.is_user_role("ROLE_USER_EVE"));
}

#[test]
fn secret_key_is_read_explicitly() {
    let mut c = base();
    c.trusted_external_key = Some(SecretKey::new("s3cret".to_string()));
    assert_eq!(c.trusted_external_key.as_ref().unwrap().expose_secret(), "s3cret");
}

#[test]
fn default_roles() {
    let r = RoleConfig::default();
    assert_eq!(r.moderator, "ROLE_TOBIRA_MODERATOR");
    assert_eq!(r.upload, "ROLE_TOBIRA_UPLOAD");
    assert_eq!(r.studio, "ROLE_TOBIRA_STUDIO");
    assert_eq!(r.editor, "ROLE_TOBIRA_EDITOR");
    assert_eq!(r.user_realm, "ROLE_USER");
    assert_eq!(r.user_role_prefixes, vec!["ROLE_USER_".to_string()]);
}

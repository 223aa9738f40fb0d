use dioxus_auth::cookie::CookieConfig;
use dioxus_auth::error::AuthError;
use dioxus_auth::server_fn::{Credential, ServerAuthContext};
use dioxus_auth::session::SessionId;

struct NoEngine;

fn cfg() -> CookieConfig {
    CookieConfig { name: "test_sess".into(), ..Default::default() }
}

fn cfg_with_origin() -> CookieConfig {
    CookieConfig {
        name: "test_sess".into(),
        expected_origins: Some(vec!["https://app.example.com".into()]),
        ..Default::default()
    }
}

#[test]
fn cookie_flow_selects_the_issued_session() {
    let engine = NoEngine;
    let cookie_config = cfg();
    let ctx = ServerAuthContext::new(&engine, &cookie_config);
    let set_cookie = ctx.build_set_cookie_header(&SessionId::new("tok1"));
    assert!(set_cookie.contains("test_sess="));
    assert!(set_cookie.contains("HttpOnly"));
    let incoming = format!("foo=bar; {set_cookie}; baz=qux");
    assert_eq!(
        ctx.credential(Some(&incoming), None, None),
        Ok(Some(Credential::Cookie(SessionId::new("tok1"))))
    );
    assert_eq!(ctx.credential(Some("foo=bar"), None, None), Ok(None));
    assert_eq!(ctx.extract_session_id(Some(&incoming)), Some(SessionId::new("tok1")));
    assert!(ctx.build_delete_cookie_header().contains("Max-Age=0"));
}

#[test]
fn mismatched_origin_rejects_cookie_credentials() {
    let engine = NoEngine;
    let cookie_config = cfg_with_origin();
    let ctx = ServerAuthContext::new(&engine, &cookie_config);
    let set_cookie = ctx.build_set_cookie_header(&SessionId::new("tok2"));
    let incoming = format!("foo=bar; {set_cookie}");
    assert_eq!(
        ctx.credential(Some(&incoming), Some("https://evil.example.com"), None),
        Err(AuthError::Csrf)
    );
    assert_eq!(
        ctx.credential(Some(&incoming), None, None),
        Ok(Some(Credential::Cookie(SessionId::new("tok2"))))
    );
    assert_eq!(
        ctx.credential(Some(&incoming), Some("https://app.example.com"), None),
        Ok(Some(Credential::Cookie(SessionId::new("tok2"))))
    );
}

#[test]
fn bearer_credentials_win_and_skip_origin() {
    let engine = NoEngine;
    let cookie_config = cfg_with_origin();
    let ctx = ServerAuthContext::new(&engine, &cookie_config);
    assert_eq!(
        ctx.credential(None, None, Some("Bearer raw_tok")),
        Ok(Some(Credential::Bearer(SessionId::new("raw_tok"))))
    );
    assert_eq!(
        ctx.credential(Some("dioxus_session=wrong_token; other=val"), None, Some("Bearer raw_tok")),
        Ok(Some(Credential::Bearer(SessionId::new("raw_tok"))))
    );
    assert_eq!(
        ctx.credential(None, Some("https://evil.example.com"), Some("Bearer raw_tok")),
        Ok(Some(Credential::Bearer(SessionId::new("raw_tok"))))
    );
    assert_eq!(
        ctx.credential(None, None, Some("Bearer invalid_token")),
        Ok(Some(Credential::Bearer(SessionId::new("invalid_token"))))
    );
}

#[test]
fn no_origin_enforcement_without_expected_origins() {
    let engine = NoEngine;
    let cookie_config = cfg();
    let ctx = ServerAuthContext::new(&engine, &cookie_config);
    let set_cookie = ctx.build_set_cookie_header(&SessionId::new("tok3"));
    let incoming = format!("foo=bar; {set_cookie}");
    assert_eq!(
        ctx.credential(Some(&incoming), Some("https://anything.example.com"), None),
        Ok(Some(Credential::Cookie(SessionId::new("tok3"))))
    );
}

#[test]
fn stored_headers_are_the_fallback() {
    let engine = NoEngine;
    let cookie_config = cfg_with_origin();
    let ctx = ServerAuthContext::from_headers(
        &engine,
        &cookie_config,
        Some("test_sess=stored".to_string()),
        Some("https://evil.example.com".to_string()),
        None,
    );
    assert_eq!(ctx.cookie_header(), Some("test_sess=stored"));
    assert_eq!(ctx.origin_header(), Some("https://evil.example.com"));
    assert_eq!(ctx.authorization_header(), None);
    assert_eq!(ctx.session_id(), Some(SessionId::new("stored")));
    assert_eq!(ctx.credential(None, None, None), Err(AuthError::Csrf));
    assert_eq!(
        ctx.credential(None, Some("https://app.example.com"), None),
        Ok(Some(Credential::Cookie(SessionId::new("stored"))))
    );
    assert_eq!(ctx.extract_session_id(Some("test_sess=given")), Some(SessionId::new("given")));
    assert_eq!(ctx.extract_session_id(None), Some(SessionId::new("stored")));
    assert_eq!(ctx.cookie_config().name, "test_sess");
    assert!(std::ptr::eq(ctx.engine(), &engine));
}

#[test]
fn fresh_context_has_no_headers() {
    let engine = NoEngine;
    let cookie_config = cfg();
    let ctx = ServerAuthContext::new(&engine, &cookie_config);
    assert_eq!(ctx.cookie_header(), None);
    assert_eq!(ctx.origin_header(), None);
    assert_eq!(ctx.authorization_header(), None);
    assert_eq!(ctx.session_id(), None);
    assert_eq!(ctx.credential(None, None, None), Ok(None));
}

#[test]
fn cookie_logout_requires_a_listed_origin() {
    let engine = NoEngine;
    let cookie_config = cfg_with_origin();
    let ctx = ServerAuthContext::new(&engine, &cookie_config);
    let cookie = "test_sess=reg_sess";
    assert_eq!(
        ctx.logout_target(Some(cookie), Some("https://evil.example.com"), None),
        Err(AuthError::Csrf)
    );
    assert_eq!(ctx.logout_target(Some(cookie), None, None), Err(AuthError::Csrf));
    assert_eq!(
        ctx.logout_target(Some(cookie), Some("https://app.example.com"), None),
        Ok(Some(SessionId::new("reg_sess")))
    );
}

#[test]
fn bearer_logout_target_skips_origin() {
    let engine = NoEngine;
    let cookie_config = cfg_with_origin();
    let ctx = ServerAuthContext::new(&engine, &cookie_config);
    assert_eq!(
        ctx.logout_target(None, Some("https://evil.example.com"), Some("Bearer bearer_tok")),
        Ok(Some(SessionId::new("bearer_tok")))
    );
}

#[test]
fn logout_without_credentials_revokes_nothing() {
    let engine = NoEngine;
    let cookie_config = cfg_with_origin();
    let ctx = ServerAuthContext::new(&engine, &cookie_config);
    assert_eq!(ctx.logout_target(None, Some("https://evil.example.com"), None), Ok(None));
    assert_eq!(ctx.logout_target(Some("other=1"), None, None), Ok(None));
}

#[test]
fn logout_with_non_bearer_authorization_uses_the_cookie_header() {
    let engine = NoEngine;
    let cookie_config = cfg();
    let ctx = ServerAuthContext::new(&engine, &cookie_config);
    assert_eq!(
        ctx.logout_target(Some("test_sess=c1"), None, Some("Basic xyz")),
        Ok(Some(SessionId::new("c1")))
    );
}

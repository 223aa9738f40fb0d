use dioxus_auth::server::middleware::require_auth_rejection;
use std::sync::Arc;

use dioxus_auth::cookie::{CookieConfig, SameSite};
use dioxus_auth::error::AuthError;
use dioxus_auth::operations::{AuthEngineHandle, AuthOperations};
use dioxus_auth::server::cookies::{
    request_cookie_token, session_cookie_value, write_session_cookie, ResponseCookies,
};
use dioxus_auth::server::error::{auth_error_status, client_error_parts, ServerError};
use dioxus_auth::server::server_fn::{
    authenticate_headers, engine_answer, blocking_cancelled, check_state_changing_origin, ServerAuthConfig,
    ServerAuthContext,
};
use dioxus_auth::session::SessionId;

#[derive(Debug, Clone, PartialEq)]
struct User {
    id: u64,
}

struct Engine {
    valid: &'static str,
    fail: bool,
}

impl AuthOperations<User> for Engine {
    fn login(&self, _identifier: &str, _password: &str) -> Result<(User, SessionId), AuthError> {
        Ok((User { id: 1 }, SessionId::new(self.valid)))
    }
    fn logout(&self, _session_id: &SessionId) -> Result<(), AuthError> {
        Ok(())
    }
    fn validate(&self, session_id: &SessionId) -> Result<Option<User>, AuthError> {
        if self.fail {
            return Err(AuthError::Internal("store down".into()));
        }
        if session_id.as_str() == self.valid {
            Ok(Some(User { id: 42 }))
        } else {
            Ok(None)
        }
    }
    fn attach_current(&self, _s: &SessionId, _i: &str, _p: &str) -> Result<(), AuthError> {
        Ok(())
    }
    fn change_password(&self, _i: &str, _c: &str, _n: &str) -> Result<(), AuthError> {
        Ok(())
    }
}

fn config(fail: bool) -> ServerAuthConfig<Engine> {
    let cookie = CookieConfig { name: "reg_test_sess".into(), ..Default::default() };
    ServerAuthConfig::new(AuthEngineHandle::from_erased(Arc::new(Engine { valid: "good_token", fail })), cookie)
}

fn headers(values: &[&[u8]]) -> Vec<Vec<u8>> {
    values.iter().map(|v| v.to_vec()).collect()
}

#[test]
fn request_cookie_token_reads_the_named_cookie() {
    assert_eq!(
        request_cookie_token(&headers(&[b"a=1; test_sess=tok"]), "test_sess"),
        Some("tok".to_string())
    );
    assert_eq!(request_cookie_token(&headers(&[b"a=1"]), "test_sess"), None);
    assert_eq!(request_cookie_token(&headers(&[]), "test_sess"), None);
}

#[test]
fn request_cookie_token_last_pair_wins() {
    assert_eq!(
        request_cookie_token(&headers(&[b"test_sess=one", b"x=y; test_sess=two"]), "test_sess"),
        Some("two".to_string())
    );
    assert_eq!(request_cookie_token(&headers(&[b"test_sess=one; test_sess"]), "test_sess"), None);
    assert_eq!(request_cookie_token(&headers(&[b"test_sess="]), "test_sess"), Some(String::new()));
    assert_eq!(
        request_cookie_token(&headers(&[b" test_sess=v=w "]), "test_sess"),
        Some("v=w".to_string())
    );
}

#[test]
fn request_cookie_token_skips_unreadable_values() {
    assert_eq!(
        request_cookie_token(&headers(&[b"test_sess=one", &[b't', b'e', 0xff]]), "test_sess"),
        Some("one".to_string())
    );
    assert_eq!(
        request_cookie_token(&headers(&[b"test_sess=one", b"test_sess=\x01"]), "test_sess"),
        Some("one".to_string())
    );
}

#[test]
fn session_cookie_values() {
    let cfg = CookieConfig { name: "test_sess".into(), ..Default::default() };
    assert_eq!(
        session_cookie_value(&cfg, Some("tok")),
        "test_sess=tok; Path=/; HttpOnly; Secure; SameSite=Lax"
    );
    assert_eq!(
        session_cookie_value(&cfg, None),
        "test_sess=; Path=/; HttpOnly; Secure; SameSite=Lax; Max-Age=0"
    );
    let custom = CookieConfig {
        name: "s".into(),
        path: "/p".into(),
        domain: Some("example.com".into()),
        secure: false,
        http_only: false,
        same_site: SameSite::Strict,
        max_age_secs: Some(5),
        expected_origins: None,
        host_only: false,
    };
    assert_eq!(
        session_cookie_value(&custom, Some("t")),
        "s=t; Path=/p; SameSite=Strict; Max-Age=5; Domain=example.com"
    );
    let host = CookieConfig { host_only: true, ..custom };
    assert_eq!(session_cookie_value(&host, Some("t")), "__Host-s=t; Path=/; Secure; SameSite=Strict; Max-Age=5");
}

#[test]
fn issued_session_cookie_reads_back() {
    let cfg = CookieConfig { name: "test_sess".into(), ..Default::default() };
    let value = session_cookie_value(&cfg, Some("abc"));
    let pair = value.split(';').next().unwrap().as_bytes().to_vec();
    assert_eq!(request_cookie_token(&vec![pair], &cfg.cookie_name()), Some("abc".to_string()));
}

#[test]
fn write_session_cookie_appends_to_the_response() {
    let cfg = CookieConfig { name: "test_sess".into(), ..Default::default() };
    let mut response = ResponseCookies::for_request();
    assert_eq!(write_session_cookie(&mut response, &cfg, Some("tok")), Ok(()));
    assert_eq!(write_session_cookie(&mut response, &cfg, None), Ok(()));
    assert_eq!(
        response.set_cookie,
        vec![
            "test_sess=tok; Path=/; HttpOnly; Secure; SameSite=Lax".to_string(),
            "test_sess=; Path=/; HttpOnly; Secure; SameSite=Lax; Max-Age=0".to_string(),
        ]
    );
}

#[test]
fn write_session_cookie_errors() {
    let cfg = CookieConfig { name: "test_sess".into(), ..Default::default() };
    let mut detached = ResponseCookies::detached();
    assert_eq!(write_session_cookie(&mut detached, &cfg, Some("tok")), Err(ServerError::MissingContext));
    assert!(detached.set_cookie.is_empty());
    let mut response = ResponseCookies::for_request();
    assert_eq!(
        write_session_cookie(&mut response, &cfg, Some("bad\nvalue")),
        Err(ServerError::InvalidCookieValue)
    );
    assert!(response.set_cookie.is_empty());
}

#[test]
fn status_codes() {
    assert_eq!(auth_error_status(&AuthError::InvalidCredentials), 401);
    assert_eq!(auth_error_status(&AuthError::PasswordHashError), 401);
    assert_eq!(auth_error_status(&AuthError::RateLimited), 429);
    assert_eq!(auth_error_status(&AuthError::Csrf), 403);
    assert_eq!(auth_error_status(&AuthError::Internal("x".into())), 500);
    assert_eq!(ServerError::MissingSession.status_code(), 401);
    assert_eq!(ServerError::MissingContext.status_code(), 500);
    assert_eq!(ServerError::AlreadyInitialized.status_code(), 500);
    assert_eq!(ServerError::InvalidCookieValue.status_code(), 500);
    assert_eq!(ServerError::Engine(AuthError::RateLimited).status_code(), 429);
    assert_eq!(ServerError::Engine(AuthError::Csrf).status_code(), 403);
}

#[test]
fn state_changing_origin_check() {
    let cookie = CookieConfig {
        name: "s".into(),
        expected_origins: Some(vec!["https://app.example.com".into()]),
        ..Default::default()
    };
    assert_eq!(check_state_changing_origin(&cookie, Some("https://app.example.com")), Ok(()));
    assert_eq!(
        check_state_changing_origin(&cookie, Some("https://evil.example.com")),
        Err(ServerError::Engine(AuthError::Csrf))
    );
    assert_eq!(check_state_changing_origin(&cookie, None), Err(ServerError::Engine(AuthError::Csrf)));
    assert!(matches!(blocking_cancelled(), ServerError::Engine(AuthError::Internal(_))));
}

#[test]
fn authenticate_headers_resolves_the_user() {
    let cfg = config(false);
    let r = authenticate_headers(&cfg, &headers(&[b"reg_test_sess=good_token"])).unwrap();
    assert_eq!(r, (Some(SessionId::new("good_token")), Some(User { id: 42 })));
}

#[test]
fn authenticate_headers_without_session_is_a_guest() {
    let cfg = config(false);
    assert_eq!(authenticate_headers(&cfg, &headers(&[])).unwrap(), (None, None));
    assert_eq!(authenticate_headers(&cfg, &headers(&[b"other=1"])).unwrap(), (None, None));
    assert_eq!(authenticate_headers(&cfg, &headers(&[b"reg_test_sess=bad\"tok"])).unwrap(), (None, None));
    assert_eq!(
        authenticate_headers(&cfg, &headers(&[b"reg_test_sess=unknown"])).unwrap(),
        (Some(SessionId::new("unknown")), None)
    );
}

#[test]
fn authenticate_headers_reports_engine_failures() {
    let cfg = config(true);
    assert_eq!(
        authenticate_headers(&cfg, &headers(&[b"reg_test_sess=good_token"])),
        Err(ServerError::Engine(AuthError::Internal("store down".into())))
    );
}

#[test]
fn resolved_context_accessors() {
    let cfg = config(false);
    let ctx: ServerAuthContext<Engine, User> =
        ServerAuthContext::resolved(cfg, Some(SessionId::new("good_token")), Some(User { id: 42 }));
    assert!(ctx.is_authenticated());
    assert_eq!(ctx.token(), Some(&SessionId::new("good_token")));
    assert_eq!(ctx.user(), Some(&User { id: 42 }));
    assert_eq!(ctx.config().cookie().name, "reg_test_sess");
    assert_eq!(ctx.engine().engine().valid, "good_token");

    let guest: ServerAuthContext<Engine, User> = ServerAuthContext::resolved(config(false), None, None);
    assert!(!guest.is_authenticated());
    assert_eq!(guest.token(), None);
    assert_eq!(guest.user(), None);
}

#[test]
fn require_auth_admits_only_resolved_users() {
    let cfg = config(false);
    let ok = authenticate_headers(&cfg, &headers(&[b"reg_test_sess=good_token"]));
    assert_eq!(require_auth_rejection(&ok), None);
    let guest = authenticate_headers(&cfg, &headers(&[b"reg_test_sess=unknown"]));
    assert_eq!(require_auth_rejection(&guest), Some(401));
    let none = authenticate_headers(&cfg, &headers(&[]));
    assert_eq!(require_auth_rejection(&none), Some(401));
    let failed = authenticate_headers(&config(true), &headers(&[b"reg_test_sess=good_token"]));
    assert_eq!(require_auth_rejection(&failed), Some(401));
}

#[test]
fn context_login_and_logout_respect_the_origin_gate() {
    let cookie = CookieConfig {
        name: "reg_test_sess".into(),
        expected_origins: Some(vec!["https://app.example.com".into()]),
        ..Default::default()
    };
    let config = ServerAuthConfig::new(
        AuthEngineHandle::from_erased(Arc::new(Engine { valid: "good_token", fail: false })),
        cookie,
    );
    let ctx: ServerAuthContext<Engine, User> = ServerAuthContext::resolved(config, None, None);
    assert_eq!(
        ctx.login(Some("https://evil.example.com"), "a", "b"),
        Err(ServerError::Engine(AuthError::Csrf))
    );
    assert_eq!(ctx.login(None, "a", "b"), Err(ServerError::Engine(AuthError::Csrf)));
    assert_eq!(
        ctx.login(Some("https://app.example.com"), "a", "b"),
        Ok((User { id: 1 }, SessionId::new("good_token")))
    );
    assert_eq!(
        ctx.logout(Some("https://evil.example.com"), &SessionId::new("good_token")),
        Err(ServerError::Engine(AuthError::Csrf))
    );
    assert_eq!(ctx.logout(Some("https://app.example.com"), &SessionId::new("good_token")), Ok(()));
}

#[test]
fn session_cookie_value_same_site_none_is_secure() {
    let cfg = CookieConfig {
        name: "s".into(),
        secure: false,
        same_site: SameSite::Unrestricted,
        max_age_secs: None,
        ..Default::default()
    };
    assert_eq!(session_cookie_value(&cfg, Some("t")), "s=t; Path=/; HttpOnly; Secure; SameSite=None");
}

#[test]
fn client_facing_errors_withhold_internal_details() {
    assert_eq!(client_error_parts(&AuthError::Internal("db at 10.0.0.1 down".into())), (500, true));
    assert_eq!(client_error_parts(&AuthError::Csrf), (403, false));
    assert_eq!(client_error_parts(&AuthError::RateLimited), (429, false));
    assert_eq!(client_error_parts(&AuthError::InvalidCredentials), (401, false));
}

#[test]
fn engine_handles_share_the_engine() {
    let handle = AuthEngineHandle::from_erased(Arc::new(Engine { valid: "v", fail: false }));
    let copy = handle.clone();
    assert!(Arc::ptr_eq(handle.engine(), copy.engine()));
}

#[test]
fn handles_compare_by_engine_identity() {
    let shared = Arc::new(Engine { valid: "v", fail: false });
    let a = AuthEngineHandle::from_erased(Arc::clone(&shared));
    let b = AuthEngineHandle::from_erased(Arc::clone(&shared));
    let other = AuthEngineHandle::from_erased(Arc::new(Engine { valid: "v", fail: false }));
    assert!(a.same_engine(&b));
    assert!(a.same_engine(&a.clone()));
    assert!(!a.same_engine(&other));
}

#[test]
fn engine_answers_are_wrapped() {
    assert_eq!(engine_answer(Ok(3u8)), Ok(3));
    assert_eq!(engine_answer::<u8>(Err(AuthError::Csrf)), Err(ServerError::Engine(AuthError::Csrf)));
}

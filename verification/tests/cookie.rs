use dioxus_auth::context::is_valid_wire_format;
use dioxus_auth::cookie::{CookieConfig, OriginValidation, SameSite};
use dioxus_auth::error::AuthError;
use dioxus_auth::session::SessionId;

fn named(name: &str) -> CookieConfig {
    CookieConfig { name: name.to_string(), ..Default::default() }
}

fn with_origins(name: &str, origins: &[&str]) -> CookieConfig {
    CookieConfig {
        name: name.to_string(),
        expected_origins: Some(origins.iter().map(|o| o.to_string()).collect()),
        ..Default::default()
    }
}

#[test]
fn same_site_attribute_text() {
    assert_eq!(SameSite::Lax.as_str(), "Lax");
    assert_eq!(SameSite::Strict.as_str(), "Strict");
    assert_eq!(SameSite::Unrestricted.as_str(), "None");
}

#[test]
fn default_configuration() {
    let cfg = CookieConfig::default();
    assert_eq!(cfg.name, "dioxus_session");
    assert_eq!(cfg.path, "/");
    assert_eq!(cfg.domain, None);
    assert!(cfg.secure);
    assert!(cfg.http_only);
    assert_eq!(cfg.same_site, SameSite::Lax);
    assert_eq!(cfg.max_age_secs, None);
    assert_eq!(cfg.expected_origins, None);
    assert!(!cfg.host_only);
}

#[test]
fn set_cookie_header_with_defaults() {
    let cfg = named("test_sess");
    let header = cfg.build_set_cookie_header(&SessionId::new("abc123"));
    assert_eq!(header, "test_sess=abc123; Path=/; HttpOnly; Secure; SameSite=Lax");
}

#[test]
fn delete_cookie_header_with_defaults() {
    let cfg = named("test_sess");
    assert_eq!(
        cfg.build_delete_cookie_header(),
        "test_sess=; Path=/; Max-Age=0; HttpOnly; Secure; SameSite=Lax"
    );
}

#[test]
fn set_cookie_header_with_every_attribute_choice() {
    let cfg = CookieConfig {
        name: "sid".to_string(),
        path: "/app".to_string(),
        domain: Some("example.com".to_string()),
        secure: false,
        http_only: false,
        same_site: SameSite::Strict,
        max_age_secs: None,
        expected_origins: None,
        host_only: false,
    };
    assert_eq!(
        cfg.build_set_cookie_header(&SessionId::new("v")),
        "sid=v; Path=/app; Domain=example.com; SameSite=Strict"
    );
    assert_eq!(
        cfg.build_delete_cookie_header(),
        "sid=; Path=/app; Max-Age=0; Domain=example.com; SameSite=Strict"
    );
}

#[test]
fn host_only_cookie_is_prefixed_rooted_and_secure() {
    let cfg = CookieConfig {
        name: "sid".to_string(),
        path: "/app".to_string(),
        domain: Some("example.com".to_string()),
        secure: false,
        http_only: true,
        same_site: SameSite::Unrestricted,
        max_age_secs: Some(60),
        expected_origins: None,
        host_only: true,
    };
    assert_eq!(cfg.cookie_name(), "__Host-sid");
    assert_eq!(
        cfg.build_set_cookie_header(&SessionId::new("t")),
        "__Host-sid=t; Path=/; Max-Age=60; HttpOnly; Secure; SameSite=None"
    );
    assert_eq!(
        cfg.build_delete_cookie_header(),
        "__Host-sid=; Path=/; Max-Age=0; HttpOnly; Secure; SameSite=None"
    );
    assert_eq!(cfg.extract_session_id("sid=plain; __Host-sid=hosted"), Some(SessionId::new("hosted")));
}

#[test]
fn issued_cookie_is_read_back_among_others() {
    let cfg = named("test_sess");
    let set_cookie = cfg.build_set_cookie_header(&SessionId::new("tok-42"));
    assert!(set_cookie.contains("test_sess="));
    assert!(set_cookie.contains("HttpOnly"));
    let incoming = format!("foo=bar; {set_cookie}; baz=qux");
    assert_eq!(cfg.extract_session_id(&incoming), Some(SessionId::new("tok-42")));
    assert_eq!(cfg.extract_session_id("foo=bar"), None);
}

#[test]
fn extraction_trims_and_skips_empty_values() {
    let cfg = named("test_sess");
    assert_eq!(cfg.extract_session_id("  test_sess = abc ;x=y"), Some(SessionId::new("abc")));
    assert_eq!(
        cfg.extract_session_id("test_sess=; test_sess=second"),
        Some(SessionId::new("second"))
    );
    assert_eq!(cfg.extract_session_id("test_sess=first; test_sess=second"), Some(SessionId::new("first")));
    assert_eq!(cfg.extract_session_id("test_sess"), None);
    assert_eq!(cfg.extract_session_id("test_sessX=1; Xtest_sess=2"), None);
    assert_eq!(cfg.extract_session_id("test_sess=a=b"), Some(SessionId::new("a=b")));
    assert_eq!(cfg.extract_session_id(""), None);
}

#[test]
fn origin_classification() {
    let open = named("s");
    assert_eq!(open.validate_origin(Some("https://anything.example.com")), OriginValidation::NotConfigured);
    assert_eq!(open.validate_origin(None), OriginValidation::NotConfigured);

    let cfg = with_origins("s", &["https://app.example.com", "https://admin.example.com"]);
    assert_eq!(cfg.validate_origin(Some("https://app.example.com")), OriginValidation::Matched);
    assert_eq!(cfg.validate_origin(Some("https://admin.example.com")), OriginValidation::Matched);
    assert_eq!(cfg.validate_origin(None), OriginValidation::Missing);
    assert_eq!(
        cfg.validate_origin(Some("https://evil.example.com")),
        OriginValidation::Mismatch { origin: "https://evil.example.com".to_string() }
    );
}

#[test]
fn state_changing_origin_gate() {
    let open = named("s");
    assert_eq!(open.validate_cookie_origin(None), Ok(()));
    assert_eq!(open.validate_cookie_origin(Some("https://evil.example.com")), Ok(()));

    let cfg = with_origins("s", &["https://app.example.com"]);
    assert_eq!(cfg.validate_cookie_origin(Some("https://app.example.com")), Ok(()));
    assert_eq!(cfg.validate_cookie_origin(None), Err(AuthError::Csrf));
    assert_eq!(cfg.validate_cookie_origin(Some("https://evil.example.com")), Err(AuthError::Csrf));
}

#[test]
fn session_id_keeps_its_text() {
    let id = SessionId::new("abc");
    assert_eq!(id.as_str(), "abc");
    assert_eq!(SessionId::from_string("xyz".to_string()).as_str(), "xyz");
}

#[test]
fn wire_tokens_round_trip_through_the_cookie() {
    let cfg = named("sess");
    for token in ["a", "tok-42", "x.y~z", "Zm9vYmFy+/=="] {
        assert!(is_valid_wire_format(token));
        let set_cookie = cfg.build_set_cookie_header(&SessionId::new(token));
        assert_eq!(cfg.extract_session_id(&set_cookie), Some(SessionId::new(token)));
        let header = format!("a=1; other=2;\t {set_cookie}; later=3");
        assert_eq!(cfg.extract_session_id(&header), Some(SessionId::new(token)));
    }
}

#[test]
fn same_site_none_forces_secure() {
    let cfg = CookieConfig {
        name: "sid".to_string(),
        secure: false,
        same_site: SameSite::Unrestricted,
        max_age_secs: None,
        ..Default::default()
    };
    assert_eq!(cfg.build_set_cookie_header(&SessionId::new("v")), "sid=v; Path=/; HttpOnly; Secure; SameSite=None");
    assert_eq!(cfg.build_delete_cookie_header(), "sid=; Path=/; Max-Age=0; HttpOnly; Secure; SameSite=None");
    assert!(cfg.emits_secure());
    let lax = CookieConfig { same_site: SameSite::Lax, ..cfg };
    assert!(!lax.emits_secure());
    assert_eq!(lax.build_set_cookie_header(&SessionId::new("v")), "sid=v; Path=/; HttpOnly; SameSite=Lax");
}

#[test]
fn host_only_ignores_a_shadow_cookie() {
    let cfg = CookieConfig { name: "sid".to_string(), host_only: true, ..Default::default() };
    assert_eq!(cfg.extract_session_id("sid=shadow"), None);
    assert_eq!(cfg.extract_session_id("sid=shadow; __Host-sid=real"), Some(SessionId::new("real")));
}

#[test]
fn same_site_default_is_lax() {
    assert_eq!(SameSite::default(), SameSite::Lax);
    assert_eq!(SameSite::default().as_str(), "Lax");
}

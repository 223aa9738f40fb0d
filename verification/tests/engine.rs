use std::time::Duration;

use dioxus_auth::builder::{AuthEngineBuilder, PasswordHasher, DEFAULT_SESSION_TTL_SECS};
use dioxus_auth::engine::{
    attach_current_outcome, change_password_outcome, login_user, resolve_user, settle_login_user, validate_user,
    AuthSubject, CredentialOutcome, RateRecord, UserStore,
};
use dioxus_auth::error::AuthError;
use dioxus_auth::session::SessionId;

#[derive(Debug, Clone, PartialEq)]
struct Hasher {
    fail: bool,
}

impl PasswordHasher for Hasher {
    fn hash(&self, password: &str) -> Result<String, AuthError> {
        if self.fail {
            Err(AuthError::PasswordHashError)
        } else {
            Ok(format!("$plain${password}"))
        }
    }
    fn verify(&self, password: &str, hash: &str) -> Result<bool, AuthError> {
        Ok(hash == format!("$plain${password}"))
    }
}

#[test]
fn builder_defaults_and_setters() {
    let b: AuthEngineBuilder<Hasher> = AuthEngineBuilder::new();
    assert_eq!(b.session_ttl_secs, DEFAULT_SESSION_TTL_SECS);
    assert_eq!(b.idle_timeout_secs, None);
    assert!(!b.single_active_session);
    let b = b.session_ttl(Duration::from_secs(3600)).idle_timeout(Duration::from_secs(600)).single_active_session(true);
    assert_eq!(b.session_ttl_secs, 3600);
    assert_eq!(b.idle_timeout_secs, Some(600));
    assert!(b.single_active_session);
}

#[test]
fn build_refuses_dead_lifetimes() {
    let zero_ttl = AuthEngineBuilder::new().session_ttl_secs(0).build(Hasher { fail: false });
    assert_eq!(zero_ttl.err(), Some(AuthError::Internal("session TTL must be non-zero".into())));
    let zero_idle = AuthEngineBuilder::new().idle_timeout_secs(0).build(Hasher { fail: false });
    assert_eq!(zero_idle.err(), Some(AuthError::Internal("idle timeout must be non-zero".into())));
}

#[test]
fn build_uses_the_configured_hasher() {
    let settings = AuthEngineBuilder::new()
        .session_ttl_secs(3600)
        .hasher(Hasher { fail: false })
        .build(Hasher { fail: true })
        .unwrap();
    assert_eq!(settings.session_ttl_secs, 3600);
    assert_eq!(settings.hasher, Hasher { fail: false });
    assert_eq!(settings.dummy_hash, "$plain$dioxus-auth-timing-defense-dummy-password-do-not-use");
    let failed = AuthEngineBuilder::new().build(Hasher { fail: true });
    assert_eq!(failed.err(), Some(AuthError::PasswordHashError));
}

struct Users {
    outage: bool,
}

impl UserStore for Users {
    type AppRef = u64;
    type User = String;
    fn resolve(&self, app_ref: &u64) -> Result<Option<String>, AuthError> {
        if self.outage {
            return Err(AuthError::Internal("db down".into()));
        }
        Ok(if *app_ref == 1 { Some("alice".to_string()) } else { None })
    }
}

fn subject(app_ref: Option<u64>) -> AuthSubject<u32, u64> {
    AuthSubject { auth_id: 9, app_ref }
}

#[test]
fn login_resolution_fails_closed() {
    let users = Users { outage: false };
    assert_eq!(resolve_user(&users, &subject(Some(1))), Ok("alice".to_string()));
    assert_eq!(resolve_user(&users, &subject(None)), Err(AuthError::InvalidCredentials));
    assert_eq!(resolve_user(&users, &subject(Some(2))), Err(AuthError::InvalidCredentials));
    assert_eq!(settle_login_user::<u8>(Ok(None)), Err(AuthError::InvalidCredentials));
    assert_eq!(
        login_user(&users, Ok((subject(Some(1)), SessionId::new("t")))),
        Ok(("alice".to_string(), SessionId::new("t")))
    );
    assert_eq!(login_user(&users, Ok((subject(None), SessionId::new("t")))), Err(AuthError::InvalidCredentials));
    assert_eq!(login_user::<u32, Users>(&users, Err(AuthError::RateLimited)), Err(AuthError::RateLimited));
}

#[test]
fn store_outages_propagate() {
    let users = Users { outage: true };
    assert_eq!(resolve_user(&users, &subject(Some(1))), Err(AuthError::Internal("db down".into())));
    assert_eq!(validate_user(&users, Ok(Some(subject(Some(1))))), Err(AuthError::Internal("db down".into())));
}

#[test]
fn validation_reads_missing_users_as_no_session() {
    let users = Users { outage: false };
    assert_eq!(validate_user(&users, Ok(Some(subject(Some(1))))), Ok(Some("alice".to_string())));
    assert_eq!(validate_user(&users, Ok(Some(subject(None)))), Ok(None));
    assert_eq!(validate_user(&users, Ok(Some(subject(Some(5))))), Ok(None));
    assert_eq!(validate_user::<u32, Users>(&users, Ok(None)), Ok(None));
    assert_eq!(validate_user::<u32, Users>(&users, Err(AuthError::Csrf)), Err(AuthError::Csrf));
}

#[test]
fn attach_outcomes() {
    let ok = attach_current_outcome(Ok(Some(1u8)), Ok(()), Ok("h".to_string()), Ok(true));
    assert_eq!(ok, CredentialOutcome { result: Ok(()), record: RateRecord::Success, dummy_verify: false });
    let taken = attach_current_outcome(Ok(Some(1u8)), Ok(()), Ok("h".to_string()), Ok(false));
    assert_eq!(
        taken,
        CredentialOutcome { result: Err(AuthError::InvalidCredentials), record: RateRecord::Failure, dummy_verify: true }
    );
    let no_session = attach_current_outcome::<u8>(Ok(None), Ok(()), Ok("h".to_string()), Ok(true));
    assert_eq!(no_session.result, Err(AuthError::InvalidCredentials));
    assert_eq!(no_session.record, RateRecord::Untouched);
    assert!(no_session.dummy_verify);
    let limited = attach_current_outcome(Ok(Some(1u8)), Err(AuthError::RateLimited), Ok("h".to_string()), Ok(true));
    assert_eq!(limited.result, Err(AuthError::RateLimited));
    let outage = attach_current_outcome(Ok(Some(1u8)), Ok(()), Ok("h".to_string()), Err(AuthError::Internal("x".into())));
    assert_eq!(outage.result, Err(AuthError::Internal("x".into())));
    assert!(!outage.dummy_verify);
}

#[test]
fn change_password_outcomes() {
    let ok = change_password_outcome(Ok(1u8), Ok("h".to_string()), Ok(()), Ok(()));
    assert_eq!(ok, CredentialOutcome { result: Ok(()), record: RateRecord::Success, dummy_verify: false });
    let wrong = change_password_outcome::<u8>(Err(AuthError::InvalidCredentials), Ok("h".to_string()), Ok(()), Ok(()));
    assert_eq!(wrong.result, Err(AuthError::InvalidCredentials));
    assert_eq!(wrong.record, RateRecord::Untouched);
    let revoke_failed = change_password_outcome(Ok(1u8), Ok("h".to_string()), Err(AuthError::Internal("r".into())), Ok(()));
    assert_eq!(revoke_failed.result, Err(AuthError::Internal("r".into())));
}

#[test]
fn settings_from_the_dummy_hash() {
    let b: AuthEngineBuilder<Hasher> = AuthEngineBuilder::new().session_ttl_secs(60).single_active_session(true);
    let s = b.settings_from_dummy_hash(Hasher { fail: false }, Ok("dh".to_string())).unwrap();
    assert_eq!(s.dummy_hash, "dh");
    assert_eq!(s.session_ttl_secs, 60);
    assert!(s.single_active_session);
    let b: AuthEngineBuilder<Hasher> = AuthEngineBuilder::new();
    assert_eq!(
        b.settings_from_dummy_hash(Hasher { fail: false }, Err(AuthError::PasswordHashError)).err(),
        Some(AuthError::PasswordHashError)
    );
}

use dioxus_auth::context::{is_valid_wire_format, AuthState, RestoreStep};
use dioxus_auth::error::{AuthError, ErrorCode};
use dioxus_auth::operations::AuthOperations;
use dioxus_auth::session::{AuthStatus, SessionId};
use dioxus_auth::transport::TokenStorage;
use dioxus_auth::state::SessionState;

#[derive(Debug, Clone, PartialEq)]
struct User {
    name: String,
}

fn ada() -> User {
    User { name: "ada".into() }
}

#[test]
fn wire_format_accepts_cookie_octets_only() {
    assert!(is_valid_wire_format("abc-DEF_123.~!#$%&'()*+/:<=>?@[]^`{|}"));
    assert!(!is_valid_wire_format(""));
    assert!(!is_valid_wire_format("a b"));
    assert!(!is_valid_wire_format("a;b"));
    assert!(!is_valid_wire_format("a,b"));
    assert!(!is_valid_wire_format("a\"b"));
    assert!(!is_valid_wire_format("a\\b"));
    assert!(!is_valid_wire_format("caf\u{e9}"));
    assert!(!is_valid_wire_format("a\tb"));
}

#[test]
fn fresh_state_is_pending() {
    let state: AuthState<User> = AuthState::new();
    assert!(state.is_loading());
    assert!(!state.is_authenticated());
    assert_eq!(state.token(), None);
    assert!(!state.token_persisted());
    assert_eq!(state.session_state(), SessionState::Pending);
}

#[test]
fn login_then_logout() {
    let mut state: AuthState<User> = AuthState::new();
    state.finish_login(ada(), SessionId::new("tok"), true);
    assert!(state.is_authenticated());
    assert_eq!(state.status(), &AuthStatus::Authenticated(ada()));
    assert_eq!(state.token(), Some(&SessionId::new("tok")));
    assert!(state.token_persisted());
    assert_eq!(state.session_state(), SessionState::SignedIn(ada()));

    assert_eq!(state.finish_logout(None, None), Ok(()));
    assert_eq!(state.status(), &AuthStatus::Guest);
    assert_eq!(state.token(), None);
    assert!(!state.token_persisted());
    assert_eq!(state.session_state(), SessionState::Guest);
}

#[test]
fn login_with_failed_persistence_keeps_the_session() {
    let mut state: AuthState<User> = AuthState::new();
    state.finish_login(ada(), SessionId::new("tok"), false);
    assert!(state.is_authenticated());
    assert!(!state.token_persisted());
}

#[test]
fn logout_reports_the_first_failure_but_still_signs_out() {
    let mut state: AuthState<User> = AuthState::new();
    state.finish_login(ada(), SessionId::new("tok"), true);
    assert_eq!(
        state.finish_logout(Some(AuthError::RateLimited), Some(AuthError::Internal("x".into()))),
        Err(AuthError::RateLimited)
    );
    assert_eq!(state.status(), &AuthStatus::Guest);
    state.finish_login(ada(), SessionId::new("tok"), true);
    assert_eq!(
        state.finish_logout(None, Some(AuthError::Internal("x".into()))),
        Err(AuthError::Internal("x".into()))
    );
    assert_eq!(state.token(), None);
}

#[test]
fn validate_outcomes() {
    let mut state: AuthState<User> = AuthState::new();
    state.finish_login(ada(), SessionId::new("tok"), true);
    let grace = User { name: "grace".into() };
    assert_eq!(state.finish_validate(Ok(Some(grace.clone()))), Ok(Some(grace.clone())));
    assert_eq!(state.status(), &AuthStatus::Authenticated(grace));
    assert_eq!(state.token(), Some(&SessionId::new("tok")));

    assert_eq!(state.finish_validate(Err(AuthError::RateLimited)), Err(AuthError::RateLimited));
    assert!(state.is_authenticated());

    assert_eq!(state.finish_validate(Ok(None)), Ok(None));
    assert_eq!(state.status(), &AuthStatus::Guest);
    assert_eq!(state.token(), None);
}

#[test]
fn restore_with_a_good_token_signs_in() {
    let mut state: AuthState<User> = AuthState::new();
    let step = state.begin_restore(Ok(Some("stored_tok".to_string())));
    assert_eq!(step, RestoreStep::Validate(SessionId::new("stored_tok")));
    assert!(state.is_loading());
    assert_eq!(state.finish_restore(SessionId::new("stored_tok"), Ok(Some(ada()))), Ok(()));
    assert_eq!(state.status(), &AuthStatus::Authenticated(ada()));
    assert!(state.token_persisted());
}

#[test]
fn restore_without_a_stored_token_is_a_guest() {
    let mut state: AuthState<User> = AuthState::new();
    assert_eq!(state.begin_restore(Ok(None)), RestoreStep::Settled);
    assert_eq!(state.session_state(), SessionState::Guest);

    let mut state: AuthState<User> = AuthState::new();
    assert_eq!(state.begin_restore(Ok(Some("bad token".to_string()))), RestoreStep::Settled);
    assert_eq!(state.status(), &AuthStatus::Guest);
}

#[test]
fn restore_storage_failure_is_a_fresh_start() {
    let mut state: AuthState<User> = AuthState::new();
    state.finish_login(ada(), SessionId::new("tok"), true);
    let step = state.begin_restore(Err(AuthError::Internal("disk".into())));
    assert_eq!(step, RestoreStep::Failed(AuthError::Internal("disk".into())));
    assert_eq!(state.status(), &AuthStatus::Guest);
    assert_eq!(state.token(), None);
    assert!(!state.token_persisted());
    assert_eq!(state.session_state(), SessionState::Guest);
}

#[test]
fn restore_validation_errors_keep_the_state() {
    let mut state: AuthState<User> = AuthState::new();
    assert_eq!(
        state.finish_restore(SessionId::new("t"), Err(AuthError::InvalidCredentials)),
        Err(AuthError::InvalidCredentials)
    );
    assert!(state.is_loading());
    assert_eq!(state.token(), None);

    let mut state: AuthState<User> = AuthState::new();
    assert_eq!(
        state.finish_restore(SessionId::new("t"), Err(AuthError::RateLimited)),
        Err(AuthError::RateLimited)
    );
    assert!(state.is_loading());
    assert_eq!(state.session_state(), SessionState::Unavailable(ErrorCode::RateLimited));

    assert_eq!(state.finish_restore(SessionId::new("t"), Ok(None)), Ok(()));
    assert_eq!(state.session_state(), SessionState::Guest);
}

#[test]
fn successful_restore_clears_the_recorded_failure() {
    let mut state: AuthState<User> = AuthState::new();
    let _ = state.finish_restore(SessionId::new("t"), Err(AuthError::RateLimited));
    assert_eq!(state.finish_restore(SessionId::new("t"), Ok(Some(ada()))), Ok(()));
    assert_eq!(state.session_state(), SessionState::SignedIn(ada()));
    let _ = state.finish_logout(None, None);
    assert_eq!(state.session_state(), SessionState::Guest);
}

#[test]
fn set_guest_clears_everything() {
    let mut state: AuthState<User> = AuthState::new();
    state.finish_login(ada(), SessionId::new("tok"), true);
    state.set_guest();
    assert_eq!(state.status(), &AuthStatus::Guest);
    assert_eq!(state.token(), None);
    assert!(!state.token_persisted());
}

struct Engine {
    live: std::cell::RefCell<Vec<String>>,
    fail_validate: Option<AuthError>,
}

impl Engine {
    fn new(live: &[&str]) -> Engine {
        Engine { live: std::cell::RefCell::new(live.iter().map(|s| s.to_string()).collect()), fail_validate: None }
    }
}

impl AuthOperations<User> for Engine {
    fn login(&self, identifier: &str, password: &str) -> Result<(User, SessionId), AuthError> {
        if password == "pw" {
            self.live.borrow_mut().push("fresh".to_string());
            Ok((User { name: identifier.to_string() }, SessionId::new("fresh")))
        } else {
            Err(AuthError::InvalidCredentials)
        }
    }
    fn logout(&self, session_id: &SessionId) -> Result<(), AuthError> {
        self.live.borrow_mut().retain(|t| t != session_id.as_str());
        Ok(())
    }
    fn validate(&self, session_id: &SessionId) -> Result<Option<User>, AuthError> {
        if let Some(e) = &self.fail_validate {
            return Err(e.clone());
        }
        if self.live.borrow().iter().any(|t| t == session_id.as_str()) {
            Ok(Some(ada()))
        } else {
            Ok(None)
        }
    }
    fn attach_current(&self, _s: &SessionId, _i: &str, _p: &str) -> Result<(), AuthError> {
        Ok(())
    }
    fn change_password(&self, _i: &str, _c: &str, _n: &str) -> Result<(), AuthError> {
        Ok(())
    }
}

#[derive(Default)]
struct Storage {
    value: Option<String>,
    broken: bool,
}

impl TokenStorage for Storage {
    fn store(&mut self, token: &str) -> Result<(), AuthError> {
        if self.broken {
            return Err(AuthError::Internal("quota".into()));
        }
        self.value = Some(token.to_string());
        Ok(())
    }
    fn retrieve(&mut self) -> Result<Option<String>, AuthError> {
        if self.broken {
            return Err(AuthError::Internal("unreadable".into()));
        }
        Ok(self.value.clone())
    }
    fn clear(&mut self) -> Result<(), AuthError> {
        self.value = None;
        Ok(())
    }
}

#[test]
fn login_persists_and_logout_clears() {
    let engine = Engine::new(&[]);
    let mut storage = Storage::default();
    let mut state: AuthState<User> = AuthState::new();
    assert_eq!(state.login(&engine, &mut storage, "ada", "nope"), Err(AuthError::InvalidCredentials));
    assert!(state.is_loading());
    assert_eq!(state.login(&engine, &mut storage, "ada", "pw"), Ok(()));
    assert_eq!(state.status(), &AuthStatus::Authenticated(ada()));
    assert_eq!(state.token(), Some(&SessionId::new("fresh")));
    assert!(state.token_persisted());
    assert_eq!(storage.value, Some("fresh".to_string()));

    assert_eq!(state.logout(&engine, &mut storage), Ok(()));
    assert_eq!(state.status(), &AuthStatus::Guest);
    assert_eq!(storage.value, None);
    assert!(engine.live.borrow().is_empty());
    assert_eq!(state.logout(&engine, &mut storage), Ok(()));
}

#[test]
fn login_with_broken_storage_is_not_persisted() {
    let engine = Engine::new(&[]);
    let mut storage = Storage { value: None, broken: true };
    let mut state: AuthState<User> = AuthState::new();
    assert_eq!(state.login(&engine, &mut storage, "ada", "pw"), Ok(()));
    assert!(state.is_authenticated());
    assert!(!state.token_persisted());
}

#[test]
fn logout_without_a_session_changes_nothing() {
    let engine = Engine::new(&[]);
    let mut storage = Storage { value: Some("stale".into()), broken: false };
    let mut state: AuthState<User> = AuthState::new();
    assert_eq!(state.logout(&engine, &mut storage), Ok(()));
    assert!(state.is_loading());
    assert_eq!(storage.value, Some("stale".to_string()));
}

#[test]
fn validate_uses_the_held_token() {
    let engine = Engine::new(&[]);
    let mut storage = Storage::default();
    let mut state: AuthState<User> = AuthState::new();
    assert_eq!(state.validate(&engine), Ok(None));
    assert!(state.is_loading());
    state.login(&engine, &mut storage, "ada", "pw").unwrap();
    assert_eq!(state.validate(&engine), Ok(Some(ada())));
    engine.live.borrow_mut().clear();
    assert_eq!(state.validate(&engine), Ok(None));
    assert_eq!(state.status(), &AuthStatus::Guest);
}

#[test]
fn restore_from_storage() {
    let engine = Engine::new(&["kept"]);
    let mut storage = Storage { value: Some("kept".into()), broken: false };
    let mut state: AuthState<User> = AuthState::new();
    assert_eq!(state.restore(&engine, &mut storage), Ok(()));
    assert_eq!(state.session_state(), SessionState::SignedIn(ada()));
    assert!(state.token_persisted());

    let mut storage = Storage { value: Some("revoked".into()), broken: false };
    let mut state: AuthState<User> = AuthState::new();
    assert_eq!(state.restore(&engine, &mut storage), Ok(()));
    assert_eq!(state.session_state(), SessionState::Guest);

    let mut storage = Storage::default();
    let mut state: AuthState<User> = AuthState::new();
    assert_eq!(state.restore(&engine, &mut storage), Ok(()));
    assert_eq!(state.session_state(), SessionState::Guest);
}

#[test]
fn restore_failures_are_reported() {
    let engine = Engine::new(&["kept"]);
    let mut broken = Storage { value: None, broken: true };
    let mut state: AuthState<User> = AuthState::new();
    assert_eq!(state.restore(&engine, &mut broken), Err(AuthError::Internal("unreadable".into())));
    assert_eq!(state.session_state(), SessionState::Guest);

    let limited = Engine { live: std::cell::RefCell::new(vec![]), fail_validate: Some(AuthError::RateLimited) };
    let mut storage = Storage { value: Some("kept".into()), broken: false };
    let mut state: AuthState<User> = AuthState::new();
    assert_eq!(state.restore(&limited, &mut storage), Err(AuthError::RateLimited));
    assert_eq!(state.session_state(), SessionState::Unavailable(ErrorCode::RateLimited));

    let rejecting = Engine { live: std::cell::RefCell::new(vec![]), fail_validate: Some(AuthError::InvalidCredentials) };
    let mut state: AuthState<User> = AuthState::new();
    assert_eq!(state.restore(&rejecting, &mut storage), Err(AuthError::InvalidCredentials));
    assert!(state.is_loading());
    assert_eq!(storage.value, Some("kept".to_string()));
}

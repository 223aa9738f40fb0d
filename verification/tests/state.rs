use dioxus_auth::error::{AuthError, ErrorCode};
use dioxus_auth::context::AuthState;
use dioxus_auth::hooks::{on_auth_state_change, use_session, AuthStateEvent};
use dioxus_auth::session::SessionId;
use dioxus_auth::session::AuthStatus;
use dioxus_auth::state::SessionState;
use dioxus_auth::user::AuthUser;

#[derive(Debug, Clone, PartialEq, Eq)]
struct User {
    id: u64,
}

impl AuthUser for User {
    type Id = u64;
    fn id(&self) -> u64 {
        self.id
    }
}

#[test]
fn from_parts_maps_every_status() {
    assert_eq!(
        SessionState::from_parts(&AuthStatus::Authenticated(User { id: 1 }), Some(ErrorCode::Csrf)),
        SessionState::SignedIn(User { id: 1 })
    );
    assert_eq!(SessionState::<User>::from_parts(&AuthStatus::Guest, Some(ErrorCode::Csrf)), SessionState::Guest);
    assert_eq!(SessionState::<User>::from_parts(&AuthStatus::Loading, None), SessionState::Pending);
    assert_eq!(
        SessionState::<User>::from_parts(&AuthStatus::Loading, Some(ErrorCode::RateLimited)),
        SessionState::Unavailable(ErrorCode::RateLimited)
    );
}

#[test]
fn session_state_equality_and_clone() {
    let a = SessionState::SignedIn(User { id: 1 });
    assert_eq!(a.clone(), a);
    assert_ne!(a, SessionState::SignedIn(User { id: 2 }));
    assert_ne!(a, SessionState::Guest);
    assert_eq!(SessionState::<User>::Pending, SessionState::Pending);
    assert_ne!(
        SessionState::<User>::Unavailable(ErrorCode::Csrf),
        SessionState::Unavailable(ErrorCode::Internal)
    );
}

#[test]
fn first_observation_does_not_fire() {
    let mut last = None;
    assert_eq!(on_auth_state_change(&mut last, SessionState::<User>::Pending), None);
    assert_eq!(last, Some(SessionState::Pending));
}

#[test]
fn changes_fire_with_both_states() {
    let mut last = None;
    on_auth_state_change(&mut last, SessionState::<User>::Guest);
    let fired = on_auth_state_change(&mut last, SessionState::SignedIn(User { id: 7 }));
    assert_eq!(
        fired,
        Some(AuthStateEvent {
            previous: SessionState::Guest,
            current: SessionState::SignedIn(User { id: 7 }),
        })
    );
    assert_eq!(last, Some(SessionState::SignedIn(User { id: 7 })));
    let fired = on_auth_state_change(&mut last, SessionState::Guest);
    assert_eq!(
        fired,
        Some(AuthStateEvent { previous: SessionState::SignedIn(User { id: 7 }), current: SessionState::Guest })
    );
}

#[test]
fn unchanged_state_does_not_fire() {
    let mut last = None;
    on_auth_state_change(&mut last, SessionState::SignedIn(User { id: 7 }));
    assert_eq!(on_auth_state_change(&mut last, SessionState::SignedIn(User { id: 7 })), None);
    assert_eq!(
        on_auth_state_change(&mut last, SessionState::SignedIn(User { id: 8 })).map(|e| e.current),
        Some(SessionState::SignedIn(User { id: 8 }))
    );
}

#[test]
fn error_codes() {
    assert_eq!(AuthError::InvalidCredentials.code(), ErrorCode::InvalidCredentials);
    assert_eq!(AuthError::PasswordHashError.code(), ErrorCode::PasswordHashError);
    assert_eq!(AuthError::RateLimited.code(), ErrorCode::RateLimited);
    assert_eq!(AuthError::Csrf.code(), ErrorCode::Csrf);
    assert_eq!(AuthError::Internal("secret detail".into()).code(), ErrorCode::Internal);
}

#[test]
fn use_session_reads_the_provider_state() {
    let mut state: AuthState<User> = AuthState::new();
    assert_eq!(use_session(&state), SessionState::Pending);
    state.finish_login(User { id: 3 }, SessionId::new("t"), true);
    assert_eq!(use_session(&state), SessionState::SignedIn(User { id: 3 }));
    state.set_guest();
    assert_eq!(use_session(&state), SessionState::Guest);
}

use dioxus_auth::error::AuthError;
use dioxus_auth::server::middleware::{
    authenticated_user, permission_outcome, require_auth_outcome, AuthenticatedUser, RequireAuthUser,
};

#[test]
fn authenticating_middleware_records_the_user() {
    assert_eq!(authenticated_user(Ok(Some(5u32))), AuthenticatedUser(Some(5)));
    assert_eq!(authenticated_user::<u32>(Ok(None)), AuthenticatedUser(None));
    assert_eq!(authenticated_user::<u32>(Err(AuthError::Csrf)), AuthenticatedUser(None));
    assert_eq!(authenticated_user::<u32>(Err(AuthError::Internal("x".into()))), AuthenticatedUser(None));
}

#[test]
fn requiring_middleware_statuses() {
    assert_eq!(require_auth_outcome(Ok(Some(5u32))), Ok(RequireAuthUser(5)));
    assert_eq!(require_auth_outcome::<u32>(Ok(None)), Err(401));
    assert_eq!(require_auth_outcome::<u32>(Err(AuthError::Csrf)), Err(403));
    assert_eq!(require_auth_outcome::<u32>(Err(AuthError::RateLimited)), Err(401));
    assert_eq!(require_auth_outcome::<u32>(Err(AuthError::InvalidCredentials)), Err(401));
}

#[test]
fn permission_middleware_statuses() {
    assert_eq!(permission_outcome(RequireAuthUser(5u32), true), Ok(RequireAuthUser(5)));
    assert_eq!(permission_outcome(RequireAuthUser(5u32), false), Err(403));
}

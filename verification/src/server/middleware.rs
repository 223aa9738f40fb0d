//! The decisions of the session middlewares: which user a request carries
//! and which status refuses it.

use vstd::prelude::*;

use crate::error::AuthError;
use crate::server::error::ServerError;
use crate::session::SessionId;

verus! {

/// The status the session-requiring middleware answers a request with,
/// given the validation of its session cookie: `None` lets the request
/// through to the handler, which happens only when a user was resolved; a
/// guest, a malformed token or an engine failure is answered
/// `401 Unauthorized`.
pub fn require_auth_rejection<U>(validation: &Result<(Option<SessionId>, Option<U>), ServerError>) -> (r:
    Option<u16>)
    ensures
        r == (if validation matches Ok((_, Some(_))) {
            None::<u16>
        } else {
            Some(401u16)
        }),
{
    match validation {
        Ok((_, Some(_))) => None,
        _ => Some(401),
    }
}

/// The user a request was authenticated as, or `None` for a guest; inserted
/// into the request for every handler behind the authenticating middleware.
#[derive(Debug, Clone, PartialEq, Eq)]
pub struct AuthenticatedUser<User>(pub Option<User>);

/// The user of a request that had to be authenticated; present only behind
/// the requiring middlewares.
#[derive(Debug, Clone, PartialEq, Eq)]
pub struct RequireAuthUser<User>(pub User);

/// What the authenticating middleware records for a request, given the
/// outcome of authenticating it: the resolved user, and `None` for a guest
/// or any failure.
pub fn authenticated_user<User>(outcome: Result<Option<User>, AuthError>) -> (a: AuthenticatedUser<User>)
    ensures
        a.0 == match outcome {
            Ok(Some(u)) => Some(u),
            _ => None::<User>,
        },
{
    match outcome {
        Ok(Some(user)) => AuthenticatedUser(Some(user)),
        _ => AuthenticatedUser(None),
    }
}

/// The requiring middleware's answer to the outcome of authenticating a
/// request: the user to pass on, or the status that refuses the request:
/// `403 Forbidden` for a refused origin, `401 Unauthorized` for a guest or
/// any other failure.
pub fn require_auth_outcome<User>(outcome: Result<Option<User>, AuthError>) -> (r: Result<
    RequireAuthUser<User>,
    u16,
>)
    ensures
        match outcome {
            Ok(Some(u)) => r == Ok::<RequireAuthUser<User>, u16>(RequireAuthUser(u)),
            Ok(None) => r == Err::<RequireAuthUser<User>, u16>(401),
            Err(AuthError::Csrf) => r == Err::<RequireAuthUser<User>, u16>(403),
            Err(_) => r == Err::<RequireAuthUser<User>, u16>(401),
        },
{
    match outcome {
        Ok(Some(user)) => Ok(RequireAuthUser(user)),
        Ok(None) => Err(401),
        Err(AuthError::Csrf) => Err(403),
        Err(_) => Err(401),
    }
}

/// The permission middleware's answer once the application's check has
/// judged the authenticated `user`: passed on when `allowed`, otherwise
/// `403 Forbidden`.
pub fn permission_outcome<User>(user: RequireAuthUser<User>, allowed: bool) -> (r: Result<
    RequireAuthUser<User>,
    u16,
>)
    ensures
        allowed ==> r == Ok::<RequireAuthUser<User>, u16>(user),
        !allowed ==> r == Err::<RequireAuthUser<User>, u16>(403),
{
    if allowed {
        Ok(user)
    } else {
        Err(403)
    }
}

} // verus!

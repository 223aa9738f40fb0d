//! Type-erased engine operations and the handle that carries them.

use std::sync::Arc;

use vstd::prelude::*;

use crate::error::AuthError;
use crate::session::SessionId;

verus! {

/// Erased authentication operations the runtime calls.
///
/// Engines implement this; the runtime holds it behind [`AuthEngineHandle`]
/// so hooks and components never name store types. Nothing here is assumed
/// about what an implementation returns: callers settle every outcome.
pub trait AuthOperations<T> {
    /// Authenticates and returns the user with a fresh raw wire session.
    fn login(&self, identifier: &str, password: &str) -> Result<(T, SessionId), AuthError>;

    /// Revokes a session identified by its raw wire token.
    fn logout(&self, session_id: &SessionId) -> Result<(), AuthError>;

    /// Validates a raw wire token and resolves the current user.
    fn validate(&self, session_id: &SessionId) -> Result<Option<T>, AuthError>;

    /// Attaches a credential to the session owner's subject.
    fn attach_current(&self, session_id: &SessionId, identifier: &str, password: &str) -> Result<
        (),
        AuthError,
    >;

    /// Changes a password after proving the current one.
    fn change_password(&self, identifier: &str, current_password: &str, new_password: &str) -> Result<
        (),
        AuthError,
    >;
}

/// `a` is an answer the engine gives to a login with these credentials:
/// what a call of `engine.login(identifier, password)` can return.
pub open spec fn login_answer<T, E: AuthOperations<T> + ?Sized>(
    engine: &E,
    identifier: &str,
    password: &str,
    a: Result<(T, SessionId), AuthError>,
) -> bool {
    call_ensures(E::login, (engine, identifier, password), a)
}

/// `a` is an answer the engine gives to revoking `session_id`.
pub open spec fn logout_answer<T, E: AuthOperations<T> + ?Sized>(
    engine: &E,
    session_id: &SessionId,
    a: Result<(), AuthError>,
) -> bool {
    call_ensures(E::logout, (engine, session_id), a)
}

/// `a` is an answer the engine gives to validating `session_id`.
pub open spec fn validate_answer<T, E: AuthOperations<T> + ?Sized>(
    engine: &E,
    session_id: &SessionId,
    a: Result<Option<T>, AuthError>,
) -> bool {
    call_ensures(E::validate, (engine, session_id), a)
}

/// Cloneable engine handle named in component props; `E` is usually the
/// erased `dyn AuthOperations<T>`.
pub struct AuthEngineHandle<E: ?Sized> {
    engine: Arc<E>,
}

/// Whether two shared pointers point to the same allocation, with std's
/// `Arc::ptr_eq`, trusted: the contract claims only that pointers to the
/// same allocation point to equal values; identity itself has no spec.
#[verifier::external_body]
fn arc_ptr_eq<E: ?Sized>(a: &Arc<E>, b: &Arc<E>) -> (r: bool)
    ensures
        r ==> *a == *b,
{
    Arc::ptr_eq(a, b)
}

impl<E: ?Sized> Clone for AuthEngineHandle<E> {
    /// Another handle on the same engine.
    fn clone(&self) -> (h: Self)
        ensures
            h.spec_engine() == self.spec_engine(),
    {
        AuthEngineHandle { engine: Arc::clone(&self.engine) }
    }
}

impl<E: ?Sized> AuthEngineHandle<E> {
    /// The engine held.
    pub closed spec fn spec_engine(&self) -> Arc<E> {
        self.engine
    }

    /// Wraps a (type-erased) implementation.
    pub fn from_erased(engine: Arc<E>) -> (h: Self)
        ensures
            h.spec_engine() == engine,
    {
        AuthEngineHandle { engine }
    }

    /// Whether both handles share one engine: handles compare by the
    /// identity of the shared engine, never field by field.
    pub fn same_engine(&self, other: &Self) -> (b: bool)
        ensures
            b ==> self.spec_engine() == other.spec_engine(),
    {
        arc_ptr_eq(&self.engine, &other.engine)
    }

    /// Accesses the engine.
    pub fn engine(&self) -> (e: &Arc<E>)
        ensures
            *e == self.spec_engine(),
    {
        &self.engine
    }
}

} // verus!

//! Typed client-side session read state.
//!
//! The read is an exhaustive enum, not a struct of option fields: a user and
//! an error at the same time, or a guest that is also pending, cannot be
//! represented.

use vstd::prelude::*;
use vstd::std_specs::cmp::PartialEqSpec;

use crate::error::ErrorCode;
use crate::session::AuthStatus;

verus! {

/// The settled-or-in-flight session state a component renders from.
#[derive(Debug, Eq)]
pub enum SessionState<T> {
    /// An authenticated identity is present.
    SignedIn(T),
    /// No session: the restore question was answered with a definitive no.
    Guest,
    /// The restore question is still open; nothing has answered yet.
    Pending,
    /// The restore question could not be asked; retryable, never a sign-out.
    Unavailable(ErrorCode),
}

/// `b` is a copy of `a`: the same variant, a signed-in user copied by its
/// own `clone`.
pub open spec fn cloned_state<T: Clone>(a: SessionState<T>, b: SessionState<T>) -> bool {
    match a {
        SessionState::SignedIn(x) => b matches SessionState::SignedIn(y) && cloned::<T>(x, y),
        _ => b == a,
    }
}

impl<T: Clone> Clone for SessionState<T> {
    fn clone(&self) -> (c: Self)
        ensures
            cloned_state(*self, c),
    {
        match self {
            SessionState::SignedIn(user) => SessionState::SignedIn(user.clone()),
            SessionState::Guest => SessionState::Guest,
            SessionState::Pending => SessionState::Pending,
            SessionState::Unavailable(code) => SessionState::Unavailable(*code),
        }
    }
}

impl<T: PartialEq> PartialEq for SessionState<T> {
    fn eq(&self, other: &Self) -> (r: bool) {
        match (self, other) {
            (SessionState::SignedIn(a), SessionState::SignedIn(b)) => a.eq(b),
            (SessionState::Guest, SessionState::Guest) => true,
            (SessionState::Pending, SessionState::Pending) => true,
            (SessionState::Unavailable(a), SessionState::Unavailable(b)) => *a == *b,
            _ => false,
        }
    }
}

impl<T: PartialEq> vstd::std_specs::cmp::PartialEqSpecImpl for SessionState<T> {
    open spec fn obeys_eq_spec() -> bool {
        T::obeys_eq_spec()
    }

    open spec fn eq_spec(&self, other: &Self) -> bool {
        match (*self, *other) {
            (SessionState::SignedIn(a), SessionState::SignedIn(b)) => a.eq_spec(&b),
            (SessionState::Guest, SessionState::Guest) => true,
            (SessionState::Pending, SessionState::Pending) => true,
            (SessionState::Unavailable(a), SessionState::Unavailable(b)) => a == b,
            _ => false,
        }
    }
}

impl<T: Clone> SessionState<T> {
    /// Maps the reactive status plus the last unknown-class restore failure
    /// into the read state. Only the loading status consults the failure:
    /// settled statuses already carry their answer.
    pub fn from_parts(status: &AuthStatus<T>, unavailable: Option<ErrorCode>) -> (s: Self)
        ensures
            match *status {
                AuthStatus::Authenticated(u) => s matches SessionState::SignedIn(v) && cloned::<T>(u, v),
                AuthStatus::Guest => s matches SessionState::Guest,
                AuthStatus::Loading => match unavailable {
                    Some(code) => s == SessionState::<T>::Unavailable(code),
                    None => s matches SessionState::Pending,
                },
            },
    {
        match status {
            AuthStatus::Authenticated(user) => SessionState::SignedIn(user.clone()),
            AuthStatus::Guest => SessionState::Guest,
            AuthStatus::Loading => match unavailable {
                Some(code) => SessionState::Unavailable(code),
                None => SessionState::Pending,
            },
        }
    }
}

} // verus!

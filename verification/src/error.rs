//! Engine errors and their stable codes.

use vstd::prelude::*;

verus! {

/// Failures reported by authentication operations.
///
/// Unknown identifiers and wrong passwords share `InvalidCredentials`, so the
/// error never reveals whether an identifier exists.
#[derive(Debug, Clone, PartialEq, Eq)]
pub enum AuthError {
    /// The credentials or the session were rejected.
    InvalidCredentials,
    /// The password hasher failed.
    PasswordHashError,
    /// The request was refused by the rate limiter.
    RateLimited,
    /// A state-changing cookie operation carried a missing or foreign `Origin`.
    Csrf,
    /// A store or internal failure; the text is for logs only.
    Internal(String),
}

/// The payload-free class of an [`AuthError`], safe to hand to clients.
#[derive(Debug, Clone, Copy, PartialEq, Eq, Structural)]
pub enum ErrorCode {
    /// See [`AuthError::InvalidCredentials`].
    InvalidCredentials,
    /// See [`AuthError::PasswordHashError`].
    PasswordHashError,
    /// See [`AuthError::RateLimited`].
    RateLimited,
    /// See [`AuthError::Csrf`].
    Csrf,
    /// See [`AuthError::Internal`].
    Internal,
}

/// The code of an error, as a mathematical function.
pub open spec fn spec_code(e: AuthError) -> ErrorCode {
    match e {
        AuthError::InvalidCredentials => ErrorCode::InvalidCredentials,
        AuthError::PasswordHashError => ErrorCode::PasswordHashError,
        AuthError::RateLimited => ErrorCode::RateLimited,
        AuthError::Csrf => ErrorCode::Csrf,
        AuthError::Internal(_) => ErrorCode::Internal,
    }
}

impl AuthError {
    /// The payload-free code of this error.
    pub fn code(&self) -> (c: ErrorCode)
        ensures
            c == spec_code(*self),
    {
        match self {
            AuthError::InvalidCredentials => ErrorCode::InvalidCredentials,
            AuthError::PasswordHashError => ErrorCode::PasswordHashError,
            AuthError::RateLimited => ErrorCode::RateLimited,
            AuthError::Csrf => ErrorCode::Csrf,
            AuthError::Internal(_) => ErrorCode::Internal,
        }
    }
}

} // verus!

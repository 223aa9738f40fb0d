//! Network-aware session restore classification.
//!
//! A restore attempt can fail because the server definitively answered "no
//! session for this token", or because no answer was learnable (storage
//! failure, rate limiting, transport errors). Only the first may demote a
//! live session to guest.

use vstd::prelude::*;

use crate::error::AuthError;

verus! {

/// Outcome of a session restore attempt.
#[derive(Debug, Clone, Copy, PartialEq, Eq, Structural)]
pub enum RestoreVerdict {
    /// A stored token was present and accepted; the context is authenticated.
    Restored,
    /// Definitive rejection: the context is a guest.
    Unauthenticated,
    /// The attempt failed before the session question could be answered;
    /// the context stays loading and callers may retry.
    Unknown,
}

/// Classifies a restore failure as rejection or unknown.
///
/// Implemented for [`AuthError`] here; applications whose transport errors
/// surface through other types implement it for their own error.
pub trait RestoreClassify {
    /// The restore outcome implied by this failure.
    fn restore_verdict(&self) -> RestoreVerdict;
}

/// The verdict an engine error implies: credential rejections are definitive,
/// everything else leaves the question open.
pub open spec fn verdict_of(e: AuthError) -> RestoreVerdict {
    match e {
        AuthError::InvalidCredentials | AuthError::PasswordHashError => RestoreVerdict::Unauthenticated,
        AuthError::RateLimited | AuthError::Csrf | AuthError::Internal(_) => RestoreVerdict::Unknown,
    }
}

impl RestoreClassify for AuthError {
    fn restore_verdict(&self) -> (v: RestoreVerdict)
        ensures
            v == verdict_of(*self),
    {
        match self {
            AuthError::InvalidCredentials | AuthError::PasswordHashError => RestoreVerdict::Unauthenticated,
            AuthError::RateLimited | AuthError::Csrf | AuthError::Internal(_) => RestoreVerdict::Unknown,
        }
    }
}

/// No engine error ever reads as a successful restore.
pub proof fn lemma_error_never_restores(e: AuthError)
    ensures
        verdict_of(e) != RestoreVerdict::Restored,
{
}

} // verus!

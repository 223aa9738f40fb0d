//! Wire inputs of the cookie-only auth endpoints.
//!
//! None of these types implements `Debug`: each carries a plaintext
//! password, which must never reach a log.

use vstd::prelude::*;

verus! {

/// The wire input for the login endpoint.
#[derive(Clone, PartialEq, Eq)]
pub struct LoginRequest {
    /// The user identifier.
    pub identifier: String,
    /// The plaintext password.
    pub password: String,
}

/// The wire input for the attach endpoint.
#[derive(Clone, PartialEq, Eq)]
pub struct AttachRequest {
    /// The new login identifier to bind to the calling session's subject.
    pub identifier: String,
    /// The plaintext password for the new credential.
    pub password: String,
}

/// The wire input for the change-password endpoint.
#[derive(Clone, PartialEq, Eq)]
pub struct ChangePasswordRequest {
    /// The login identifier whose credential rotates.
    pub identifier: String,
    /// The current plaintext password (proof of knowledge).
    pub current_password: String,
    /// The replacement plaintext password.
    pub new_password: String,
}

} // verus!

//! Server authentication errors and their HTTP status codes.

use vstd::prelude::*;

use crate::error::AuthError;

verus! {

/// Errors produced by the server authentication context.
#[derive(Debug, Clone, PartialEq, Eq)]
pub enum ServerError {
    /// No engine is configured for the current request or process.
    MissingContext,
    /// The process-wide configuration was registered twice.
    AlreadyInitialized,
    /// The request did not resolve to an authenticated session.
    MissingSession,
    /// The session cookie value is not a valid header value.
    InvalidCookieValue,
    /// The underlying auth engine failed.
    Engine(AuthError),
}

/// The HTTP status an engine failure is served with.
pub open spec fn spec_auth_status(e: AuthError) -> u16 {
    match e {
        AuthError::InvalidCredentials | AuthError::PasswordHashError => 401,
        AuthError::RateLimited => 429,
        AuthError::Csrf => 403,
        AuthError::Internal(_) => 500,
    }
}

/// The HTTP status a server error is served with.
pub open spec fn spec_server_status(e: ServerError) -> u16 {
    match e {
        ServerError::MissingSession => 401,
        ServerError::Engine(inner) => spec_auth_status(inner),
        ServerError::MissingContext | ServerError::AlreadyInitialized
        | ServerError::InvalidCookieValue => 500,
    }
}

impl ServerError {
    /// The HTTP status code the error should be served with.
    pub fn status_code(&self) -> (code: u16)
        ensures
            code == spec_server_status(*self),
    {
        match self {
            ServerError::MissingSession => 401,
            ServerError::Engine(error) => auth_error_status(error),
            ServerError::MissingContext | ServerError::AlreadyInitialized
            | ServerError::InvalidCookieValue => 500,
        }
    }
}

/// The HTTP status code for an engine failure.
///
/// Shared by [`ServerError::status_code`] and the client-facing error
/// conversion so the two mappings cannot diverge.
pub fn auth_error_status(error: &AuthError) -> (code: u16)
    ensures
        code == spec_auth_status(*error),
{
    match error {
        AuthError::InvalidCredentials | AuthError::PasswordHashError => 401,
        AuthError::RateLimited => 429,
        AuthError::Csrf => 403,
        AuthError::Internal(_) => 500,
    }
}

/// Wrapping an engine failure keeps its status: the server and client
/// mappings agree.
pub proof fn lemma_engine_status_agrees(e: AuthError)
    ensures
        spec_server_status(ServerError::Engine(e)) == spec_auth_status(e),
{
}

/// How an engine failure is shown to a client: its HTTP status, and
/// whether its message is withheld. Internal failures are reported only as
/// "internal error", so store details never leave the server.
pub fn client_error_parts(error: &AuthError) -> (r: (u16, bool))
    ensures
        r.0 == spec_auth_status(*error),
        r.1 == (*error is Internal),
{
    let withheld = match error {
        AuthError::Internal(_) => true,
        _ => false,
    };
    (auth_error_status(error), withheld)
}

} // verus!

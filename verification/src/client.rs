//! Client-side auth handle and restore settlement.

use vstd::prelude::*;

use crate::restore::{RestoreClassify, RestoreVerdict};
use crate::session::AuthStatus;

verus! {

/// The auth provider component.
#[derive(Debug)]
pub struct AuthProvider;

/// A reference to a token storage.
#[derive(Debug)]
pub struct TokenStorageRef;

/// Hook for authentication state.
#[derive(Debug)]
pub struct UseAuth;

/// Hook for restoring authentication.
#[derive(Debug)]
pub struct UseAuthRestore;

/// Hook for token storage.
#[derive(Debug)]
pub struct UseTokenStorage;

/// Auth handle for client components: the current status.
#[derive(Debug, Clone)]
pub struct Auth<U> {
    status: AuthStatus<U>,
}

impl<U> Auth<U> {
    /// The held status.
    pub closed spec fn spec_status(&self) -> AuthStatus<U> {
        self.status
    }

    /// Creates a handle holding `status`.
    pub fn new(status: AuthStatus<U>) -> (a: Self)
        ensures
            a.spec_status() == status,
    {
        Auth { status }
    }

    /// The current status.
    pub fn status(&self) -> (s: &AuthStatus<U>)
        ensures
            *s == self.spec_status(),
    {
        &self.status
    }

    /// Replaces the status.
    pub fn set_status(&mut self, status: AuthStatus<U>)
        ensures
            final(self).spec_status() == status,
    {
        self.status = status;
    }
}

/// The status after a restore probe answered `restored` (`None`: still in
/// flight), with errors already classified into verdicts. Only a loading
/// status moves: a resolved user signs in, an answered "no session" or a
/// definitive rejection demotes to guest, and anything else leaves it
/// loading. A settled status (a manual login or logout) is never
/// overwritten by a late or failed restore.
pub open spec fn settled<U>(
    status: AuthStatus<U>,
    restored: Option<Result<Option<U>, RestoreVerdict>>,
) -> AuthStatus<U> {
    if !(status is Loading) {
        status
    } else {
        match restored {
            Some(Ok(Some(u))) => AuthStatus::Authenticated(u),
            Some(Ok(None)) => AuthStatus::Guest,
            Some(Err(RestoreVerdict::Unauthenticated)) => AuthStatus::Guest,
            _ => status,
        }
    }
}

/// Applies a classified restore answer to the handle (see [`settled`]).
pub fn settle_restore<U>(auth: &mut Auth<U>, restored: Option<Result<Option<U>, RestoreVerdict>>)
    ensures
        final(auth).spec_status() == settled(old(auth).spec_status(), restored),
{
    let loading = match &auth.status {
        AuthStatus::Loading => true,
        _ => false,
    };
    if !loading {
        return;
    }
    match restored {
        Some(Ok(Some(user))) => auth.set_status(AuthStatus::Authenticated(user)),
        Some(Ok(None)) => auth.set_status(AuthStatus::Guest),
        Some(Err(RestoreVerdict::Unauthenticated)) => auth.set_status(AuthStatus::Guest),
        _ => {},
    }
}

/// Drives the status from a restore probe's result, classifying its error
/// with [`RestoreClassify`]: a network-class failure never logs anyone
/// out, only a definitive rejection demotes to guest.
pub fn use_auth_restore<U, E: RestoreClassify>(
    auth: &mut Auth<U>,
    restored: Option<Result<Option<U>, E>>,
)
    ensures
        match restored {
            None => final(auth).spec_status() == old(auth).spec_status(),
            Some(Ok(r)) => final(auth).spec_status() == settled(old(auth).spec_status(), Some(Ok(r))),
            Some(Err(_)) => final(auth).spec_status() == old(auth).spec_status() || (old(
                auth,
            ).spec_status() is Loading && final(auth).spec_status() is Guest),
        },
{
    let classified = match restored {
        None => None,
        Some(Ok(r)) => Some(Ok(r)),
        Some(Err(e)) => Some(Err(e.restore_verdict())),
    };
    settle_restore(auth, classified);
}

/// A settled status stays settled: no restore answer changes it.
pub proof fn lemma_settled_is_final<U>(
    status: AuthStatus<U>,
    restored: Option<Result<Option<U>, RestoreVerdict>>,
)
    requires
        !(status is Loading),
    ensures
        settled(status, restored) == status,
{
}

/// An unknown-class failure never demotes: the status stays loading.
pub proof fn lemma_unknown_keeps_loading<U>()
    ensures
        settled(AuthStatus::<U>::Loading, Some(Err(RestoreVerdict::Unknown))) is Loading,
{
}

} // verus!

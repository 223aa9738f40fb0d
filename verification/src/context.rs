//! The client-side authentication state machine behind the reactive
//! context: which user is signed in, the wire token that proves it, whether
//! the token reached storage, and what the last unanswered restore hit.
//!
//! Engine calls and token storage are performed by the caller; each
//! transition here takes their outcome and settles the state.

use vstd::prelude::*;

use crate::error::{AuthError, ErrorCode, spec_code};
use crate::operations::{AuthOperations, login_answer, logout_answer, validate_answer};
use crate::transport::TokenStorage;
use crate::session::{AuthStatus, SessionId};
use crate::state::SessionState;
use crate::text::chars_of;

verus! {

/// A character that may appear in a wire session token: a cookie octet
/// (visible ASCII other than `"`, `,`, `;` and `\`).
pub open spec fn token_char(c: char) -> bool {
    let u = c as u32;
    0x21 <= u <= 0x7E && u != 0x22 && u != 0x2C && u != 0x3B && u != 0x5C
}

/// Whether `s` has the shape of a wire session token: non-empty cookie
/// octets, so it can travel unchanged as a cookie value or bearer token.
pub open spec fn wire_format(s: Seq<char>) -> bool {
    s.len() > 0 && forall|i: int| 0 <= i < s.len() ==> token_char(#[trigger] s[i])
}

/// Whether `raw` has the shape of a wire session token.
pub fn is_valid_wire_format(raw: &str) -> (ok: bool)
    ensures
        ok == wire_format(raw@),
{
    let v = chars_of(raw);
    if v.len() == 0 {
        return false;
    }
    let mut i: usize = 0;
    while i < v.len()
        invariant
            v@ == raw@,
            0 <= i <= v.len(),
            forall|j: int| 0 <= j < i ==> token_char(#[trigger] v@[j]),
        decreases v.len() - i,
    {
        let u = v[i] as u32;
        if !(0x21 <= u && u <= 0x7E && u != 0x22 && u != 0x2C && u != 0x3B && u != 0x5C) {
            return false;
        }
        i = i + 1;
    }
    true
}

/// Every well-formed wire token survives a cookie: it is a cookie token, so
/// an issued session cookie carrying it reads back as the same token.
pub proof fn lemma_wire_token_is_cookie_token(t: Seq<char>)
    requires
        wire_format(t),
    ensures
        crate::cookie::is_cookie_token(t),
{
    assert(token_char(t[0]));
    assert(token_char(t.last()));
    if crate::text::has_char(t, ';') {
        let k = choose|k: int| 0 <= k < t.len() && t[k] == ';';
        assert(token_char(t[k]));
    }
}

/// What a restore does next with the token storage's answer.
#[derive(Debug, Clone, PartialEq, Eq)]
pub enum RestoreStep {
    /// Validate this stored token with the engine, then finish the restore.
    Validate(SessionId),
    /// Settled: nothing usable was stored and the state is guest.
    Settled,
    /// The storage could not be read; the state is guest and the failure
    /// is to be reported.
    Failed(AuthError),
}

/// The authentication state of a client subtree.
///
/// Every transition keeps it well formed: a user is signed in exactly when a
/// wire token is held, and a token can only be marked persisted while it is
/// held.
pub struct AuthState<T> {
    status: AuthStatus<T>,
    token: Option<SessionId>,
    token_persisted: bool,
    restore_unavailable: Option<ErrorCode>,
}

impl<T> AuthState<T> {
    /// The well-formedness every state satisfies: signed in exactly when a
    /// token is held, persisted only when one is held.
    #[verifier::type_invariant]
    spec fn wf(self) -> bool {
        &&& (self.status is Authenticated) == (self.token is Some)
        &&& self.token_persisted ==> self.token is Some
    }

    /// The current status.
    pub closed spec fn spec_status(&self) -> AuthStatus<T> {
        self.status
    }

    /// The held wire token.
    pub closed spec fn spec_token(&self) -> Option<Seq<char>> {
        match self.token {
            Some(t) => Some(t@),
            None => None,
        }
    }

    /// Whether the held token was written to storage.
    pub closed spec fn spec_persisted(&self) -> bool {
        self.token_persisted
    }

    /// The code of the last restore failure that left the question open.
    pub closed spec fn spec_unavailable(&self) -> Option<ErrorCode> {
        self.restore_unavailable
    }

    /// The state of a freshly mounted provider: loading, nothing held.
    pub fn new() -> (s: Self)
        ensures
            s.spec_status() is Loading,
            s.spec_token() is None,
            !s.spec_persisted(),
            s.spec_unavailable() is None,
    {
        AuthState {
            status: AuthStatus::Loading,
            token: None,
            token_persisted: false,
            restore_unavailable: None,
        }
    }

    /// The current status.
    pub fn status(&self) -> (s: &AuthStatus<T>)
        ensures
            *s == self.spec_status(),
            (self.spec_status() is Authenticated) == (self.spec_token() is Some),
            self.spec_persisted() ==> self.spec_token() is Some,
    {
        proof {
            use_type_invariant(self);
        }
        &self.status
    }

    /// The held wire token.
    pub fn token(&self) -> (t: Option<&SessionId>)
        ensures
            match t {
                Some(id) => self.spec_token() == Some(id@),
                None => self.spec_token() is None,
            },
    {
        match &self.token {
            Some(t) => Some(t),
            None => None,
        }
    }

    /// Whether the held token was written to storage. A login whose
    /// persistence failed keeps its in-memory session, lost on reload.
    pub fn token_persisted(&self) -> (p: bool)
        ensures
            p == self.spec_persisted(),
    {
        self.token_persisted
    }

    /// Whether the state is still being restored.
    pub fn is_loading(&self) -> (b: bool)
        ensures
            b == (self.spec_status() is Loading),
    {
        match &self.status {
            AuthStatus::Loading => true,
            _ => false,
        }
    }

    /// Whether a user is signed in.
    pub fn is_authenticated(&self) -> (b: bool)
        ensures
            b == (self.spec_status() is Authenticated),
    {
        match &self.status {
            AuthStatus::Authenticated(_) => true,
            _ => false,
        }
    }

    /// Demotes to guest: no user, no token, nothing persisted.
    pub fn set_guest(&mut self)
        ensures
            final(self).spec_status() is Guest,
            final(self).spec_token() is None,
            !final(self).spec_persisted(),
            final(self).spec_unavailable() == old(self).spec_unavailable(),
    {
        let unavailable = self.restore_unavailable;
        *self = AuthState {
            status: AuthStatus::Guest,
            token: None,
            token_persisted: false,
            restore_unavailable: unavailable,
        };
    }

    /// Settles a successful login: the user is signed in with `wire`, and
    /// `persisted` records whether the token storage accepted it.
    pub fn finish_login(&mut self, user: T, wire: SessionId, persisted: bool)
        ensures
            final(self).spec_status() == AuthStatus::Authenticated(user),
            final(self).spec_token() == Some(wire@),
            final(self).spec_persisted() == persisted,
            final(self).spec_unavailable() == old(self).spec_unavailable(),
    {
        let unavailable = self.restore_unavailable;
        *self = AuthState {
            status: AuthStatus::Authenticated(user),
            token: Some(wire),
            token_persisted: persisted,
            restore_unavailable: unavailable,
        };
    }

    /// Settles a logout: whatever the revocation and the storage clear
    /// reported, the state becomes guest; the result is the first failure.
    pub fn finish_logout(&mut self, revoke_failure: Option<AuthError>, clear_failure: Option<
        AuthError,
    >) -> (r: Result<(), AuthError>)
        ensures
            final(self).spec_status() is Guest,
            final(self).spec_token() is None,
            !final(self).spec_persisted(),
            r == match (revoke_failure, clear_failure) {
                (Some(e), _) => Err(e),
                (None, Some(e)) => Err(e),
                (None, None) => Ok::<(), AuthError>(()),
            },
    {
        self.set_guest();
        match (revoke_failure, clear_failure) {
            (Some(e), _) => Err(e),
            (None, Some(e)) => Err(e),
            (None, None) => Ok(()),
        }
    }

    /// Settles a re-validation of the held token: a resolved user refreshes
    /// the status, a rejected session demotes to guest, and an engine error
    /// leaves the state untouched.
    pub fn finish_validate(&mut self, outcome: Result<Option<T>, AuthError>) -> (r: Result<
        Option<T>,
        AuthError,
    >)
        where T: Clone
        requires
            old(self).spec_token() is Some,
        ensures
            match outcome {
                Ok(Some(u)) => final(self).spec_status() matches AuthStatus::Authenticated(v) && cloned::<T>(u, v)
                    && final(self).spec_token() == old(self).spec_token()
                    && final(self).spec_persisted() == old(self).spec_persisted()
                    && r == Ok::<Option<T>, AuthError>(Some(u)),
                Ok(None) => final(self).spec_status() is Guest && final(self).spec_token() is None
                    && r == Ok::<Option<T>, AuthError>(None),
                Err(e) => *final(self) == *old(self) && r == Err::<Option<T>, AuthError>(e),
            },
    {
        proof {
            use_type_invariant(&*self);
        }
        match outcome {
            Ok(Some(user)) => {
                self.status = AuthStatus::Authenticated(user.clone());
                Ok(Some(user))
            },
            Ok(None) => {
                self.set_guest();
                Ok(None)
            },
            Err(e) => Err(e),
        }
    }

    /// The first half of a restore, given what the token storage returned:
    /// a well-formed stored token is to be validated; an absent or malformed
    /// one settles the state as guest; a storage failure makes the state
    /// guest as well, a fresh start, and is handed back to be reported.
    pub fn begin_restore(&mut self, stored: Result<Option<String>, AuthError>) -> (step: RestoreStep)
        ensures
            match stored {
                Err(e) => step == RestoreStep::Failed(e) && final(self).spec_status() is Guest
                    && final(self).spec_token() is None && !final(self).spec_persisted()
                    && final(self).spec_unavailable() == old(self).spec_unavailable(),
                Ok(Some(raw)) => if wire_format(raw@) {
                    step matches RestoreStep::Validate(id) && id@ == raw@ && final(self).spec_status()
                        == old(self).spec_status() && final(self).spec_token() == old(
                        self,
                    ).spec_token() && final(self).spec_persisted() == old(self).spec_persisted()
                } else {
                    step == RestoreStep::Settled && final(self).spec_status() is Guest
                        && final(self).spec_token() is None
                },
                Ok(None) => step == RestoreStep::Settled && final(self).spec_status() is Guest
                    && final(self).spec_token() is None,
            },
    {
        match stored {
            Err(e) => {
                self.set_guest();
                RestoreStep::Failed(e)
            },
            Ok(Some(raw)) => {
                if is_valid_wire_format(raw.as_str()) {
                    RestoreStep::Validate(SessionId::from_string(raw))
                } else {
                    self.set_guest();
                    RestoreStep::Settled
                }
            },
            Ok(None) => {
                self.set_guest();
                RestoreStep::Settled
            },
        }
    }

    /// Records the code of a restore failure that left the question open.
    fn record_unavailable(&mut self, code: ErrorCode)
        ensures
            final(self).spec_status() == old(self).spec_status(),
            final(self).spec_token() == old(self).spec_token(),
            final(self).spec_persisted() == old(self).spec_persisted(),
            final(self).spec_unavailable() == Some(code),
    {
        proof {
            use_type_invariant(&*self);
        }
        self.restore_unavailable = Some(code);
    }

    /// The second half of a restore, given the engine's validation of the
    /// stored token `wire`: a resolved user signs in with the token marked
    /// persisted (it came from storage); a rejected session (`Ok(None)`)
    /// demotes to guest; an engine error leaves status, token and persisted
    /// flag as they were, records the failure and is returned.
    pub fn finish_restore(&mut self, wire: SessionId, outcome: Result<Option<T>, AuthError>) -> (r: Result<
        (),
        AuthError,
    >)
        ensures
            match outcome {
                Ok(Some(u)) => final(self).spec_status() == AuthStatus::Authenticated(u)
                    && final(self).spec_token() == Some(wire@) && final(self).spec_persisted()
                    && final(self).spec_unavailable() is None && r is Ok,
                Ok(None) => final(self).spec_status() is Guest && final(self).spec_token() is None
                    && r is Ok,
                Err(e) => r == Err::<(), AuthError>(e) && final(self).spec_status() == old(
                    self,
                ).spec_status() && final(self).spec_token() == old(self).spec_token()
                    && final(self).spec_persisted() == old(self).spec_persisted()
                    && final(self).spec_unavailable() == Some(spec_code(e)),
            },
    {
        match outcome {
            Ok(Some(user)) => {
                *self = AuthState {
                    status: AuthStatus::Authenticated(user),
                    token: Some(wire),
                    token_persisted: true,
                    restore_unavailable: None,
                };
                Ok(())
            },
            Ok(None) => {
                self.set_guest();
                Ok(())
            },
            Err(e) => {
                self.record_unavailable(e.code());
                Err(e)
            },
        }
    }

    /// Logs in with the engine and persists the fresh wire token. On
    /// success the user is signed in with the engine's token, marked
    /// persisted exactly when the storage accepted it; on failure the
    /// engine's error is returned and nothing changes.
    pub fn login<E: AuthOperations<T>, S: TokenStorage>(
        &mut self,
        engine: &E,
        storage: &mut S,
        identifier: &str,
        password: &str,
    ) -> (r: Result<(), AuthError>)
        ensures
            r is Ok ==> final(self).spec_status() is Authenticated && final(self).spec_token() is Some
                && final(self).spec_unavailable() == old(self).spec_unavailable(),
            r is Err ==> *final(self) == *old(self),
            exists|a: Result<(T, SessionId), AuthError>|
                #![trigger login_answer(engine, identifier, password, a)]
                login_answer(engine, identifier, password, a) && match a {
                    Ok((u, w)) => r is Ok && final(self).spec_status() == AuthStatus::Authenticated(u)
                        && final(self).spec_token() == Some(w@),
                    Err(e) => r == Err::<(), AuthError>(e) && *final(self) == *old(self),
                },
    {
        let answer = engine.login(identifier, password);
        assert(login_answer(engine, identifier, password, answer));
        match answer {
            Ok((user, wire)) => {
                let persisted = match storage.store(wire.as_str()) {
                    Ok(()) => true,
                    Err(_) => false,
                };
                self.finish_login(user, wire, persisted);
                Ok(())
            },
            Err(e) => Err(e),
        }
    }

    /// Logs out the held session: the engine revokes it, the storage is
    /// cleared, and whatever either reported the state becomes guest; the
    /// result is the first failure. Without a held token nothing is asked
    /// and nothing changes.
    pub fn logout<E: AuthOperations<T>, S: TokenStorage>(&mut self, engine: &E, storage: &mut S) -> (r: Result<
        (),
        AuthError,
    >)
        ensures
            old(self).spec_token() is None ==> r is Ok && *final(self) == *old(self),
            old(self).spec_token() is Some ==> final(self).spec_status() is Guest
                && final(self).spec_token() is None && !final(self).spec_persisted(),
            old(self).spec_token() is Some ==> exists|id: SessionId, a: Result<(), AuthError>|
                #![trigger logout_answer(engine, &id, a)]
                old(self).spec_token() == Some(id@) && logout_answer(engine, &id, a) && (a matches Err(
                    e,
                ) ==> r == Err::<(), AuthError>(e)) && (r is Ok ==> a is Ok),
    {
        let revoke_failure = match &self.token {
            Some(wire) => {
                let answer = engine.logout(wire);
                assert(logout_answer(engine, wire, answer));
                match answer {
                    Ok(()) => None,
                    Err(e) => Some(e),
                }
            },
            None => return Ok(()),
        };
        let clear_failure = match storage.clear() {
            Ok(()) => None,
            Err(e) => Some(e),
        };
        self.finish_logout(revoke_failure, clear_failure)
    }

    /// Re-validates the held token with the engine (see `finish_validate`
    /// for how the answer settles the state). Without a held token nothing
    /// is asked, nothing changes and the answer is `Ok(None)`.
    pub fn validate<E: AuthOperations<T>>(&mut self, engine: &E) -> (r: Result<Option<T>, AuthError>)
        where T: Clone
        ensures
            old(self).spec_token() is None ==> (r matches Ok(None)) && *final(self) == *old(self),
            r is Err ==> final(self).spec_status() == old(self).spec_status() && final(self).spec_token()
                == old(self).spec_token(),
            old(self).spec_token() is Some && (r matches Ok(None)) ==> final(self).spec_status() is Guest
                && final(self).spec_token() is None,
            r matches Ok(Some(u)) ==> final(self).spec_status() matches AuthStatus::Authenticated(v)
                && cloned::<T>(u, v) && final(self).spec_token() == old(self).spec_token(),
            r is Err ==> *final(self) == *old(self),
            old(self).spec_token() is Some ==> exists|id: SessionId, a: Result<Option<T>, AuthError>|
                #![trigger validate_answer(engine, &id, a)]
                old(self).spec_token() == Some(id@) && validate_answer(engine, &id, a) && r == a,
    {
        let outcome = match &self.token {
            Some(wire) => {
                let answer = engine.validate(wire);
                assert(validate_answer(engine, wire, answer));
                answer
            },
            None => return Ok(None),
        };
        self.finish_validate(outcome)
    }

    /// Restores the session from storage on mount. A well-formed stored
    /// token accepted by the engine signs its user in (persisted); an absent,
    /// malformed or rejected one makes the state guest. A storage read
    /// failure makes the state guest too, a fresh start, and is returned. A
    /// validation failure leaves the status, token and persisted flag as
    /// they were, records the failure (a loading state then reads as
    /// unavailable) and is returned. The storage is never written.
    pub fn restore<E: AuthOperations<T>, S: TokenStorage>(&mut self, engine: &E, storage: &mut S) -> (r: Result<
        (),
        AuthError,
    >)
        ensures
            r is Ok ==> !(final(self).spec_status() is Loading),
            r matches Err(e) ==> (final(self).spec_status() is Guest && final(self).spec_token() is None
                && !final(self).spec_persisted()) || (final(self).spec_status() == old(
                self,
            ).spec_status() && final(self).spec_token() == old(self).spec_token()
                && final(self).spec_persisted() == old(self).spec_persisted()
                && final(self).spec_unavailable() == Some(spec_code(e))),
            r is Ok ==> (final(self).spec_status() matches AuthStatus::Authenticated(u) ==> exists|
                id: SessionId,
            |
                #![trigger validate_answer(engine, &id, Ok::<Option<T>, AuthError>(Some(u)))]
                final(self).spec_token() == Some(id@) && validate_answer(
                    engine,
                    &id,
                    Ok::<Option<T>, AuthError>(Some(u)),
                )),
    {
        let stored = storage.retrieve();
        match self.begin_restore(stored) {
            RestoreStep::Validate(wire) => {
                let outcome = engine.validate(&wire);
                assert(validate_answer(engine, &wire, outcome));
                let ghost held = wire;
                let ghost answer = outcome;
                let r = self.finish_restore(wire, outcome);
                assert(answer matches Ok(Some(u)) ==> self.spec_token() == Some(held@)
                    && validate_answer(engine, &held, Ok::<Option<T>, AuthError>(Some(u))));
                assert(r is Ok ==> (self.spec_status() matches AuthStatus::Authenticated(u) ==> answer
                    == Ok::<Option<T>, AuthError>(Some(u))));
                assert(r is Ok ==> (self.spec_status() matches AuthStatus::Authenticated(u) ==> exists|
                    id: SessionId,
                |
                    #![trigger validate_answer(engine, &id, Ok::<Option<T>, AuthError>(Some(u)))]
                    self.spec_token() == Some(id@) && validate_answer(
                        engine,
                        &id,
                        Ok::<Option<T>, AuthError>(Some(u)),
                    )));
                r
            },
            RestoreStep::Settled => Ok(()),
            RestoreStep::Failed(e) => Err(e),
        }
    }

    /// The session state to render.
    pub fn session_state(&self) -> (s: SessionState<T>)
        where T: Clone
        ensures
            match self.spec_status() {
                AuthStatus::Authenticated(u) => s matches SessionState::SignedIn(v) && cloned::<T>(
                    u,
                    v,
                ),
                AuthStatus::Guest => s matches SessionState::Guest,
                AuthStatus::Loading => match self.spec_unavailable() {
                    Some(code) => s == SessionState::<T>::Unavailable(code),
                    None => s matches SessionState::Pending,
                },
            },
    {
        SessionState::from_parts(&self.status, self.restore_unavailable)
    }
}

/// A client login settles on exactly the engine's answer: when the engine
/// answers the credentials with `(u, w)`, the login succeeds and the state
/// is signed in as `u` holding `w`, whatever it was before; when the engine
/// answers with an error, that error is returned and the state is unchanged.
pub proof fn lemma_login_settles_on_engine_answer<T, E: AuthOperations<T>, S: TokenStorage>(
    state: &mut AuthState<T>,
    engine: &E,
    storage: &mut S,
    identifier: &str,
    password: &str,
    engine_says: Result<(T, SessionId), AuthError>,
    r: Result<(), AuthError>,
)
    requires
        forall|a: Result<(T, SessionId), AuthError>|
            #![trigger login_answer(engine, identifier, password, a)]
            login_answer(engine, identifier, password, a) ==> a == engine_says,
        call_ensures(AuthState::<T>::login::<E, S>, (state, engine, storage, identifier, password), r),
    ensures
        engine_says matches Ok((u, w)) ==> r is Ok && final(state).spec_status() == AuthStatus::Authenticated(u)
            && final(state).spec_token() == Some(w@),
        engine_says matches Err(e) ==> r == Err::<(), AuthError>(e) && *final(state) == *old(state),
{
}

/// Re-validating a held token settles on exactly the engine's answer for
/// that token, and the answer is returned as it is: an engine error leaves
/// the state as it was (a transient failure never signs the user out), a
/// rejected session demotes to guest, and a resolved user keeps the token.
pub proof fn lemma_validate_settles_on_engine_answer<T: Clone, E: AuthOperations<T>>(
    state: &mut AuthState<T>,
    engine: &E,
    engine_says: Result<Option<T>, AuthError>,
    r: Result<Option<T>, AuthError>,
)
    requires
        old(state).spec_token() is Some,
        forall|id: SessionId, a: Result<Option<T>, AuthError>|
            #![trigger validate_answer(engine, &id, a)]
            old(state).spec_token() == Some(id@) && validate_answer(engine, &id, a) ==> a == engine_says,
        call_ensures(AuthState::<T>::validate::<E>, (state, engine), r),
    ensures
        r == engine_says,
        engine_says is Err ==> *final(state) == *old(state),
        engine_says matches Ok(None) ==> final(state).spec_status() is Guest && final(state).spec_token() is None,
        engine_says matches Ok(Some(_)) ==> final(state).spec_status() is Authenticated
            && final(state).spec_token() == old(state).spec_token(),
{
}

/// Logging out a held token always leaves a guest state holding nothing;
/// it succeeds only when the engine accepted revoking that very token, and
/// an engine refusal is the error returned.
pub proof fn lemma_logout_revokes_held_token<T, E: AuthOperations<T>, S: TokenStorage>(
    state: &mut AuthState<T>,
    engine: &E,
    storage: &mut S,
    engine_says: Result<(), AuthError>,
    r: Result<(), AuthError>,
)
    requires
        old(state).spec_token() is Some,
        forall|id: SessionId, a: Result<(), AuthError>|
            #![trigger logout_answer(engine, &id, a)]
            old(state).spec_token() == Some(id@) && logout_answer(engine, &id, a) ==> a == engine_says,
        call_ensures(AuthState::<T>::logout::<E, S>, (state, engine, storage), r),
    ensures
        final(state).spec_status() is Guest && final(state).spec_token() is None,
        engine_says matches Err(e) ==> r == Err::<(), AuthError>(e),
        r is Ok ==> engine_says is Ok,
{
}

} // verus!

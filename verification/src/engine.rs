//! The engine's verbs as the runtime sees them: authenticated subjects are
//! resolved to application users, and credential changes are settled from
//! the answers of the steps they take.
//!
//! Resolution closes differently per verb: login treats an unresolvable
//! subject as bad credentials (fail closed, so a session is never handed out
//! without its user), validation treats it as no session. Store outages
//! propagate in both, so a transient failure never reads as a rejection.

use vstd::prelude::*;

use crate::error::AuthError;
use crate::session::SessionId;

verus! {

/// An authenticated subject: its credential identity and, when the
/// application registered one, the reference to its user record.
#[derive(Debug, Clone, PartialEq, Eq)]
pub struct AuthSubject<A, R> {
    /// The credential identity.
    pub auth_id: A,
    /// The reference to the application user, if any.
    pub app_ref: Option<R>,
}

/// Application user records, looked up by reference. Applications implement
/// it over their database; nothing is assumed about its answers.
pub trait UserStore {
    /// The reference a subject carries to its user.
    type AppRef;
    /// The application user type.
    type User;

    /// The user `app_ref` refers to, `None` when there is none.
    fn resolve(&self, app_ref: &Self::AppRef) -> Result<Option<Self::User>, AuthError>;
}

/// `a` is an answer the store gives when asked for the user `app_ref`
/// refers to: what a call of `store.resolve(app_ref)` can return.
pub open spec fn resolve_answer<S: UserStore>(
    store: &S,
    app_ref: &S::AppRef,
    a: Result<Option<S::User>, AuthError>,
) -> bool {
    call_ensures(S::resolve, (store, app_ref), a)
}

/// What a login makes of the store's answer for its subject: a resolved
/// user, `InvalidCredentials` when there is none, the store's error as it is.
pub open spec fn login_resolution<U>(answer: Result<Option<U>, AuthError>) -> Result<U, AuthError> {
    match answer {
        Ok(Some(u)) => Ok(u),
        Ok(None) => Err(AuthError::InvalidCredentials),
        Err(e) => Err(e),
    }
}

/// Settles a login's user from the store's answer (see
/// [`login_resolution`]).
pub fn settle_login_user<U>(answer: Result<Option<U>, AuthError>) -> (r: Result<U, AuthError>)
    ensures
        r == login_resolution(answer),
{
    match answer {
        Ok(Some(u)) => Ok(u),
        Ok(None) => Err(AuthError::InvalidCredentials),
        Err(e) => Err(e),
    }
}

/// Resolves a logged-in subject to its user: a subject without a user
/// reference fails closed with `InvalidCredentials` before the store is
/// asked; otherwise the store's answer is settled by [`settle_login_user`].
pub fn resolve_user<A, S: UserStore>(store: &S, subject: &AuthSubject<A, S::AppRef>) -> (r: Result<
    S::User,
    AuthError,
>)
    ensures
        subject.app_ref is None ==> r == Err::<S::User, AuthError>(AuthError::InvalidCredentials),
        r is Ok ==> subject.app_ref is Some,
        subject.app_ref matches Some(app_ref) ==> exists|a: Result<Option<S::User>, AuthError>|
            #![trigger resolve_answer(store, &app_ref, a)]
            resolve_answer(store, &app_ref, a) && r == login_resolution(a),
{
    match &subject.app_ref {
        None => Err(AuthError::InvalidCredentials),
        Some(app_ref) => {
            let answer = store.resolve(app_ref);
            assert(resolve_answer(store, app_ref, answer));
            settle_login_user(answer)
        },
    }
}

/// The login verb: given the engine's login answer (the subject and its
/// fresh session), returns the user with the session's wire token. An
/// engine failure is returned as it is; a subject that does not resolve to a
/// user fails closed, so no session leaves without its user.
pub fn login_user<A, S: UserStore>(
    store: &S,
    login: Result<(AuthSubject<A, S::AppRef>, SessionId), AuthError>,
) -> (r: Result<(S::User, SessionId), AuthError>)
    ensures
        login matches Err(e) ==> r == Err::<(S::User, SessionId), AuthError>(e),
        login matches Ok((subject, _)) && subject.app_ref is None ==> r == Err::<
            (S::User, SessionId),
            AuthError,
        >(AuthError::InvalidCredentials),
        r matches Ok((_, token)) ==> login matches Ok((subject, id)) && token == id
            && subject.app_ref is Some,
        login matches Ok((subject, id)) ==> (subject.app_ref matches Some(app_ref) ==> exists|
            a: Result<Option<S::User>, AuthError>,
        |
            #![trigger resolve_answer(store, &app_ref, a)]
            resolve_answer(store, &app_ref, a) && r == match login_resolution(a) {
                Ok(u) => Ok::<(S::User, SessionId), AuthError>((u, id)),
                Err(e) => Err(e),
            }),
{
    match login {
        Err(e) => Err(e),
        Ok((subject, session)) => match resolve_user(store, &subject) {
            Ok(user) => Ok((user, session)),
            Err(e) => Err(e),
        },
    }
}

/// The validate verb: given the engine's validation of a session (its
/// subject, or `None` for no live session), returns the session's user. An
/// engine failure is returned as it is; no session, or a subject without a
/// user reference, is `Ok(None)` (a definitive no); otherwise the store's
/// answer is returned as it is.
pub fn validate_user<A, S: UserStore>(
    store: &S,
    validated: Result<Option<AuthSubject<A, S::AppRef>>, AuthError>,
) -> (r: Result<Option<S::User>, AuthError>)
    ensures
        validated matches Err(e) ==> r == Err::<Option<S::User>, AuthError>(e),
        validated matches Ok(None) ==> r == Ok::<Option<S::User>, AuthError>(None),
        validated matches Ok(Some(subject)) && subject.app_ref is None ==> r == Ok::<
            Option<S::User>,
            AuthError,
        >(None),
        r matches Ok(Some(_)) ==> validated matches Ok(Some(subject)) && subject.app_ref is Some,
        validated matches Ok(Some(subject)) ==> (subject.app_ref matches Some(app_ref) ==> exists|
            a: Result<Option<S::User>, AuthError>,
        |
            #![trigger resolve_answer(store, &app_ref, a)]
            resolve_answer(store, &app_ref, a) && r == a),
{
    match validated {
        Err(e) => Err(e),
        Ok(None) => Ok(None),
        Ok(Some(subject)) => match &subject.app_ref {
            None => Ok(None),
            Some(app_ref) => {
                let answer = store.resolve(app_ref);
                assert(resolve_answer(store, app_ref, answer));
                answer
            },
        },
    }
}

/// The rate limiter's bookkeeping after a credential operation.
#[derive(Debug, Clone, Copy, PartialEq, Eq, Structural)]
pub enum RateRecord {
    /// Nothing is recorded.
    Untouched,
    /// A failed attempt is recorded.
    Failure,
    /// The identifier's failures are cleared.
    Success,
}

/// How a credential operation ends: its result, the rate limiter's
/// bookkeeping, and whether a dummy verification is spent so the failure
/// costs what a real check costs.
#[derive(Debug, PartialEq, Eq)]
pub struct CredentialOutcome {
    /// The operation's result.
    pub result: Result<(), AuthError>,
    /// What is recorded with the rate limiter.
    pub record: RateRecord,
    /// Whether a dummy password verification is spent.
    pub dummy_verify: bool,
}

/// A failure at a step before the store was written: returned as it is,
/// nothing recorded.
pub open spec fn early_failure(e: AuthError) -> CredentialOutcome {
    CredentialOutcome { result: Err(e), record: RateRecord::Untouched, dummy_verify: false }
}

/// Attaching a credential to the caller's own subject, from the answers of
/// its steps in order: the session's validation (`Ok(None)`: no live
/// session), the rate-limit check, the hash of the new password, and the
/// store's attach (`false`: the identifier is taken). Each answer is only
/// consulted when the steps before it succeeded. An unknown session and a
/// taken identifier both answer `InvalidCredentials` with a dummy
/// verification, the same hashing work.
pub open spec fn attach_outcome<A>(
    validated: Result<Option<A>, AuthError>,
    rate: Result<(), AuthError>,
    hashed: Result<Seq<char>, AuthError>,
    attached: Result<bool, AuthError>,
) -> CredentialOutcome {
    match validated {
        Err(e) => early_failure(e),
        Ok(None) => CredentialOutcome {
            result: Err(AuthError::InvalidCredentials),
            record: RateRecord::Untouched,
            dummy_verify: true,
        },
        Ok(Some(_)) => match rate {
            Err(e) => early_failure(e),
            Ok(()) => match hashed {
                Err(e) => early_failure(e),
                Ok(_) => match attached {
                    Err(e) => early_failure(e),
                    Ok(false) => CredentialOutcome {
                        result: Err(AuthError::InvalidCredentials),
                        record: RateRecord::Failure,
                        dummy_verify: true,
                    },
                    Ok(true) => CredentialOutcome {
                        result: Ok(()),
                        record: RateRecord::Success,
                        dummy_verify: false,
                    },
                },
            },
        },
    }
}

/// Settles `attach_current` from its steps' answers (see [`attach_outcome`]):
/// only the owner of a live session may add a login; an unknown session and
/// an identifier already taken are both refused as bad credentials at the
/// cost of a real check, so neither can be told from the other; every other
/// failure is returned as it is.
pub fn attach_current_outcome<A>(
    validated: Result<Option<A>, AuthError>,
    rate: Result<(), AuthError>,
    hashed: Result<String, AuthError>,
    attached: Result<bool, AuthError>,
) -> (o: CredentialOutcome)
    ensures
        o == attach_outcome(
            validated,
            rate,
            match hashed {
                Ok(h) => Ok(h@),
                Err(e) => Err(e),
            },
            attached,
        ),
{
    match validated {
        Err(e) => CredentialOutcome { result: Err(e), record: RateRecord::Untouched, dummy_verify: false },
        Ok(None) => CredentialOutcome {
            result: Err(AuthError::InvalidCredentials),
            record: RateRecord::Untouched,
            dummy_verify: true,
        },
        Ok(Some(_)) => match rate {
            Err(e) => CredentialOutcome { result: Err(e), record: RateRecord::Untouched, dummy_verify: false },
            Ok(()) => match hashed {
                Err(e) => CredentialOutcome {
                    result: Err(e),
                    record: RateRecord::Untouched,
                    dummy_verify: false,
                },
                Ok(_) => match attached {
                    Err(e) => CredentialOutcome {
                        result: Err(e),
                        record: RateRecord::Untouched,
                        dummy_verify: false,
                    },
                    Ok(false) => CredentialOutcome {
                        result: Err(AuthError::InvalidCredentials),
                        record: RateRecord::Failure,
                        dummy_verify: true,
                    },
                    Ok(true) => CredentialOutcome {
                        result: Ok(()),
                        record: RateRecord::Success,
                        dummy_verify: false,
                    },
                },
            },
        },
    }
}

/// Changing a password, from the answers of its steps in order: the proof of
/// the current password, the hash of the new one, the revocation of every
/// session of the subject, and the store's rotation of the secret. Each
/// answer is only consulted when the steps before it succeeded.
pub open spec fn change_password_outcome_spec<A>(
    verified: Result<A, AuthError>,
    hashed: Result<Seq<char>, AuthError>,
    revoked: Result<(), AuthError>,
    rotated: Result<(), AuthError>,
) -> CredentialOutcome {
    match verified {
        Err(e) => early_failure(e),
        Ok(_) => match hashed {
            Err(e) => early_failure(e),
            Ok(_) => match revoked {
                Err(e) => early_failure(e),
                Ok(()) => match rotated {
                    Err(e) => early_failure(e),
                    Ok(()) => CredentialOutcome {
                        result: Ok(()),
                        record: RateRecord::Success,
                        dummy_verify: false,
                    },
                },
            },
        },
    }
}

/// Settles `change_password` from its steps' answers (see
/// [`change_password_outcome_spec`]): the secret rotates only after the
/// current password was proved and every session of the subject revoked.
pub fn change_password_outcome<A>(
    verified: Result<A, AuthError>,
    hashed: Result<String, AuthError>,
    revoked: Result<(), AuthError>,
    rotated: Result<(), AuthError>,
) -> (o: CredentialOutcome)
    ensures
        o == change_password_outcome_spec(
            verified,
            match hashed {
                Ok(h) => Ok(h@),
                Err(e) => Err(e),
            },
            revoked,
            rotated,
        ),
{
    match verified {
        Err(e) => CredentialOutcome { result: Err(e), record: RateRecord::Untouched, dummy_verify: false },
        Ok(_) => match hashed {
            Err(e) => CredentialOutcome { result: Err(e), record: RateRecord::Untouched, dummy_verify: false },
            Ok(_) => match revoked {
                Err(e) => CredentialOutcome {
                    result: Err(e),
                    record: RateRecord::Untouched,
                    dummy_verify: false,
                },
                Ok(()) => match rotated {
                    Err(e) => CredentialOutcome {
                        result: Err(e),
                        record: RateRecord::Untouched,
                        dummy_verify: false,
                    },
                    Ok(()) => CredentialOutcome {
                        result: Ok(()),
                        record: RateRecord::Success,
                        dummy_verify: false,
                    },
                },
            },
        },
    }
}

/// A store outage is never read as a rejection: whatever step fails with an
/// error, that error is the result, for logins, validations, attaches and
/// password changes alike.
pub proof fn lemma_failures_propagate<U, A>(e: AuthError)
    ensures
        login_resolution::<U>(Err(e)) == Err::<U, AuthError>(e),
        attach_outcome::<A>(Err(e), Ok(()), Ok(Seq::empty()), Ok(true)).result == Err::<(), AuthError>(e),
        change_password_outcome_spec::<A>(Err(e), Ok(Seq::empty()), Ok(()), Ok(())).result == Err::<
            (),
            AuthError,
        >(e),
{
}

/// A credential change succeeds only when every step succeeded, and a
/// password rotates only after the subject's sessions were revoked.
pub proof fn lemma_credential_success_needs_every_step<A>(
    verified: Result<A, AuthError>,
    hashed: Result<Seq<char>, AuthError>,
    revoked: Result<(), AuthError>,
    rotated: Result<(), AuthError>,
)
    ensures
        change_password_outcome_spec(verified, hashed, revoked, rotated).result is Ok <==> (
        verified is Ok && hashed is Ok && revoked is Ok && rotated is Ok),
{
}

/// No existence oracle: an unknown session and a taken identifier get the
/// same answer and the same hashing work.
pub proof fn lemma_attach_refusals_look_alike<A>(
    subject: A,
    rate: Result<(), AuthError>,
    hashed: Result<Seq<char>, AuthError>,
)
    requires
        rate is Ok,
        hashed is Ok,
    ensures
        attach_outcome::<A>(Ok(None), rate, hashed, Ok(false)).result == attach_outcome::<A>(
            Ok(Some(subject)),
            rate,
            hashed,
            Ok(false),
        ).result,
        attach_outcome::<A>(Ok(None), rate, hashed, Ok(false)).dummy_verify,
        attach_outcome::<A>(Ok(Some(subject)), rate, hashed, Ok(false)).dummy_verify,
{
}

/// Revocation comes first: when revoking the subject's sessions fails, the
/// password change reports that failure whatever the rotation would have
/// answered, so the secret is never rotated over live sessions; and a wrong
/// current password stops the change before anything else is consulted.
pub proof fn lemma_revocation_precedes_rotation<A>(
    verified: Result<A, AuthError>,
    hashed: Result<Seq<char>, AuthError>,
    e: AuthError,
    rotated: Result<(), AuthError>,
    rotated2: Result<(), AuthError>,
)
    requires
        verified is Ok,
        hashed is Ok,
    ensures
        change_password_outcome_spec(verified, hashed, Err(e), rotated) == change_password_outcome_spec(
            verified,
            hashed,
            Err(e),
            rotated2,
        ),
        change_password_outcome_spec(verified, hashed, Err(e), rotated).result == Err::<(), AuthError>(e),
        change_password_outcome_spec::<A>(Err(e), hashed, Ok(()), rotated).result == Err::<(), AuthError>(e),
{
}

} // verus!

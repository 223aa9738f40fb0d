//! Configuration of the authentication engine.
//!
//! The builder collects the session lifetimes, the single-session policy and
//! the password hasher; `build` refuses lifetimes that would mint dead
//! sessions and pre-computes the dummy hash that keeps unknown identifiers
//! as slow to reject as wrong passwords.

use std::time::Duration;

use vstd::prelude::*;

use crate::error::AuthError;

verus! {

/// Password hashing, supplied by the application or the default hasher.
pub trait PasswordHasher {
    /// A PHC-encoded hash of `password`.
    fn hash(&self, password: &str) -> Result<String, AuthError>;

    /// Whether `password` matches `hash`.
    fn verify(&self, password: &str, hash: &str) -> Result<bool, AuthError>;
}

/// Plaintext hashed once at build time, so that a login for an unknown
/// identifier verifies against a real hash; never any user's password.
pub const DUMMY_PASSWORD: &'static str = "dioxus-auth-timing-defense-dummy-password-do-not-use";

/// Default session time-to-live: 7 days, in seconds.
pub const DEFAULT_SESSION_TTL_SECS: u64 = 604800;

/// The settings of a built engine.
pub struct EngineSettings<H> {
    /// The password hasher.
    pub hasher: H,
    /// Absolute session lifetime, in seconds; never zero.
    pub session_ttl_secs: u64,
    /// Maximum time without validated activity, in seconds; never zero.
    pub idle_timeout_secs: Option<u64>,
    /// Whether a login revokes the user's other sessions.
    pub single_active_session: bool,
    /// The hash of [`DUMMY_PASSWORD`].
    pub dummy_hash: String,
}

/// Fluent builder for the engine configuration.
pub struct AuthEngineBuilder<H> {
    /// The hasher overriding the default one.
    pub hasher: Option<H>,
    /// Absolute session lifetime, in seconds.
    pub session_ttl_secs: u64,
    /// Maximum time without validated activity, in seconds.
    pub idle_timeout_secs: Option<u64>,
    /// Whether a login revokes the user's other sessions.
    pub single_active_session: bool,
}

/// The whole seconds of a duration, with std's `Duration::as_secs`, trusted
/// to return them; `Duration` is opaque here, so no clause states the value.
#[verifier::external_body]
fn duration_secs(duration: Duration) -> (secs: u64) {
    duration.as_secs()
}

impl<H> AuthEngineBuilder<H> {
    /// A builder with the defaults: the default hasher, a 7-day TTL, no idle
    /// timeout, several sessions per user.
    pub fn new() -> (b: Self)
        ensures
            b.hasher is None,
            b.session_ttl_secs == DEFAULT_SESSION_TTL_SECS,
            b.idle_timeout_secs is None,
            !b.single_active_session,
    {
        AuthEngineBuilder {
            hasher: None,
            session_ttl_secs: DEFAULT_SESSION_TTL_SECS,
            idle_timeout_secs: None,
            single_active_session: false,
        }
    }

    /// Overrides the default hasher.
    pub fn hasher(self, hasher: H) -> (b: Self)
        ensures
            b.hasher == Some(hasher),
            b.session_ttl_secs == self.session_ttl_secs,
            b.idle_timeout_secs == self.idle_timeout_secs,
            b.single_active_session == self.single_active_session,
    {
        AuthEngineBuilder { hasher: Some(hasher), ..self }
    }

    /// Sets the session TTL to the whole seconds of `duration`; must be
    /// non-zero for `build` to succeed.
    pub fn session_ttl(self, duration: Duration) -> (b: Self)
        ensures
            b.hasher == self.hasher,
            b.idle_timeout_secs == self.idle_timeout_secs,
            b.single_active_session == self.single_active_session,
    {
        let secs = duration_secs(duration);
        self.session_ttl_secs(secs)
    }

    /// Sets the session TTL in seconds; must be non-zero for `build` to
    /// succeed.
    pub fn session_ttl_secs(self, secs: u64) -> (b: Self)
        ensures
            b.hasher == self.hasher,
            b.session_ttl_secs == secs,
            b.idle_timeout_secs == self.idle_timeout_secs,
            b.single_active_session == self.single_active_session,
    {
        AuthEngineBuilder { session_ttl_secs: secs, ..self }
    }

    /// Sets the idle timeout to the whole seconds of `duration`; must be
    /// non-zero for `build` to succeed.
    pub fn idle_timeout(self, duration: Duration) -> (b: Self)
        ensures
            b.hasher == self.hasher,
            b.session_ttl_secs == self.session_ttl_secs,
            b.idle_timeout_secs is Some,
            b.single_active_session == self.single_active_session,
    {
        let secs = duration_secs(duration);
        self.idle_timeout_secs(secs)
    }

    /// Sets the idle timeout in seconds; must be non-zero for `build` to
    /// succeed.
    pub fn idle_timeout_secs(self, secs: u64) -> (b: Self)
        ensures
            b.hasher == self.hasher,
            b.session_ttl_secs == self.session_ttl_secs,
            b.idle_timeout_secs == Some(secs),
            b.single_active_session == self.single_active_session,
    {
        AuthEngineBuilder { idle_timeout_secs: Some(secs), ..self }
    }

    /// Enforces a single active session per user on login.
    pub fn single_active_session(self, enabled: bool) -> (b: Self)
        ensures
            b.hasher == self.hasher,
            b.session_ttl_secs == self.session_ttl_secs,
            b.idle_timeout_secs == self.idle_timeout_secs,
            b.single_active_session == enabled,
    {
        AuthEngineBuilder { single_active_session: enabled, ..self }
    }

    /// Builds the engine settings with the configured hasher, or
    /// `default_hasher` when none was configured.
    ///
    /// A zero TTL or a zero idle timeout is refused with `Internal` before
    /// anything is hashed (it would mint instantly dead sessions); otherwise
    /// the dummy hash is computed, and the hasher's failure is returned as it
    /// is.
    pub fn build(self, default_hasher: H) -> (r: Result<EngineSettings<H>, AuthError>)
        where H: PasswordHasher
        ensures
            self.session_ttl_secs == 0 ==> (r matches Err(AuthError::Internal(m)) && m@
                == "session TTL must be non-zero"@),
            self.session_ttl_secs != 0 && self.idle_timeout_secs == Some(0u64) ==> (r matches Err(
                AuthError::Internal(m),
            ) && m@ == "idle timeout must be non-zero"@),
            r matches Ok(e) ==> e.session_ttl_secs == self.session_ttl_secs && e.idle_timeout_secs
                == self.idle_timeout_secs && e.single_active_session == self.single_active_session
                && e.hasher == (match self.hasher {
                Some(h) => h,
                None => default_hasher,
            }),
            r is Ok ==> self.session_ttl_secs != 0 && self.idle_timeout_secs != Some(0u64),
    {
        if self.session_ttl_secs == 0 {
            return Err(AuthError::Internal("session TTL must be non-zero".to_owned()));
        }
        if let Some(0) = self.idle_timeout_secs {
            return Err(AuthError::Internal("idle timeout must be non-zero".to_owned()));
        }
        let hasher = match self.hasher {
            Some(h) => h,
            None => default_hasher,
        };
        let dummy = hasher.hash(DUMMY_PASSWORD);
        AuthEngineBuilder { hasher: None, ..self }.settings_from_dummy_hash(hasher, dummy)
    }

    /// The settings once the hasher answered the hash of
    /// [`DUMMY_PASSWORD`]: the hasher's failure is returned as it is;
    /// otherwise the settings keep this builder's lifetimes and session
    /// policy, the hasher, and that hash.
    pub fn settings_from_dummy_hash(self, hasher: H, dummy: Result<String, AuthError>) -> (r: Result<
        EngineSettings<H>,
        AuthError,
    >)
        ensures
            match dummy {
                Err(e) => r == Err::<EngineSettings<H>, AuthError>(e),
                Ok(h) => r matches Ok(s) && s.dummy_hash@ == h@ && s.hasher == hasher
                    && s.session_ttl_secs == self.session_ttl_secs && s.idle_timeout_secs
                    == self.idle_timeout_secs && s.single_active_session
                    == self.single_active_session,
            },
    {
        match dummy {
            Err(e) => Err(e),
            Ok(dummy_hash) => Ok(EngineSettings {
                hasher,
                session_ttl_secs: self.session_ttl_secs,
                idle_timeout_secs: self.idle_timeout_secs,
                single_active_session: self.single_active_session,
                dummy_hash,
            }),
        }
    }
}

} // verus!

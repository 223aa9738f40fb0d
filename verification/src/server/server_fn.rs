//! Request-scoped server authentication context.

use vstd::prelude::*;

use crate::context::{is_valid_wire_format, wire_format};
use crate::cookie::{CookieConfig, opt_str_view, opt_view};
use crate::error::AuthError;
use crate::operations::{AuthEngineHandle, AuthOperations, login_answer, logout_answer, validate_answer};
use crate::server::cookies::{request_cookie_token, request_token};
use crate::server::error::ServerError;
use crate::session::SessionId;

verus! {

/// Engine and cookie configuration for the server slice.
pub struct ServerAuthConfig<E: ?Sized> {
    engine: AuthEngineHandle<E>,
    cookie: CookieConfig,
}

impl<E: ?Sized> ServerAuthConfig<E> {
    /// The engine handle.
    pub closed spec fn spec_engine(&self) -> AuthEngineHandle<E> {
        self.engine
    }

    /// The session cookie configuration.
    pub closed spec fn spec_cookie(&self) -> CookieConfig {
        self.cookie
    }

    /// Creates a server auth configuration.
    pub fn new(engine: AuthEngineHandle<E>, cookie: CookieConfig) -> (c: Self)
        ensures
            c.spec_engine() == engine,
            c.spec_cookie() == cookie,
    {
        ServerAuthConfig { engine, cookie }
    }

    /// The engine used to login, logout, and validate sessions.
    pub fn engine(&self) -> (e: &AuthEngineHandle<E>)
        ensures
            *e == self.spec_engine(),
    {
        &self.engine
    }

    /// The cookie the session token travels in.
    pub fn cookie(&self) -> (c: &CookieConfig)
        ensures
            *c == self.spec_cookie(),
    {
        &self.cookie
    }
}

/// The resolved authentication state of the current request. Guests
/// resolve normally: a missing or stale token yields no user.
pub struct ServerAuthContext<E: ?Sized, U> {
    config: ServerAuthConfig<E>,
    token: Option<SessionId>,
    user: Option<U>,
}

impl<E: ?Sized, U> ServerAuthContext<E, U> {
    /// The configuration resolved against.
    pub closed spec fn spec_config(&self) -> &ServerAuthConfig<E> {
        &self.config
    }

    /// The token carried by the request.
    pub closed spec fn spec_token(&self) -> Option<Seq<char>> {
        match self.token {
            Some(t) => Some(t@),
            None => None,
        }
    }

    /// The validated user.
    pub closed spec fn spec_user(&self) -> Option<U> {
        self.user
    }

    /// A context from a configuration and the request's resolved session.
    pub fn resolved(config: ServerAuthConfig<E>, token: Option<SessionId>, user: Option<U>) -> (c: Self)
        ensures
            *c.spec_config() == config,
            c.spec_token() == match token {
                Some(t) => Some(t@),
                None => None::<Seq<char>>,
            },
            c.spec_user() == user,
    {
        ServerAuthContext { config, token, user }
    }

    /// The configuration the context was resolved against.
    pub fn config(&self) -> (c: &ServerAuthConfig<E>)
        ensures
            c == self.spec_config(),
    {
        &self.config
    }

    /// The engine the context is bound to.
    pub fn engine(&self) -> (e: &AuthEngineHandle<E>)
        ensures
            *e == self.spec_config().spec_engine(),
    {
        self.config.engine()
    }

    /// The raw wire session token carried by the cookie, if present and
    /// well-formed.
    pub fn token(&self) -> (t: Option<&SessionId>)
        ensures
            match t {
                Some(id) => self.spec_token() == Some(id@),
                None => self.spec_token() is None,
            },
    {
        match &self.token {
            Some(t) => Some(t),
            None => None,
        }
    }

    /// The validated user, or `None` for a guest request.
    pub fn user(&self) -> (u: Option<&U>)
        ensures
            match u {
                Some(v) => self.spec_user() == Some(*v),
                None => self.spec_user() is None,
            },
    {
        match &self.user {
            Some(u) => Some(u),
            None => None,
        }
    }

    /// Whether the request resolved to an authenticated user.
    pub fn is_authenticated(&self) -> (b: bool)
        ensures
            b == (self.spec_user() is Some && self.spec_token() is Some),
    {
        self.user.is_some() && self.token.is_some()
    }
}

impl<E: ?Sized, U> ServerAuthContext<E, U> {
    /// Authenticates the credentials and returns the user with the fresh
    /// wire session token. Login is state-changing: with configured origins
    /// the request's `origin` must be present and listed, otherwise it fails
    /// with `Engine(Csrf)` before the engine is asked. An engine failure is
    /// returned wrapped in `ServerError::Engine`.
    pub fn login(&self, origin: Option<&str>, identifier: &str, password: &str) -> (r: Result<
        (U, SessionId),
        ServerError,
    >)
        where E: AuthOperations<U>
        ensures
            !self.spec_config().spec_cookie().origin_permits_change(opt_str_view(origin)) ==> r
                == Err::<(U, SessionId), ServerError>(ServerError::Engine(AuthError::Csrf)),
            r is Err ==> r matches Err(ServerError::Engine(_)),
            self.spec_config().spec_cookie().origin_permits_change(opt_str_view(origin)) ==> exists|
                a: Result<(U, SessionId), AuthError>,
            |
                #![trigger login_answer(&*self.spec_config().spec_engine().spec_engine(), identifier, password, a)]
                login_answer(&*self.spec_config().spec_engine().spec_engine(), identifier, password, a)
                    && r == spec_engine_answer(a),
    {
        match check_state_changing_origin(self.config.cookie(), origin) {
            Ok(()) => {},
            Err(error) => return Err(error),
        }
        let engine: &E = &**self.config.engine().engine();
        let answer = engine.login(identifier, password);
        assert(login_answer(engine, identifier, password, answer));
        engine_answer(answer)
    }

    /// Revokes `token` on the engine. Logout is state-changing: with
    /// configured origins the request's `origin` must be present and listed,
    /// otherwise it fails with `Engine(Csrf)` before the engine is asked. An
    /// engine failure is returned wrapped in `ServerError::Engine`.
    pub fn logout(&self, origin: Option<&str>, token: &SessionId) -> (r: Result<(), ServerError>)
        where E: AuthOperations<U>
        ensures
            !self.spec_config().spec_cookie().origin_permits_change(opt_str_view(origin)) ==> r
                == Err::<(), ServerError>(ServerError::Engine(AuthError::Csrf)),
            r is Err ==> r matches Err(ServerError::Engine(_)),
            self.spec_config().spec_cookie().origin_permits_change(opt_str_view(origin)) ==> exists|
                a: Result<(), AuthError>,
            |
                #![trigger logout_answer(&*self.spec_config().spec_engine().spec_engine(), token, a)]
                logout_answer(&*self.spec_config().spec_engine().spec_engine(), token, a) && r
                    == spec_engine_answer(a),
    {
        match check_state_changing_origin(self.config.cookie(), origin) {
            Ok(()) => {},
            Err(error) => return Err(error),
        }
        let engine: &E = &**self.config.engine().engine();
        let answer = engine.logout(token);
        assert(logout_answer(engine, token, answer));
        engine_answer(answer)
    }
}

/// Once the request passes the origin gate, a server login is exactly the
/// engine's answer to the credentials: when the engine answers with
/// `(u, w)` the login returns `Ok((u, w))`, and when it answers with an
/// error the login fails with that error. A login succeeds only then.
pub proof fn lemma_permitted_login_is_engine_answer<E: AuthOperations<U> + ?Sized, U>(
    ctx: &ServerAuthContext<E, U>,
    origin: Option<&str>,
    identifier: &str,
    password: &str,
    engine_says: Result<(U, SessionId), AuthError>,
    r: Result<(U, SessionId), ServerError>,
)
    requires
        forall|a: Result<(U, SessionId), AuthError>|
            #![trigger login_answer(&*ctx.spec_config().spec_engine().spec_engine(), identifier, password, a)]
            login_answer(&*ctx.spec_config().spec_engine().spec_engine(), identifier, password, a)
                ==> a == engine_says,
        call_ensures(ServerAuthContext::<E, U>::login, (ctx, origin, identifier, password), r),
    ensures
        r is Ok ==> ctx.spec_config().spec_cookie().origin_permits_change(opt_str_view(origin))
            && engine_says is Ok,
        ctx.spec_config().spec_cookie().origin_permits_change(opt_str_view(origin)) ==> {
            &&& engine_says matches Ok(v) ==> r == Ok::<(U, SessionId), ServerError>(v)
            &&& engine_says matches Err(e) ==> r == Err::<(U, SessionId), ServerError>(
                ServerError::Engine(e),
            )
        },
{
}

/// With no expected origins configured (the default cookie configuration),
/// a server login is never refused for its origin: whatever `Origin` the
/// request carries, or none, when the engine answers the credentials with
/// `(u, w)` the login returns exactly `Ok((u, w))`, and when it answers with
/// an error the login fails with that error.
pub proof fn lemma_login_without_origins_is_engine_answer<E: AuthOperations<U> + ?Sized, U>(
    ctx: &ServerAuthContext<E, U>,
    origin: Option<&str>,
    identifier: &str,
    password: &str,
    engine_says: Result<(U, SessionId), AuthError>,
    r: Result<(U, SessionId), ServerError>,
)
    requires
        ctx.spec_config().spec_cookie().expected_origins is None,
        forall|a: Result<(U, SessionId), AuthError>|
            #![trigger login_answer(&*ctx.spec_config().spec_engine().spec_engine(), identifier, password, a)]
            login_answer(&*ctx.spec_config().spec_engine().spec_engine(), identifier, password, a)
                ==> a == engine_says,
        call_ensures(ServerAuthContext::<E, U>::login, (ctx, origin, identifier, password), r),
    ensures
        engine_says matches Ok(v) ==> r == Ok::<(U, SessionId), ServerError>(v),
        engine_says matches Err(e) ==> r == Err::<(U, SessionId), ServerError>(ServerError::Engine(e)),
{
    crate::server_fn::lemma_no_origins_no_gate(ctx.spec_config().spec_cookie(), opt_str_view(origin));
    lemma_permitted_login_is_engine_answer(ctx, origin, identifier, password, engine_says, r);
}

/// A server logout succeeds only for a permitted origin and an engine that
/// accepted the revocation of `token` itself. For a permitted origin the
/// result follows the engine's answer for `token`: success when the engine
/// accepted, the engine's error otherwise.
pub proof fn lemma_logout_is_engine_revocation<E: AuthOperations<U> + ?Sized, U>(
    ctx: &ServerAuthContext<E, U>,
    origin: Option<&str>,
    token: &SessionId,
    engine_says: Result<(), AuthError>,
    r: Result<(), ServerError>,
)
    requires
        forall|a: Result<(), AuthError>|
            #![trigger logout_answer(&*ctx.spec_config().spec_engine().spec_engine(), token, a)]
            logout_answer(&*ctx.spec_config().spec_engine().spec_engine(), token, a) ==> a == engine_says,
        call_ensures(ServerAuthContext::<E, U>::logout, (ctx, origin, token), r),
    ensures
        r is Ok ==> ctx.spec_config().spec_cookie().origin_permits_change(opt_str_view(origin))
            && engine_says is Ok,
        ctx.spec_config().spec_cookie().origin_permits_change(opt_str_view(origin)) ==> {
            &&& engine_says is Ok ==> r is Ok
            &&& engine_says matches Err(e) ==> r == Err::<(), ServerError>(ServerError::Engine(e))
        },
{
}

/// An engine answer as the server slice reports it.
pub open spec fn spec_engine_answer<T>(answer: Result<T, AuthError>) -> Result<T, ServerError> {
    match answer {
        Ok(v) => Ok(v),
        Err(e) => Err(ServerError::Engine(e)),
    }
}

/// An engine answer as the server slice reports it: the value as it is, an
/// engine failure wrapped in `ServerError::Engine`.
pub fn engine_answer<T>(answer: Result<T, AuthError>) -> (r: Result<T, ServerError>)
    ensures
        match answer {
            Ok(v) => r == Ok::<T, ServerError>(v),
            Err(e) => r == Err::<T, ServerError>(ServerError::Engine(e)),
        },
{
    match answer {
        Ok(v) => Ok(v),
        Err(e) => Err(ServerError::Engine(e)),
    }
}

/// The origin gate of a state-changing cookie operation, with the refusal
/// as a server error.
pub fn check_state_changing_origin(cookie: &CookieConfig, origin: Option<&str>) -> (r: Result<
    (),
    ServerError,
>)
    ensures
        r is Ok <==> cookie.origin_permits_change(opt_str_view(origin)),
        r is Err ==> r == Err::<(), ServerError>(ServerError::Engine(AuthError::Csrf)),
{
    match cookie.validate_cookie_origin(origin) {
        Ok(()) => Ok(()),
        Err(error) => Err(ServerError::Engine(error)),
    }
}

/// The error reported when a blocking engine task was lost to runtime
/// shutdown.
pub fn blocking_cancelled() -> (e: ServerError)
    ensures
        e matches ServerError::Engine(AuthError::Internal(m)) && m@ == "the blocking task was cancelled"@,
{
    ServerError::Engine(AuthError::Internal("the blocking task was cancelled".to_owned()))
}

/// Validates the session cookie carried by the request's `Cookie` header
/// values (raw bytes, in order).
///
/// A missing or malformed token yields `(None, None)` without asking the
/// engine. Otherwise the well-formed token is returned with whatever user
/// the engine resolves for it, and an engine failure is returned as
/// `ServerError::Engine`.
pub fn authenticate_headers<U, E: AuthOperations<U> + ?Sized>(
    config: &ServerAuthConfig<E>,
    cookie_headers: &Vec<Vec<u8>>,
) -> (r: Result<(Option<SessionId>, Option<U>), ServerError>)
    ensures
        ({
            let presented = request_token(
                cookie_headers@.map_values(|v: Vec<u8>| v@),
                config.spec_cookie().wire_name(),
            );
            let usable = presented matches Some(t) && wire_format(t);
            &&& !usable ==> (r matches Ok((None, None)))
            &&& match r {
                Ok((Some(id), _)) => usable && presented == Some(id@),
                Ok((None, u)) => u is None && !usable,
                Err(e) => usable && e is Engine,
            }
            &&& usable ==> exists|id: SessionId, a: Result<Option<U>, AuthError>|
                #![trigger validate_answer(&*config.spec_engine().spec_engine(), &id, a)]
                presented == Some(id@) && validate_answer(&*config.spec_engine().spec_engine(), &id, a)
                    && match a {
                    Ok(u) => r matches Ok((Some(i), v)) && i@ == id@ && v == u,
                    Err(e) => r == Err::<(Option<SessionId>, Option<U>), ServerError>(
                        ServerError::Engine(e),
                    ),
                }
        }),
{
    let name = config.cookie.cookie_name();
    let token = match request_cookie_token(cookie_headers, name.as_str()) {
        Some(token) => token,
        None => return Ok((None, None)),
    };
    if !is_valid_wire_format(token.as_str()) {
        return Ok((None, None));
    }
    let token = SessionId::from_string(token);
    let engine: &E = &**config.engine.engine();
    let answer = engine.validate(&token);
    assert(validate_answer(&*config.spec_engine().spec_engine(), &token, answer));
    match answer {
        Ok(user) => Ok((Some(token), user)),
        Err(error) => Err(ServerError::Engine(error)),
    }
}

/// A state-changing request from a refused origin fails with status 403
/// (Forbidden), both as a server error and as an engine error.
pub proof fn lemma_refused_change_is_forbidden()
    ensures
        crate::server::error::spec_server_status(ServerError::Engine(AuthError::Csrf)) == 403,
        crate::server::error::spec_auth_status(AuthError::Csrf) == 403,
{
}

} // verus!

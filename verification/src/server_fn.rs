//! Request-scoped server authentication: which session a request presents,
//! whether its origin may use it, and the cookies that answer it.

use vstd::prelude::*;

use crate::cookie::{CookieConfig, OriginValidation, opt_str_view, opt_view};
use crate::error::AuthError;
use crate::operations::{AuthOperations, login_answer, logout_answer, validate_answer};
use crate::server::cookies::{ResponseCookies, header_value_ok, is_header_value};
use crate::session::SessionId;
use crate::transport::{bearer_token, extract_session_token, parse_bearer, presented_token};

verus! {

/// The session credential a request presents, and how it travelled.
#[derive(Debug, Clone, PartialEq, Eq)]
pub enum Credential {
    /// An `Authorization: Bearer` token: never origin-checked, since a
    /// foreign site cannot forge the header.
    Bearer(SessionId),
    /// The session cookie: subject to the origin gate.
    Cookie(SessionId),
}

impl Credential {
    /// The token and whether it came from the cookie.
    pub open spec fn spec_parts(self) -> (Seq<char>, bool) {
        match self {
            Credential::Bearer(id) => (id@, false),
            Credential::Cookie(id) => (id@, true),
        }
    }
}

/// The credential a request authenticates with, as token and
/// came-from-cookie flag: a bearer token wins; otherwise the session cookie,
/// which is refused with `Csrf` when the `Origin` header names a foreign
/// origin (a missing origin is fine for reads).
pub open spec fn read_credential(
    cfg: CookieConfig,
    cookie: Option<Seq<char>>,
    origin: Option<Seq<char>>,
    authorization: Option<Seq<char>>,
) -> Result<Option<(Seq<char>, bool)>, AuthError> {
    let from_cookie: Option<(Seq<char>, bool)> = match cookie {
        Some(c) => match cfg.session_in(c) {
            Some(id) => Some((id, true)),
            None => None,
        },
        None => None,
    };
    let bearer = match authorization {
        Some(a) => bearer_token(a),
        None => None,
    };
    let chosen = match bearer {
        Some(t) => Some((t, false)),
        None => from_cookie,
    };
    match chosen {
        Some((id, true)) => if cfg.origin_class(origin) is Mismatch {
            Err(AuthError::Csrf)
        } else {
            Ok(Some((id, true)))
        },
        other => Ok(other),
    }
}

/// The session a logout revokes: a presented bearer token (the `Cookie`
/// header standing in when the `Authorization` header carries none) is
/// revoked without an origin check; a cookie session alone requires a
/// present, listed origin and is refused with `Csrf` otherwise; with no
/// session presented nothing is revoked.
pub open spec fn logout_target(
    cfg: CookieConfig,
    cookie: Option<Seq<char>>,
    origin: Option<Seq<char>>,
    authorization: Option<Seq<char>>,
) -> Result<Option<Seq<char>>, AuthError> {
    let bearer = match authorization {
        Some(a) => presented_token(Some(a), cookie, cfg.name@, cfg.host_only),
        None => None,
    };
    match bearer {
        Some(t) => Ok(Some(t)),
        None => match cookie {
            Some(c) => match cfg.session_in(c) {
                Some(id) => if cfg.origin_permits_change(origin) {
                    Ok(Some(id))
                } else {
                    Err(AuthError::Csrf)
                },
                None => Ok(None),
            },
            None => Ok(None),
        },
    }
}

/// Server-side authentication helper for server functions and handlers.
///
/// Holds the engine, the cookie configuration and the request's `Cookie`,
/// `Origin` and `Authorization` headers; decides which session the request
/// presents and produces `Set-Cookie` values.
pub struct ServerAuthContext<'a, E> {
    engine: &'a E,
    cookie_config: &'a CookieConfig,
    cookie_header: Option<String>,
    origin_header: Option<String>,
    authorization_header: Option<String>,
}

impl<'a, E> ServerAuthContext<'a, E> {
    /// The engine this context is bound to.
    pub closed spec fn spec_engine(&self) -> &'a E {
        self.engine
    }

    /// The cookie configuration this context is bound to.
    pub closed spec fn spec_config(&self) -> CookieConfig {
        *self.cookie_config
    }

    /// The stored `Cookie` header.
    pub closed spec fn spec_cookie(&self) -> Option<Seq<char>> {
        opt_view(self.cookie_header)
    }

    /// The stored `Origin` header.
    pub closed spec fn spec_origin(&self) -> Option<Seq<char>> {
        opt_view(self.origin_header)
    }

    /// The stored `Authorization` header.
    pub closed spec fn spec_authorization(&self) -> Option<Seq<char>> {
        opt_view(self.authorization_header)
    }

    /// A context bound to the engine and cookie configuration, without
    /// request headers.
    pub fn new(engine: &'a E, cookie_config: &'a CookieConfig) -> (ctx: Self)
        ensures
            ctx.spec_engine() == engine,
            ctx.spec_config() == *cookie_config,
            ctx.spec_cookie() is None,
            ctx.spec_origin() is None,
            ctx.spec_authorization() is None,
    {
        ServerAuthContext {
            engine,
            cookie_config,
            cookie_header: None,
            origin_header: None,
            authorization_header: None,
        }
    }

    /// A context holding the given request headers.
    pub fn from_headers(
        engine: &'a E,
        cookie_config: &'a CookieConfig,
        cookie_header: Option<String>,
        origin_header: Option<String>,
        authorization_header: Option<String>,
    ) -> (ctx: Self)
        ensures
            ctx.spec_engine() == engine,
            ctx.spec_config() == *cookie_config,
            ctx.spec_cookie() == opt_view(cookie_header),
            ctx.spec_origin() == opt_view(origin_header),
            ctx.spec_authorization() == opt_view(authorization_header),
    {
        ServerAuthContext {
            engine,
            cookie_config,
            cookie_header,
            origin_header,
            authorization_header,
        }
    }

    /// The underlying engine.
    pub fn engine(&self) -> (e: &'a E)
        ensures
            e == self.spec_engine(),
    {
        self.engine
    }

    /// The configured cookie.
    pub fn cookie_config(&self) -> (c: &'a CookieConfig)
        ensures
            *c == self.spec_config(),
    {
        self.cookie_config
    }

    /// The raw `Cookie` header, if present.
    pub fn cookie_header(&self) -> (h: Option<&str>)
        ensures
            opt_str_view(h) == self.spec_cookie(),
    {
        match &self.cookie_header {
            Some(s) => Some(s.as_str()),
            None => None,
        }
    }

    /// The raw `Origin` header, if present.
    pub fn origin_header(&self) -> (h: Option<&str>)
        ensures
            opt_str_view(h) == self.spec_origin(),
    {
        match &self.origin_header {
            Some(s) => Some(s.as_str()),
            None => None,
        }
    }

    /// The raw `Authorization` header, if present.
    pub fn authorization_header(&self) -> (h: Option<&str>)
        ensures
            opt_str_view(h) == self.spec_authorization(),
    {
        match &self.authorization_header {
            Some(s) => Some(s.as_str()),
            None => None,
        }
    }

    /// The session id in the stored `Cookie` header.
    pub fn session_id(&self) -> (id: Option<SessionId>)
        ensures
            match id {
                Some(i) => self.spec_cookie() matches Some(c) && self.spec_config().session_in(c)
                    == Some(i@),
                None => self.spec_cookie() matches Some(c) ==> self.spec_config().session_in(
                    c,
                ) is None,
            },
    {
        match &self.cookie_header {
            Some(h) => self.cookie_config.extract_session_id(h.as_str()),
            None => None,
        }
    }

    /// The session id in `cookie_header`, or in the stored `Cookie` header
    /// when none is given.
    pub fn extract_session_id(&self, cookie_header: Option<&str>) -> (id: Option<SessionId>)
        ensures
            ({
                let header = match cookie_header {
                    Some(h) => Some(h@),
                    None => self.spec_cookie(),
                };
                match id {
                    Some(i) => header matches Some(c) && self.spec_config().session_in(c) == Some(
                        i@,
                    ),
                    None => header matches Some(c) ==> self.spec_config().session_in(c) is None,
                }
            }),
    {
        let header = match cookie_header {
            Some(h) => Some(h),
            None => self.cookie_header(),
        };
        match header {
            Some(h) => self.cookie_config.extract_session_id(h),
            None => None,
        }
    }

    /// The `Set-Cookie` value that clears the session cookie.
    pub fn build_delete_cookie_header(&self) -> (h: String)
        ensures
            h@ == self.spec_config().delete_cookie_text(),
    {
        self.cookie_config.build_delete_cookie_header()
    }

    /// The `Set-Cookie` value that establishes `session_id`.
    pub fn build_set_cookie_header(&self, session_id: &SessionId) -> (h: String)
        ensures
            h@ == self.spec_config().set_cookie_text(session_id@),
    {
        self.cookie_config.build_set_cookie_header(session_id)
    }

    /// The headers to authenticate with: each given header, or the stored
    /// one when it is not given.
    pub open spec fn effective(given: Option<Seq<char>>, stored: Option<Seq<char>>) -> Option<
        Seq<char>,
    > {
        match given {
            Some(h) => Some(h),
            None => stored,
        }
    }

    /// The credential the request authenticates with, before the engine
    /// validates it: a bearer token wins over the cookie, and only a cookie
    /// credential is checked against the origin (a foreign origin is
    /// refused with `Csrf`, a missing one is accepted). Each argument
    /// falls back to the stored header when `None`.
    pub fn credential(
        &self,
        cookie_header: Option<&str>,
        origin_header: Option<&str>,
        authorization_header: Option<&str>,
    ) -> (r: Result<Option<Credential>, AuthError>)
        ensures
            ({
                let spec = read_credential(
                    self.spec_config(),
                    Self::effective(opt_str_view(cookie_header), self.spec_cookie()),
                    Self::effective(opt_str_view(origin_header), self.spec_origin()),
                    Self::effective(opt_str_view(authorization_header), self.spec_authorization()),
                );
                match r {
                    Ok(Some(c)) => spec == Ok::<Option<(Seq<char>, bool)>, AuthError>(
                        Some(c.spec_parts()),
                    ),
                    Ok(None) => spec == Ok::<Option<(Seq<char>, bool)>, AuthError>(None),
                    Err(e) => spec == Err::<Option<(Seq<char>, bool)>, AuthError>(e),
                }
            }),
    {
        let cookie = match cookie_header {
            Some(h) => Some(h),
            None => self.cookie_header(),
        };
        let origin = match origin_header {
            Some(h) => Some(h),
            None => self.origin_header(),
        };
        let authorization = match authorization_header {
            Some(h) => Some(h),
            None => self.authorization_header(),
        };
        let bearer = match authorization {
            Some(a) => parse_bearer(a),
            None => None,
        };
        let chosen = match bearer {
            Some(t) => Credential::Bearer(SessionId::from_string(t)),
            None => {
                let from_cookie = match cookie {
                    Some(c) => self.cookie_config.extract_session_id(c),
                    None => None,
                };
                match from_cookie {
                    Some(id) => Credential::Cookie(id),
                    None => return Ok(None),
                }
            },
        };
        if let Credential::Cookie(_) = &chosen {
            if let OriginValidation::Mismatch { .. } = self.cookie_config.validate_origin(origin) {
                return Err(AuthError::Csrf);
            }
        }
        Ok(Some(chosen))
    }

    /// The session a logout of this request revokes (see
    /// [`logout_target`]); each argument falls back to the stored header
    /// when `None`.
    pub fn logout_target(
        &self,
        cookie_header: Option<&str>,
        origin_header: Option<&str>,
        authorization_header: Option<&str>,
    ) -> (r: Result<Option<SessionId>, AuthError>)
        ensures
            ({
                let spec = logout_target(
                    self.spec_config(),
                    Self::effective(opt_str_view(cookie_header), self.spec_cookie()),
                    Self::effective(opt_str_view(origin_header), self.spec_origin()),
                    Self::effective(opt_str_view(authorization_header), self.spec_authorization()),
                );
                match r {
                    Ok(Some(id)) => spec == Ok::<Option<Seq<char>>, AuthError>(Some(id@)),
                    Ok(None) => spec == Ok::<Option<Seq<char>>, AuthError>(None),
                    Err(e) => spec == Err::<Option<Seq<char>>, AuthError>(e),
                }
            }),
    {
        let cookie = match cookie_header {
            Some(h) => Some(h),
            None => self.cookie_header(),
        };
        let origin = match origin_header {
            Some(h) => Some(h),
            None => self.origin_header(),
        };
        let authorization = match authorization_header {
            Some(h) => Some(h),
            None => self.authorization_header(),
        };
        if let Some(a) = authorization {
            let presented = extract_session_token(
                Some(a),
                cookie,
                self.cookie_config.name.as_str(),
                self.cookie_config.host_only,
            );
            if let Some(t) = presented {
                return Ok(Some(SessionId::from_string(t)));
            }
        }
        let from_cookie = match cookie {
            Some(c) => self.cookie_config.extract_session_id(c),
            None => None,
        };
        match from_cookie {
            Some(id) => match self.cookie_config.validate_cookie_origin(origin) {
                Ok(()) => Ok(Some(id)),
                Err(e) => Err(e),
            },
            None => Ok(None),
        }
    }
}

impl<'a, E> ServerAuthContext<'a, E> {
    /// Authenticates the request: the credential chosen as [`credential`]
    /// describes (bearer first, cookie under the origin gate) is validated
    /// by the engine. A refused origin is answered `Csrf` and a request
    /// without a credential is a guest, both without asking the engine;
    /// otherwise the engine's answer is returned as it is.
    ///
    /// [`credential`]: ServerAuthContext::credential
    pub fn current_user<U>(
        &self,
        cookie_header: Option<&str>,
        origin_header: Option<&str>,
        authorization_header: Option<&str>,
    ) -> (r: Result<Option<U>, AuthError>)
        where E: AuthOperations<U>
        ensures
            ({
                let spec = read_credential(
                    self.spec_config(),
                    Self::effective(opt_str_view(cookie_header), self.spec_cookie()),
                    Self::effective(opt_str_view(origin_header), self.spec_origin()),
                    Self::effective(opt_str_view(authorization_header), self.spec_authorization()),
                );
                &&& (spec matches Err(e) ==> r == Err::<Option<U>, AuthError>(e))
                &&& (spec matches Ok(None) ==> r matches Ok(None))
                &&& (spec matches Ok(Some((t, _))) ==> exists|id: SessionId, a: Result<Option<U>, AuthError>|
                    #![trigger validate_answer(self.spec_engine(), &id, a)]
                    id@ == t && validate_answer(self.spec_engine(), &id, a) && r == a)
            }),
    {
        match self.credential(cookie_header, origin_header, authorization_header) {
            Err(e) => Err(e),
            Ok(None) => Ok(None),
            Ok(Some(Credential::Bearer(id))) => {
                let answer = self.engine.validate(&id);
                assert(validate_answer(self.spec_engine(), &id, answer));
                answer
            },
            Ok(Some(Credential::Cookie(id))) => {
                let answer = self.engine.validate(&id);
                assert(validate_answer(self.spec_engine(), &id, answer));
                answer
            },
        }
    }

    /// Revokes `session_id` with the engine and, once it is revoked,
    /// returns the `Set-Cookie` value that clears the session cookie; an
    /// engine failure is returned as it is.
    pub fn logout<U>(&self, session_id: &SessionId) -> (r: Result<String, AuthError>)
        where E: AuthOperations<U>
        ensures
            r matches Ok(h) ==> h@ == self.spec_config().delete_cookie_text(),
            exists|a: Result<(), AuthError>|
                #![trigger logout_answer(self.spec_engine(), session_id, a)]
                logout_answer(self.spec_engine(), session_id, a) && match a {
                    Err(e) => r == Err::<String, AuthError>(e),
                    Ok(()) => r matches Ok(h) && h@ == self.spec_config().delete_cookie_text(),
                },
    {
        let revoked = self.engine.logout(session_id);
        assert(logout_answer(self.spec_engine(), session_id, revoked));
        self.finish_logout(revoked)
    }

    /// Settles a logout from the engine's answer: the clearing `Set-Cookie`
    /// value once revoked, the engine's error as it is.
    pub fn finish_logout(&self, revoked: Result<(), AuthError>) -> (r: Result<String, AuthError>)
        ensures
            match revoked {
                Err(e) => r == Err::<String, AuthError>(e),
                Ok(()) => r matches Ok(h) && h@ == self.spec_config().delete_cookie_text(),
            },
    {
        match revoked {
            Ok(()) => Ok(self.build_delete_cookie_header()),
            Err(e) => Err(e),
        }
    }

    /// Writes `header` into the response being built, unless it cannot be a
    /// header value, which fails with `Internal` and writes nothing.
    fn write_header(response: &mut ResponseCookies, header: String) -> (r: Result<(), AuthError>)
        requires
            old(response).in_request,
        ensures
            final(response).in_request,
            header_value_ok(header@) ==> r is Ok && final(response).written() == old(
                response,
            ).written().push(header@),
            !header_value_ok(header@) ==> (r matches Err(AuthError::Internal(m)) && m@
                == "invalid cookie header"@) && final(response).written() == old(response).written(),
    {
        if !is_header_value(header.as_str()) {
            return Err(AuthError::Internal("invalid cookie header".to_owned()));
        }
        let ghost before = response.written();
        let ghost text = header@;
        response.set_cookie.push(header);
        assert(response.written() =~= before.push(text));
        Ok(())
    }
}

/// What `logout_current` does with a request: refuse it, do nothing, or
/// revoke a token and say whether the session cookie is cleared too.
///
/// A token presented with an `Authorization` header (the `Cookie` header
/// standing in when that header carries no bearer token) is revoked without
/// an origin check. Otherwise a present `Cookie` header puts the request
/// under the origin gate (refused with `Csrf`), and the session it carries,
/// if any, is revoked. The cookie is cleared exactly when the `Cookie`
/// header carried a session.
pub open spec fn logout_current_plan(
    cfg: CookieConfig,
    cookie: Option<Seq<char>>,
    origin: Option<Seq<char>>,
    authorization: Option<Seq<char>>,
) -> Result<Option<(Seq<char>, bool)>, AuthError> {
    let had_cookie = cookie matches Some(c) && cfg.session_in(c) is Some;
    let wire = match authorization {
        Some(a) => presented_token(Some(a), cookie, cfg.name@, cfg.host_only),
        None => None,
    };
    if wire is None && cookie is Some && !cfg.origin_permits_change(origin) {
        Err(AuthError::Csrf)
    } else {
        match wire {
            Some(t) => Ok(Some((t, had_cookie))),
            None => match cookie {
                Some(c) => match cfg.session_in(c) {
                    Some(id) => Ok(Some((id, had_cookie))),
                    None => Ok(None),
                },
                None => Ok(None),
            },
        }
    }
}

impl<'a, E> ServerAuthContext<'a, E> {
    /// Authenticates the credentials with the engine and returns the user
    /// with the `Set-Cookie` value that establishes the new session.
    pub fn login<U>(&self, identifier: &str, password: &str) -> (r: Result<(U, String), AuthError>)
        where E: AuthOperations<U>
        ensures
            r matches Ok((_, h)) ==> exists|t: Seq<char>| h@ == self.spec_config().set_cookie_text(t),
            exists|a: Result<(U, SessionId), AuthError>|
                #![trigger login_answer(self.spec_engine(), identifier, password, a)]
                login_answer(self.spec_engine(), identifier, password, a) && match a {
                    Err(e) => r == Err::<(U, String), AuthError>(e),
                    Ok((u, id)) => r matches Ok((v, h)) && v == u && h@
                        == self.spec_config().set_cookie_text(id@),
                },
    {
        let login = self.engine.login(identifier, password);
        assert(login_answer(self.spec_engine(), identifier, password, login));
        self.finish_login(login)
    }

    /// Settles a login from the engine's answer: the user with the
    /// `Set-Cookie` value establishing the issued session, or the engine's
    /// error as it is.
    pub fn finish_login<U>(&self, login: Result<(U, SessionId), AuthError>) -> (r: Result<
        (U, String),
        AuthError,
    >)
        ensures
            match login {
                Err(e) => r == Err::<(U, String), AuthError>(e),
                Ok((u, id)) => r matches Ok((v, h)) && v == u && h@
                    == self.spec_config().set_cookie_text(id@),
            },
    {
        match login {
            Ok((user, session)) => {
                let header = self.cookie_config.build_set_cookie_header(&session);
                Ok((user, header))
            },
            Err(e) => Err(e),
        }
    }

    /// Authenticates the credentials with the engine and returns the user
    /// with the raw session token, for clients that present it as a bearer
    /// token; no cookie is involved.
    pub fn login_bearer<U>(&self, identifier: &str, password: &str) -> (r: Result<(U, String), AuthError>)
        where E: AuthOperations<U>
        ensures
            exists|a: Result<(U, SessionId), AuthError>|
                #![trigger login_answer(self.spec_engine(), identifier, password, a)]
                login_answer(self.spec_engine(), identifier, password, a) && match a {
                    Err(e) => r == Err::<(U, String), AuthError>(e),
                    Ok((u, id)) => r matches Ok((v, t)) && v == u && t@ == id@,
                },
    {
        let login = self.engine.login(identifier, password);
        assert(login_answer(self.spec_engine(), identifier, password, login));
        finish_login_bearer(login)
    }

    /// Browser login: under the origin gate of the stored `Origin` header,
    /// authenticates the credentials and writes the session cookie into the
    /// response when one is being built; returns only the user.
    ///
    /// A refused origin fails with `Csrf` before the engine is asked; a
    /// cookie value that cannot be a header value fails with `Internal`.
    /// Nothing is written unless the call succeeds.
    pub fn login_cookie<U>(&self, response: &mut ResponseCookies, identifier: &str, password: &str) -> (r: Result<U, AuthError>)
        where E: AuthOperations<U>
        ensures
            final(response).in_request == old(response).in_request,
            !self.spec_config().origin_permits_change(self.spec_origin()) ==> r == Err::<U, AuthError>(AuthError::Csrf),
            r is Err ==> final(response).written() == old(response).written(),
            r is Ok && !old(response).in_request ==> final(response).written() == old(response).written(),
            r is Ok && old(response).in_request ==> exists|t: Seq<char>| final(response).written() == old(response).written().push(
                self.spec_config().set_cookie_text(t),
            ),
            self.spec_config().origin_permits_change(self.spec_origin()) ==> exists|
                a: Result<(U, SessionId), AuthError>,
            |
                #![trigger login_answer(self.spec_engine(), identifier, password, a)]
                login_answer(self.spec_engine(), identifier, password, a) && match a {
                    Err(e) => r == Err::<U, AuthError>(e),
                    Ok((u, id)) => {
                        let text = self.spec_config().set_cookie_text(id@);
                        if !old(response).in_request || header_value_ok(text) {
                            r == Ok::<U, AuthError>(u)
                        } else {
                            r matches Err(AuthError::Internal(_))
                        }
                    },
                },
    {
        match self.cookie_config.validate_cookie_origin(self.origin_header()) {
            Ok(()) => {},
            Err(e) => return Err(e),
        }
        let login = self.engine.login(identifier, password);
        assert(login_answer(self.spec_engine(), identifier, password, login));
        self.finish_login_cookie(response, login)
    }

    /// Settles a browser login from the engine's answer: the engine's error
    /// as it is with nothing written; otherwise, in a request, the cookie of
    /// the issued session is written (or, when it cannot be a header value,
    /// `Internal` is returned and nothing written), and the user returned.
    pub fn finish_login_cookie<U>(&self, response: &mut ResponseCookies, login: Result<
        (U, SessionId),
        AuthError,
    >) -> (r: Result<U, AuthError>)
        ensures
            final(response).in_request == old(response).in_request,
            match login {
                Err(e) => r == Err::<U, AuthError>(e) && final(response).written() == old(
                    response,
                ).written(),
                Ok((u, id)) => {
                    let text = self.spec_config().set_cookie_text(id@);
                    if !old(response).in_request {
                        r == Ok::<U, AuthError>(u) && final(response).written() == old(
                            response,
                        ).written()
                    } else if header_value_ok(text) {
                        r == Ok::<U, AuthError>(u) && final(response).written() == old(
                            response,
                        ).written().push(text)
                    } else {
                        (r matches Err(AuthError::Internal(m)) && m@ == "invalid cookie header"@)
                            && final(response).written() == old(response).written()
                    }
                },
            },
    {
        let (user, session) = match login {
            Ok(pair) => pair,
            Err(e) => return Err(e),
        };
        let header = self.cookie_config.build_set_cookie_header(&session);
        if response.in_request {
            match Self::write_header(response, header) {
                Ok(()) => {},
                Err(e) => return Err(e),
            }
        }
        Ok(user)
    }

    /// Revokes `session_id` and clears the session cookie in the response
    /// when one is being built. Nothing is written unless the call succeeds;
    /// a clearing value that cannot be a header value fails with `Internal`.
    pub fn logout_and_clear_cookie<U>(&self, response: &mut ResponseCookies, session_id: &SessionId) -> (r: Result<(), AuthError>)
        where E: AuthOperations<U>
        ensures
            final(response).in_request == old(response).in_request,
            r is Err ==> final(response).written() == old(response).written(),
            r is Ok ==> final(response).written() == if old(response).in_request {
                old(response).written().push(self.spec_config().delete_cookie_text())
            } else {
                old(response).written()
            },
            exists|a: Result<(), AuthError>|
                #![trigger logout_answer(self.spec_engine(), session_id, a)]
                logout_answer(self.spec_engine(), session_id, a) && match a {
                    Err(e) => r == Err::<(), AuthError>(e),
                    Ok(()) => r is Ok || !header_value_ok(self.spec_config().delete_cookie_text()),
                },
    {
        let revoked = self.engine.logout(session_id);
        assert(logout_answer(self.spec_engine(), session_id, revoked));
        self.finish_logout_and_clear_cookie(response, revoked)
    }

    /// Settles a logout-and-clear from the engine's answer: the engine's
    /// error as it is with nothing written; otherwise, in a request, the
    /// clearing cookie is written (or, when it cannot be a header value,
    /// `Internal` is returned and nothing written).
    pub fn finish_logout_and_clear_cookie(&self, response: &mut ResponseCookies, revoked: Result<
        (),
        AuthError,
    >) -> (r: Result<(), AuthError>)
        ensures
            final(response).in_request == old(response).in_request,
            ({
                let text = self.spec_config().delete_cookie_text();
                match revoked {
                    Err(e) => r == Err::<(), AuthError>(e) && final(response).written() == old(
                        response,
                    ).written(),
                    Ok(()) => if !old(response).in_request {
                        r is Ok && final(response).written() == old(response).written()
                    } else if header_value_ok(text) {
                        r is Ok && final(response).written() == old(response).written().push(text)
                    } else {
                        (r matches Err(AuthError::Internal(m)) && m@ == "invalid cookie header"@)
                            && final(response).written() == old(response).written()
                    },
                }
            }),
    {
        match revoked {
            Ok(()) => {},
            Err(e) => return Err(e),
        }
        if response.in_request {
            let header = self.cookie_config.build_delete_cookie_header();
            return Self::write_header(response, header);
        }
        Ok(())
    }

    /// Logs out the current request's session, whether it came as a cookie
    /// or a bearer token (see [`logout_current_plan`] for which token is
    /// revoked, when the origin gate refuses, and when the cookie is
    /// cleared). Outside a request it fails with `Internal`; nothing is
    /// written unless the call succeeds.
    pub fn logout_current<U>(&self, response: &mut ResponseCookies) -> (r: Result<(), AuthError>)
        where E: AuthOperations<U>
        ensures
            final(response).in_request == old(response).in_request,
            r is Err ==> final(response).written() == old(response).written(),
            !old(response).in_request ==> (r matches Err(AuthError::Internal(m)) && m@
                == "not in a request context"@),
            old(response).in_request ==> match logout_current_plan(
                self.spec_config(),
                self.spec_cookie(),
                self.spec_origin(),
                self.spec_authorization(),
            ) {
                Err(e) => r == Err::<(), AuthError>(e),
                Ok(None) => r is Ok && final(response).written() == old(response).written(),
                Ok(Some((t, clear))) => (r is Ok ==> final(response).written() == if clear {
                    old(response).written().push(self.spec_config().delete_cookie_text())
                } else {
                    old(response).written()
                }) && exists|id: SessionId, a: Result<(), AuthError>|
                    #![trigger logout_answer(self.spec_engine(), &id, a)]
                    id@ == t && logout_answer(self.spec_engine(), &id, a) && match a {
                        Err(e) => r == Err::<(), AuthError>(e),
                        Ok(()) => r is Ok || (clear && !header_value_ok(
                            self.spec_config().delete_cookie_text(),
                        )),
                    },
            },
    {
        if !response.in_request {
            return Err(AuthError::Internal("not in a request context".to_owned()));
        }
        let (session_id, clear) = match self.logout_current_target() {
            Err(e) => return Err(e),
            Ok(None) => return Ok(()),
            Ok(Some(target)) => target,
        };
        let revoked = self.engine.logout(&session_id);
        assert(logout_answer(self.spec_engine(), &session_id, revoked));
        self.finish_logout_current(response, clear, revoked)
    }

    /// Settles `logout_current` from the engine's answer on the revoked
    /// session: its error as it is with nothing written; otherwise the
    /// clearing cookie is written when `clear` says so (or, when it cannot
    /// be a header value, `Internal` is returned and nothing written).
    pub fn finish_logout_current(&self, response: &mut ResponseCookies, clear: bool, revoked: Result<
        (),
        AuthError,
    >) -> (r: Result<(), AuthError>)
        requires
            old(response).in_request,
        ensures
            final(response).in_request,
            ({
                let text = self.spec_config().delete_cookie_text();
                match revoked {
                    Err(e) => r == Err::<(), AuthError>(e) && final(response).written() == old(
                        response,
                    ).written(),
                    Ok(()) => if !clear {
                        r is Ok && final(response).written() == old(response).written()
                    } else if header_value_ok(text) {
                        r is Ok && final(response).written() == old(response).written().push(text)
                    } else {
                        (r matches Err(AuthError::Internal(m)) && m@ == "invalid cookie header"@)
                            && final(response).written() == old(response).written()
                    },
                }
            }),
    {
        match revoked {
            Ok(()) => {},
            Err(e) => return Err(e),
        }
        if clear {
            let header = self.cookie_config.build_delete_cookie_header();
            return Self::write_header(response, header);
        }
        Ok(())
    }

    /// What `logout_current` does with the stored request headers: refuse,
    /// do nothing, or revoke the returned token and clear the cookie when the
    /// flag says so; exactly [`logout_current_plan`].
    pub fn logout_current_target(&self) -> (r: Result<Option<(SessionId, bool)>, AuthError>)
        ensures
            ({
                let plan = logout_current_plan(
                    self.spec_config(),
                    self.spec_cookie(),
                    self.spec_origin(),
                    self.spec_authorization(),
                );
                match r {
                    Err(e) => plan == Err::<Option<(Seq<char>, bool)>, AuthError>(e),
                    Ok(None) => plan == Ok::<Option<(Seq<char>, bool)>, AuthError>(None),
                    Ok(Some((id, clear))) => plan == Ok::<Option<(Seq<char>, bool)>, AuthError>(
                        Some((id@, clear)),
                    ),
                }
            }),
    {
        let cookie = self.cookie_header();
        let had_cookie = match cookie {
            Some(c) => self.cookie_config.extract_session_id(c).is_some(),
            None => false,
        };
        let wire = match self.authorization_header() {
            Some(a) => extract_session_token(
                Some(a),
                cookie,
                self.cookie_config.name.as_str(),
                self.cookie_config.host_only,
            ),
            None => None,
        };
        if wire.is_none() && cookie.is_some() {
            match self.cookie_config.validate_cookie_origin(self.origin_header()) {
                Ok(()) => {},
                Err(e) => return Err(e),
            }
        }
        match wire {
            Some(t) => Ok(Some((SessionId::from_string(t), had_cookie))),
            None => {
                let from_cookie = match cookie {
                    Some(c) => self.cookie_config.extract_session_id(c),
                    None => None,
                };
                match from_cookie {
                    Some(id) => Ok(Some((id, had_cookie))),
                    None => Ok(None),
                }
            },
        }
    }
}

/// Settles a bearer login from the engine's answer: the user with the raw
/// token of the issued session, or the engine's error as it is.
pub fn finish_login_bearer<U>(login: Result<(U, SessionId), AuthError>) -> (r: Result<(U, String), AuthError>)
    ensures
        match login {
            Err(e) => r == Err::<(U, String), AuthError>(e),
            Ok((u, id)) => r matches Ok((v, t)) && v == u && t@ == id@,
        },
{
    match login {
        Ok((user, session)) => Ok((user, session.as_str().to_owned())),
        Err(e) => Err(e),
    }
}

/// Logs out the session a request presents (see [`logout_target`]) and
/// returns the `Set-Cookie` value that clears the cookie.
///
/// A cookie logout from a refused origin is answered `Csrf` before the
/// engine is asked, so the session stays alive; with no session presented
/// the clearing cookie is returned without asking the engine, so the call is
/// idempotent; otherwise the presented session is revoked.
pub fn logout_with_headers<U, E: AuthOperations<U>>(
    engine: &E,
    cookie_config: &CookieConfig,
    cookie: Option<&str>,
    origin: Option<&str>,
    authorization: Option<&str>,
) -> (r: Result<String, AuthError>)
    ensures
        match logout_target(
            *cookie_config,
            opt_str_view(cookie),
            opt_str_view(origin),
            opt_str_view(authorization),
        ) {
            Err(e) => r == Err::<String, AuthError>(e),
            Ok(None) => r matches Ok(h) && h@ == cookie_config.delete_cookie_text(),
            Ok(Some(t)) => exists|id: SessionId, a: Result<(), AuthError>|
                #![trigger logout_answer(engine, &id, a)]
                id@ == t && logout_answer(engine, &id, a) && match a {
                    Err(e) => r == Err::<String, AuthError>(e),
                    Ok(()) => r matches Ok(h) && h@ == cookie_config.delete_cookie_text(),
                },
        },
{
    let ctx = ServerAuthContext::new(engine, cookie_config);
    match ctx.logout_target(cookie, origin, authorization) {
        Err(e) => Err(e),
        Ok(None) => Ok(ctx.build_delete_cookie_header()),
        Ok(Some(id)) => ctx.logout(&id),
    }
}

/// Bearer credentials are never origin-checked: whatever the cookie and
/// origin, a request with a bearer token authenticates with that token.
pub proof fn lemma_bearer_skips_origin(
    cfg: CookieConfig,
    cookie: Option<Seq<char>>,
    origin: Option<Seq<char>>,
    authorization: Seq<char>,
)
    requires
        bearer_token(authorization) is Some,
    ensures
        read_credential(cfg, cookie, origin, Some(authorization)) == Ok::<
            Option<(Seq<char>, bool)>,
            AuthError,
        >(Some((bearer_token(authorization).unwrap(), false))),
        logout_target(cfg, cookie, origin, Some(authorization)) == Ok::<
            Option<Seq<char>>,
            AuthError,
        >(bearer_token(authorization)),
{
}

/// The origin gate on cookie sessions: a foreign origin is refused with
/// `Csrf` for reads and logouts alike; a missing origin is accepted for
/// reads but refused for logouts once origins are configured; without
/// configured origins nothing is refused.
pub proof fn lemma_cookie_origin_gate(
    cfg: CookieConfig,
    cookie: Seq<char>,
    origin: Option<Seq<char>>,
    authorization: Option<Seq<char>>,
)
    requires
        cfg.session_in(cookie) is Some,
        authorization matches Some(a) ==> bearer_token(a) is None,
    ensures
        cfg.origins() is None ==> read_credential(cfg, Some(cookie), origin, authorization) is Ok
            && logout_target(cfg, Some(cookie), origin, authorization) is Ok,
        cfg.origin_class(origin) is Mismatch ==> read_credential(
            cfg,
            Some(cookie),
            origin,
            authorization,
        ) == Err::<Option<(Seq<char>, bool)>, AuthError>(AuthError::Csrf),
        authorization is None && !cfg.origin_permits_change(origin) ==> logout_target(
            cfg,
            Some(cookie),
            origin,
            authorization,
        ) == Err::<Option<Seq<char>>, AuthError>(AuthError::Csrf),
        cfg.origins() is Some && origin is None ==> read_credential(
            cfg,
            Some(cookie),
            origin,
            authorization,
        ) == Ok::<Option<(Seq<char>, bool)>, AuthError>(
            Some((cfg.session_in(cookie).unwrap(), true)),
        ),
{
}

/// A logout without any presented session revokes nothing and succeeds,
/// whatever the origin: logging out is idempotent.
pub proof fn lemma_logout_without_credentials(cfg: CookieConfig, origin: Option<Seq<char>>)
    ensures
        logout_target(cfg, None, origin, None) == Ok::<Option<Seq<char>>, AuthError>(None),
{
}

/// A read that the origin gate refuses would also refuse the logout: the
/// gate on state-changing operations is at least as strict as on reads.
pub proof fn lemma_change_gate_is_stricter(cfg: CookieConfig, origin: Option<Seq<char>>)
    ensures
        cfg.origin_permits_change(origin) ==> !(cfg.origin_class(origin) is Mismatch),
{
}

/// Session reads never require an origin: without an `Origin` header a
/// read is never refused, whatever credentials it presents.
pub proof fn lemma_reads_never_need_origin(
    cfg: CookieConfig,
    cookie: Option<Seq<char>>,
    authorization: Option<Seq<char>>,
)
    ensures
        read_credential(cfg, cookie, None, authorization) is Ok,
{
}

/// Without configured origins nothing is gated: every origin, present or
/// not, is accepted for reads and for state-changing operations.
pub proof fn lemma_no_origins_no_gate(cfg: CookieConfig, origin: Option<Seq<char>>)
    requires
        cfg.expected_origins is None,
    ensures
        cfg.origin_class(origin) == OriginValidation::NotConfigured,
        cfg.origin_permits_change(origin),
{
}

/// The request is authenticated by the engine's validation of exactly the
/// credential [`read_credential`] chooses: whatever the engine answers for
/// that token is the answer, and no other token is validated.
pub proof fn lemma_current_user_validates_chosen_token<'a, E: AuthOperations<U>, U>(
    ctx: &ServerAuthContext<'a, E>,
    cookie_header: Option<&str>,
    origin_header: Option<&str>,
    authorization_header: Option<&str>,
    t: Seq<char>,
    from_cookie: bool,
    engine_says: Result<Option<U>, AuthError>,
    r: Result<Option<U>, AuthError>,
)
    requires
        read_credential(
            ctx.spec_config(),
            ServerAuthContext::<'a, E>::effective(opt_str_view(cookie_header), ctx.spec_cookie()),
            ServerAuthContext::<'a, E>::effective(opt_str_view(origin_header), ctx.spec_origin()),
            ServerAuthContext::<'a, E>::effective(
                opt_str_view(authorization_header),
                ctx.spec_authorization(),
            ),
        ) == Ok::<Option<(Seq<char>, bool)>, AuthError>(Some((t, from_cookie))),
        forall|id: SessionId, a: Result<Option<U>, AuthError>|
            #![trigger validate_answer(ctx.spec_engine(), &id, a)]
            id@ == t && validate_answer(ctx.spec_engine(), &id, a) ==> a == engine_says,
        call_ensures(
            ServerAuthContext::<'a, E>::current_user::<U>,
            (ctx, cookie_header, origin_header, authorization_header),
            r,
        ),
    ensures
        r == engine_says,
{
}

/// Bearer first: when the request's `Authorization` header carries a bearer
/// token, the request is authenticated by the engine's validation of exactly
/// that token, whatever session cookie and origin the request also carries.
pub proof fn lemma_current_user_prefers_bearer<'a, E: AuthOperations<U>, U>(
    ctx: &ServerAuthContext<'a, E>,
    cookie_header: Option<&str>,
    origin_header: Option<&str>,
    authorization: &str,
    engine_says: Result<Option<U>, AuthError>,
    r: Result<Option<U>, AuthError>,
)
    requires
        bearer_token(authorization@) is Some,
        forall|id: SessionId, a: Result<Option<U>, AuthError>|
            #![trigger validate_answer(ctx.spec_engine(), &id, a)]
            Some(id@) == bearer_token(authorization@) && validate_answer(ctx.spec_engine(), &id, a)
                ==> a == engine_says,
        call_ensures(
            ServerAuthContext::<'a, E>::current_user::<U>,
            (ctx, cookie_header, origin_header, Some(authorization)),
            r,
        ),
    ensures
        r == engine_says,
{
    let cookie = ServerAuthContext::<'a, E>::effective(opt_str_view(cookie_header), ctx.spec_cookie());
    let origin = ServerAuthContext::<'a, E>::effective(opt_str_view(origin_header), ctx.spec_origin());
    lemma_bearer_skips_origin(ctx.spec_config(), cookie, origin, authorization@);
}

/// A login's `Set-Cookie` value establishes exactly the session the engine
/// issued: when the engine answers the credentials with `(u, w)`, the login
/// returns `u` with the cookie text for `w`; an engine error is returned as
/// it is.
pub proof fn lemma_login_sets_issued_session<'a, E: AuthOperations<U>, U>(
    ctx: &ServerAuthContext<'a, E>,
    identifier: &str,
    password: &str,
    engine_says: Result<(U, SessionId), AuthError>,
    r: Result<(U, String), AuthError>,
)
    requires
        forall|a: Result<(U, SessionId), AuthError>|
            #![trigger login_answer(ctx.spec_engine(), identifier, password, a)]
            login_answer(ctx.spec_engine(), identifier, password, a) ==> a == engine_says,
        call_ensures(ServerAuthContext::<'a, E>::login::<U>, (ctx, identifier, password), r),
    ensures
        engine_says matches Ok((u, w)) ==> (r matches Ok((v, h)) && v == u && h@
            == ctx.spec_config().set_cookie_text(w@)),
        engine_says matches Err(e) ==> r == Err::<(U, String), AuthError>(e),
{
}

} // verus!

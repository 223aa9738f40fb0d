//! Session token transport: `Authorization: Bearer` headers and cookies.

use vstd::prelude::*;

use crate::cookie::{cookie_value, find_cookie, opt_str_view};
use crate::error::AuthError;
use crate::session::SessionId;
use crate::text::{chars_of, push_chars, push_str, range_eq, split_on, trim, trim_range};

verus! {

/// The scheme prefix of a bearer credential.
pub open spec fn bearer_prefix() -> Seq<char> {
    "Bearer "@
}

/// The token of an `Authorization` header: the trimmed, non-empty text
/// after the `Bearer ` prefix.
pub open spec fn bearer_token(header: Seq<char>) -> Option<Seq<char>> {
    let n = bearer_prefix().len() as int;
    if header.len() >= n && header.take(n) == bearer_prefix() && trim(header.skip(n)).len() > 0 {
        Some(trim(header.skip(n)))
    } else {
        None
    }
}

/// The cookie name on the wire for `name`, with the `__Host-` prefix in
/// host-only mode.
pub open spec fn wire_cookie_name(name: Seq<char>, host_only: bool) -> Seq<char> {
    if host_only {
        "__Host-"@ + name
    } else {
        name
    }
}

/// The session token a request presents: the bearer token of the
/// `Authorization` header when it has one, otherwise the session cookie.
pub open spec fn presented_token(
    authorization: Option<Seq<char>>,
    cookie: Option<Seq<char>>,
    name: Seq<char>,
    host_only: bool,
) -> Option<Seq<char>> {
    let bearer = match authorization {
        Some(a) => bearer_token(a),
        None => None,
    };
    match bearer {
        Some(t) => Some(t),
        None => match cookie {
            Some(c) => cookie_value(split_on(c, ';'), wire_cookie_name(name, host_only)),
            None => None,
        },
    }
}

/// The bearer token of an `Authorization` header, if it carries one.
pub fn parse_bearer(header: &str) -> (token: Option<String>)
    ensures
        crate::cookie::opt_view(token) == bearer_token(header@),
{
    let h = chars_of(header);
    let p = chars_of("Bearer ");
    let n = p.len();
    if h.len() < n {
        return None;
    }
    if !range_eq(&h, 0, n, &p) {
        assert(h@.subrange(0, n as int) =~= h@.take(n as int));
        return None;
    }
    assert(h@.subrange(0, n as int) =~= h@.take(n as int));
    let (lo, hi) = trim_range(&h, n, h.len());
    assert(h@.subrange(n as int, h.len() as int) =~= h@.skip(n as int));
    if lo == hi {
        return None;
    }
    let mut t = String::new();
    push_chars(&mut t, &h, lo, hi);
    Some(t)
}

/// Extracts the session token a request presents: a bearer token from
/// `authorization` wins; otherwise the named session cookie from `cookie`.
pub fn extract_session_token(
    authorization: Option<&str>,
    cookie: Option<&str>,
    cookie_name: &str,
    host_only: bool,
) -> (token: Option<String>)
    ensures
        crate::cookie::opt_view(token) == presented_token(
            opt_str_view(authorization),
            opt_str_view(cookie),
            cookie_name@,
            host_only,
        ),
{
    if let Some(a) = authorization {
        if let Some(t) = parse_bearer(a) {
            return Some(t);
        }
    }
    match cookie {
        Some(c) => {
            let mut name = String::new();
            if host_only {
                push_str(&mut name, "__Host-");
            }
            push_str(&mut name, cookie_name);
            match find_cookie(c, name.as_str()) {
                Some(id) => Some(id.as_str().to_owned()),
                None => None,
            }
        },
        None => None,
    }
}

/// Client-side persistence of the raw session token (browser storage, a
/// file, a keychain). Applications implement it for their platform; nothing
/// is assumed about what an implementation returns.
pub trait TokenStorage {
    /// Persists `token`, replacing any stored one.
    fn store(&mut self, token: &str) -> Result<(), AuthError>;

    /// The stored token, if any.
    fn retrieve(&mut self) -> Result<Option<String>, AuthError>;

    /// Forgets the stored token.
    fn clear(&mut self) -> Result<(), AuthError>;
}

/// Token storage that lives in memory only: the token is lost with the
/// process. The default when an application supplies none.
#[derive(Debug, Clone, Default)]
pub struct MemoryTokenStorage {
    token: Option<String>,
}

impl MemoryTokenStorage {
    /// The stored token, as text.
    pub closed spec fn stored(&self) -> Option<Seq<char>> {
        crate::cookie::opt_view(self.token)
    }

    /// An empty storage.
    pub fn new() -> (s: Self)
        ensures
            s.stored() is None,
    {
        MemoryTokenStorage { token: None }
    }
}

impl TokenStorage for MemoryTokenStorage {
    fn store(&mut self, token: &str) -> (r: Result<(), AuthError>)
        ensures
            r is Ok,
            final(self).stored() == Some(token@),
    {
        self.token = Some(token.to_owned());
        Ok(())
    }

    fn retrieve(&mut self) -> (r: Result<Option<String>, AuthError>)
        ensures
            final(self).stored() == old(self).stored(),
            r matches Ok(t) && crate::cookie::opt_view(t) == old(self).stored(),
    {
        match &self.token {
            Some(t) => Ok(Some(t.clone())),
            None => Ok(None),
        }
    }

    fn clear(&mut self) -> (r: Result<(), AuthError>)
        ensures
            r is Ok,
            final(self).stored() is None,
    {
        self.token = None;
        Ok(())
    }
}

} // verus!

//! Session cookie issuance (`Set-Cookie`) and extraction (`Cookie`).

use vstd::prelude::*;

use crate::error::AuthError;
use crate::session::SessionId;
use crate::text::{
    has_char, is_ws, lemma_find_char_at, lemma_trim_unchanged,
    chars_of, find_char, find_in_range, push_chars, push_decimal, push_str, range_eq, split_on,
    trim, trim_range, decimal, lemma_split_step, lemma_split_none,
};

verus! {

/// SameSite policy for session cookies.
#[derive(Clone, Copy, Debug, Eq, PartialEq, Structural)]
pub enum SameSite {
    /// Sent on top-level navigations from other sites, not on subrequests.
    Lax,
    /// Never sent cross-site.
    Strict,
    /// Always sent; requires `Secure`.
    Unrestricted,
}

/// The attribute text of a SameSite policy.
pub open spec fn same_site_text(s: SameSite) -> Seq<char> {
    match s {
        SameSite::Lax => "Lax"@,
        SameSite::Strict => "Strict"@,
        SameSite::Unrestricted => "None"@,
    }
}

impl Default for SameSite {
    /// `Lax`, the default policy.
    fn default() -> (s: Self)
        ensures
            s == SameSite::Lax,
    {
        SameSite::Lax
    }
}

impl SameSite {
    /// The attribute text of this policy.
    pub fn as_str(&self) -> (s: &'static str)
        ensures
            s@ == same_site_text(*self),
    {
        match self {
            SameSite::Lax => "Lax",
            SameSite::Strict => "Strict",
            SameSite::Unrestricted => "None",
        }
    }
}

/// Configuration for session cookie issuance and validation.
#[derive(Clone, Debug)]
pub struct CookieConfig {
    /// Name of the session cookie. Default is `"dioxus_session"`.
    pub name: String,
    /// Path scope for the cookie. Default is `"/"`.
    pub path: String,
    /// Optional domain scope.
    pub domain: Option<String>,
    /// Whether the cookie requires HTTPS. Default is `true`.
    pub secure: bool,
    /// Whether client-side script is denied access. Default is `true`.
    pub http_only: bool,
    /// SameSite policy. Default is [`SameSite::Lax`].
    pub same_site: SameSite,
    /// Session cookie time-to-live in seconds. Default is `None`, a session
    /// cookie that dies with the browser; size it to the engine TTL for a
    /// persistent login.
    pub max_age_secs: Option<u64>,
    /// Origins a cookie-authenticated request may come from; `None` disables
    /// the origin gate.
    pub expected_origins: Option<Vec<String>>,
    /// Binds the cookie to the host with the `__Host-` prefix: forced
    /// `Path=/`, no `Domain`, always `Secure`.
    pub host_only: bool,
}


/// The optional-text view of an optional string.
pub open spec fn opt_view(o: Option<String>) -> Option<Seq<char>> {
    match o {
        Some(s) => Some(s@),
        None => None,
    }
}

impl CookieConfig {
    /// The cookie name on the wire: prefixed with `__Host-` in host-only mode.
    pub open spec fn wire_name(self) -> Seq<char> {
        if self.host_only {
            "__Host-"@ + self.name@
        } else {
            self.name@
        }
    }

    /// The `Path` attribute value: `/` in host-only mode.
    pub open spec fn wire_path(self) -> Seq<char> {
        if self.host_only {
            "/"@
        } else {
            self.path@
        }
    }

    /// The `; Domain=..` attribute, absent in host-only mode.
    pub open spec fn domain_attr(self) -> Seq<char> {
        if self.host_only {
            Seq::empty()
        } else {
            match self.domain {
                Some(d) => "; Domain="@ + d@,
                None => Seq::empty(),
            }
        }
    }

    /// The `; Max-Age=..` attribute of a live cookie.
    pub open spec fn max_age_attr(self) -> Seq<char> {
        match self.max_age_secs {
            Some(m) => "; Max-Age="@ + decimal(m as nat),
            None => Seq::empty(),
        }
    }

    /// The `; HttpOnly` flag.
    pub open spec fn http_only_attr(self) -> Seq<char> {
        if self.http_only {
            "; HttpOnly"@
        } else {
            Seq::empty()
        }
    }

    /// Whether `Secure` is emitted: when configured, and always in host-only
    /// mode and with `SameSite=None`.
    pub open spec fn is_secure(self) -> bool {
        self.secure || self.host_only || self.same_site == SameSite::Unrestricted
    }

    /// The `; Secure` flag.
    pub open spec fn secure_attr(self) -> Seq<char> {
        if self.is_secure() {
            "; Secure"@
        } else {
            Seq::empty()
        }
    }

    /// The `; SameSite=..` attribute.
    pub open spec fn same_site_attr(self) -> Seq<char> {
        "; SameSite="@ + same_site_text(self.same_site)
    }

    /// The `Set-Cookie` value that establishes the session `id`.
    pub open spec fn set_cookie_text(self, id: Seq<char>) -> Seq<char> {
        self.wire_name() + "="@ + id + "; Path="@ + self.wire_path() + self.domain_attr()
            + self.max_age_attr() + self.http_only_attr() + self.secure_attr()
            + self.same_site_attr()
    }

    /// The `Set-Cookie` value that deletes the session cookie.
    pub open spec fn delete_cookie_text(self) -> Seq<char> {
        self.wire_name() + "=; Path="@ + self.wire_path() + "; Max-Age=0"@ + self.domain_attr()
            + self.http_only_attr() + self.secure_attr() + self.same_site_attr()
    }

    /// The session token that the `Cookie` header `header` carries under
    /// this configuration's wire name.
    pub open spec fn session_in(self, header: Seq<char>) -> Option<Seq<char>> {
        cookie_value(split_on(header, ';'), self.wire_name())
    }

    /// The configured origins, as text.
    pub open spec fn origins(self) -> Option<Seq<Seq<char>>> {
        match self.expected_origins {
            Some(v) => Some(v@.map_values(|o: String| o@)),
            None => None,
        }
    }
}

/// The value of one `name=value` pair of a `Cookie` header, when its
/// trimmed name is `name` and its trimmed value is non-empty.
pub open spec fn pair_value(pair: Seq<char>, name: Seq<char>) -> Option<Seq<char>> {
    let p = trim(pair);
    let k = find_char(p, '=');
    if k < p.len() && trim(p.take(k)) == name && trim(p.skip(k + 1)).len() > 0 {
        Some(trim(p.skip(k + 1)))
    } else {
        None
    }
}

/// The first value that `pair_value` finds for `name` among `pairs`.
pub open spec fn cookie_value(pairs: Seq<Seq<char>>, name: Seq<char>) -> Option<Seq<char>>
    decreases pairs.len(),
{
    if pairs.len() == 0 {
        None
    } else {
        match pair_value(pairs[0], name) {
            Some(v) => Some(v),
            None => cookie_value(pairs.drop_first(), name),
        }
    }
}

/// A cookie name or value that survives a `Cookie` header intact: non-empty,
/// free of `;`, and neither starting nor ending with whitespace.
pub open spec fn is_cookie_token(s: Seq<char>) -> bool {
    &&& s.len() > 0
    &&& !has_char(s, ';')
    &&& !is_ws(s[0])
    &&& !is_ws(s.last())
}

/// Reading back what was issued: for a wire name that is a cookie token
/// without `=`, and a session id that is a cookie token, a `Cookie` header
/// that starts with the issued `Set-Cookie` value (after optional
/// whitespace, and followed by anything) carries that id.
pub proof fn lemma_set_cookie_roundtrip(cfg: CookieConfig, id: Seq<char>, ws: Seq<char>, post: Seq<char>)
    requires
        is_cookie_token(cfg.wire_name()),
        !has_char(cfg.wire_name(), '='),
        is_cookie_token(id),
        forall|k: int| 0 <= k < ws.len() ==> is_ws(#[trigger] ws[k]),
    ensures
        cfg.session_in(ws + cfg.set_cookie_text(id) + post) == Some(id),
{
    let w = cfg.wire_name();
    let h = ws + cfg.set_cookie_text(id) + post;
    reveal_strlit("=");
    reveal_strlit("; Path=");
    let a = ws.len() as int;
    let n = w.len() as int;
    let m = id.len() as int;
    let piece = w + "="@ + id;
    let lead = ws + piece;
    let tail = "; Path="@ + cfg.wire_path() + cfg.domain_attr() + cfg.max_age_attr()
        + cfg.http_only_attr() + cfg.secure_attr() + cfg.same_site_attr();
    assert(h =~= lead + tail + post);
    let e = a + n + 1 + m;
    assert(h[e] == ';');
    assert forall|k: int| 0 <= k < e implies h[k] != ';' by {
        if k < a {
            assert(h[k] == ws[k]);
            assert(is_ws(ws[k]));
        } else if k < a + n {
            assert(h[k] == w[k - a]);
        } else if k > a + n {
            assert(h[k] == id[k - a - n - 1]);
        }
    }
    crate::text::lemma_split_step(h, ';', e);
    assert(h.take(e) =~= lead);
    assert(lead[a] == w[0]);
    crate::text::lemma_trim_start_at(lead, a);
    assert(lead.skip(a) =~= piece);
    assert(piece[0] == w[0]);
    assert(piece.last() == id.last());
    lemma_trim_unchanged(piece);
    assert(crate::text::trim_end(piece) == piece);
    assert(crate::text::trim(lead) == piece);
    assert forall|k: int| 0 <= k < n implies piece[k] != '=' by {
        assert(piece[k] == w[k]);
        if w[k] == '=' {
            assert(has_char(w, '='));
        }
    }
    lemma_find_char_at(piece, '=', n);
    assert(piece.take(n) =~= w);
    assert(piece.skip(n + 1) =~= id);
    lemma_trim_unchanged(w);
    lemma_trim_unchanged(id);
    assert(pair_value(lead, w) == Some(id));
}

/// The issued cookie is found among others: when the cookies before it
/// carry no session, a `Cookie` header made of them, a `;`, optional
/// whitespace, the issued `Set-Cookie` value and anything after it carries
/// the issued id.
pub proof fn lemma_set_cookie_among_others(
    cfg: CookieConfig,
    id: Seq<char>,
    pre: Seq<char>,
    ws: Seq<char>,
    post: Seq<char>,
)
    requires
        is_cookie_token(cfg.wire_name()),
        !has_char(cfg.wire_name(), '='),
        is_cookie_token(id),
        forall|k: int| 0 <= k < ws.len() ==> is_ws(#[trigger] ws[k]),
        cfg.session_in(pre) is None,
    ensures
        cfg.session_in(pre + seq![';'] + ws + cfg.set_cookie_text(id) + post) == Some(id),
{
    let rest = ws + cfg.set_cookie_text(id) + post;
    lemma_session_in_concat(cfg, pre, rest);
    assert(pre + seq![';'] + ws + cfg.set_cookie_text(id) + post =~= pre + seq![';'] + rest);
    lemma_set_cookie_roundtrip(cfg, id, ws, post);
}

/// Host-only mode binds the cookie to the host: the issued and the
/// deleting values are named `__Host-<name>`, carry `Path=/` and `Secure`
/// and no `Domain`, whatever path, domain and `secure` flag are configured.
pub proof fn lemma_host_only_shape(cfg: CookieConfig, id: Seq<char>)
    requires
        cfg.host_only,
    ensures
        cfg.set_cookie_text(id) == "__Host-"@ + cfg.name@ + "="@ + id + "; Path="@ + "/"@
            + cfg.max_age_attr() + cfg.http_only_attr() + "; Secure"@ + cfg.same_site_attr(),
        cfg.delete_cookie_text() == "__Host-"@ + cfg.name@ + "=; Path="@ + "/"@ + "; Max-Age=0"@
            + cfg.http_only_attr() + "; Secure"@ + cfg.same_site_attr(),
{
    assert(cfg.domain_attr() =~= Seq::<char>::empty());
    assert(cfg.set_cookie_text(id) =~= "__Host-"@ + cfg.name@ + "="@ + id + "; Path="@ + "/"@
        + cfg.max_age_attr() + cfg.http_only_attr() + "; Secure"@ + cfg.same_site_attr());
    assert(cfg.delete_cookie_text() =~= "__Host-"@ + cfg.name@ + "=; Path="@ + "/"@
        + "; Max-Age=0"@ + cfg.http_only_attr() + "; Secure"@ + cfg.same_site_attr());
}

/// A cookie that must be `Secure` always is: with `SameSite=None` or in
/// host-only mode the issued and the deleting values carry `; Secure`,
/// whatever the `secure` flag says.
pub proof fn lemma_secure_when_required(cfg: CookieConfig)
    requires
        cfg.host_only || cfg.same_site == SameSite::Unrestricted,
    ensures
        cfg.secure_attr() == "; Secure"@,
{
}

/// A shadow cookie cannot displace a host-only session: in host-only mode a
/// `Cookie` header holding just `<name>=<value>`, without the `__Host-`
/// prefix, carries no session.
pub proof fn lemma_host_only_ignores_bare_name(cfg: CookieConfig, v: Seq<char>)
    requires
        cfg.host_only,
        !has_char(cfg.name@, ';'),
        !has_char(v, ';'),
    ensures
        cfg.session_in(cfg.name@ + "="@ + v) is None,
{
    reveal_strlit("=");
    reveal_strlit("__Host-");
    let name = cfg.name@;
    let n = name.len() as int;
    let h = name + "="@ + v;
    assert(h[n] == '=');
    assert forall|k: int| 0 <= k < h.len() implies h[k] != ';' by {
        if k < n {
            assert(h[k] == name[k]);
            if name[k] == ';' {
                assert(has_char(name, ';'));
            }
        } else if k > n {
            assert(h[k] == v[k - n - 1]);
            if v[k - n - 1] == ';' {
                assert(has_char(v, ';'));
            }
        }
    }
    lemma_split_none(h, ';');
    assert(seq![h].drop_first() =~= Seq::<Seq<char>>::empty());
    let j1 = crate::text::lemma_trim_start_skip(h);
    let t = h.skip(j1);
    let j2 = crate::text::lemma_trim_end_take(t);
    let p = t.take(j2);
    assert(crate::text::trim(h) == p);
    if j1 > n {
        assert(is_ws(h[n]));
    }
    assert(t[n - j1] == '=');
    if j2 <= n - j1 {
        assert(is_ws(t[n - j1]));
    }
    assert(p[n - j1] == '=');
    crate::text::lemma_find_char(p, '=');
    let k = find_char(p, '=');
    assert(k <= n - j1);
    crate::text::lemma_trim_len(p.take(k));
    assert(trim(p.take(k)).len() <= k);
    assert(cfg.wire_name().len() == 7 + n);
    assert(trim(p.take(k)) != cfg.wire_name());
    assert(pair_value(h, cfg.wire_name()) is None);
    assert(seq![h][0] == h);
    assert(cookie_value(Seq::<Seq<char>>::empty(), cfg.wire_name()) is None);
    assert(cookie_value(seq![h], cfg.wire_name()) is None);
}

/// How a request's `Origin` header compares with the configured origins.
#[derive(Debug, Clone, PartialEq, Eq)]
pub enum OriginValidation {
    /// No origins are configured: nothing is enforced.
    NotConfigured,
    /// The header names one of the configured origins.
    Matched,
    /// Origins are configured but the request carries no `Origin` header.
    Missing,
    /// The header names an origin that is not configured.
    Mismatch {
        /// The offending origin.
        origin: String,
    },
}

/// Whether `o` is among `list`.
pub open spec fn listed(list: Seq<Seq<char>>, o: Seq<char>) -> bool {
    exists|i: int| 0 <= i < list.len() && list[i] == o
}

impl CookieConfig {
    /// The classification of the request origin `origin`.
    pub open spec fn origin_class(self, origin: Option<Seq<char>>) -> OriginValidation {
        match self.origins() {
            None => OriginValidation::NotConfigured,
            Some(list) => match origin {
                None => OriginValidation::Missing,
                Some(o) => if listed(list, o) {
                    OriginValidation::Matched
                } else {
                    OriginValidation::Mismatch { origin: arbitrary() }
                },
            },
        }
    }

    /// Whether a state-changing cookie operation may proceed from `origin`:
    /// always without configured origins, otherwise only with a present,
    /// listed origin.
    pub open spec fn origin_permits_change(self, origin: Option<Seq<char>>) -> bool {
        match self.origins() {
            None => true,
            Some(list) => match origin {
                None => false,
                Some(o) => listed(list, o),
            },
        }
    }

    /// Classifies the request's `Origin` header against the configured
    /// origins.
    pub fn validate_origin(&self, origin: Option<&str>) -> (v: OriginValidation)
        ensures
            match v {
                OriginValidation::Mismatch { origin: o } => self.origin_class(
                    opt_str_view(origin),
                ) is Mismatch && opt_str_view(origin) == Some(o@),
                _ => v == self.origin_class(opt_str_view(origin)),
            },
    {
        match &self.expected_origins {
            None => OriginValidation::NotConfigured,
            Some(list) => match origin {
                None => OriginValidation::Missing,
                Some(o) => {
                    let ghost views = list@.map_values(|s: String| s@);
                    assert(self.origins() == Some(views));
                    let mut i: usize = 0;
                    while i < list.len()
                        invariant
                            0 <= i <= list.len(),
                            views == list@.map_values(|s: String| s@),
                            self.origins() == Some(views),
                            opt_str_view(origin) == Some(o@),
                            forall|j: int| 0 <= j < i ==> views[j] != o@,
                        decreases list.len() - i,
                    {
                        if crate::text::text_eq(list[i].as_str(), o) {
                            assert(views[i as int] == o@);
                            assert(listed(views, o@));
                            return OriginValidation::Matched;
                        }
                        i = i + 1;
                    }
                    OriginValidation::Mismatch { origin: o.to_owned() }
                },
            },
        }
    }

    /// The origin gate of a state-changing cookie operation (login,
    /// logout): with configured origins, a present and listed `Origin` is
    /// required; otherwise the operation fails with `Csrf`.
    pub fn validate_cookie_origin(&self, origin: Option<&str>) -> (r: Result<(), AuthError>)
        ensures
            r is Ok <==> self.origin_permits_change(opt_str_view(origin)),
            r is Err ==> r == Err::<(), AuthError>(AuthError::Csrf),
    {
        match self.validate_origin(origin) {
            OriginValidation::NotConfigured | OriginValidation::Matched => Ok(()),
            OriginValidation::Missing | OriginValidation::Mismatch { .. } => Err(AuthError::Csrf),
        }
    }
}

/// The optional-text view of an optional string slice.
pub open spec fn opt_str_view(o: Option<&str>) -> Option<Seq<char>> {
    match o {
        Some(s) => Some(s@),
        None => None,
    }
}

/// Cookies are read left to right: across two runs of pairs, the first
/// run answers when it can.
pub proof fn lemma_cookie_value_concat(p1: Seq<Seq<char>>, p2: Seq<Seq<char>>, name: Seq<char>)
    ensures
        cookie_value(p1 + p2, name) == match cookie_value(p1, name) {
            Some(v) => Some(v),
            None => cookie_value(p2, name),
        },
    decreases p1.len(),
{
    if p1.len() > 0 {
        assert((p1 + p2)[0] == p1[0]);
        assert((p1 + p2).drop_first() =~= p1.drop_first() + p2);
        lemma_cookie_value_concat(p1.drop_first(), p2, name);
    } else {
        assert(p1 + p2 =~= p2);
    }
}

/// Earlier cookies win: in a `Cookie` header made of a part `pre`, a `;`
/// and a part `post`, the session is the one `pre` carries, and only
/// without one the one `post` carries.
pub proof fn lemma_session_in_concat(cfg: CookieConfig, pre: Seq<char>, post: Seq<char>)
    ensures
        cfg.session_in(pre + seq![';'] + post) == match cfg.session_in(pre) {
            Some(v) => Some(v),
            None => cfg.session_in(post),
        },
{
    crate::text::lemma_split_concat(pre, post, ';');
    lemma_cookie_value_concat(split_on(pre, ';'), split_on(post, ';'), cfg.wire_name());
}

impl Default for CookieConfig {
    fn default() -> (c: Self)
        ensures
            c.name@ == "dioxus_session"@,
            c.path@ == "/"@,
            c.domain is None,
            c.secure,
            c.http_only,
            c.same_site == SameSite::Lax,
            c.max_age_secs is None,
            c.expected_origins is None,
            !c.host_only,
    {
        CookieConfig {
            name: "dioxus_session".to_owned(),
            path: "/".to_owned(),
            domain: None,
            secure: true,
            http_only: true,
            same_site: SameSite::default(),
            max_age_secs: None,
            expected_origins: None,
            host_only: false,
        }
    }
}

impl CookieConfig {
    /// Whether the issued cookie carries `Secure`.
    pub fn emits_secure(&self) -> (b: bool)
        ensures
            b == self.is_secure(),
    {
        let unrestricted = match self.same_site {
            SameSite::Unrestricted => true,
            _ => false,
        };
        self.secure || self.host_only || unrestricted
    }

    /// The cookie name on the wire.
    pub fn cookie_name(&self) -> (s: String)
        ensures
            s@ == self.wire_name(),
    {
        let mut s = String::new();
        if self.host_only {
            push_str(&mut s, "__Host-");
        }
        push_str(&mut s, self.name.as_str());
        s
    }

    /// Appends the attributes shared by the issuing and deleting headers.
    fn push_tail(&self, header: &mut String, with_max_age: bool)
        ensures
            final(header)@ == old(header)@ + self.domain_attr() + (if with_max_age {
                self.max_age_attr()
            } else {
                Seq::empty()
            }) + self.http_only_attr() + self.secure_attr() + self.same_site_attr(),
    {
        let ghost h0 = header@;
        if !self.host_only {
            if let Some(domain) = &self.domain {
                push_str(header, "; Domain=");
                push_str(header, domain.as_str());
            }
        }
        assert(header@ =~= h0 + self.domain_attr());
        let ghost h1 = header@;
        if with_max_age {
            if let Some(max_age) = self.max_age_secs {
                push_str(header, "; Max-Age=");
                push_decimal(header, max_age);
            }
        }
        let ghost ma = if with_max_age {
            self.max_age_attr()
        } else {
            Seq::empty()
        };
        assert(header@ =~= h1 + ma);
        let ghost h2 = header@;
        if self.http_only {
            push_str(header, "; HttpOnly");
        }
        assert(header@ =~= h2 + self.http_only_attr());
        let ghost h3 = header@;
        if self.emits_secure() {
            push_str(header, "; Secure");
        }
        assert(header@ =~= h3 + self.secure_attr());
        push_str(header, "; SameSite=");
        push_str(header, self.same_site.as_str());
        assert(header@ =~= h0 + self.domain_attr() + ma + self.http_only_attr()
            + self.secure_attr() + self.same_site_attr());
    }

    /// The `Set-Cookie` header value that establishes an active session.
    pub fn build_set_cookie_header(&self, session_id: &SessionId) -> (header: String)
        ensures
            header@ == self.set_cookie_text(session_id@),
    {
        let mut header = self.cookie_name();
        push_str(&mut header, "=");
        push_str(&mut header, session_id.as_str());
        push_str(&mut header, "; Path=");
        if self.host_only {
            push_str(&mut header, "/");
        } else {
            push_str(&mut header, self.path.as_str());
        }
        self.push_tail(&mut header, true);
        header
    }

    /// The `Set-Cookie` header value that immediately deletes the cookie.
    pub fn build_delete_cookie_header(&self) -> (header: String)
        ensures
            header@ == self.delete_cookie_text(),
    {
        let mut header = self.cookie_name();
        push_str(&mut header, "=; Path=");
        if self.host_only {
            push_str(&mut header, "/");
        } else {
            push_str(&mut header, self.path.as_str());
        }
        push_str(&mut header, "; Max-Age=0");
        self.push_tail(&mut header, false);
        assert(header@ =~= self.delete_cookie_text());
        header
    }

    /// The session id that an incoming `Cookie` header carries: the trimmed
    /// value of the first `;`-separated pair whose trimmed name is the wire
    /// name and whose trimmed value is non-empty.
    pub fn extract_session_id(&self, cookie_header: &str) -> (id: Option<SessionId>)
        ensures
            match id {
                Some(i) => self.session_in(cookie_header@) == Some(i@),
                None => self.session_in(cookie_header@) is None,
            },
    {
        find_cookie(cookie_header, self.cookie_name().as_str())
    }
}

/// The session id carried under `name` by a `Cookie` header: the trimmed
/// value of the first pair whose trimmed name is `name` and whose trimmed
/// value is non-empty.
pub fn find_cookie(cookie_header: &str, cookie_name: &str) -> (id: Option<SessionId>)
    ensures
        match id {
            Some(i) => cookie_value(split_on(cookie_header@, ';'), cookie_name@) == Some(i@),
            None => cookie_value(split_on(cookie_header@, ';'), cookie_name@) is None,
        },
{
    let h = chars_of(cookie_header);
    let name = chars_of(cookie_name);
    let ghost wname = cookie_name@;
    let mut start: usize = 0;
    assert(h@.skip(0) =~= h@);
    loop
        invariant
            start <= h.len(),
            name@ == wname,
            wname == cookie_name@,
            h@ == cookie_header@,
            cookie_value(split_on(cookie_header@, ';'), wname) == cookie_value(
                split_on(h@.skip(start as int), ';'),
                wname,
            ),
        decreases h.len() - start,
    {
        let end = find_in_range(&h, start, h.len(), ';');
        let ghost s = h@.skip(start as int);
        let ghost piece = h@.subrange(start as int, end as int);
        let ghost rest = h@.skip(end + 1);
        proof {
            assert(h@.subrange(start as int, h.len() as int) =~= s);
            crate::text::lemma_find_char(s, ';');
            if end < h.len() {
                lemma_split_step(s, ';', end - start);
                assert(s.take(end - start) =~= piece);
                assert(s.skip(end - start + 1) =~= rest);
                assert((seq![piece] + split_on(rest, ';')).drop_first() =~= split_on(
                    rest,
                    ';',
                ));
            } else {
                lemma_split_none(s, ';');
                assert(s =~= piece);
                assert(seq![piece].drop_first() =~= Seq::<Seq<char>>::empty());
            }
        }
        let (lo, hi) = trim_range(&h, start, end);
        let k = find_in_range(&h, lo, hi, '=');
        let ghost p = h@.subrange(lo as int, hi as int);
        let mut found: Option<SessionId> = None;
        if k < hi {
            proof {
                assert(p.take(k - lo) =~= h@.subrange(lo as int, k as int));
                assert(p.skip(k - lo + 1) =~= h@.subrange(k + 1, hi as int));
            }
            let (nlo, nhi) = trim_range(&h, lo, k);
            if range_eq(&h, nlo, nhi, &name) {
                let (vlo, vhi) = trim_range(&h, k + 1, hi);
                if vlo < vhi {
                    let mut v = String::new();
                    push_chars(&mut v, &h, vlo, vhi);
                    assert(v@ =~= h@.subrange(vlo as int, vhi as int));
                    found = Some(SessionId::from_string(v));
                }
            }
        }
        assert(match found {
            Some(i) => pair_value(piece, wname) == Some(i@),
            None => pair_value(piece, wname) is None,
        });
        if found.is_some() {
            return found;
        }
        if end == h.len() {
            assert(cookie_value(Seq::<Seq<char>>::empty(), wname) is None);
            return None;
        }
        start = end + 1;
    }
}

} // verus!

//! Session-cookie reading from request headers and writing into responses.

use vstd::prelude::*;

use crate::cookie::{CookieConfig, same_site_text};
use crate::server::error::ServerError;
use crate::text::{
    chars_of, decimal, find_char, find_in_range, lemma_find_char, lemma_split_none,
    lemma_split_step, push_chars, push_decimal, push_str, range_eq, split_on, trim, trim_range,
};

verus! {

/// A header byte that `HeaderValue::to_str` accepts: visible ASCII or tab.
pub open spec fn visible_ascii(b: u8) -> bool {
    (32 <= b && b < 127) || b == 9
}

/// The text of a raw header value, when every byte is visible ASCII.
pub open spec fn header_text(raw: Seq<u8>) -> Option<Seq<char>> {
    if forall|i: int| 0 <= i < raw.len() ==> visible_ascii(#[trigger] raw[i]) {
        Some(raw.map_values(|b: u8| b as char))
    } else {
        None
    }
}

/// A character that `HeaderValue::from_str` accepts: its UTF-8 bytes are all
/// at least 32 and not 127, or it is a tab.
pub open spec fn header_char(c: char) -> bool {
    (c as u32 >= 32 && c as u32 != 127) || c == '\t'
}

/// Whether `s` can be a header value.
pub open spec fn header_value_ok(s: Seq<char>) -> bool {
    forall|i: int| 0 <= i < s.len() ==> header_char(#[trigger] s[i])
}

/// The text of a raw header value, through `http::HeaderValue::from_bytes`
/// and `HeaderValue::to_str`, trusted: the contract claims that the text is
/// present exactly when every byte is visible ASCII (32 to 126) or a tab, and
/// is then those bytes read as characters. `from_bytes` refuses only bytes
/// below 32 other than tab, and 127; `to_str` refuses any byte outside
/// visible ASCII and tab; both as the crate's source shows.
#[verifier::external_body]
fn header_value_text(raw: &Vec<u8>) -> (r: Option<String>)
    ensures
        crate::cookie::opt_view(r) == header_text(raw@),
{
    match http::HeaderValue::from_bytes(raw.as_slice()) {
        Ok(value) => match value.to_str() {
            Ok(text) => Some(text.to_owned()),
            Err(_) => None,
        },
        Err(_) => None,
    }
}

/// Whether `http::HeaderValue::from_str` accepts `s`, trusted: the contract
/// claims acceptance exactly when every UTF-8 byte of `s` is at least 32 and
/// not 127, or is a tab, which holds character by character as
/// `header_char` states, as the crate's source shows.
#[verifier::external_body]
pub(crate) fn is_header_value(s: &str) -> (ok: bool)
    ensures
        ok == header_value_ok(s@),
{
    http::HeaderValue::from_str(s).is_ok()
}

/// What one `name=value` pair of a `Cookie` header says about `name`:
/// `None` when the pair is about another cookie; otherwise the text after
/// the first `=` (`None` inside when the pair has no `=`).
pub open spec fn pair_token(pair: Seq<char>, name: Seq<char>) -> Option<Option<Seq<char>>> {
    let p = trim(pair);
    let k = find_char(p, '=');
    if p.take(k) == name {
        Some(
            if k < p.len() {
                Some(p.skip(k + 1))
            } else {
                None
            },
        )
    } else {
        None
    }
}

/// Scans `pairs` in order; every pair about `name` replaces the result.
pub open spec fn scan_pairs(
    pairs: Seq<Seq<char>>,
    name: Seq<char>,
    acc: Option<Seq<char>>,
) -> Option<Seq<char>>
    decreases pairs.len(),
{
    if pairs.len() == 0 {
        acc
    } else {
        scan_pairs(
            pairs.drop_first(),
            name,
            match pair_token(pairs[0], name) {
                Some(v) => v,
                None => acc,
            },
        )
    }
}

/// Scans the pairs of every readable header value in order.
pub open spec fn scan_values(
    values: Seq<Seq<u8>>,
    name: Seq<char>,
    acc: Option<Seq<char>>,
) -> Option<Seq<char>>
    decreases values.len(),
{
    if values.len() == 0 {
        acc
    } else {
        scan_values(
            values.drop_first(),
            name,
            match header_text(values[0]) {
                Some(t) => scan_pairs(split_on(t, ';'), name, acc),
                None => acc,
            },
        )
    }
}

/// The cookie token for `name` that the raw `Cookie` header values carry:
/// the last pair about `name` wins.
pub open spec fn request_token(values: Seq<Seq<u8>>, name: Seq<char>) -> Option<Seq<char>> {
    scan_values(values, name, None)
}

/// Folds the `;`-separated pairs of `t` into `initial`: each pair about
/// `name` replaces the result.
fn scan_text(t: &Vec<char>, name: &Vec<char>, initial: Option<String>) -> (r: Option<String>)
    ensures
        crate::cookie::opt_view(r) == scan_pairs(
            split_on(t@, ';'),
            name@,
            crate::cookie::opt_view(initial),
        ),
{
    let ghost acc0 = crate::cookie::opt_view(initial);
    let mut acc = initial;
    let mut start: usize = 0;
    assert(t@.skip(0) =~= t@);
    loop
        invariant
            start <= t.len(),
            acc0 == crate::cookie::opt_view(initial),
            scan_pairs(split_on(t@, ';'), name@, acc0) == scan_pairs(
                split_on(t@.skip(start as int), ';'),
                name@,
                crate::cookie::opt_view(acc),
            ),
        decreases t.len() - start,
    {
        let end = find_in_range(t, start, t.len(), ';');
        let ghost s = t@.skip(start as int);
        let ghost piece = t@.subrange(start as int, end as int);
        let ghost rest = t@.skip(end + 1);
        proof {
            assert(t@.subrange(start as int, t.len() as int) =~= s);
            lemma_find_char(s, ';');
            if end < t.len() {
                lemma_split_step(s, ';', end - start);
                assert(s.take(end - start) =~= piece);
                assert(s.skip(end - start + 1) =~= rest);
                assert((seq![piece] + split_on(rest, ';')).drop_first() =~= split_on(rest, ';'));
            } else {
                lemma_split_none(s, ';');
                assert(s =~= piece);
                assert(seq![piece].drop_first() =~= Seq::<Seq<char>>::empty());
            }
        }
        let (lo, hi) = trim_range(t, start, end);
        let k = find_in_range(t, lo, hi, '=');
        let ghost p = t@.subrange(lo as int, hi as int);
        proof {
            assert(p.take(k - lo) =~= t@.subrange(lo as int, k as int));
        }
        let ghost prev = crate::cookie::opt_view(acc);
        if range_eq(t, lo, k, name) {
            if k < hi {
                let mut v = String::new();
                push_chars(&mut v, t, k + 1, hi);
                assert(p.skip(k - lo + 1) =~= t@.subrange(k + 1, hi as int));
                acc = Some(v);
            } else {
                acc = None;
            }
        }
        assert(crate::cookie::opt_view(acc) == match pair_token(piece, name@) {
            Some(v) => v,
            None => prev,
        });
        if end == t.len() {
            assert(split_on(t@.skip(start as int), ';') == seq![piece]);
            assert(seq![piece][0] == piece);
            assert(scan_pairs(seq![piece], name@, prev) == scan_pairs(
                seq![piece].drop_first(),
                name@,
                crate::cookie::opt_view(acc),
            ));
            assert(scan_pairs(
                Seq::<Seq<char>>::empty(),
                name@,
                crate::cookie::opt_view(acc),
            ) == crate::cookie::opt_view(acc));
            return acc;
        }
        start = end + 1;
    }
}

/// The value of the named cookie across the request's `Cookie` header
/// values (given as raw bytes, in order). Values that are not visible ASCII
/// are skipped; the last pair naming the cookie wins, and a pair without `=`
/// clears an earlier value.
pub fn request_cookie_token(cookie_headers: &Vec<Vec<u8>>, name: &str) -> (token: Option<String>)
    ensures
        crate::cookie::opt_view(token) == request_token(cookie_headers@.map_values(|v: Vec<u8>| v@), name@),
{
    let ghost values = cookie_headers@.map_values(|v: Vec<u8>| v@);
    let name_chars = chars_of(name);
    let mut token: Option<String> = None;
    let mut i: usize = 0;
    assert(values.skip(0) =~= values);
    while i < cookie_headers.len()
        invariant
            0 <= i <= cookie_headers.len(),
            values == cookie_headers@.map_values(|v: Vec<u8>| v@),
            name_chars@ == name@,
            request_token(values, name@) == scan_values(
                values.skip(i as int),
                name@,
                crate::cookie::opt_view(token),
            ),
        decreases cookie_headers.len() - i,
    {
        proof {
            assert(values.skip(i as int).drop_first() =~= values.skip(i + 1));
            assert(values.skip(i as int)[0] == cookie_headers@[i as int]@);
        }
        match header_value_text(&cookie_headers[i]) {
            Some(text) => {
                let t = chars_of(text.as_str());
                token = scan_text(&t, &name_chars, token);
            },
            None => {},
        }
        i = i + 1;
    }
    assert(values.skip(i as int) =~= Seq::<Seq<u8>>::empty());
    token
}

/// The `Set-Cookie` value that the server slice writes: `token` establishes
/// the session, `None` clears it.
pub open spec fn session_cookie_text(cfg: CookieConfig, token: Option<Seq<char>>) -> Seq<char> {
    cfg.wire_name() + "="@ + (match token {
        Some(t) => t,
        None => Seq::empty(),
    }) + "; Path="@ + cfg.wire_path() + cfg.http_only_attr() + cfg.secure_attr() + "; SameSite="@
        + same_site_text(cfg.same_site) + (match token {
        None => "; Max-Age=0"@,
        Some(_) => cfg.max_age_attr(),
    }) + cfg.domain_attr()
}

/// Builds the value of a `Set-Cookie` header for the session cookie.
/// `None` emits a clearing cookie.
pub fn session_cookie_value(cfg: &CookieConfig, token: Option<&str>) -> (value: String)
    ensures
        value@ == session_cookie_text(
            *cfg,
            match token {
                Some(t) => Some(t@),
                None => None,
            },
        ),
{
    let mut v = cfg.cookie_name();
    push_str(&mut v, "=");
    if let Some(t) = token {
        push_str(&mut v, t);
    }
    let ghost tv: Seq<char> = match token {
        Some(t) => t@,
        None => Seq::empty(),
    };
    let ghost v1 = cfg.wire_name() + "="@ + tv;
    assert(v@ =~= v1);
    push_str(&mut v, "; Path=");
    if cfg.host_only {
        push_str(&mut v, "/");
    } else {
        push_str(&mut v, cfg.path.as_str());
    }
    let ghost v2 = v@;
    if cfg.http_only {
        push_str(&mut v, "; HttpOnly");
    }
    assert(v@ =~= v2 + cfg.http_only_attr());
    let ghost v3 = v@;
    if cfg.emits_secure() {
        push_str(&mut v, "; Secure");
    }
    assert(v@ =~= v3 + cfg.secure_attr());
    push_str(&mut v, "; SameSite=");
    push_str(&mut v, cfg.same_site.as_str());
    let ghost v4 = v@;
    match token {
        None => push_str(&mut v, "; Max-Age=0"),
        Some(_) => {
            if let Some(max_age) = cfg.max_age_secs {
                push_str(&mut v, "; Max-Age=");
                push_decimal(&mut v, max_age);
            }
        },
    }
    let ghost ma: Seq<char> = match token {
        None => "; Max-Age=0"@,
        Some(_) => cfg.max_age_attr(),
    };
    assert(v@ =~= v4 + ma);
    let ghost v5 = v@;
    if !cfg.host_only {
        if let Some(domain) = &cfg.domain {
            push_str(&mut v, "; Domain=");
            push_str(&mut v, domain.as_str());
        }
    }
    assert(v@ =~= v5 + cfg.domain_attr());
    v
}

/// The `Set-Cookie` values written into the current response.
///
/// `in_request` says whether a request context exists: outside one, nothing
/// can be written.
#[derive(Debug, Clone)]
pub struct ResponseCookies {
    /// Whether the response belongs to a live request context.
    pub in_request: bool,
    /// The `Set-Cookie` values written so far, in order.
    pub set_cookie: Vec<String>,
}

impl ResponseCookies {
    /// The written values, as text.
    pub open spec fn written(self) -> Seq<Seq<char>> {
        self.set_cookie@.map_values(|s: String| s@)
    }

    /// An empty response of a live request.
    pub fn for_request() -> (r: ResponseCookies)
        ensures
            r.in_request,
            r.written() == Seq::<Seq<char>>::empty(),
    {
        let r = ResponseCookies { in_request: true, set_cookie: Vec::new() };
        assert(r.written() =~= Seq::<Seq<char>>::empty());
        r
    }

    /// The response-less situation outside any request.
    pub fn detached() -> (r: ResponseCookies)
        ensures
            !r.in_request,
            r.written() == Seq::<Seq<char>>::empty(),
    {
        let r = ResponseCookies { in_request: false, set_cookie: Vec::new() };
        assert(r.written() =~= Seq::<Seq<char>>::empty());
        r
    }
}

/// Reading back what was issued: a `Cookie` header whose text is the
/// `name=token` pair at the head of the issued `Set-Cookie` value reads as
/// `token` under the configured wire name.
pub proof fn lemma_session_cookie_roundtrip(cfg: CookieConfig, t: Seq<char>, raw: Seq<u8>)
    requires
        crate::cookie::is_cookie_token(cfg.wire_name()),
        !crate::text::has_char(cfg.wire_name(), '='),
        !crate::text::has_char(t, ';'),
        t.len() > 0 ==> !crate::text::is_ws(t.last()),
        header_text(raw) == Some(split_on(session_cookie_text(cfg, Some(t)), ';')[0]),
    ensures
        request_token(seq![raw], cfg.wire_name()) == Some(t),
{
    let w = cfg.wire_name();
    reveal_strlit("=");
    reveal_strlit("; Path=");
    let n = w.len() as int;
    let m = t.len() as int;
    let pair = w + "="@ + t;
    let h = session_cookie_text(cfg, Some(t));
    let tail = "; Path="@ + cfg.wire_path() + cfg.http_only_attr() + cfg.secure_attr()
        + "; SameSite="@ + same_site_text(cfg.same_site) + cfg.max_age_attr() + cfg.domain_attr();
    assert(h =~= pair + tail);
    assert(h[n + 1 + m] == ';');
    assert forall|k: int| 0 <= k < n + 1 + m implies h[k] != ';' by {
        if k < n {
            assert(h[k] == w[k]);
            if w[k] == ';' {
                assert(crate::text::has_char(w, ';'));
            }
        } else if k > n {
            assert(h[k] == t[k - n - 1]);
            if t[k - n - 1] == ';' {
                assert(crate::text::has_char(t, ';'));
            }
        }
    }
    lemma_split_step(h, ';', n + 1 + m);
    assert(h.take(n + 1 + m) =~= pair);
    assert(split_on(h, ';')[0] == pair);
    assert forall|k: int| 0 <= k < pair.len() implies pair[k] != ';' by {
        assert(h[k] == pair[k]);
    }
    lemma_split_none(pair, ';');
    assert(pair[0] == w[0]);
    if m > 0 {
        assert(pair.last() == t.last());
    }
    crate::text::lemma_trim_unchanged(pair);
    assert forall|k: int| 0 <= k < n implies pair[k] != '=' by {
        assert(pair[k] == w[k]);
        if w[k] == '=' {
            assert(crate::text::has_char(w, '='));
        }
    }
    crate::text::lemma_find_char_at(pair, '=', n);
    assert(pair.take(n) =~= w);
    assert(pair.skip(n + 1) =~= t);
    assert(pair_token(pair, w) == Some(Some(t)));
    let vals = seq![raw];
    assert(vals.drop_first() =~= Seq::<Seq<u8>>::empty());
    assert(seq![pair].drop_first() =~= Seq::<Seq<char>>::empty());
    assert(seq![pair][0] == pair);
    assert(scan_pairs(Seq::<Seq<char>>::empty(), w, Some(t)) == Some(t));
    assert(scan_pairs(seq![pair], w, None) == Some(t));
    assert(vals[0] == raw);
    assert(scan_values(Seq::<Seq<u8>>::empty(), w, Some(t)) == Some(t));
}

/// Writes the session cookie into the current response.
///
/// Fails with `MissingContext` outside a request, and with
/// `InvalidCookieValue` when the value cannot be a header value; in both
/// cases nothing is written.
pub fn write_session_cookie(
    response: &mut ResponseCookies,
    cfg: &CookieConfig,
    token: Option<&str>,
) -> (r: Result<(), ServerError>)
    ensures
        final(response).in_request == old(response).in_request,
        ({
            let text = session_cookie_text(
                *cfg,
                match token {
                    Some(t) => Some(t@),
                    None => None,
                },
            );
            &&& !old(response).in_request ==> r == Err::<(), ServerError>(ServerError::MissingContext)
                && final(response).written() == old(response).written()
            &&& old(response).in_request && !header_value_ok(text) ==> r == Err::<(), ServerError>(
                ServerError::InvalidCookieValue,
            ) && final(response).written() == old(response).written()
            &&& old(response).in_request && header_value_ok(text) ==> r is Ok
                && final(response).written() == old(response).written().push(text)
        }),
{
    if !response.in_request {
        return Err(ServerError::MissingContext);
    }
    let value = session_cookie_value(cfg, token);
    if !is_header_value(value.as_str()) {
        return Err(ServerError::InvalidCookieValue);
    }
    let ghost before = response.written();
    response.set_cookie.push(value);
    assert(response.written() =~= before.push(value@));
    Ok(())
}

} // verus!

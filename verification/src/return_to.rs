//! Return-to navigation: park the destination a signed-out visitor was
//! heading for, pop it after login.
//!
//! Only relative paths starting with a single `/` are ever stored or
//! returned; anything else is rejected on the way in and on the way out, so
//! an attacker-crafted `?next=https://evil.com` never becomes a redirect.

use vstd::prelude::*;

use crate::text::{chars_of, has_char, is_control, is_ctrl, is_whitespace, is_ws};

verus! {

/// Browser storage key under which the parked destination lives.
pub const AUTH_INTENT_KEY: &'static str = "dioxus_auth_intent";

/// Whether `p` is a safe return-to destination: rooted at a single `/`,
/// without a scheme separator, whitespace or control characters.
pub open spec fn safe_return_to(p: Seq<char>) -> bool {
    &&& p.len() > 0
    &&& p[0] == '/'
    &&& !(p.len() > 1 && p[1] == '/')
    &&& !has_char(p, ':')
    &&& forall|i: int| 0 <= i < p.len() ==> !is_ws(p[i]) && !is_ctrl(p[i])
}

/// Whether `path` is a safe return-to destination.
///
/// Accepts relative paths only: must start with `/`, must not start with
/// `//` (protocol-relative), must contain no scheme separator, whitespace,
/// or control characters.
pub fn is_safe_return_to(path: &str) -> (ok: bool)
    ensures
        ok == safe_return_to(path@),
{
    let v = chars_of(path);
    if v.len() == 0 || v[0] != '/' {
        return false;
    }
    if v.len() > 1 && v[1] == '/' {
        return false;
    }
    let mut i: usize = 0;
    while i < v.len()
        invariant
            v@ == path@,
            0 <= i <= v.len(),
            forall|j: int| 0 <= j < i ==> v@[j] != ':',
        decreases v.len() - i,
    {
        if v[i] == ':' {
            return false;
        }
        i = i + 1;
    }
    let mut i: usize = 0;
    while i < v.len()
        invariant
            v@ == path@,
            0 <= i <= v.len(),
            forall|j: int| 0 <= j < i ==> !is_ws(v@[j]) && !is_ctrl(v@[j]),
        decreases v.len() - i,
    {
        if is_whitespace(v[i]) || is_control(v[i]) {
            return false;
        }
        i = i + 1;
    }
    true
}

/// What a slot holds after a capture of `path`: the path when it is safe
/// and the slot persists, the previous contents otherwise.
pub open spec fn after_capture(persistent: bool, stored: Option<Seq<char>>, path: Seq<char>) -> Option<
    Seq<char>,
> {
    if persistent && safe_return_to(path) {
        Some(path)
    } else {
        stored
    }
}

/// What a consume returns from a slot holding `stored`: the stored text
/// when it is safe, nothing otherwise.
pub open spec fn popped(stored: Option<Seq<char>>) -> Option<Seq<char>> {
    match stored {
        Some(s) => if safe_return_to(s) {
            Some(s)
        } else {
            None
        },
        None => None,
    }
}

/// The parked destination held by a storage slot.
///
/// A persistent slot stands for browser storage under [`AUTH_INTENT_KEY`];
/// a non-persistent slot is what server and native targets have: writes are
/// dropped and reads find nothing.
#[derive(Debug, Clone)]
pub struct IntentSlot {
    persistent: bool,
    value: Option<String>,
}

impl IntentSlot {
    /// Whether writes to this slot are kept.
    pub closed spec fn spec_persistent(&self) -> bool {
        self.persistent
    }

    /// The stored text, if any.
    pub closed spec fn stored(&self) -> Option<Seq<char>> {
        match self.value {
            Some(s) => Some(s@),
            None => None,
        }
    }

    /// A slot backed by browser storage, holding `stored`.
    pub fn browser(stored: Option<String>) -> (slot: IntentSlot)
        ensures
            slot.spec_persistent(),
            slot.stored() == crate::cookie::opt_view(stored),
    {
        IntentSlot { persistent: true, value: stored }
    }

    /// A slot on a target without browser storage: it never holds anything.
    pub fn host() -> (slot: IntentSlot)
        ensures
            !slot.spec_persistent(),
            slot.stored() is None,
    {
        IntentSlot { persistent: false, value: None }
    }

    /// The raw stored text, for writing back to browser storage.
    pub fn raw(&self) -> (r: Option<String>)
        ensures
            crate::cookie::opt_view(r) == self.stored(),
    {
        match &self.value {
            Some(s) => Some(s.clone()),
            None => None,
        }
    }

    /// Parks `path` when it is a safe destination and the slot persists;
    /// otherwise leaves the slot unchanged.
    pub fn capture(&mut self, path: &str)
        ensures
            final(self).spec_persistent() == old(self).spec_persistent(),
            final(self).stored() == after_capture(
                old(self).spec_persistent(),
                old(self).stored(),
                path@,
            ),
    {
        if !is_safe_return_to(path) {
            return;
        }
        if self.persistent {
            self.value = Some(path.to_owned());
        }
    }

    /// Pops the parked destination: the slot is emptied, and the stored text
    /// is returned only when it is a safe destination.
    pub fn consume(&mut self) -> (r: Option<String>)
        ensures
            final(self).spec_persistent() == old(self).spec_persistent(),
            final(self).stored() is None,
            crate::cookie::opt_view(r) == popped(old(self).stored()),
    {
        let value = self.value.take();
        match value {
            Some(s) => {
                if is_safe_return_to(s.as_str()) {
                    Some(s)
                } else {
                    None
                }
            },
            None => None,
        }
    }

    /// Drops any parked destination without reading it.
    pub fn clear(&mut self)
        ensures
            final(self).spec_persistent() == old(self).spec_persistent(),
            final(self).stored() is None,
    {
        self.value = None;
    }
}

/// Parks the destination a signed-out visitor was heading for.
///
/// Off the browser there is no storage to park in: the path is checked with
/// [`is_safe_return_to`] and then dropped.
pub fn capture_return_to(path: &str) {
    let mut slot = IntentSlot::host();
    slot.capture(path);
}

/// Pops the parked destination. Off the browser nothing is ever parked, so
/// this is always `None`.
pub fn consume_return_to() -> (r: Option<String>)
    ensures
        r is None,
{
    let mut slot = IntentSlot::host();
    slot.consume()
}

/// Drops any parked destination without consuming it.
pub fn clear_return_to() {
    let mut slot = IntentSlot::host();
    slot.clear();
}

/// What a capture parks, the next consume gives back: on a persistent slot a
/// safe path is returned by the consume that follows its capture, and an
/// unsafe path leaves the slot as it was.
pub proof fn lemma_capture_then_consume(stored: Option<Seq<char>>, path: Seq<char>)
    ensures
        safe_return_to(path) ==> popped(after_capture(true, stored, path)) == Some(path),
        !safe_return_to(path) ==> after_capture(true, stored, path) == stored,
{
}

/// A consume only ever hands out safe destinations, and a slot it emptied
/// yields nothing the second time.
pub proof fn lemma_consume_is_safe_and_once(stored: Option<Seq<char>>)
    ensures
        popped(stored) matches Some(p) ==> safe_return_to(p),
        popped(None) is None,
{
}

/// Off the browser nothing is ever parked.
pub proof fn lemma_host_slot_stays_empty(path: Seq<char>)
    ensures
        after_capture(false, None, path) is None,
{
}

} // verus!

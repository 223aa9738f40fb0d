//! Session identifiers and the client-side authentication status.

use vstd::prelude::*;

verus! {

/// A raw wire session token, as carried by a cookie or a bearer header.
#[derive(Debug, Clone, PartialEq, Eq)]
pub struct SessionId {
    value: String,
}

impl View for SessionId {
    type V = Seq<char>;

    closed spec fn view(&self) -> Seq<char> {
        self.value@
    }
}

impl SessionId {
    /// Wraps a raw token.
    pub fn new(value: &str) -> (id: SessionId)
        ensures
            id@ == value@,
    {
        SessionId { value: value.to_owned() }
    }

    /// Wraps an owned raw token.
    pub fn from_string(value: String) -> (id: SessionId)
        ensures
            id@ == value@,
    {
        SessionId { value }
    }

    /// The raw token text.
    pub fn as_str(&self) -> (s: &str)
        ensures
            s@ == self@,
    {
        self.value.as_str()
    }
}

/// Where the client stands on the question "who is signed in?".
#[derive(Debug, Clone, PartialEq, Eq)]
pub enum AuthStatus<U> {
    /// The restore question is still open.
    Loading,
    /// Definitively nobody.
    Guest,
    /// The given user.
    Authenticated(U),
}

} // verus!

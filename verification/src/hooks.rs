//! Observing session-state transitions.

use vstd::prelude::*;
use vstd::std_specs::cmp::PartialEqSpec;

use crate::context::AuthState;
use crate::session::AuthStatus;
use crate::state::{SessionState, cloned_state};
use crate::user::AuthUser;

verus! {

/// An authentication state transition: the session state before and after a
/// change.
///
/// The previous state is the last state observed by this subscription, and
/// the current state the one it just changed into.
#[derive(Debug, Clone, PartialEq, Eq)]
pub struct AuthStateEvent<T: AuthUser> {
    /// The session state observed immediately before the change.
    pub previous: SessionState<T>,
    /// The session state observed immediately after the change.
    pub current: SessionState<T>,
}

/// One observation of the session state by a subscription whose last
/// observation is `last`.
///
/// The first observation is recorded without firing; after that an event
/// fires exactly when the state differs from the last one observed. `last`
/// always ends holding `current`. The caller hands a fired event to its
/// handler.
pub fn on_auth_state_change<T: AuthUser + Clone + PartialEq>(
    last: &mut Option<SessionState<T>>,
    current: SessionState<T>,
) -> (fired: Option<AuthStateEvent<T>>)
    ensures
        *final(last) == Some(current),
        old(last).is_none() ==> fired.is_none(),
        T::obeys_eq_spec() ==> (*old(last) matches Some(prev) ==> (fired.is_none()
            <==> prev.eq_spec(&current))),
        fired matches Some(e) ==> *old(last) == Some(e.previous) && cloned_state(current, e.current),
        T::obeys_eq_spec() ==> (fired is Some <==> observed_change(*old(last), current) is Some),
        T::obeys_eq_spec() ==> (fired matches Some(e) ==> observed_change(*old(last), current) == Some(
            (e.previous, current),
        )),
{
    let previous = last.take();
    let fired = match previous {
        Some(prev) => {
            if prev.eq(&current) {
                None
            } else {
                let copy = current.clone();
                Some(AuthStateEvent { previous: prev, current: copy })
            }
        },
        None => None,
    };
    *last = Some(current);
    fired
}

/// The session state a component renders from, read from the provider's
/// authentication state: signed in, guest, pending while the restore
/// question is open, or unavailable when it could not be asked.
pub fn use_session<T: Clone>(context: &AuthState<T>) -> (s: SessionState<T>)
    ensures
        match context.spec_status() {
            AuthStatus::Authenticated(u) => s matches SessionState::SignedIn(v) && cloned::<T>(u, v),
            AuthStatus::Guest => s matches SessionState::Guest,
            AuthStatus::Loading => match context.spec_unavailable() {
                Some(code) => s == SessionState::<T>::Unavailable(code),
                None => s matches SessionState::Pending,
            },
        },
{
    context.session_state()
}

/// What one observation of `current` reports, after `last` was the last
/// state observed: nothing for the first observation or an unchanged state,
/// otherwise the pair of the previous and the current state.
pub open spec fn observed_change<T: PartialEq>(
    last: Option<SessionState<T>>,
    current: SessionState<T>,
) -> Option<(SessionState<T>, SessionState<T>)> {
    match last {
        None => None,
        Some(p) => if p.eq_spec(&current) {
            None
        } else {
            Some((p, current))
        },
    }
}

/// The events reported over the observations `states`, in order, `last`
/// being the state observed before them.
pub open spec fn fired_events<T: PartialEq>(
    last: Option<SessionState<T>>,
    states: Seq<SessionState<T>>,
) -> Seq<(SessionState<T>, SessionState<T>)>
    decreases states.len(),
{
    if states.len() == 0 {
        Seq::empty()
    } else {
        let head = match observed_change(last, states[0]) {
            Some(ev) => seq![ev],
            None => Seq::empty(),
        };
        head + fired_events(Some(states[0]), states.drop_first())
    }
}

/// The changes along a sequence of states: the pair of each state and its
/// successor where the two differ, in order.
pub open spec fn state_changes<T: PartialEq>(states: Seq<SessionState<T>>) -> Seq<
    (SessionState<T>, SessionState<T>),
>
    decreases states.len(),
{
    if states.len() < 2 {
        Seq::empty()
    } else {
        let head = if states[0].eq_spec(&states[1]) {
            Seq::empty()
        } else {
            seq![(states[0], states[1])]
        };
        head + state_changes(states.drop_first())
    }
}

/// Observing after `p` is observing the sequence that starts with `p`.
proof fn lemma_fired_after<T: PartialEq>(p: SessionState<T>, rest: Seq<SessionState<T>>)
    ensures
        fired_events(Some(p), rest) == state_changes(seq![p] + rest),
    decreases rest.len(),
{
    let whole = seq![p] + rest;
    if rest.len() > 0 {
        assert(whole[0] == p);
        assert(whole[1] == rest[0]);
        assert(whole.drop_first() =~= rest);
        assert(seq![rest[0]] + rest.drop_first() =~= rest);
        lemma_fired_after(rest[0], rest.drop_first());
    } else {
        assert(fired_events(Some(p), rest) =~= Seq::<(SessionState<T>, SessionState<T>)>::empty());
        assert(whole.len() == 1);
    }
}

/// A subscription reports exactly the changes: over observed states
/// `s0, s1, .., sn` its handler runs once for each `i >= 1` with `si`
/// different from `s(i-1)`, with that pair, in order, and never for `s0`.
/// The states are compared with the user type's `==`, so this holds of user
/// types whose `==` follows its specification.
pub proof fn lemma_handler_sees_exactly_the_changes<T: PartialEq>(states: Seq<SessionState<T>>)
    ensures
        fired_events(None, states) == state_changes(states),
{
    if states.len() > 0 {
        lemma_fired_after(states[0], states.drop_first());
        assert(seq![states[0]] + states.drop_first() =~= states);
        assert(fired_events(None, states) =~= fired_events(Some(states[0]), states.drop_first()));
    }
}

} // verus!

//! Route guards: what a guard renders and whether it redirects.
//!
//! A guard is "at home" when the visitor may see its children. Otherwise it
//! redirects, at most once per period away from home: a latch remembers
//! that the redirect was issued, is released when the guard is at home
//! again, and is released when the router refuses the target so that a
//! later render retries. The caller performs the navigation.

use vstd::prelude::*;

use crate::session::AuthStatus;

verus! {

/// What a guard does on one render.
#[derive(Debug, Clone, Copy, PartialEq, Eq, Structural)]
pub struct GuardStep {
    /// Whether the children are rendered (otherwise nothing is).
    pub render_children: bool,
    /// Whether the redirect is issued now.
    pub navigate: bool,
}

/// One render of a guard that is at home or not, with the redirect latch
/// `issued`: the step, and the latch afterwards.
pub open spec fn guard_step(at_home: bool, issued: bool) -> (GuardStep, bool) {
    if at_home {
        (GuardStep { render_children: true, navigate: false }, false)
    } else if !issued {
        (GuardStep { render_children: false, navigate: true }, true)
    } else {
        (GuardStep { render_children: false, navigate: false }, true)
    }
}

/// The latch of a freshly mounted guard: no redirect issued.
pub fn initial_redirect_state() -> (issued: bool)
    ensures
        !issued,
{
    false
}

/// One render of a guard: at home it renders the children and releases the
/// latch; away from home it renders nothing and issues the redirect unless
/// the latch says it already did.
pub fn guard_body(at_home: bool, issued: &mut bool) -> (step: GuardStep)
    ensures
        (step, *final(issued)) == guard_step(at_home, *old(issued)),
{
    if at_home {
        *issued = false;
        return GuardStep { render_children: true, navigate: false };
    }
    if !*issued {
        *issued = true;
        return GuardStep { render_children: false, navigate: true };
    }
    GuardStep { render_children: false, navigate: false }
}

/// The router refused the redirect target: the latch is released so that a
/// later render retries instead of staying blank.
pub fn redirect_refused(issued: &mut bool)
    ensures
        !*final(issued),
{
    *issued = false;
}

/// One render of the authentication gate: while the status is loading it
/// renders nothing and leaves the latch alone; afterwards it is at home
/// exactly when a user is signed in.
pub fn require_auth_step<T>(status: &AuthStatus<T>, issued: &mut bool) -> (step: GuardStep)
    ensures
        status is Loading ==> step == (GuardStep { render_children: false, navigate: false })
            && *final(issued) == *old(issued),
        !(status is Loading) ==> (step, *final(issued)) == guard_step(
            status is Authenticated,
            *old(issued),
        ),
{
    match status {
        AuthStatus::Loading => GuardStep { render_children: false, navigate: false },
        AuthStatus::Authenticated(_) => guard_body(true, issued),
        AuthStatus::Guest => guard_body(false, issued),
    }
}

/// One render of the guest gate: at home exactly when nobody is signed in.
pub fn redirect_if_authed_step<T>(status: &AuthStatus<T>, issued: &mut bool) -> (step: GuardStep)
    ensures
        (step, *final(issued)) == guard_step(!(status is Authenticated), *old(issued)),
{
    let at_home = match status {
        AuthStatus::Authenticated(_) => false,
        _ => true,
    };
    guard_body(at_home, issued)
}

/// A guard redirects at most once while it stays away from home: after a
/// render that issued the redirect, any number of further renders away
/// from home issue none.
pub proof fn lemma_redirect_issued_once(issued: bool)
    ensures
        ({
            let (first, latch) = guard_step(false, issued);
            let (second, latch2) = guard_step(false, latch);
            &&& !second.navigate
            &&& latch2
            &&& (first.navigate <==> !issued)
        }),
{
}

/// Coming home re-arms the guard, and so does a refused redirect: the next
/// render away from home issues the redirect again.
pub proof fn lemma_latch_rearms(issued: bool)
    ensures
        guard_step(false, guard_step(true, issued).1).0.navigate,
        guard_step(false, false).0.navigate,
{
}

/// Children are rendered exactly at home, and a guard never both renders
/// its children and redirects.
pub proof fn lemma_children_only_at_home(at_home: bool, issued: bool)
    ensures
        guard_step(at_home, issued).0.render_children == at_home,
        !(guard_step(at_home, issued).0.render_children && guard_step(at_home, issued).0.navigate),
{
}

/// What a route guard decided for the current route.
#[derive(Debug, Clone, PartialEq, Eq)]
pub enum GuardOutcome<R> {
    /// The route may be shown.
    Allow,
    /// The decision waits for the session to settle.
    Pending,
    /// The visitor is sent to the given route.
    Redirect(R),
}

/// What the route gate renders.
#[derive(Debug, Clone, Copy, PartialEq, Eq, Structural)]
pub enum GateRender {
    /// The nested route.
    Outlet,
    /// The fallback the application supplied.
    Fallback,
    /// The built-in "Loading session..." placeholder.
    Loading,
    /// Nothing.
    Nothing,
}

/// One render of the route gate: what it shows, whether it parks the
/// current location for return-to, and where it navigates.
#[derive(Debug, Clone, PartialEq, Eq)]
pub struct GateStep<R> {
    /// What is rendered.
    pub render: GateRender,
    /// Whether the current location is captured as the return-to intent.
    pub capture_intent: bool,
    /// The route replaced in, if any.
    pub navigate: Option<R>,
}

/// The route gate: an allowed route renders its outlet; a pending one the
/// fallback when there is one, else the built-in loading text; a redirect
/// renders nothing, navigates (replacing the current entry) and, in the
/// browser with intent preservation on, first parks the current location.
pub fn route_gate_step<R>(outcome: GuardOutcome<R>, preserve_intent: bool, has_fallback: bool, in_browser: bool) -> (step:
    GateStep<R>)
    ensures
        match outcome {
            GuardOutcome::Allow => step == GateStep::<R> {
                render: GateRender::Outlet,
                capture_intent: false,
                navigate: None,
            },
            GuardOutcome::Pending => step == GateStep::<R> {
                render: if has_fallback {
                    GateRender::Fallback
                } else {
                    GateRender::Loading
                },
                capture_intent: false,
                navigate: None,
            },
            GuardOutcome::Redirect(target) => step == GateStep::<R> {
                render: GateRender::Nothing,
                capture_intent: preserve_intent && in_browser,
                navigate: Some(target),
            },
        },
{
    match outcome {
        GuardOutcome::Allow => GateStep { render: GateRender::Outlet, capture_intent: false, navigate: None },
        GuardOutcome::Pending => GateStep {
            render: if has_fallback {
                GateRender::Fallback
            } else {
                GateRender::Loading
            },
            capture_intent: false,
            navigate: None,
        },
        GuardOutcome::Redirect(target) => GateStep {
            render: GateRender::Nothing,
            capture_intent: preserve_intent && in_browser,
            navigate: Some(target),
        },
    }
}

} // verus!

//! Cross-tab authentication messages.

use vstd::prelude::*;

use crate::client::Auth;
use crate::session::AuthStatus;

verus! {

/// Messages broadcast across tabs for cross-tab auth synchronization.
#[derive(Clone, Debug, PartialEq)]
pub enum CrossTabMessage<User> {
    /// Another tab authenticated `user`.
    Login {
        /// The authenticated user.
        user: User,
    },
    /// Another tab cleared the session.
    Logout,
}

/// Default broadcast channel name for cross-tab sync.
pub const DEFAULT_CROSS_TAB_CHANNEL: &'static str = "dioxus-auth-sync";

/// Applies a message received from another tab: a login there signs the
/// user in here, a logout there makes this tab a guest.
pub fn apply_cross_tab_message<User>(auth: &mut Auth<User>, msg: CrossTabMessage<User>)
    ensures
        match msg {
            CrossTabMessage::Login { user } => final(auth).spec_status() == AuthStatus::Authenticated(user),
            CrossTabMessage::Logout => final(auth).spec_status() == AuthStatus::<User>::Guest,
        },
{
    match msg {
        CrossTabMessage::Login { user } => auth.set_status(AuthStatus::Authenticated(user)),
        CrossTabMessage::Logout => auth.set_status(AuthStatus::Guest),
    }
}

} // verus!

//! The application user contract.

use vstd::prelude::*;

verus! {

/// An application user the library can authenticate.
///
/// Applications implement this for their own user type; the library only
/// needs a stable identifier.
pub trait AuthUser {
    /// The stable unique identifier type.
    type Id;

    /// The stable unique identifier of this user.
    fn id(&self) -> Self::Id;

    /// A digest of the user's current credentials, when the application
    /// keeps one: sessions carry it so that a credential change can end
    /// them. `None` by default.
    fn session_auth_hash(&self) -> Option<&str> {
        None
    }
}

} // verus!

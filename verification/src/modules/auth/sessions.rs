//! Resolution of bearer-token claims into the caller of a request. The
//! session, user and permission lookups are driven by the application; who is
//! admitted is decided here.
use vstd::prelude::*;

use crate::ids::UserId;

verus! {

/// The authenticated caller of a request.
pub struct Principal {
    pub user_id: UserId,
    pub session_id: u128,
    /// Effective permission codes of the user's roles.
    pub permissions: Vec<String>,
}

/// A token admits its request exactly when its session is active (neither
/// logged out, revoked nor expired) and its user exists and may
/// authenticate. `user_can_authenticate` is `None` when the user is gone.
pub open spec fn spec_admits(session_active: bool, user_can_authenticate: Option<bool>) -> bool {
    session_active && user_can_authenticate == Some(true)
}

pub fn session_admits(session_active: bool, user_can_authenticate: Option<bool>) -> (r: bool)
    ensures
        r == spec_admits(session_active, user_can_authenticate),
{
    session_active && matches!(user_can_authenticate, Some(true))
}

/// The caller behind the claims `(user_id, session_id)`: `None` when the
/// session is not active, the user is missing or may not authenticate;
/// otherwise the user with the session and `permissions`.
pub fn resolve_principal(
    user_id: UserId,
    session_id: u128,
    session_active: bool,
    user_can_authenticate: Option<bool>,
    permissions: Vec<String>,
) -> (r: Option<Principal>)
    ensures
        r is Some <==> spec_admits(session_active, user_can_authenticate),
        r matches Some(p) ==> p.user_id == user_id && p.session_id == session_id && p.permissions
            == permissions,
{
    if !session_admits(session_active, user_can_authenticate) {
        return None;
    }
    Some(Principal { user_id, session_id, permissions })
}

/// A logged-out or revoked session invalidates its access tokens at once:
/// whatever the user, an inactive session admits nothing.
pub proof fn revoked_session_admits_nothing(user_can_authenticate: Option<bool>)
    ensures
        !spec_admits(false, user_can_authenticate),
{
}

} // verus!

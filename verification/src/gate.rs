//! The session gate that stands before every administrative operation.

use vstd::prelude::*;

verus! {

/// What the session gate decides.
#[derive(Clone, Copy, Debug, PartialEq, Eq)]
pub enum Access {
    /// The request carries a session capability.
    Authorized,
    /// It carries none: the request ends with a redirect to the landing page.
    Unauthorized,
}

/// The decision on a request whose session capability is present or not.
pub open spec fn access_of(session_present: bool) -> Access {
    if session_present {
        Access::Authorized
    } else {
        Access::Unauthorized
    }
}

/// Admits a request exactly when the session provider handed a capability.
/// A missing capability is a decision, not an error.
pub fn authorize<S>(session: &Option<S>) -> (access: Access)
    ensures
        access == access_of(session is Some),
{
    if session.is_some() {
        Access::Authorized
    } else {
        Access::Unauthorized
    }
}

} // verus!

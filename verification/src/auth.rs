//! The capability that authentication hands to a server session.

use vstd::prelude::*;

verus! {

/// A capability that stands for one authenticated connection.
///
/// The authentication collaborator creates a guard when it accepts a
/// credential. The server session owns it for as long as the connection
/// lives and hands it back when the session closes, by whatever path; the
/// collaborator takes that release as the signal that the session's
/// resources may be reclaimed. The session never looks inside.
pub trait ConnectionGuard: Send + Sync {

}

} // verus!

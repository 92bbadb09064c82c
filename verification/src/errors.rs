//! Error taxonomy of the factory.

use vstd::prelude::*;

verus! {

/// Every way a factory entry point can fail synchronously.
#[derive(Clone, Copy, Debug, PartialEq, Eq, Structural)]
pub enum Error {
    /// The caller of a locker-gated entry point is not the locker's
    /// representative identity.
    Unauthorized,
    /// A deploy was attempted while no token binary is set.
    ArtifactUnavailable,
    /// The withdrawal relay could not decode the caller's identity into a
    /// 20-byte token address.
    MalformedCallerIdentity,
    /// The factory's own identity is so long that derived account identities
    /// would exceed the destination ledger's limit.
    IdentityTooLong,
}

} // verus!

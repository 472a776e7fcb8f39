//! The error taxonomy of the invocation subsystem.
//!
//! Every error is terminal for the current call chain: it propagates by
//! immediate return up the call stack and no partial effects persist.

use vstd::prelude::*;

verus! {

/// Why a derivation or an invocation failed.
#[derive(Clone, Copy, Debug, PartialEq, Eq, Structural)]
pub enum InvocationError {
    /// The input exceeds the policy bound of the target handler.
    PolicyViolation,
    /// A signer-flagged record has no valid signer proof and was not signed
    /// directly by its owner.
    MissingAuthorization,
    /// A signer proof was presented for a record whose authority is anchored
    /// under a different module than the caller.
    IdentityMismatch,
    /// No bump byte in the search space yields a valid derived identity.
    DerivationExhausted,
    /// The host runtime's own call-depth ceiling was reached.
    HostLimitExceeded,
}

} // verus!

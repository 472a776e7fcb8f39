//! Derived-authority and cross-module invocation for a sandboxed
//! module-execution runtime.
//!
//! A module acts as a cryptographically verifiable caller without holding a
//! private key: a keyless identity is derived deterministically from the
//! module's own identity and a caller-chosen seed path, a signer proof lets
//! the host runtime recompute and authenticate that identity for one
//! invocation, and a guarded handler bounds recursive self-invocation.

pub mod authority;
pub mod dispatch;
pub mod errors;
pub mod handler;
pub mod identity;

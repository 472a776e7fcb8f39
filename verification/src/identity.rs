//! Identities and seed paths.
//!
//! A module identity and a derived identity are both fixed-size byte
//! identifiers; a seed path is the ordered sequence of byte strings from
//! which an authority is derived.

use vstd::prelude::*;

verus! {

/// An opaque, globally unique identifier of a deployed module, assigned at
/// deployment time and immutable afterwards.
#[derive(Clone, Copy, Debug)]
pub struct ModuleId {
    pub bytes: [u8; 32],
}

impl View for ModuleId {
    type V = Seq<u8>;

    open spec fn view(&self) -> Seq<u8> {
        self.bytes@
    }
}

/// A keyless identity computed from a module identity and a seed path.
/// No private key corresponds to it; only a holder of the originating
/// module identity and the exact seed path can reproduce it.
#[derive(Clone, Copy, Debug)]
pub struct Identity {
    pub bytes: [u8; 32],
}

impl View for Identity {
    type V = Seq<u8>;

    open spec fn view(&self) -> Seq<u8> {
        self.bytes@
    }
}

/// An ordered sequence of caller-chosen byte strings used as the
/// derivation input.
#[derive(Debug)]
pub struct SeedPath {
    pub seeds: Vec<Vec<u8>>,
}

impl View for SeedPath {
    type V = Seq<Seq<u8>>;

    open spec fn view(&self) -> Seq<Seq<u8>> {
        self.seeds@.map_values(|s: Vec<u8>| s@)
    }
}

/// Compares two identifier byte arrays.
pub fn bytes32_eq(a: &[u8; 32], b: &[u8; 32]) -> (r: bool)
    ensures
        r == (a@ == b@),
{
    let mut i: usize = 0;
    while i < 32
        invariant
            i <= 32,
            forall|j: int| 0 <= j < i ==> a@[j] == b@[j],
        decreases 32 - i,
    {
        if a[i] != b[i] {
            return false;
        }
        i = i + 1;
    }
    proof {
        assert(a@ =~= b@);
    }
    true
}

impl ModuleId {
    /// Whether two module identities are the same identifier.
    pub fn equals(&self, other: &ModuleId) -> (r: bool)
        ensures
            r == (self@ == other@),
    {
        bytes32_eq(&self.bytes, &other.bytes)
    }
}

impl Identity {
    /// Whether two derived identities are the same identifier.
    pub fn equals(&self, other: &Identity) -> (r: bool)
        ensures
            r == (self@ == other@),
    {
        bytes32_eq(&self.bytes, &other.bytes)
    }
}

} // verus!

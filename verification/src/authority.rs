//! Deterministic derivation of a keyless authority.
//!
//! `derive` computes an identity from a module identity and a seed path by
//! searching a one-byte bump space, highest value first, for the first bump
//! whose derived identifier lies off the forbidden (on-curve) value space.
//! A signer proof bundles the seed path and the bump so the host runtime can
//! recompute the identity from public information alone.

use vstd::prelude::*;

use crate::errors::InvocationError;
use crate::identity::{Identity, ModuleId, SeedPath};

verus! {

/// What `Pubkey::create_program_address` returns for a module identity, a
/// seed path and a bump byte: the derived identifier when the derivation is
/// accepted, and nothing when it is rejected (the hash lands on the
/// forbidden curve, or the seeds exceed the host's bounds). The result is a
/// hash of the arguments alone, so it is the same in every process.
pub uninterp spec fn derived_id_of(module: Seq<u8>, path: Seq<Seq<u8>>, bump: u8) -> Option<
    Seq<u8>,
>;

/// Relies on `anchor_lang`'s re-exported `Pubkey::create_program_address`
/// (solana-address): it hashes the seeds, the bump and the module identity
/// into a 32-byte identifier, returning `Err` exactly when the identifier
/// would be a valid curve point or the seeds are over the host's bounds.
#[verifier::external_body]
pub(crate) fn create_derived_identity(module: &ModuleId, path: &SeedPath, bump: u8) -> (r: Option<
    Identity,
>)
    ensures
        (r is Some) == (derived_id_of(module@, path@, bump) is Some),
        r matches Some(id) ==> id@ == derived_id_of(module@, path@, bump).unwrap(),
{
    let mut seeds: Vec<&[u8]> = path.seeds.iter().map(|s| s.as_slice()).collect();
    let bump_seed = [bump];
    seeds.push(&bump_seed);
    let program_id = anchor_lang::prelude::Pubkey::new_from_array(module.bytes);
    match anchor_lang::prelude::Pubkey::create_program_address(&seeds, &program_id) {
        Ok(pk) => Some(Identity { bytes: pk.to_bytes() }),
        Err(_) => None,
    }
}

/// The first bump at or below `b`, counting downwards, whose derivation is
/// accepted.
pub open spec fn first_valid_bump_from(module: Seq<u8>, path: Seq<Seq<u8>>, b: u8) -> Option<u8>
    decreases b,
{
    if derived_id_of(module, path, b) is Some {
        Some(b)
    } else if b == 0 {
        None
    } else {
        first_valid_bump_from(module, path, (b - 1) as u8)
    }
}

/// The outcome of the derivation search: the identifier and bump for the
/// first accepted bump, searched from the highest byte downwards, or nothing
/// when the whole bump space is rejected.
pub open spec fn derive_spec(module: Seq<u8>, path: Seq<Seq<u8>>) -> Option<(Seq<u8>, u8)> {
    match first_valid_bump_from(module, path, 255) {
        Some(b) => Some((derived_id_of(module, path, b).unwrap(), b)),
        None => None,
    }
}

/// Derives the keyless authority of `module` for `path`.
///
/// Deterministic and free of side effects: the result is fixed by the two
/// inputs. Fails with `DerivationExhausted` only when no bump byte in the
/// search space yields an accepted identifier.
pub fn derive(module: &ModuleId, path: &SeedPath) -> (r: Result<(Identity, u8), InvocationError>)
    ensures
        derive_spec(module@, path@) matches Some(d) ==> (r matches Ok(ok) && ok.0@ == d.0 && ok.1
            == d.1),
        derive_spec(module@, path@) is None ==> (r matches Err(e) && e
            == InvocationError::DerivationExhausted),
{
    let mut bump: u8 = 255;
    loop
        invariant
            first_valid_bump_from(module@, path@, 255) == first_valid_bump_from(
                module@,
                path@,
                bump,
            ),
        decreases bump,
    {
        match create_derived_identity(module, path, bump) {
            Some(id) => {
                return Ok((id, bump));
            },
            None => {
                if bump == 0 {
                    return Err(InvocationError::DerivationExhausted);
                }
                bump = bump - 1;
            },
        }
    }
}

/// Caller-supplied evidence that it may act as the authority derived from
/// its own identity and this seed path: the path and the bump found by
/// `derive`. Constructed fresh per invocation and consumed by the host
/// runtime during dispatch.
#[derive(Debug)]
pub struct SignerProof {
    pub path: SeedPath,
    pub bump: u8,
}

/// Derivation is deterministic: one module identity and one seed path fix
/// a single derivation outcome, so any two results drawn from `derive`'s
/// contract for the same inputs are identical, identifier and bump alike.
pub proof fn lemma_derive_deterministic(
    module: Seq<u8>,
    path: Seq<Seq<u8>>,
    r1: Option<(Seq<u8>, u8)>,
    r2: Option<(Seq<u8>, u8)>,
)
    requires
        r1 == derive_spec(module, path),
        r2 == derive_spec(module, path),
    ensures
        r1 == r2,
{
}

} // verus!

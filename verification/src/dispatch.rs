//! The invocation dispatcher: the host-runtime side of a cross-module call.
//!
//! A caller submits an invocation descriptor and zero or more signer
//! proofs. For every record flagged as a signer the dispatcher demands
//! either a direct signature of the record's owner or a proof whose
//! re-derivation — always anchored to the identity of the calling module,
//! never to a caller-supplied one — reproduces the record's identifier.
//! Only then is control transferred to the target module's entry point.
//! Any failure unwinds the whole chain: no partial effect persists.

use vstd::prelude::*;

use crate::authority::{create_derived_identity, derive_spec, derived_id_of, SignerProof};
use crate::errors::InvocationError;
use crate::handler::{handle, work_trace, TraceEvent, MAX_WORK};
use crate::identity::{Identity, ModuleId, SeedPath};

verus! {

/// A typed, addressable state slot exposed to an invocation, with its
/// requested access flags. Its authority is anchored under `owning_module`:
/// only that module can present a signer proof for it.
#[derive(Debug)]
pub struct CapabilityRecord {
    /// The record's declared identifier.
    pub identity: Identity,
    /// The module under which the record's authority was derived.
    pub owning_module: ModuleId,
    /// Whether the invocation asks to treat the record as a signer.
    pub is_signer: bool,
    /// Whether the invocation asks for write access.
    pub is_writable: bool,
    /// Whether the record's true owner signed the outer call directly.
    pub signed_directly: bool,
}

/// The payload delivered to the target module: an entry-point selector with
/// its arguments.
#[derive(Clone, Copy, Debug, PartialEq, Eq, Structural)]
pub enum Payload {
    /// Run the guarded recursive handler with the given work counter.
    Guarded { counter: u8 },
    /// Deliver a plain value to the target's state-bearing entry point.
    Note { value: u64 },
}

/// Describes one invocation: the target module, the records to expose with
/// their requested flags, and the payload to deliver.
#[derive(Debug)]
pub struct InvocationDescriptor {
    pub target: ModuleId,
    pub records: Vec<CapabilityRecord>,
    pub payload: Payload,
}

/// A record persisted by the host runtime across invocations.
#[derive(Clone, Copy, Debug)]
pub struct StoredRecord {
    pub identity: Identity,
    pub owner: ModuleId,
    pub number: u64,
}

/// The host runtime's state for one invocation chain: its call-depth
/// ceiling, the diagnostic trace, and the persistent record store.
#[derive(Debug)]
pub struct Host {
    pub max_depth: u8,
    pub trace: Vec<TraceEvent>,
    pub store: Vec<StoredRecord>,
}

impl Host {
    /// Persisted records are addressed by identifier, so identifiers are
    /// unique in the store.
    pub open spec fn well_formed(&self) -> bool {
        forall|i: int, j: int|
            0 <= i < j < self.store@.len() ==> self.store@[i].identity@
                != self.store@[j].identity@
    }
}

/// Whether one signer proof, re-derived under the calling module's
/// identity, reproduces the record identifier `id`.
pub open spec fn proof_authorizes(caller: Seq<u8>, p: SignerProof, id: Seq<u8>) -> bool {
    derived_id_of(caller, p.path@, p.bump) == Some(id)
}

/// The dispatcher's verdict on one record: accepted when it asks for no
/// signer, when its owner signed directly, or when some proof re-derives to
/// its identifier under the caller; rejected with `IdentityMismatch` when
/// its authority is anchored under a module other than the caller, and with
/// `MissingAuthorization` when no presented proof reproduces it.
pub open spec fn record_verdict(
    caller: Seq<u8>,
    rec: CapabilityRecord,
    proofs: Seq<SignerProof>,
) -> Result<(), InvocationError> {
    if !rec.is_signer || rec.signed_directly {
        Ok(())
    } else if rec.owning_module@ != caller {
        Err(InvocationError::IdentityMismatch)
    } else if exists|i: int|
        0 <= i < proofs.len() && proof_authorizes(caller, proofs[i], rec.identity@) {
        Ok(())
    } else {
        Err(InvocationError::MissingAuthorization)
    }
}

/// The verdict on a whole record list: the verdict of the first rejected
/// record, in list order, or acceptance when every record is accepted.
pub open spec fn authorize_verdict(
    caller: Seq<u8>,
    records: Seq<CapabilityRecord>,
    proofs: Seq<SignerProof>,
) -> Result<(), InvocationError>
    decreases records.len(),
{
    if records.len() == 0 {
        Ok(())
    } else {
        match record_verdict(caller, records[0], proofs) {
            Err(e) => Err(e),
            Ok(_) => authorize_verdict(caller, records.drop_first(), proofs),
        }
    }
}

/// Searches the presented proofs for one that re-derives to `id` under the
/// caller's identity.
fn find_authorizing_proof(caller: &ModuleId, proofs: &Vec<SignerProof>, id: &Identity) -> (r:
    bool)
    ensures
        r == exists|i: int|
            0 <= i < proofs@.len() && proof_authorizes(caller@, proofs@[i], id@),
{
    let mut i: usize = 0;
    while i < proofs.len()
        invariant
            i <= proofs@.len(),
            forall|j: int| 0 <= j < i ==> !proof_authorizes(caller@, proofs@[j], id@),
        decreases proofs@.len() - i,
    {
        let p = &proofs[i];
        match create_derived_identity(caller, &p.path, p.bump) {
            Some(d) => {
                if d.equals(id) {
                    proof {
                        assert(proof_authorizes(caller@, proofs@[i as int], id@));
                    }
                    return true;
                }
            },
            None => {},
        }
        i = i + 1;
    }
    false
}

/// Decides one record as `record_verdict` does.
fn record_check(caller: &ModuleId, rec: &CapabilityRecord, proofs: &Vec<SignerProof>) -> (r:
    Result<(), InvocationError>)
    ensures
        r == record_verdict(caller@, *rec, proofs@),
{
    if !rec.is_signer || rec.signed_directly {
        return Ok(());
    }
    if !caller.equals(&rec.owning_module) {
        return Err(InvocationError::IdentityMismatch);
    }
    if find_authorizing_proof(caller, proofs, &rec.identity) {
        Ok(())
    } else {
        Err(InvocationError::MissingAuthorization)
    }
}

/// Decides a whole record list as `authorize_verdict` does.
fn check_authorization(
    caller: &ModuleId,
    records: &Vec<CapabilityRecord>,
    proofs: &Vec<SignerProof>,
) -> (r: Result<(), InvocationError>)
    ensures
        r == authorize_verdict(caller@, records@, proofs@),
{
    let n: usize = records.len();
    let mut i: usize = 0;
    proof {
        assert(records@.skip(0) =~= records@);
    }
    while i < n
        invariant
            i <= n,
            n == records@.len(),
            authorize_verdict(caller@, records@, proofs@) == authorize_verdict(
                caller@,
                records@.skip(i as int),
                proofs@,
            ),
        decreases n - i,
    {
        proof {
            assert(records@.skip(i as int)[0] == records@[i as int]);
        }
        match record_check(caller, &records[i], proofs) {
            Err(e) => {
                return Err(e);
            },
            Ok(_) => {},
        }
        proof {
            assert(records@.skip(i as int).drop_first() =~= records@.skip(i as int + 1));
        }
        i = i + 1;
    }
    proof {
        assert(records@.skip(n as int).len() == 0);
    }
    Ok(())
}

/// The result the dispatcher owes for an invocation: the depth guard, then
/// the authorization verdict, then the target entry point's own result.
pub open spec fn invoke_result(
    h: Host,
    caller: Seq<u8>,
    desc: InvocationDescriptor,
    proofs: Seq<SignerProof>,
    depth: u8,
) -> Result<(), InvocationError> {
    if depth >= h.max_depth {
        Err(InvocationError::HostLimitExceeded)
    } else {
        match authorize_verdict(caller, desc.records@, proofs) {
            Err(e) => Err(e),
            Ok(_) => match desc.payload {
                Payload::Guarded { counter } => if counter > MAX_WORK {
                    Err(InvocationError::PolicyViolation)
                } else {
                    Ok(())
                },
                Payload::Note { value } => Ok(()),
            },
        }
    }
}

/// The trace the dispatcher owes after an invocation: untouched on any
/// failure, extended by the target's observable work on success.
pub open spec fn invoke_trace_after(
    h: Host,
    caller: Seq<u8>,
    desc: InvocationDescriptor,
    proofs: Seq<SignerProof>,
    depth: u8,
) -> Seq<TraceEvent> {
    if invoke_result(h, caller, desc, proofs, depth) is Err {
        h.trace@
    } else {
        match desc.payload {
            Payload::Guarded { counter } => h.trace@ + work_trace(counter),
            Payload::Note { value } => h.trace@.push(TraceEvent::Delivered { value }),
        }
    }
}

/// Submits a descriptor and its signer proofs to the host runtime.
///
/// The proofs are re-derived under the identity of the module making the
/// call; records that pass are treated as signed and control transfers to
/// the target module's entry point, whose result is propagated unchanged.
/// On any failure the trace and the store are left exactly as they were.
pub fn invoke(
    host: &mut Host,
    caller: &ModuleId,
    desc: &InvocationDescriptor,
    proofs: &Vec<SignerProof>,
    depth: u8,
) -> (r: Result<(), InvocationError>)
    ensures
        r == invoke_result(*old(host), caller@, *desc, proofs@, depth),
        final(host).trace@ == invoke_trace_after(*old(host), caller@, *desc, proofs@, depth),
        final(host).store@ == old(host).store@,
        final(host).max_depth == old(host).max_depth,
{
    if depth >= host.max_depth {
        return Err(InvocationError::HostLimitExceeded);
    }
    match check_authorization(caller, &desc.records, proofs) {
        Err(e) => {
            return Err(e);
        },
        Ok(_) => {},
    }
    match desc.payload {
        Payload::Guarded { counter } => {
            match handle(counter, MAX_WORK, &mut host.trace) {
                Ok(_) => Ok(()),
                Err(e) => Err(e),
            }
        },
        Payload::Note { value } => {
            host.trace.push(TraceEvent::Delivered { value });
            Ok(())
        },
    }
}

/// Whether the store already holds a record with identifier `id`.
pub open spec fn store_has(store: Seq<StoredRecord>, id: Seq<u8>) -> bool {
    exists|i: int| 0 <= i < store.len() && store[i].identity@ == id
}

/// Create if absent, otherwise reuse: the store after a state-bearing
/// invocation settles the record `rec`.
pub open spec fn upsert(store: Seq<StoredRecord>, rec: StoredRecord) -> Seq<StoredRecord> {
    if store_has(store, rec.identity@) {
        store
    } else {
        store.push(rec)
    }
}

/// Searches the persistent store for a record with identifier `id`.
fn store_find(store: &Vec<StoredRecord>, id: &Identity) -> (r: bool)
    ensures
        r == store_has(store@, id@),
{
    let mut i: usize = 0;
    while i < store.len()
        invariant
            i <= store@.len(),
            forall|j: int| 0 <= j < i ==> store@[j].identity@ != id@,
        decreases store@.len() - i,
    {
        if store[i].identity.equals(id) {
            proof {
                assert(store@[i as int].identity@ == id@);
            }
            return true;
        }
        i = i + 1;
    }
    false
}

/// The result the dispatcher owes for a state-bearing invocation: the depth
/// guard, the payer's direct signature, the authorization verdict, the
/// derivation of the record identifier, then the target's own result.
pub open spec fn variant_result(
    h: Host,
    caller: Seq<u8>,
    desc: InvocationDescriptor,
    proofs: Seq<SignerProof>,
    payer: CapabilityRecord,
    creation_path: Seq<Seq<u8>>,
    depth: u8,
) -> Result<(), InvocationError> {
    if depth >= h.max_depth {
        Err(InvocationError::HostLimitExceeded)
    } else if !payer.signed_directly {
        Err(InvocationError::MissingAuthorization)
    } else {
        match authorize_verdict(caller, desc.records@, proofs) {
            Err(e) => Err(e),
            Ok(_) => match derive_spec(desc.target@, creation_path) {
                None => Err(InvocationError::DerivationExhausted),
                Some(_) => match desc.payload {
                    Payload::Guarded { counter } => if counter > MAX_WORK {
                        Err(InvocationError::PolicyViolation)
                    } else {
                        Ok(())
                    },
                    Payload::Note { value } => Ok(()),
                },
            },
        }
    }
}

/// Submits a state-bearing invocation: besides the checks of `invoke`, it
/// settles a persistent record for the target module, derived from a fixed
/// seed path, creating it on first use and reusing it afterwards, with the
/// storage paid for by a directly signing payer distinct from the derived
/// signer.
///
/// Returns the settled record's identifier. On any failure the trace and
/// the store are left exactly as they were.
pub fn invoke_with_record(
    host: &mut Host,
    caller: &ModuleId,
    desc: &InvocationDescriptor,
    proofs: &Vec<SignerProof>,
    payer: &CapabilityRecord,
    creation_path: &SeedPath,
    depth: u8,
) -> (r: Result<Identity, InvocationError>)
    ensures
        (r is Ok) == (variant_result(
            *old(host),
            caller@,
            *desc,
            proofs@,
            *payer,
            creation_path@,
            depth,
        ) is Ok),
        r matches Err(e) ==> variant_result(
            *old(host),
            caller@,
            *desc,
            proofs@,
            *payer,
            creation_path@,
            depth,
        ) == Err::<(), InvocationError>(e),
        r matches Ok(id) ==> id@ == derive_spec(desc.target@, creation_path@).unwrap().0
            && final(host).store@ == upsert(
            old(host).store@,
            (StoredRecord { identity: id, owner: desc.target, number: 0 }),
        ) && final(host).trace@ == (match desc.payload {
            Payload::Guarded { counter } => old(host).trace@ + work_trace(counter),
            Payload::Note { value } => old(host).trace@.push(TraceEvent::Delivered { value }),
        }),
        r is Err ==> final(host).trace@ == old(host).trace@ && final(host).store@ == old(
            host,
        ).store@,
        final(host).max_depth == old(host).max_depth,
        old(host).well_formed() ==> final(host).well_formed(),
{
    if depth >= host.max_depth {
        return Err(InvocationError::HostLimitExceeded);
    }
    if !payer.signed_directly {
        return Err(InvocationError::MissingAuthorization);
    }
    match check_authorization(caller, &desc.records, proofs) {
        Err(e) => {
            return Err(e);
        },
        Ok(_) => {},
    }
    let id = match crate::authority::derive(&desc.target, creation_path) {
        Err(e) => {
            return Err(e);
        },
        Ok(d) => d.0,
    };
    match desc.payload {
        Payload::Guarded { counter } => {
            match handle(counter, MAX_WORK, &mut host.trace) {
                Ok(_) => {},
                Err(e) => {
                    return Err(e);
                },
            }
        },
        Payload::Note { value } => {
            host.trace.push(TraceEvent::Delivered { value });
        },
    }
    if !store_find(&host.store, &id) {
        host.store.push(StoredRecord { identity: id, owner: desc.target, number: 0 });
    }
    proof {
        let s0 = old(host).store@;
        let s1 = host.store@;
        if old(host).well_formed() && !store_has(s0, id@) {
            assert forall|a: int, b: int|
                0 <= a < b < s1.len() implies s1[a].identity@ != s1[b].identity@ by {
                if b < s0.len() as int {
                } else {
                    assert(s1[b].identity@ == id@);
                    assert(!(0 <= a < s0.len() && s0[a].identity@ == id@));
                }
            }
        }
    }
    Ok(id)
}

/// Settling the state-bearing record is idempotent: settling it once more
/// in the store it produced changes nothing, so a repeated invocation with
/// the same seed path reuses the record it created rather than failing.
pub proof fn lemma_record_creation_idempotent(store: Seq<StoredRecord>, rec: StoredRecord)
    ensures
        upsert(upsert(store, rec), rec) == upsert(store, rec),
{
    if !store_has(store, rec.identity@) {
        let s1 = store.push(rec);
        assert(s1[store.len() as int] == rec);
        assert(store_has(s1, rec.identity@));
    }
}

/// The verdict on a record list is the verdict of its first rejected
/// record.
pub proof fn lemma_authorize_first_error(
    caller: Seq<u8>,
    records: Seq<CapabilityRecord>,
    proofs: Seq<SignerProof>,
    i: int,
)
    requires
        0 <= i < records.len(),
        forall|j: int| 0 <= j < i ==> record_verdict(caller, records[j], proofs) is Ok,
        record_verdict(caller, records[i], proofs) is Err,
    ensures
        authorize_verdict(caller, records, proofs) == record_verdict(caller, records[i], proofs),
    decreases i,
{
    if i == 0 {
    } else {
        assert(record_verdict(caller, records[0], proofs) is Ok);
        lemma_authorize_first_error(caller, records.drop_first(), proofs, i - 1);
        assert(records.drop_first()[i - 1] == records[i]);
    }
}

/// A signer proof is only ever re-derived under the identity of the module
/// making the call, so a record whose authority is anchored under a
/// different module is rejected with `IdentityMismatch`, whatever proofs
/// are presented, and no trace is recorded.
pub proof fn lemma_foreign_anchor_rejected(
    h: Host,
    caller: Seq<u8>,
    desc: InvocationDescriptor,
    proofs: Seq<SignerProof>,
    depth: u8,
    i: int,
)
    requires
        depth < h.max_depth,
        0 <= i < desc.records@.len(),
        desc.records@[i].is_signer,
        !desc.records@[i].signed_directly,
        desc.records@[i].owning_module@ != caller,
        forall|j: int| 0 <= j < i ==> record_verdict(caller, desc.records@[j], proofs) is Ok,
    ensures
        invoke_result(h, caller, desc, proofs, depth) == Err::<(), InvocationError>(
            InvocationError::IdentityMismatch,
        ),
        invoke_trace_after(h, caller, desc, proofs, depth) == h.trace@,
{
    lemma_authorize_first_error(caller, desc.records@, proofs, i);
}

/// A signer-flagged record whose owner did not sign directly and for which
/// no presented proof re-derives to its identifier is rejected with
/// `MissingAuthorization`, and no trace is recorded.
pub proof fn lemma_missing_proof_rejected(
    h: Host,
    caller: Seq<u8>,
    desc: InvocationDescriptor,
    proofs: Seq<SignerProof>,
    depth: u8,
    i: int,
)
    requires
        depth < h.max_depth,
        0 <= i < desc.records@.len(),
        desc.records@[i].is_signer,
        !desc.records@[i].signed_directly,
        desc.records@[i].owning_module@ == caller,
        forall|k: int|
            0 <= k < proofs.len() ==> !proof_authorizes(
                caller,
                proofs[k],
                desc.records@[i].identity@,
            ),
        forall|j: int| 0 <= j < i ==> record_verdict(caller, desc.records@[j], proofs) is Ok,
    ensures
        invoke_result(h, caller, desc, proofs, depth) == Err::<(), InvocationError>(
            InvocationError::MissingAuthorization,
        ),
        invoke_trace_after(h, caller, desc, proofs, depth) == h.trace@,
{
    lemma_authorize_first_error(caller, desc.records@, proofs, i);
}

} // verus!

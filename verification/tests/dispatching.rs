use derived_authority::authority::SignerProof;
use derived_authority::dispatch::{
    invoke, CapabilityRecord, Host, InvocationDescriptor, Payload,
};
use derived_authority::errors::InvocationError;
use derived_authority::handler::TraceEvent;
use derived_authority::identity::{Identity, ModuleId, SeedPath};

fn path_of(seeds: &[&[u8]]) -> SeedPath {
    SeedPath { seeds: seeds.iter().map(|s| s.to_vec()).collect() }
}

fn fresh_host() -> Host {
    Host { max_depth: 4, trace: Vec::new(), store: Vec::new() }
}

fn derived_record(identity: Identity, owner: ModuleId) -> CapabilityRecord {
    CapabilityRecord {
        identity,
        owning_module: owner,
        is_signer: true,
        is_writable: false,
        signed_directly: false,
    }
}

#[test]
fn end_to_end_authority_flow() {
    // Module A derives its authority for ["authority"], dispatches to
    // module B with the signer proof, and B's handler works 9 down to 1.
    let module_a = ModuleId { bytes: [0xA1; 32] };
    let module_b = ModuleId { bytes: [0xB2; 32] };
    let (identity, bump) = derived_authority::authority::derive(&module_a, &path_of(&[b"authority"])).unwrap();
    let desc = InvocationDescriptor {
        target: module_b,
        records: vec![derived_record(identity, module_a)],
        payload: Payload::Guarded { counter: 9 },
    };
    let proofs = vec![SignerProof { path: path_of(&[b"authority"]), bump }];
    let mut host = fresh_host();
    assert_eq!(invoke(&mut host, &module_a, &desc, &proofs, 0), Ok(()));
    let expected: Vec<TraceEvent> =
        (1..=9).rev().map(|counter| TraceEvent::Work { counter }).collect();
    assert_eq!(host.trace, expected);
}

#[test]
fn foreign_proof_is_an_identity_mismatch() {
    // A proof derived under module B cannot authorize anything when module
    // A makes the call: the record it is meant for is anchored under B.
    let module_a = ModuleId { bytes: [0xA1; 32] };
    let module_b = ModuleId { bytes: [0xB2; 32] };
    let (identity_b, bump_b) = derived_authority::authority::derive(&module_b, &path_of(&[b"authority"])).unwrap();
    let desc = InvocationDescriptor {
        target: module_b,
        records: vec![derived_record(identity_b, module_b)],
        payload: Payload::Guarded { counter: 9 },
    };
    let proofs = vec![SignerProof { path: path_of(&[b"authority"]), bump: bump_b }];
    let mut host = fresh_host();
    let r = invoke(&mut host, &module_a, &desc, &proofs, 0);
    assert_eq!(r, Err(InvocationError::IdentityMismatch));
    assert!(host.trace.is_empty());
}

#[test]
fn missing_proof_is_missing_authorization() {
    // A signer-flagged record with no proof at all: rejected, and the
    // host's state is exactly as before.
    let module_a = ModuleId { bytes: [0xA1; 32] };
    let (identity, _) = derived_authority::authority::derive(&module_a, &path_of(&[b"authority"])).unwrap();
    let desc = InvocationDescriptor {
        target: ModuleId { bytes: [0xB2; 32] },
        records: vec![derived_record(identity, module_a)],
        payload: Payload::Guarded { counter: 9 },
    };
    let mut host = fresh_host();
    let r = invoke(&mut host, &module_a, &desc, &Vec::new(), 0);
    assert_eq!(r, Err(InvocationError::MissingAuthorization));
    assert!(host.trace.is_empty());
    assert!(host.store.is_empty());
}

#[test]
fn wrong_bump_is_missing_authorization() {
    let module_a = ModuleId { bytes: [0xA1; 32] };
    let (identity, bump) = derived_authority::authority::derive(&module_a, &path_of(&[b"authority"])).unwrap();
    let desc = InvocationDescriptor {
        target: ModuleId { bytes: [0xB2; 32] },
        records: vec![derived_record(identity, module_a)],
        payload: Payload::Guarded { counter: 1 },
    };
    let proofs = vec![SignerProof {
        path: path_of(&[b"authority"]),
        bump: bump.wrapping_add(1),
    }];
    let mut host = fresh_host();
    let r = invoke(&mut host, &module_a, &desc, &proofs, 0);
    assert_eq!(r, Err(InvocationError::MissingAuthorization));
}

#[test]
fn wrong_path_is_missing_authorization() {
    let module_a = ModuleId { bytes: [0xA1; 32] };
    let (identity, bump) = derived_authority::authority::derive(&module_a, &path_of(&[b"authority"])).unwrap();
    let desc = InvocationDescriptor {
        target: ModuleId { bytes: [0xB2; 32] },
        records: vec![derived_record(identity, module_a)],
        payload: Payload::Guarded { counter: 1 },
    };
    let proofs = vec![SignerProof { path: path_of(&[b"elsewhere"]), bump }];
    let mut host = fresh_host();
    let r = invoke(&mut host, &module_a, &desc, &proofs, 0);
    assert_eq!(r, Err(InvocationError::MissingAuthorization));
}

#[test]
fn directly_signed_record_needs_no_proof() {
    let module_a = ModuleId { bytes: [0xA1; 32] };
    let record = CapabilityRecord {
        identity: Identity { bytes: [0x55; 32] },
        owning_module: ModuleId { bytes: [0xB2; 32] },
        is_signer: true,
        is_writable: true,
        signed_directly: true,
    };
    let desc = InvocationDescriptor {
        target: ModuleId { bytes: [0xB2; 32] },
        records: vec![record],
        payload: Payload::Guarded { counter: 1 },
    };
    let mut host = fresh_host();
    assert_eq!(invoke(&mut host, &module_a, &desc, &Vec::new(), 0), Ok(()));
}

#[test]
fn policy_violation_propagates_through_dispatch() {
    let module_a = ModuleId { bytes: [0xA1; 32] };
    let desc = InvocationDescriptor {
        target: ModuleId { bytes: [0xB2; 32] },
        records: Vec::new(),
        payload: Payload::Guarded { counter: 11 },
    };
    let mut host = fresh_host();
    let r = invoke(&mut host, &module_a, &desc, &Vec::new(), 0);
    assert_eq!(r, Err(InvocationError::PolicyViolation));
    assert!(host.trace.is_empty());
}

#[test]
fn depth_ceiling_is_a_host_limit() {
    let module_a = ModuleId { bytes: [0xA1; 32] };
    let desc = InvocationDescriptor {
        target: ModuleId { bytes: [0xB2; 32] },
        records: Vec::new(),
        payload: Payload::Guarded { counter: 1 },
    };
    let mut host = fresh_host();
    let r = invoke(&mut host, &module_a, &desc, &Vec::new(), 4);
    assert_eq!(r, Err(InvocationError::HostLimitExceeded));
    assert!(host.trace.is_empty());
}

#[test]
fn note_payload_is_delivered() {
    let module_a = ModuleId { bytes: [0xA1; 32] };
    let desc = InvocationDescriptor {
        target: ModuleId { bytes: [0xB2; 32] },
        records: Vec::new(),
        payload: Payload::Note { value: 42 },
    };
    let mut host = fresh_host();
    assert_eq!(invoke(&mut host, &module_a, &desc, &Vec::new(), 0), Ok(()));
    assert_eq!(host.trace, vec![TraceEvent::Delivered { value: 42 }]);
}

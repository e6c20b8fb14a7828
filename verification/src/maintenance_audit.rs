//! The maintenance-authorization audit head: which signed authorization was
//! accepted last, and the hash chain over every accepted one.
use vstd::prelude::*;
use crate::checksum::{fnv1a64, spec_fnv1a64};
use crate::codec::{
    all_zero, bytes_eq, digest_at, digest_eq, into_array, is_zero, is_zero_range, le_u32, le_u64,
    lemma_digest_at_view, lemma_le_u32_at, lemma_le_u64_at, lemma_u32_bytes_zero, push_bytes,
    push_u32, push_u64, push_zeros, read_digest, spec_le_u32, spec_le_u64, u32_bytes, u64_bytes,
    zeros,
};
use crate::digest::{sha256, sha256_digest};
use crate::layout::{
    MAINTENANCE_AUDIT_STATE_BYTES, MAINTENANCE_AUDIT_STATE_MAGIC, MAINTENANCE_AUDIT_STATE_VERSION,
    MAINTENANCE_AUDIT_WITNESS,
};

verus! {

broadcast use vstd::array::group_array_axioms;

/// Immutable inputs authenticated by one BMA1 authorization.
///
/// The writable audit state never substitutes for signature verification. It
/// only binds an already-verified authorization to one root, policy, device
/// namespace, product manifest, operation set, and monotonic sequence.
#[derive(Clone, Copy, Debug, PartialEq, Eq)]
pub struct MaintenanceAuthorizationAuditBinding {
    pub sequence: u64,
    pub operations: u64,
    pub max_uses: u32,
    pub authorization_sha256: [u8; 32],
    pub authorization_id: [u8; 32],
    pub manifest_sha256: [u8; 32],
    pub policy_sha256: [u8; 32],
    pub root_sha256: [u8; 32],
    pub device_binding_sha256: [u8; 32],
}

#[derive(Clone, Copy, Debug, PartialEq, Eq, Structural)]
pub enum MaintenanceAuditStateError {
    WrongSize,
    BadMagic,
    UnsupportedVersion,
    ZeroSequence,
    ZeroAcceptedCount,
    CountMismatch,
    ZeroOperations,
    ZeroUseLimit,
    ZeroAuthorizationDigest,
    ZeroAuthorizationId,
    ZeroManifestDigest,
    ZeroPolicyDigest,
    ZeroRootDigest,
    ZeroDeviceBinding,
    ZeroChainDigest,
    NonZeroReserved,
    ChainMismatch,
    WitnessMismatch,
}

impl MaintenanceAuditStateError {
    /// The fixed text that describes this error.
    pub open spec fn message(self) -> Seq<char> {
        match self {
            Self::WrongSize => "maintenance audit state has the wrong size"@,
            Self::BadMagic => "maintenance audit state magic is invalid"@,
            Self::UnsupportedVersion => "maintenance audit state version is unsupported"@,
            Self::ZeroSequence => "maintenance audit sequence is zero"@,
            Self::ZeroAcceptedCount => "maintenance accepted count is zero"@,
            Self::CountMismatch => "maintenance accepted count does not match the sequence"@,
            Self::ZeroOperations => "maintenance operation mask is zero"@,
            Self::ZeroUseLimit => "maintenance use limit is zero"@,
            Self::ZeroAuthorizationDigest => "maintenance authorization digest is zero"@,
            Self::ZeroAuthorizationId => "maintenance authorization id is zero"@,
            Self::ZeroManifestDigest => "maintenance manifest digest is zero"@,
            Self::ZeroPolicyDigest => "maintenance policy digest is zero"@,
            Self::ZeroRootDigest => "maintenance root digest is zero"@,
            Self::ZeroDeviceBinding => "maintenance device binding is zero"@,
            Self::ZeroChainDigest => "maintenance audit-chain digest is zero"@,
            Self::NonZeroReserved => "maintenance audit reserved bytes are nonzero"@,
            Self::ChainMismatch => "maintenance audit-chain digest is invalid"@,
            Self::WitnessMismatch => "maintenance audit witness is invalid"@,
        }
    }

    pub fn as_str(self) -> (text: &'static str)
        ensures
            text@ == self.message(),
    {
        match self {
            Self::WrongSize => "maintenance audit state has the wrong size",
            Self::BadMagic => "maintenance audit state magic is invalid",
            Self::UnsupportedVersion => "maintenance audit state version is unsupported",
            Self::ZeroSequence => "maintenance audit sequence is zero",
            Self::ZeroAcceptedCount => "maintenance accepted count is zero",
            Self::CountMismatch => "maintenance accepted count does not match the sequence",
            Self::ZeroOperations => "maintenance operation mask is zero",
            Self::ZeroUseLimit => "maintenance use limit is zero",
            Self::ZeroAuthorizationDigest => "maintenance authorization digest is zero",
            Self::ZeroAuthorizationId => "maintenance authorization id is zero",
            Self::ZeroManifestDigest => "maintenance manifest digest is zero",
            Self::ZeroPolicyDigest => "maintenance policy digest is zero",
            Self::ZeroRootDigest => "maintenance root digest is zero",
            Self::ZeroDeviceBinding => "maintenance device binding is zero",
            Self::ZeroChainDigest => "maintenance audit-chain digest is zero",
            Self::NonZeroReserved => "maintenance audit reserved bytes are nonzero",
            Self::ChainMismatch => "maintenance audit-chain digest is invalid",
            Self::WitnessMismatch => "maintenance audit witness is invalid",
        }
    }
}

impl MaintenanceAuthorizationAuditBinding {
    /// The first rule the binding breaks, in the order they are checked.
    pub open spec fn spec_validate(self) -> Result<(), MaintenanceAuditStateError> {
        if self.sequence == 0 {
            Err(MaintenanceAuditStateError::ZeroSequence)
        } else if self.operations == 0 {
            Err(MaintenanceAuditStateError::ZeroOperations)
        } else if self.max_uses == 0 {
            Err(MaintenanceAuditStateError::ZeroUseLimit)
        } else if all_zero(self.authorization_sha256@) {
            Err(MaintenanceAuditStateError::ZeroAuthorizationDigest)
        } else if all_zero(self.authorization_id@) {
            Err(MaintenanceAuditStateError::ZeroAuthorizationId)
        } else if all_zero(self.manifest_sha256@) {
            Err(MaintenanceAuditStateError::ZeroManifestDigest)
        } else if all_zero(self.policy_sha256@) {
            Err(MaintenanceAuditStateError::ZeroPolicyDigest)
        } else if all_zero(self.root_sha256@) {
            Err(MaintenanceAuditStateError::ZeroRootDigest)
        } else if all_zero(self.device_binding_sha256@) {
            Err(MaintenanceAuditStateError::ZeroDeviceBinding)
        } else {
            Ok(())
        }
    }

    pub fn validate(self) -> (result: Result<(), MaintenanceAuditStateError>)
        ensures
            result == self.spec_validate(),
    {
        if self.sequence == 0 {
            return Err(MaintenanceAuditStateError::ZeroSequence);
        }
        if self.operations == 0 {
            return Err(MaintenanceAuditStateError::ZeroOperations);
        }
        if self.max_uses == 0 {
            return Err(MaintenanceAuditStateError::ZeroUseLimit);
        }
        if is_zero(&self.authorization_sha256) {
            return Err(MaintenanceAuditStateError::ZeroAuthorizationDigest);
        }
        if is_zero(&self.authorization_id) {
            return Err(MaintenanceAuditStateError::ZeroAuthorizationId);
        }
        if is_zero(&self.manifest_sha256) {
            return Err(MaintenanceAuditStateError::ZeroManifestDigest);
        }
        if is_zero(&self.policy_sha256) {
            return Err(MaintenanceAuditStateError::ZeroPolicyDigest);
        }
        if is_zero(&self.root_sha256) {
            return Err(MaintenanceAuditStateError::ZeroRootDigest);
        }
        if is_zero(&self.device_binding_sha256) {
            return Err(MaintenanceAuditStateError::ZeroDeviceBinding);
        }
        Ok(())
    }

    /// Field-by-field equality.
    pub fn same_as(&self, other: &Self) -> (equal: bool)
        ensures
            equal == (*self == *other),
    {
        self.sequence == other.sequence
            && self.operations == other.operations
            && self.max_uses == other.max_uses
            && digest_eq(&self.authorization_sha256, &other.authorization_sha256)
            && digest_eq(&self.authorization_id, &other.authorization_id)
            && digest_eq(&self.manifest_sha256, &other.manifest_sha256)
            && digest_eq(&self.policy_sha256, &other.policy_sha256)
            && digest_eq(&self.root_sha256, &other.root_sha256)
            && digest_eq(&self.device_binding_sha256, &other.device_binding_sha256)
    }
}

/// The bytes hashed to extend the audit chain by one authorization.
pub open spec fn audit_chain_material(previous_chain: Seq<u8>, binding: MaintenanceAuthorizationAuditBinding) -> Seq<u8> {
    seq![0x42u8, 0x4e, 0x44, 0x52, 0x4d, 0x41, 0x55, 0x31] + previous_chain
        + binding.authorization_sha256@ + binding.authorization_id@ + u64_bytes(binding.sequence)
        + u64_bytes(binding.operations) + u32_bytes(binding.max_uses) + binding.manifest_sha256@
}

/// The audit-chain digest after accepting `binding` on top of `previous_chain_sha256`.
pub fn maintenance_audit_chain_sha256(
    previous_chain_sha256: [u8; 32],
    binding: MaintenanceAuthorizationAuditBinding,
) -> (digest: [u8; 32])
    ensures
        digest@ == sha256_digest(audit_chain_material(previous_chain_sha256@, binding)),
{
    let mut material: Vec<u8> = Vec::new();
    push_bytes(&mut material, &[0x42u8, 0x4e, 0x44, 0x52, 0x4d, 0x41, 0x55, 0x31]);
    push_bytes(&mut material, &previous_chain_sha256);
    push_bytes(&mut material, &binding.authorization_sha256);
    push_bytes(&mut material, &binding.authorization_id);
    push_u64(&mut material, binding.sequence);
    push_u64(&mut material, binding.operations);
    push_u32(&mut material, binding.max_uses);
    push_bytes(&mut material, &binding.manifest_sha256);
    assert(material@ =~= audit_chain_material(previous_chain_sha256@, binding));
    sha256(material.as_slice())
}

#[derive(Clone, Copy, Debug, PartialEq, Eq)]
pub struct MaintenanceAuditState {
    pub sequence: u64,
    pub accepted_count: u64,
    pub operations: u64,
    pub max_uses: u32,
    pub authorization_sha256: [u8; 32],
    pub authorization_id: [u8; 32],
    pub manifest_sha256: [u8; 32],
    pub policy_sha256: [u8; 32],
    pub root_sha256: [u8; 32],
    pub device_binding_sha256: [u8; 32],
    pub previous_chain_sha256: [u8; 32],
    pub chain_sha256: [u8; 32],
}

impl MaintenanceAuditState {
    /// The authorization this head records.
    pub open spec fn spec_binding(self) -> MaintenanceAuthorizationAuditBinding {
        MaintenanceAuthorizationAuditBinding {
            sequence: self.sequence,
            operations: self.operations,
            max_uses: self.max_uses,
            authorization_sha256: self.authorization_sha256,
            authorization_id: self.authorization_id,
            manifest_sha256: self.manifest_sha256,
            policy_sha256: self.policy_sha256,
            root_sha256: self.root_sha256,
            device_binding_sha256: self.device_binding_sha256,
        }
    }

    pub fn binding(self) -> (binding: MaintenanceAuthorizationAuditBinding)
        ensures
            binding == self.spec_binding(),
    {
        MaintenanceAuthorizationAuditBinding {
            sequence: self.sequence,
            operations: self.operations,
            max_uses: self.max_uses,
            authorization_sha256: self.authorization_sha256,
            authorization_id: self.authorization_id,
            manifest_sha256: self.manifest_sha256,
            policy_sha256: self.policy_sha256,
            root_sha256: self.root_sha256,
            device_binding_sha256: self.device_binding_sha256,
        }
    }

    /// The first rule the head breaks: a valid binding, an accepted count equal
    /// to the nonzero sequence, and a nonzero chain digest that extends the
    /// previous one by this authorization.
    pub open spec fn spec_validate(self) -> Result<(), MaintenanceAuditStateError> {
        if self.spec_binding().spec_validate() is Err {
            self.spec_binding().spec_validate()
        } else if self.accepted_count == 0 {
            Err(MaintenanceAuditStateError::ZeroAcceptedCount)
        } else if self.accepted_count != self.sequence {
            Err(MaintenanceAuditStateError::CountMismatch)
        } else if all_zero(self.chain_sha256@) {
            Err(MaintenanceAuditStateError::ZeroChainDigest)
        } else if self.chain_sha256@ != sha256_digest(
            audit_chain_material(self.previous_chain_sha256@, self.spec_binding()),
        ) {
            Err(MaintenanceAuditStateError::ChainMismatch)
        } else {
            Ok(())
        }
    }

    pub fn validate(self) -> (result: Result<(), MaintenanceAuditStateError>)
        ensures
            result == self.spec_validate(),
    {
        let binding = self.binding();
        binding.validate()?;
        if self.accepted_count == 0 {
            return Err(MaintenanceAuditStateError::ZeroAcceptedCount);
        }
        if self.accepted_count != self.sequence {
            return Err(MaintenanceAuditStateError::CountMismatch);
        }
        if is_zero(&self.chain_sha256) {
            return Err(MaintenanceAuditStateError::ZeroChainDigest);
        }
        let expected = maintenance_audit_chain_sha256(self.previous_chain_sha256, binding);
        if !digest_eq(&self.chain_sha256, &expected) {
            return Err(MaintenanceAuditStateError::ChainMismatch);
        }
        Ok(())
    }

    /// Field-by-field equality.
    pub fn same_as(&self, other: &Self) -> (equal: bool)
        ensures
            equal == (*self == *other),
    {
        self.sequence == other.sequence
            && self.accepted_count == other.accepted_count
            && self.operations == other.operations
            && self.max_uses == other.max_uses
            && digest_eq(&self.authorization_sha256, &other.authorization_sha256)
            && digest_eq(&self.authorization_id, &other.authorization_id)
            && digest_eq(&self.manifest_sha256, &other.manifest_sha256)
            && digest_eq(&self.policy_sha256, &other.policy_sha256)
            && digest_eq(&self.root_sha256, &other.root_sha256)
            && digest_eq(&self.device_binding_sha256, &other.device_binding_sha256)
            && digest_eq(&self.previous_chain_sha256, &other.previous_chain_sha256)
            && digest_eq(&self.chain_sha256, &other.chain_sha256)
    }
}

/// Bytes 16..304 of an encoded MaintenanceAuditState: the fields its witness covers.
pub open spec fn audit_body(state: MaintenanceAuditState) -> Seq<u8> {
    u64_bytes(state.sequence)
        + u64_bytes(state.accepted_count)
        + u64_bytes(state.operations)
        + u32_bytes(state.max_uses)
        + zeros(4)
        + state.authorization_sha256@
        + state.authorization_id@
        + state.manifest_sha256@
        + state.policy_sha256@
        + state.root_sha256@
        + state.device_binding_sha256@
        + state.previous_chain_sha256@
        + state.chain_sha256@
}

pub open spec fn audit_bytes(state: MaintenanceAuditState) -> Seq<u8> {
    MAINTENANCE_AUDIT_STATE_MAGIC@ + u32_bytes(MAINTENANCE_AUDIT_STATE_VERSION) + zeros(4) + audit_body(state) + u64_bytes(
        spec_fnv1a64(audit_body(state)) ^ MAINTENANCE_AUDIT_WITNESS,
    ) + zeros(8)
}

pub open spec fn spec_encode_audit(state: MaintenanceAuditState) -> Result<Seq<u8>, MaintenanceAuditStateError> {
    if state.spec_validate() is Err {
        Err(state.spec_validate()->Err_0)
    } else {
        Ok(audit_bytes(state))
    }
}

#[verifier::opaque]
pub open spec fn spec_decode_audit(bytes: Seq<u8>) -> Result<MaintenanceAuditState, MaintenanceAuditStateError> {
    let state = MaintenanceAuditState { sequence: spec_le_u64(bytes, 16), accepted_count: spec_le_u64(bytes, 24), operations: spec_le_u64(bytes, 32), max_uses: spec_le_u32(bytes, 40), authorization_sha256: digest_at(bytes, 48), authorization_id: digest_at(bytes, 80), manifest_sha256: digest_at(bytes, 112), policy_sha256: digest_at(bytes, 144), root_sha256: digest_at(bytes, 176), device_binding_sha256: digest_at(bytes, 208), previous_chain_sha256: digest_at(bytes, 240), chain_sha256: digest_at(bytes, 272) };
    if bytes.len() != 320 {
        Err(MaintenanceAuditStateError::WrongSize)
    } else if bytes.subrange(0, 8) != MAINTENANCE_AUDIT_STATE_MAGIC@ {
        Err(MaintenanceAuditStateError::BadMagic)
    } else if spec_le_u32(bytes, 8) != MAINTENANCE_AUDIT_STATE_VERSION {
        Err(MaintenanceAuditStateError::UnsupportedVersion)
    } else if !all_zero(bytes.subrange(12, 16)) || !all_zero(bytes.subrange(44, 48)) || !all_zero(bytes.subrange(312, 320)) {
        Err(MaintenanceAuditStateError::NonZeroReserved)
    } else if state.spec_validate() is Err {
        Err(state.spec_validate()->Err_0)
    } else if spec_le_u64(bytes, 304) != spec_fnv1a64(bytes.subrange(16, 304)) ^ MAINTENANCE_AUDIT_WITNESS {
        Err(MaintenanceAuditStateError::WitnessMismatch)
    } else {
        Ok(state)
    }
}

impl MaintenanceAuditState {
    pub fn encode(self) -> (result: Result<[u8; 320], MaintenanceAuditStateError>)
        ensures
            match result {
                Ok(bytes) => spec_encode_audit(self) == Ok::<Seq<u8>, MaintenanceAuditStateError>(bytes@),
                Err(error) => spec_encode_audit(self) == Err::<Seq<u8>, MaintenanceAuditStateError>(error),
            },
    {
        self.validate()?;
        let mut body: Vec<u8> = Vec::new();
        push_u64(&mut body, self.sequence);
        push_u64(&mut body, self.accepted_count);
        push_u64(&mut body, self.operations);
        push_u32(&mut body, self.max_uses);
        push_zeros(&mut body, 4);
        push_bytes(&mut body, &self.authorization_sha256);
        push_bytes(&mut body, &self.authorization_id);
        push_bytes(&mut body, &self.manifest_sha256);
        push_bytes(&mut body, &self.policy_sha256);
        push_bytes(&mut body, &self.root_sha256);
        push_bytes(&mut body, &self.device_binding_sha256);
        push_bytes(&mut body, &self.previous_chain_sha256);
        push_bytes(&mut body, &self.chain_sha256);
        assert(body@ =~= audit_body(self));
        let witness = fnv1a64(body.as_slice()) ^ MAINTENANCE_AUDIT_WITNESS;
        let mut out: Vec<u8> = Vec::new();
        push_bytes(&mut out, &MAINTENANCE_AUDIT_STATE_MAGIC);
        push_u32(&mut out, MAINTENANCE_AUDIT_STATE_VERSION);
        push_zeros(&mut out, 4);
        push_bytes(&mut out, body.as_slice());
        push_u64(&mut out, witness);
        push_zeros(&mut out, 8);
        assert(out@ =~= audit_bytes(self));
        Ok(into_array(&out))
    }

    pub fn decode(bytes: &[u8]) -> (result: Result<Self, MaintenanceAuditStateError>)
        ensures
            result == spec_decode_audit(bytes@),
    {
        reveal(spec_decode_audit);
        if bytes.len() != 320 {
            return Err(MaintenanceAuditStateError::WrongSize);
        }
        if !bytes_eq(&bytes[0..8], &MAINTENANCE_AUDIT_STATE_MAGIC) {
            return Err(MaintenanceAuditStateError::BadMagic);
        }
        if le_u32(bytes, 8) != MAINTENANCE_AUDIT_STATE_VERSION {
            return Err(MaintenanceAuditStateError::UnsupportedVersion);
        }
        if !is_zero_range(bytes, 12, 16) || !is_zero_range(bytes, 44, 48) || !is_zero_range(bytes, 312, 320) {
            return Err(MaintenanceAuditStateError::NonZeroReserved);
        }
        let state = MaintenanceAuditState { sequence: le_u64(bytes, 16), accepted_count: le_u64(bytes, 24), operations: le_u64(bytes, 32), max_uses: le_u32(bytes, 40), authorization_sha256: read_digest(bytes, 48), authorization_id: read_digest(bytes, 80), manifest_sha256: read_digest(bytes, 112), policy_sha256: read_digest(bytes, 144), root_sha256: read_digest(bytes, 176), device_binding_sha256: read_digest(bytes, 208), previous_chain_sha256: read_digest(bytes, 240), chain_sha256: read_digest(bytes, 272) };
        state.validate()?;
        if le_u64(bytes, 304) != fnv1a64(&bytes[16..304]) ^ MAINTENANCE_AUDIT_WITNESS {
            return Err(MaintenanceAuditStateError::WitnessMismatch);
        }
        Ok(state)
    }
}

#[verifier::spinoff_prover]
#[verifier::rlimit(60)]
proof fn lemma_audit_fields(state: MaintenanceAuditState)
    ensures
        ({
            let s = audit_bytes(state);
            &&& s.len() == 320
            &&& s.subrange(0, 8) == MAINTENANCE_AUDIT_STATE_MAGIC@
            &&& spec_le_u32(s, 8) == MAINTENANCE_AUDIT_STATE_VERSION
            &&& all_zero(s.subrange(12, 16))
            &&& all_zero(s.subrange(44, 48))
            &&& all_zero(s.subrange(312, 320))
            &&& spec_le_u64(s, 16) == state.sequence
            &&& spec_le_u64(s, 24) == state.accepted_count
            &&& spec_le_u64(s, 32) == state.operations
            &&& spec_le_u32(s, 40) == state.max_uses
            &&& digest_at(s, 48) == state.authorization_sha256
            &&& digest_at(s, 80) == state.authorization_id
            &&& digest_at(s, 112) == state.manifest_sha256
            &&& digest_at(s, 144) == state.policy_sha256
            &&& digest_at(s, 176) == state.root_sha256
            &&& digest_at(s, 208) == state.device_binding_sha256
            &&& digest_at(s, 240) == state.previous_chain_sha256
            &&& digest_at(s, 272) == state.chain_sha256
            &&& s.subrange(16, 304) == audit_body(state)
            &&& spec_le_u64(s, 304) == spec_fnv1a64(audit_body(state)) ^ MAINTENANCE_AUDIT_WITNESS
        }),
{
    let s = audit_bytes(state);
    let b = audit_body(state);
    lemma_u32_bytes_zero();
    assert(s.subrange(0, 8) =~= MAINTENANCE_AUDIT_STATE_MAGIC@);
    assert(s.subrange(8, 12) =~= u32_bytes(MAINTENANCE_AUDIT_STATE_VERSION));
    assert(s.subrange(12, 16) =~= zeros(4));
    assert(s.subrange(16, 304) =~= b);
    assert(s.subrange(304, 312) =~= u64_bytes(spec_fnv1a64(b) ^ MAINTENANCE_AUDIT_WITNESS));
    assert(s.subrange(312, 320) =~= zeros(8));
    assert forall|i: int| 16 <= i < 304 implies s[i] == b[i - 16] by {
        assert(s.subrange(16, 304)[i - 16] == s[i]);
    }
    lemma_le_u32_at(s, 8, MAINTENANCE_AUDIT_STATE_VERSION);
    lemma_le_u64_at(s, 304, spec_fnv1a64(b) ^ MAINTENANCE_AUDIT_WITNESS);
    lemma_audit_body_fields(state, s);
}

#[verifier::spinoff_prover]
#[verifier::rlimit(60)]
proof fn lemma_audit_body_fields(state: MaintenanceAuditState, s: Seq<u8>)
    requires
        s.len() == 320,
        forall|i: int| 16 <= i < 304 ==> s[i] == audit_body(state)[i - 16],
    ensures
        spec_le_u64(s, 16) == state.sequence,
        spec_le_u64(s, 24) == state.accepted_count,
        spec_le_u64(s, 32) == state.operations,
        spec_le_u32(s, 40) == state.max_uses,
        all_zero(s.subrange(44, 48)),
        digest_at(s, 48) == state.authorization_sha256,
        digest_at(s, 80) == state.authorization_id,
        digest_at(s, 112) == state.manifest_sha256,
        digest_at(s, 144) == state.policy_sha256,
        digest_at(s, 176) == state.root_sha256,
        digest_at(s, 208) == state.device_binding_sha256,
        digest_at(s, 240) == state.previous_chain_sha256,
        digest_at(s, 272) == state.chain_sha256,
{
    let b = audit_body(state);
    assert(b.subrange(0, 8) =~= u64_bytes(state.sequence));
    assert(s.subrange(16, 24) =~= b.subrange(0, 8));
    lemma_le_u64_at(s, 16, state.sequence);
    assert(b.subrange(8, 16) =~= u64_bytes(state.accepted_count));
    assert(s.subrange(24, 32) =~= b.subrange(8, 16));
    lemma_le_u64_at(s, 24, state.accepted_count);
    assert(b.subrange(16, 24) =~= u64_bytes(state.operations));
    assert(s.subrange(32, 40) =~= b.subrange(16, 24));
    lemma_le_u64_at(s, 32, state.operations);
    assert(b.subrange(24, 28) =~= u32_bytes(state.max_uses));
    assert(s.subrange(40, 44) =~= b.subrange(24, 28));
    lemma_le_u32_at(s, 40, state.max_uses);
    assert(b.subrange(28, 32) =~= zeros(4));
    assert(s.subrange(44, 48) =~= b.subrange(28, 32));
    assert(b.subrange(32, 64) =~= state.authorization_sha256@);
    assert(s.subrange(48, 80) =~= b.subrange(32, 64));
    lemma_digest_at_view(s, 48, state.authorization_sha256);
    assert(b.subrange(64, 96) =~= state.authorization_id@);
    assert(s.subrange(80, 112) =~= b.subrange(64, 96));
    lemma_digest_at_view(s, 80, state.authorization_id);
    assert(b.subrange(96, 128) =~= state.manifest_sha256@);
    assert(s.subrange(112, 144) =~= b.subrange(96, 128));
    lemma_digest_at_view(s, 112, state.manifest_sha256);
    assert(b.subrange(128, 160) =~= state.policy_sha256@);
    assert(s.subrange(144, 176) =~= b.subrange(128, 160));
    lemma_digest_at_view(s, 144, state.policy_sha256);
    assert(b.subrange(160, 192) =~= state.root_sha256@);
    assert(s.subrange(176, 208) =~= b.subrange(160, 192));
    lemma_digest_at_view(s, 176, state.root_sha256);
    assert(b.subrange(192, 224) =~= state.device_binding_sha256@);
    assert(s.subrange(208, 240) =~= b.subrange(192, 224));
    lemma_digest_at_view(s, 208, state.device_binding_sha256);
    assert(b.subrange(224, 256) =~= state.previous_chain_sha256@);
    assert(s.subrange(240, 272) =~= b.subrange(224, 256));
    lemma_digest_at_view(s, 240, state.previous_chain_sha256);
    assert(b.subrange(256, 288) =~= state.chain_sha256@);
    assert(s.subrange(272, 304) =~= b.subrange(256, 288));
    lemma_digest_at_view(s, 272, state.chain_sha256);
}

/// An audit head that validates decodes from its encoding to itself.
pub proof fn lemma_audit_round_trip(state: MaintenanceAuditState)
    requires
        state.spec_validate() is Ok,
    ensures
        spec_decode_audit(audit_bytes(state)) == Ok::<MaintenanceAuditState, MaintenanceAuditStateError>(state),
{
    reveal(spec_decode_audit);
    lemma_audit_fields(state);
    let s = audit_bytes(state);
    assert(MaintenanceAuditState { sequence: spec_le_u64(s, 16), accepted_count: spec_le_u64(s, 24), operations: spec_le_u64(s, 32), max_uses: spec_le_u32(s, 40), authorization_sha256: digest_at(s, 48), authorization_id: digest_at(s, 80), manifest_sha256: digest_at(s, 112), policy_sha256: digest_at(s, 144), root_sha256: digest_at(s, 176), device_binding_sha256: digest_at(s, 208), previous_chain_sha256: digest_at(s, 240), chain_sha256: digest_at(s, 272) } == state);
    
}


/// An audit head that decodes is valid.
pub proof fn lemma_decoded_audit_is_valid(bytes: Seq<u8>)
    ensures
        spec_decode_audit(bytes) is Ok ==> spec_decode_audit(bytes)->Ok_0.spec_validate() is Ok,
{
    reveal(spec_decode_audit);
}

} // verus!

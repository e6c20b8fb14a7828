//! The maintenance-execution head: which authorized maintenance session
//! completed last, with the runtime facts sealed at completion, and the hash
//! chain over every completion.
use vstd::prelude::*;
use crate::checksum::{fnv1a64, spec_fnv1a64};
use crate::codec::{
    all_zero, bytes_eq, digest_at, digest_eq, into_array, is_zero, is_zero_range, le_u32, le_u64,
    lemma_digest_at_view, lemma_le_u32_at, lemma_le_u64_at, lemma_u32_bytes_zero, push_bytes,
    push_u32, push_u64, push_zeros, read_digest, spec_le_u32, spec_le_u64, u32_bytes, u64_bytes,
    zeros,
};
use crate::digest::{sha256, sha256_digest};
use crate::layout::{
    MAINTENANCE_EXECUTION_REQUIRED_FLAGS, MAINTENANCE_EXECUTION_STATE_BYTES,
    MAINTENANCE_EXECUTION_STATE_MAGIC, MAINTENANCE_EXECUTION_STATE_VERSION,
    MAINTENANCE_EXECUTION_WITNESS,
};
use crate::maintenance_audit::MaintenanceAuthorizationAuditBinding;

verus! {

broadcast use vstd::array::group_array_axioms;

/// Kernel-validated facts sealed when one maintenance execution completes.
///
/// The authorization fields must exactly match the already committed audit
/// head. The runtime fields are supplied only after the kernel has validated
/// the two bounded rotations, service drain, and clean-shutdown boundary. This
/// record supports a narrowly bounded retry of an interrupted maintenance
/// session; it is not a general exactly-once primitive.
#[derive(Clone, Copy, Debug, PartialEq, Eq)]
pub struct MaintenanceExecutionCompletionBinding {
    pub sequence: u64,
    pub operations: u64,
    pub max_uses: u32,
    pub uses_consumed: u32,
    pub rotations_completed: u32,
    pub flags: u32,
    pub appdata_generation: u64,
    pub authorization_sha256: [u8; 32],
    pub authorization_id: [u8; 32],
    pub manifest_sha256: [u8; 32],
    pub policy_sha256: [u8; 32],
    pub root_sha256: [u8; 32],
    pub device_binding_sha256: [u8; 32],
    pub runtime_evidence_sha256: [u8; 32],
}

#[derive(Clone, Copy, Debug, PartialEq, Eq, Structural)]
pub enum MaintenanceExecutionStateError {
    WrongSize,
    BadMagic,
    UnsupportedVersion,
    ZeroSequence,
    ZeroCompletedCount,
    CountMismatch,
    ZeroOperations,
    ZeroUseLimit,
    UseCountMismatch,
    RotationCountMismatch,
    InvalidFlags,
    ZeroAppdataGeneration,
    ZeroAuthorizationDigest,
    ZeroAuthorizationId,
    ZeroManifestDigest,
    ZeroPolicyDigest,
    ZeroRootDigest,
    ZeroDeviceBinding,
    ZeroRuntimeEvidenceDigest,
    ZeroChainDigest,
    NonZeroReserved,
    ChainMismatch,
    WitnessMismatch,
}

impl MaintenanceExecutionStateError {
    /// The fixed text that describes this error.
    pub open spec fn message(self) -> Seq<char> {
        match self {
            Self::WrongSize => "maintenance execution state has the wrong size"@,
            Self::BadMagic => "maintenance execution state magic is invalid"@,
            Self::UnsupportedVersion => "maintenance execution state version is unsupported"@,
            Self::ZeroSequence => "maintenance execution sequence is zero"@,
            Self::ZeroCompletedCount => "maintenance completed count is zero"@,
            Self::CountMismatch => {
                "maintenance completed count does not match the execution sequence"@
            }
            Self::ZeroOperations => "maintenance execution operation mask is zero"@,
            Self::ZeroUseLimit => "maintenance execution use limit is zero"@,
            Self::UseCountMismatch => {
                "maintenance execution did not consume its exact bounded use count"@
            }
            Self::RotationCountMismatch => {
                "maintenance execution rotations do not match consumed uses"@
            }
            Self::InvalidFlags => {
                "maintenance execution lacks the exact drain and clean-shutdown flags"@
            }
            Self::ZeroAppdataGeneration => "maintenance execution app-data generation is zero"@,
            Self::ZeroAuthorizationDigest => "maintenance execution authorization digest is zero"@,
            Self::ZeroAuthorizationId => "maintenance execution authorization id is zero"@,
            Self::ZeroManifestDigest => "maintenance execution manifest digest is zero"@,
            Self::ZeroPolicyDigest => "maintenance execution policy digest is zero"@,
            Self::ZeroRootDigest => "maintenance execution root digest is zero"@,
            Self::ZeroDeviceBinding => "maintenance execution device binding is zero"@,
            Self::ZeroRuntimeEvidenceDigest => {
                "maintenance execution runtime-evidence digest is zero"@
            }
            Self::ZeroChainDigest => "maintenance execution-chain digest is zero"@,
            Self::NonZeroReserved => "maintenance execution reserved bytes are nonzero"@,
            Self::ChainMismatch => "maintenance execution-chain digest is invalid"@,
            Self::WitnessMismatch => "maintenance execution witness is invalid"@,
        }
    }

    pub fn as_str(self) -> (text: &'static str)
        ensures
            text@ == self.message(),
    {
        match self {
            Self::WrongSize => "maintenance execution state has the wrong size",
            Self::BadMagic => "maintenance execution state magic is invalid",
            Self::UnsupportedVersion => "maintenance execution state version is unsupported",
            Self::ZeroSequence => "maintenance execution sequence is zero",
            Self::ZeroCompletedCount => "maintenance completed count is zero",
            Self::CountMismatch => {
                "maintenance completed count does not match the execution sequence"
            }
            Self::ZeroOperations => "maintenance execution operation mask is zero",
            Self::ZeroUseLimit => "maintenance execution use limit is zero",
            Self::UseCountMismatch => {
                "maintenance execution did not consume its exact bounded use count"
            }
            Self::RotationCountMismatch => {
                "maintenance execution rotations do not match consumed uses"
            }
            Self::InvalidFlags => {
                "maintenance execution lacks the exact drain and clean-shutdown flags"
            }
            Self::ZeroAppdataGeneration => "maintenance execution app-data generation is zero",
            Self::ZeroAuthorizationDigest => "maintenance execution authorization digest is zero",
            Self::ZeroAuthorizationId => "maintenance execution authorization id is zero",
            Self::ZeroManifestDigest => "maintenance execution manifest digest is zero",
            Self::ZeroPolicyDigest => "maintenance execution policy digest is zero",
            Self::ZeroRootDigest => "maintenance execution root digest is zero",
            Self::ZeroDeviceBinding => "maintenance execution device binding is zero",
            Self::ZeroRuntimeEvidenceDigest => {
                "maintenance execution runtime-evidence digest is zero"
            }
            Self::ZeroChainDigest => "maintenance execution-chain digest is zero",
            Self::NonZeroReserved => "maintenance execution reserved bytes are nonzero",
            Self::ChainMismatch => "maintenance execution-chain digest is invalid",
            Self::WitnessMismatch => "maintenance execution witness is invalid",
        }
    }
}

impl MaintenanceExecutionCompletionBinding {
    /// The first rule the binding breaks: nonzero sequence, operations and use
    /// limit, every use consumed by exactly one rotation, the drain and
    /// clean-shutdown flags, a nonzero app-data generation and nonzero digests.
    pub open spec fn spec_validate(self) -> Result<(), MaintenanceExecutionStateError> {
        if self.sequence == 0 {
            Err(MaintenanceExecutionStateError::ZeroSequence)
        } else if self.operations == 0 {
            Err(MaintenanceExecutionStateError::ZeroOperations)
        } else if self.max_uses == 0 {
            Err(MaintenanceExecutionStateError::ZeroUseLimit)
        } else if self.uses_consumed != self.max_uses {
            Err(MaintenanceExecutionStateError::UseCountMismatch)
        } else if self.rotations_completed != self.uses_consumed {
            Err(MaintenanceExecutionStateError::RotationCountMismatch)
        } else if self.flags != MAINTENANCE_EXECUTION_REQUIRED_FLAGS {
            Err(MaintenanceExecutionStateError::InvalidFlags)
        } else if self.appdata_generation == 0 {
            Err(MaintenanceExecutionStateError::ZeroAppdataGeneration)
        } else if all_zero(self.authorization_sha256@) {
            Err(MaintenanceExecutionStateError::ZeroAuthorizationDigest)
        } else if all_zero(self.authorization_id@) {
            Err(MaintenanceExecutionStateError::ZeroAuthorizationId)
        } else if all_zero(self.manifest_sha256@) {
            Err(MaintenanceExecutionStateError::ZeroManifestDigest)
        } else if all_zero(self.policy_sha256@) {
            Err(MaintenanceExecutionStateError::ZeroPolicyDigest)
        } else if all_zero(self.root_sha256@) {
            Err(MaintenanceExecutionStateError::ZeroRootDigest)
        } else if all_zero(self.device_binding_sha256@) {
            Err(MaintenanceExecutionStateError::ZeroDeviceBinding)
        } else if all_zero(self.runtime_evidence_sha256@) {
            Err(MaintenanceExecutionStateError::ZeroRuntimeEvidenceDigest)
        } else {
            Ok(())
        }
    }

    pub fn validate(self) -> (result: Result<(), MaintenanceExecutionStateError>)
        ensures
            result == self.spec_validate(),
    {
        if self.sequence == 0 {
            return Err(MaintenanceExecutionStateError::ZeroSequence);
        }
        if self.operations == 0 {
            return Err(MaintenanceExecutionStateError::ZeroOperations);
        }
        if self.max_uses == 0 {
            return Err(MaintenanceExecutionStateError::ZeroUseLimit);
        }
        if self.uses_consumed != self.max_uses {
            return Err(MaintenanceExecutionStateError::UseCountMismatch);
        }
        if self.rotations_completed != self.uses_consumed {
            return Err(MaintenanceExecutionStateError::RotationCountMismatch);
        }
        if self.flags != MAINTENANCE_EXECUTION_REQUIRED_FLAGS {
            return Err(MaintenanceExecutionStateError::InvalidFlags);
        }
        if self.appdata_generation == 0 {
            return Err(MaintenanceExecutionStateError::ZeroAppdataGeneration);
        }
        if is_zero(&self.authorization_sha256) {
            return Err(MaintenanceExecutionStateError::ZeroAuthorizationDigest);
        }
        if is_zero(&self.authorization_id) {
            return Err(MaintenanceExecutionStateError::ZeroAuthorizationId);
        }
        if is_zero(&self.manifest_sha256) {
            return Err(MaintenanceExecutionStateError::ZeroManifestDigest);
        }
        if is_zero(&self.policy_sha256) {
            return Err(MaintenanceExecutionStateError::ZeroPolicyDigest);
        }
        if is_zero(&self.root_sha256) {
            return Err(MaintenanceExecutionStateError::ZeroRootDigest);
        }
        if is_zero(&self.device_binding_sha256) {
            return Err(MaintenanceExecutionStateError::ZeroDeviceBinding);
        }
        if is_zero(&self.runtime_evidence_sha256) {
            return Err(MaintenanceExecutionStateError::ZeroRuntimeEvidenceDigest);
        }
        Ok(())
    }

    /// The authorization this completion belongs to.
    pub open spec fn spec_authorization_binding(self) -> MaintenanceAuthorizationAuditBinding {
        MaintenanceAuthorizationAuditBinding {
            sequence: self.sequence,
            operations: self.operations,
            max_uses: self.max_uses,
            authorization_sha256: self.authorization_sha256,
            authorization_id: self.authorization_id,
            manifest_sha256: self.manifest_sha256,
            policy_sha256: self.policy_sha256,
            root_sha256: self.root_sha256,
            device_binding_sha256: self.device_binding_sha256,
        }
    }

    pub fn authorization_binding(self) -> (binding: MaintenanceAuthorizationAuditBinding)
        ensures
            binding == self.spec_authorization_binding(),
    {
        MaintenanceAuthorizationAuditBinding {
            sequence: self.sequence,
            operations: self.operations,
            max_uses: self.max_uses,
            authorization_sha256: self.authorization_sha256,
            authorization_id: self.authorization_id,
            manifest_sha256: self.manifest_sha256,
            policy_sha256: self.policy_sha256,
            root_sha256: self.root_sha256,
            device_binding_sha256: self.device_binding_sha256,
        }
    }

    /// Field-by-field equality.
    pub fn same_as(&self, other: &Self) -> (equal: bool)
        ensures
            equal == (*self == *other),
    {
        self.sequence == other.sequence
            && self.operations == other.operations
            && self.max_uses == other.max_uses
            && self.uses_consumed == other.uses_consumed
            && self.rotations_completed == other.rotations_completed
            && self.flags == other.flags
            && self.appdata_generation == other.appdata_generation
            && digest_eq(&self.authorization_sha256, &other.authorization_sha256)
            && digest_eq(&self.authorization_id, &other.authorization_id)
            && digest_eq(&self.manifest_sha256, &other.manifest_sha256)
            && digest_eq(&self.policy_sha256, &other.policy_sha256)
            && digest_eq(&self.root_sha256, &other.root_sha256)
            && digest_eq(&self.device_binding_sha256, &other.device_binding_sha256)
            && digest_eq(&self.runtime_evidence_sha256, &other.runtime_evidence_sha256)
    }
}

/// The bytes hashed to extend the execution chain by one completion.
pub open spec fn execution_chain_material(
    previous_chain: Seq<u8>,
    binding: MaintenanceExecutionCompletionBinding,
) -> Seq<u8> {
    seq![0x42u8, 0x4e, 0x44, 0x52, 0x4d, 0x45, 0x58, 0x31] + previous_chain
        + binding.authorization_sha256@ + binding.authorization_id@ + u64_bytes(binding.sequence)
        + u64_bytes(binding.operations) + u32_bytes(binding.max_uses) + u32_bytes(binding.uses_consumed)
        + u32_bytes(binding.rotations_completed) + u32_bytes(binding.flags)
        + u64_bytes(binding.appdata_generation) + binding.runtime_evidence_sha256@
        + binding.manifest_sha256@ + binding.policy_sha256@ + binding.root_sha256@
        + binding.device_binding_sha256@
}

/// The execution-chain digest after sealing `binding` on top of `previous_chain_sha256`.
pub fn maintenance_execution_chain_sha256(
    previous_chain_sha256: [u8; 32],
    binding: MaintenanceExecutionCompletionBinding,
) -> (digest: [u8; 32])
    ensures
        digest@ == sha256_digest(execution_chain_material(previous_chain_sha256@, binding)),
{
    let mut material: Vec<u8> = Vec::new();
    push_bytes(&mut material, &[0x42u8, 0x4e, 0x44, 0x52, 0x4d, 0x45, 0x58, 0x31]);
    push_bytes(&mut material, &previous_chain_sha256);
    push_bytes(&mut material, &binding.authorization_sha256);
    push_bytes(&mut material, &binding.authorization_id);
    push_u64(&mut material, binding.sequence);
    push_u64(&mut material, binding.operations);
    push_u32(&mut material, binding.max_uses);
    push_u32(&mut material, binding.uses_consumed);
    push_u32(&mut material, binding.rotations_completed);
    push_u32(&mut material, binding.flags);
    push_u64(&mut material, binding.appdata_generation);
    push_bytes(&mut material, &binding.runtime_evidence_sha256);
    push_bytes(&mut material, &binding.manifest_sha256);
    push_bytes(&mut material, &binding.policy_sha256);
    push_bytes(&mut material, &binding.root_sha256);
    push_bytes(&mut material, &binding.device_binding_sha256);
    assert(material@ =~= execution_chain_material(previous_chain_sha256@, binding));
    sha256(material.as_slice())
}

#[derive(Clone, Copy, Debug, PartialEq, Eq)]
pub struct MaintenanceExecutionState {
    pub sequence: u64,
    pub completed_count: u64,
    pub operations: u64,
    pub max_uses: u32,
    pub uses_consumed: u32,
    pub rotations_completed: u32,
    pub flags: u32,
    pub appdata_generation: u64,
    pub authorization_sha256: [u8; 32],
    pub authorization_id: [u8; 32],
    pub manifest_sha256: [u8; 32],
    pub policy_sha256: [u8; 32],
    pub root_sha256: [u8; 32],
    pub device_binding_sha256: [u8; 32],
    pub previous_chain_sha256: [u8; 32],
    pub chain_sha256: [u8; 32],
    pub runtime_evidence_sha256: [u8; 32],
}

impl MaintenanceExecutionState {
    /// The completion this head records.
    pub open spec fn spec_completion_binding(self) -> MaintenanceExecutionCompletionBinding {
        MaintenanceExecutionCompletionBinding {
            sequence: self.sequence,
            operations: self.operations,
            max_uses: self.max_uses,
            uses_consumed: self.uses_consumed,
            rotations_completed: self.rotations_completed,
            flags: self.flags,
            appdata_generation: self.appdata_generation,
            authorization_sha256: self.authorization_sha256,
            authorization_id: self.authorization_id,
            manifest_sha256: self.manifest_sha256,
            policy_sha256: self.policy_sha256,
            root_sha256: self.root_sha256,
            device_binding_sha256: self.device_binding_sha256,
            runtime_evidence_sha256: self.runtime_evidence_sha256,
        }
    }

    pub fn completion_binding(self) -> (binding: MaintenanceExecutionCompletionBinding)
        ensures
            binding == self.spec_completion_binding(),
    {
        MaintenanceExecutionCompletionBinding {
            sequence: self.sequence,
            operations: self.operations,
            max_uses: self.max_uses,
            uses_consumed: self.uses_consumed,
            rotations_completed: self.rotations_completed,
            flags: self.flags,
            appdata_generation: self.appdata_generation,
            authorization_sha256: self.authorization_sha256,
            authorization_id: self.authorization_id,
            manifest_sha256: self.manifest_sha256,
            policy_sha256: self.policy_sha256,
            root_sha256: self.root_sha256,
            device_binding_sha256: self.device_binding_sha256,
            runtime_evidence_sha256: self.runtime_evidence_sha256,
        }
    }

    /// The first rule the head breaks: a valid completion, a completed count
    /// equal to the nonzero sequence, and a nonzero chain digest that extends
    /// the previous one by this completion.
    pub open spec fn spec_validate(self) -> Result<(), MaintenanceExecutionStateError> {
        if self.spec_completion_binding().spec_validate() is Err {
            self.spec_completion_binding().spec_validate()
        } else if self.completed_count == 0 {
            Err(MaintenanceExecutionStateError::ZeroCompletedCount)
        } else if self.completed_count != self.sequence {
            Err(MaintenanceExecutionStateError::CountMismatch)
        } else if all_zero(self.chain_sha256@) {
            Err(MaintenanceExecutionStateError::ZeroChainDigest)
        } else if self.chain_sha256@ != sha256_digest(
            execution_chain_material(self.previous_chain_sha256@, self.spec_completion_binding()),
        ) {
            Err(MaintenanceExecutionStateError::ChainMismatch)
        } else {
            Ok(())
        }
    }

    pub fn validate(self) -> (result: Result<(), MaintenanceExecutionStateError>)
        ensures
            result == self.spec_validate(),
    {
        let binding = self.completion_binding();
        binding.validate()?;
        if self.completed_count == 0 {
            return Err(MaintenanceExecutionStateError::ZeroCompletedCount);
        }
        if self.completed_count != self.sequence {
            return Err(MaintenanceExecutionStateError::CountMismatch);
        }
        if is_zero(&self.chain_sha256) {
            return Err(MaintenanceExecutionStateError::ZeroChainDigest);
        }
        let expected = maintenance_execution_chain_sha256(self.previous_chain_sha256, binding);
        if !digest_eq(&self.chain_sha256, &expected) {
            return Err(MaintenanceExecutionStateError::ChainMismatch);
        }
        Ok(())
    }

    /// Field-by-field equality.
    pub fn same_as(&self, other: &Self) -> (equal: bool)
        ensures
            equal == (*self == *other),
    {
        self.sequence == other.sequence
            && self.completed_count == other.completed_count
            && self.operations == other.operations
            && self.max_uses == other.max_uses
            && self.uses_consumed == other.uses_consumed
            && self.rotations_completed == other.rotations_completed
            && self.flags == other.flags
            && self.appdata_generation == other.appdata_generation
            && digest_eq(&self.authorization_sha256, &other.authorization_sha256)
            && digest_eq(&self.authorization_id, &other.authorization_id)
            && digest_eq(&self.manifest_sha256, &other.manifest_sha256)
            && digest_eq(&self.policy_sha256, &other.policy_sha256)
            && digest_eq(&self.root_sha256, &other.root_sha256)
            && digest_eq(&self.device_binding_sha256, &other.device_binding_sha256)
            && digest_eq(&self.previous_chain_sha256, &other.previous_chain_sha256)
            && digest_eq(&self.chain_sha256, &other.chain_sha256)
            && digest_eq(&self.runtime_evidence_sha256, &other.runtime_evidence_sha256)
    }
}

/// Bytes 16..352 of an encoded MaintenanceExecutionState: the fields its witness covers.
pub open spec fn execution_body(state: MaintenanceExecutionState) -> Seq<u8> {
    u64_bytes(state.sequence)
        + u64_bytes(state.completed_count)
        + u64_bytes(state.operations)
        + u32_bytes(state.max_uses)
        + u32_bytes(state.uses_consumed)
        + u32_bytes(state.rotations_completed)
        + u32_bytes(state.flags)
        + u64_bytes(state.appdata_generation)
        + state.authorization_sha256@
        + state.authorization_id@
        + state.manifest_sha256@
        + state.policy_sha256@
        + state.root_sha256@
        + state.device_binding_sha256@
        + state.previous_chain_sha256@
        + state.chain_sha256@
        + state.runtime_evidence_sha256@
}

pub open spec fn execution_bytes(state: MaintenanceExecutionState) -> Seq<u8> {
    MAINTENANCE_EXECUTION_STATE_MAGIC@ + u32_bytes(MAINTENANCE_EXECUTION_STATE_VERSION) + zeros(4) + execution_body(state) + u64_bytes(
        spec_fnv1a64(execution_body(state)) ^ MAINTENANCE_EXECUTION_WITNESS,
    ) + zeros(8)
}

pub open spec fn spec_encode_execution(state: MaintenanceExecutionState) -> Result<Seq<u8>, MaintenanceExecutionStateError> {
    if state.spec_validate() is Err {
        Err(state.spec_validate()->Err_0)
    } else {
        Ok(execution_bytes(state))
    }
}

#[verifier::opaque]
pub open spec fn spec_decode_execution(bytes: Seq<u8>) -> Result<MaintenanceExecutionState, MaintenanceExecutionStateError> {
    let state = MaintenanceExecutionState { sequence: spec_le_u64(bytes, 16), completed_count: spec_le_u64(bytes, 24), operations: spec_le_u64(bytes, 32), max_uses: spec_le_u32(bytes, 40), uses_consumed: spec_le_u32(bytes, 44), rotations_completed: spec_le_u32(bytes, 48), flags: spec_le_u32(bytes, 52), appdata_generation: spec_le_u64(bytes, 56), authorization_sha256: digest_at(bytes, 64), authorization_id: digest_at(bytes, 96), manifest_sha256: digest_at(bytes, 128), policy_sha256: digest_at(bytes, 160), root_sha256: digest_at(bytes, 192), device_binding_sha256: digest_at(bytes, 224), previous_chain_sha256: digest_at(bytes, 256), chain_sha256: digest_at(bytes, 288), runtime_evidence_sha256: digest_at(bytes, 320) };
    if bytes.len() != 368 {
        Err(MaintenanceExecutionStateError::WrongSize)
    } else if bytes.subrange(0, 8) != MAINTENANCE_EXECUTION_STATE_MAGIC@ {
        Err(MaintenanceExecutionStateError::BadMagic)
    } else if spec_le_u32(bytes, 8) != MAINTENANCE_EXECUTION_STATE_VERSION {
        Err(MaintenanceExecutionStateError::UnsupportedVersion)
    } else if !all_zero(bytes.subrange(12, 16)) || !all_zero(bytes.subrange(360, 368)) {
        Err(MaintenanceExecutionStateError::NonZeroReserved)
    } else if state.spec_validate() is Err {
        Err(state.spec_validate()->Err_0)
    } else if spec_le_u64(bytes, 352) != spec_fnv1a64(bytes.subrange(16, 352)) ^ MAINTENANCE_EXECUTION_WITNESS {
        Err(MaintenanceExecutionStateError::WitnessMismatch)
    } else {
        Ok(state)
    }
}

impl MaintenanceExecutionState {
    pub fn encode(self) -> (result: Result<[u8; 368], MaintenanceExecutionStateError>)
        ensures
            match result {
                Ok(bytes) => spec_encode_execution(self) == Ok::<Seq<u8>, MaintenanceExecutionStateError>(bytes@),
                Err(error) => spec_encode_execution(self) == Err::<Seq<u8>, MaintenanceExecutionStateError>(error),
            },
    {
        self.validate()?;
        let mut body: Vec<u8> = Vec::new();
        push_u64(&mut body, self.sequence);
        push_u64(&mut body, self.completed_count);
        push_u64(&mut body, self.operations);
        push_u32(&mut body, self.max_uses);
        push_u32(&mut body, self.uses_consumed);
        push_u32(&mut body, self.rotations_completed);
        push_u32(&mut body, self.flags);
        push_u64(&mut body, self.appdata_generation);
        push_bytes(&mut body, &self.authorization_sha256);
        push_bytes(&mut body, &self.authorization_id);
        push_bytes(&mut body, &self.manifest_sha256);
        push_bytes(&mut body, &self.policy_sha256);
        push_bytes(&mut body, &self.root_sha256);
        push_bytes(&mut body, &self.device_binding_sha256);
        push_bytes(&mut body, &self.previous_chain_sha256);
        push_bytes(&mut body, &self.chain_sha256);
        push_bytes(&mut body, &self.runtime_evidence_sha256);
        assert(body@ =~= execution_body(self));
        let witness = fnv1a64(body.as_slice()) ^ MAINTENANCE_EXECUTION_WITNESS;
        let mut out: Vec<u8> = Vec::new();
        push_bytes(&mut out, &MAINTENANCE_EXECUTION_STATE_MAGIC);
        push_u32(&mut out, MAINTENANCE_EXECUTION_STATE_VERSION);
        push_zeros(&mut out, 4);
        push_bytes(&mut out, body.as_slice());
        push_u64(&mut out, witness);
        push_zeros(&mut out, 8);
        assert(out@ =~= execution_bytes(self));
        Ok(into_array(&out))
    }

    pub fn decode(bytes: &[u8]) -> (result: Result<Self, MaintenanceExecutionStateError>)
        ensures
            result == spec_decode_execution(bytes@),
    {
        reveal(spec_decode_execution);
        if bytes.len() != 368 {
            return Err(MaintenanceExecutionStateError::WrongSize);
        }
        if !bytes_eq(&bytes[0..8], &MAINTENANCE_EXECUTION_STATE_MAGIC) {
            return Err(MaintenanceExecutionStateError::BadMagic);
        }
        if le_u32(bytes, 8) != MAINTENANCE_EXECUTION_STATE_VERSION {
            return Err(MaintenanceExecutionStateError::UnsupportedVersion);
        }
        if !is_zero_range(bytes, 12, 16) || !is_zero_range(bytes, 360, 368) {
            return Err(MaintenanceExecutionStateError::NonZeroReserved);
        }
        let state = MaintenanceExecutionState { sequence: le_u64(bytes, 16), completed_count: le_u64(bytes, 24), operations: le_u64(bytes, 32), max_uses: le_u32(bytes, 40), uses_consumed: le_u32(bytes, 44), rotations_completed: le_u32(bytes, 48), flags: le_u32(bytes, 52), appdata_generation: le_u64(bytes, 56), authorization_sha256: read_digest(bytes, 64), authorization_id: read_digest(bytes, 96), manifest_sha256: read_digest(bytes, 128), policy_sha256: read_digest(bytes, 160), root_sha256: read_digest(bytes, 192), device_binding_sha256: read_digest(bytes, 224), previous_chain_sha256: read_digest(bytes, 256), chain_sha256: read_digest(bytes, 288), runtime_evidence_sha256: read_digest(bytes, 320) };
        state.validate()?;
        if le_u64(bytes, 352) != fnv1a64(&bytes[16..352]) ^ MAINTENANCE_EXECUTION_WITNESS {
            return Err(MaintenanceExecutionStateError::WitnessMismatch);
        }
        Ok(state)
    }
}

#[verifier::spinoff_prover]
#[verifier::rlimit(60)]
proof fn lemma_execution_fields(state: MaintenanceExecutionState)
    ensures
        ({
            let s = execution_bytes(state);
            &&& s.len() == 368
            &&& s.subrange(0, 8) == MAINTENANCE_EXECUTION_STATE_MAGIC@
            &&& spec_le_u32(s, 8) == MAINTENANCE_EXECUTION_STATE_VERSION
            &&& all_zero(s.subrange(12, 16))
            &&& all_zero(s.subrange(360, 368))
            &&& spec_le_u64(s, 16) == state.sequence
            &&& spec_le_u64(s, 24) == state.completed_count
            &&& spec_le_u64(s, 32) == state.operations
            &&& spec_le_u32(s, 40) == state.max_uses
            &&& spec_le_u32(s, 44) == state.uses_consumed
            &&& spec_le_u32(s, 48) == state.rotations_completed
            &&& spec_le_u32(s, 52) == state.flags
            &&& spec_le_u64(s, 56) == state.appdata_generation
            &&& digest_at(s, 64) == state.authorization_sha256
            &&& digest_at(s, 96) == state.authorization_id
            &&& digest_at(s, 128) == state.manifest_sha256
            &&& digest_at(s, 160) == state.policy_sha256
            &&& digest_at(s, 192) == state.root_sha256
            &&& digest_at(s, 224) == state.device_binding_sha256
            &&& digest_at(s, 256) == state.previous_chain_sha256
            &&& digest_at(s, 288) == state.chain_sha256
            &&& digest_at(s, 320) == state.runtime_evidence_sha256
            &&& s.subrange(16, 352) == execution_body(state)
            &&& spec_le_u64(s, 352) == spec_fnv1a64(execution_body(state)) ^ MAINTENANCE_EXECUTION_WITNESS
        }),
{
    let s = execution_bytes(state);
    let b = execution_body(state);
    lemma_u32_bytes_zero();
    assert(s.subrange(0, 8) =~= MAINTENANCE_EXECUTION_STATE_MAGIC@);
    assert(s.subrange(8, 12) =~= u32_bytes(MAINTENANCE_EXECUTION_STATE_VERSION));
    assert(s.subrange(12, 16) =~= zeros(4));
    assert(s.subrange(16, 352) =~= b);
    assert(s.subrange(352, 360) =~= u64_bytes(spec_fnv1a64(b) ^ MAINTENANCE_EXECUTION_WITNESS));
    assert(s.subrange(360, 368) =~= zeros(8));
    assert forall|i: int| 16 <= i < 352 implies s[i] == b[i - 16] by {
        assert(s.subrange(16, 352)[i - 16] == s[i]);
    }
    lemma_le_u32_at(s, 8, MAINTENANCE_EXECUTION_STATE_VERSION);
    lemma_le_u64_at(s, 352, spec_fnv1a64(b) ^ MAINTENANCE_EXECUTION_WITNESS);
    lemma_execution_body_fields(state, s);
}

#[verifier::spinoff_prover]
#[verifier::rlimit(60)]
proof fn lemma_execution_body_fields(state: MaintenanceExecutionState, s: Seq<u8>)
    requires
        s.len() == 368,
        forall|i: int| 16 <= i < 352 ==> s[i] == execution_body(state)[i - 16],
    ensures
        spec_le_u64(s, 16) == state.sequence,
        spec_le_u64(s, 24) == state.completed_count,
        spec_le_u64(s, 32) == state.operations,
        spec_le_u32(s, 40) == state.max_uses,
        spec_le_u32(s, 44) == state.uses_consumed,
        spec_le_u32(s, 48) == state.rotations_completed,
        spec_le_u32(s, 52) == state.flags,
        spec_le_u64(s, 56) == state.appdata_generation,
        digest_at(s, 64) == state.authorization_sha256,
        digest_at(s, 96) == state.authorization_id,
        digest_at(s, 128) == state.manifest_sha256,
        digest_at(s, 160) == state.policy_sha256,
        digest_at(s, 192) == state.root_sha256,
        digest_at(s, 224) == state.device_binding_sha256,
        digest_at(s, 256) == state.previous_chain_sha256,
        digest_at(s, 288) == state.chain_sha256,
        digest_at(s, 320) == state.runtime_evidence_sha256,
{
    let b = execution_body(state);
    assert(b.subrange(0, 8) =~= u64_bytes(state.sequence));
    assert(s.subrange(16, 24) =~= b.subrange(0, 8));
    lemma_le_u64_at(s, 16, state.sequence);
    assert(b.subrange(8, 16) =~= u64_bytes(state.completed_count));
    assert(s.subrange(24, 32) =~= b.subrange(8, 16));
    lemma_le_u64_at(s, 24, state.completed_count);
    assert(b.subrange(16, 24) =~= u64_bytes(state.operations));
    assert(s.subrange(32, 40) =~= b.subrange(16, 24));
    lemma_le_u64_at(s, 32, state.operations);
    assert(b.subrange(24, 28) =~= u32_bytes(state.max_uses));
    assert(s.subrange(40, 44) =~= b.subrange(24, 28));
    lemma_le_u32_at(s, 40, state.max_uses);
    assert(b.subrange(28, 32) =~= u32_bytes(state.uses_consumed));
    assert(s.subrange(44, 48) =~= b.subrange(28, 32));
    lemma_le_u32_at(s, 44, state.uses_consumed);
    assert(b.subrange(32, 36) =~= u32_bytes(state.rotations_completed));
    assert(s.subrange(48, 52) =~= b.subrange(32, 36));
    lemma_le_u32_at(s, 48, state.rotations_completed);
    assert(b.subrange(36, 40) =~= u32_bytes(state.flags));
    assert(s.subrange(52, 56) =~= b.subrange(36, 40));
    lemma_le_u32_at(s, 52, state.flags);
    assert(b.subrange(40, 48) =~= u64_bytes(state.appdata_generation));
    assert(s.subrange(56, 64) =~= b.subrange(40, 48));
    lemma_le_u64_at(s, 56, state.appdata_generation);
    assert(b.subrange(48, 80) =~= state.authorization_sha256@);
    assert(s.subrange(64, 96) =~= b.subrange(48, 80));
    lemma_digest_at_view(s, 64, state.authorization_sha256);
    assert(b.subrange(80, 112) =~= state.authorization_id@);
    assert(s.subrange(96, 128) =~= b.subrange(80, 112));
    lemma_digest_at_view(s, 96, state.authorization_id);
    assert(b.subrange(112, 144) =~= state.manifest_sha256@);
    assert(s.subrange(128, 160) =~= b.subrange(112, 144));
    lemma_digest_at_view(s, 128, state.manifest_sha256);
    assert(b.subrange(144, 176) =~= state.policy_sha256@);
    assert(s.subrange(160, 192) =~= b.subrange(144, 176));
    lemma_digest_at_view(s, 160, state.policy_sha256);
    assert(b.subrange(176, 208) =~= state.root_sha256@);
    assert(s.subrange(192, 224) =~= b.subrange(176, 208));
    lemma_digest_at_view(s, 192, state.root_sha256);
    assert(b.subrange(208, 240) =~= state.device_binding_sha256@);
    assert(s.subrange(224, 256) =~= b.subrange(208, 240));
    lemma_digest_at_view(s, 224, state.device_binding_sha256);
    assert(b.subrange(240, 272) =~= state.previous_chain_sha256@);
    assert(s.subrange(256, 288) =~= b.subrange(240, 272));
    lemma_digest_at_view(s, 256, state.previous_chain_sha256);
    assert(b.subrange(272, 304) =~= state.chain_sha256@);
    assert(s.subrange(288, 320) =~= b.subrange(272, 304));
    lemma_digest_at_view(s, 288, state.chain_sha256);
    assert(b.subrange(304, 336) =~= state.runtime_evidence_sha256@);
    assert(s.subrange(320, 352) =~= b.subrange(304, 336));
    lemma_digest_at_view(s, 320, state.runtime_evidence_sha256);
}

/// An execution head that validates decodes from its encoding to itself.
pub proof fn lemma_execution_round_trip(state: MaintenanceExecutionState)
    requires
        state.spec_validate() is Ok,
    ensures
        spec_decode_execution(execution_bytes(state)) == Ok::<MaintenanceExecutionState, MaintenanceExecutionStateError>(state),
{
    reveal(spec_decode_execution);
    lemma_execution_fields(state);
    let s = execution_bytes(state);
    assert(MaintenanceExecutionState { sequence: spec_le_u64(s, 16), completed_count: spec_le_u64(s, 24), operations: spec_le_u64(s, 32), max_uses: spec_le_u32(s, 40), uses_consumed: spec_le_u32(s, 44), rotations_completed: spec_le_u32(s, 48), flags: spec_le_u32(s, 52), appdata_generation: spec_le_u64(s, 56), authorization_sha256: digest_at(s, 64), authorization_id: digest_at(s, 96), manifest_sha256: digest_at(s, 128), policy_sha256: digest_at(s, 160), root_sha256: digest_at(s, 192), device_binding_sha256: digest_at(s, 224), previous_chain_sha256: digest_at(s, 256), chain_sha256: digest_at(s, 288), runtime_evidence_sha256: digest_at(s, 320) } == state);
    
}


/// A head that decodes is valid.
pub proof fn lemma_decoded_execution_is_valid(bytes: Seq<u8>)
    ensures
        spec_decode_execution(bytes) is Ok ==> spec_decode_execution(bytes)->Ok_0.spec_validate() is Ok,
{
    reveal(spec_decode_execution);
}

} // verus!

//! The maintenance-step journal head: which step of the fixed maintenance
//! program was last made durable, and the hash chain over every step.
use vstd::prelude::*;
use crate::checksum::{fnv1a64, spec_fnv1a64};
use crate::codec::{
    all_zero, bytes_eq, digest_at, digest_eq, into_array, is_zero, is_zero_range, le_u32, le_u64,
    lemma_digest_at_view, lemma_le_u32_at, lemma_le_u64_at, lemma_u32_bytes_zero, push_bytes,
    push_u32, push_u64, push_zeros, read_digest, spec_le_u32, spec_le_u64, u32_bytes, u64_bytes,
    zeros,
};
use crate::digest::{sha256, sha256_digest};
use crate::layout::{
    MAINTENANCE_STEP_COUNT, MAINTENANCE_STEP_DRAIN, MAINTENANCE_STEP_DRAIN_VALIDATED,
    MAINTENANCE_STEP_OPERATION_STORAGE_ROTATION, MAINTENANCE_STEP_REPLAY_SAFE_FROM_BOOT_START,
    MAINTENANCE_STEP_ROTATION_ONE, MAINTENANCE_STEP_ROTATION_TWO, MAINTENANCE_STEP_STATE_BYTES,
    MAINTENANCE_STEP_STATE_MAGIC, MAINTENANCE_STEP_STATE_VERSION, MAINTENANCE_STEP_WITNESS,
};
use crate::maintenance_audit::MaintenanceAuthorizationAuditBinding;

verus! {

broadcast use vstd::array::group_array_axioms;

/// One kernel-observed step in the fixed maintenance program.
///
/// The program is deliberately narrow: two restart-based storage convergence
/// steps followed by one resident drain step. Each boot starts from the same
/// bounded resident topology, so a previously committed step may be replayed
/// from step one without another journal mutation. This is an explicit
/// idempotent reconciliation rule, not arbitrary instruction resume.
#[derive(Clone, Copy, Debug, PartialEq, Eq)]
pub struct MaintenanceStepCommitBinding {
    pub sequence: u64,
    pub operations: u64,
    pub max_uses: u32,
    pub step_ordinal: u32,
    pub observed_rotations: u32,
    pub flags: u32,
    pub authorization_sha256: [u8; 32],
    pub authorization_id: [u8; 32],
    pub manifest_sha256: [u8; 32],
    pub policy_sha256: [u8; 32],
    pub root_sha256: [u8; 32],
    pub device_binding_sha256: [u8; 32],
    pub effect_sha256: [u8; 32],
}

#[derive(Clone, Copy, Debug, PartialEq, Eq, Structural)]
pub enum MaintenanceStepStateError {
    WrongSize,
    BadMagic,
    UnsupportedVersion,
    ZeroSequence,
    InvalidBaseSequence,
    ZeroEntryCount,
    EntryCountMismatch,
    UnsupportedOperations,
    UnexpectedUseLimit,
    InvalidStep,
    ObservationMismatch,
    InvalidFlags,
    ZeroAuthorizationDigest,
    ZeroAuthorizationId,
    ZeroManifestDigest,
    ZeroPolicyDigest,
    ZeroRootDigest,
    ZeroDeviceBinding,
    ZeroEffectDigest,
    EffectMismatch,
    ZeroChainDigest,
    NonZeroReserved,
    ChainMismatch,
    WitnessMismatch,
}

impl MaintenanceStepStateError {
    /// The fixed text that describes this error.
    pub open spec fn message(self) -> Seq<char> {
        match self {
            Self::WrongSize => "maintenance step state has the wrong size"@,
            Self::BadMagic => "maintenance step state magic is invalid"@,
            Self::UnsupportedVersion => "maintenance step state version is unsupported"@,
            Self::ZeroSequence => "maintenance step authorization sequence is zero"@,
            Self::InvalidBaseSequence => "maintenance step base sequence is invalid"@,
            Self::ZeroEntryCount => "maintenance step entry count is zero"@,
            Self::EntryCountMismatch => {
                "maintenance step entry count does not match its sequence and ordinal"@
            }
            Self::UnsupportedOperations => {
                "maintenance step program is not the fixed storage-rotation operation"@
            }
            Self::UnexpectedUseLimit => "maintenance step program requires exactly two uses"@,
            Self::InvalidStep => "maintenance step ordinal is outside the fixed program"@,
            Self::ObservationMismatch => {
                "maintenance step observation does not match the fixed program"@
            }
            Self::InvalidFlags => "maintenance step flags do not match its fixed semantics"@,
            Self::ZeroAuthorizationDigest => "maintenance step authorization digest is zero"@,
            Self::ZeroAuthorizationId => "maintenance step authorization id is zero"@,
            Self::ZeroManifestDigest => "maintenance step manifest digest is zero"@,
            Self::ZeroPolicyDigest => "maintenance step policy digest is zero"@,
            Self::ZeroRootDigest => "maintenance step root digest is zero"@,
            Self::ZeroDeviceBinding => "maintenance step device binding is zero"@,
            Self::ZeroEffectDigest => "maintenance step effect digest is zero"@,
            Self::EffectMismatch => "maintenance step effect digest is invalid"@,
            Self::ZeroChainDigest => "maintenance step chain digest is zero"@,
            Self::NonZeroReserved => "maintenance step reserved bytes are nonzero"@,
            Self::ChainMismatch => "maintenance step chain digest is invalid"@,
            Self::WitnessMismatch => "maintenance step witness is invalid"@,
        }
    }

    pub fn as_str(self) -> (text: &'static str)
        ensures
            text@ == self.message(),
    {
        match self {
            Self::WrongSize => "maintenance step state has the wrong size",
            Self::BadMagic => "maintenance step state magic is invalid",
            Self::UnsupportedVersion => "maintenance step state version is unsupported",
            Self::ZeroSequence => "maintenance step authorization sequence is zero",
            Self::InvalidBaseSequence => "maintenance step base sequence is invalid",
            Self::ZeroEntryCount => "maintenance step entry count is zero",
            Self::EntryCountMismatch => {
                "maintenance step entry count does not match its sequence and ordinal"
            }
            Self::UnsupportedOperations => {
                "maintenance step program is not the fixed storage-rotation operation"
            }
            Self::UnexpectedUseLimit => "maintenance step program requires exactly two uses",
            Self::InvalidStep => "maintenance step ordinal is outside the fixed program",
            Self::ObservationMismatch => {
                "maintenance step observation does not match the fixed program"
            }
            Self::InvalidFlags => "maintenance step flags do not match its fixed semantics",
            Self::ZeroAuthorizationDigest => "maintenance step authorization digest is zero",
            Self::ZeroAuthorizationId => "maintenance step authorization id is zero",
            Self::ZeroManifestDigest => "maintenance step manifest digest is zero",
            Self::ZeroPolicyDigest => "maintenance step policy digest is zero",
            Self::ZeroRootDigest => "maintenance step root digest is zero",
            Self::ZeroDeviceBinding => "maintenance step device binding is zero",
            Self::ZeroEffectDigest => "maintenance step effect digest is zero",
            Self::EffectMismatch => "maintenance step effect digest is invalid",
            Self::ZeroChainDigest => "maintenance step chain digest is zero",
            Self::NonZeroReserved => "maintenance step reserved bytes are nonzero",
            Self::ChainMismatch => "maintenance step chain digest is invalid",
            Self::WitnessMismatch => "maintenance step witness is invalid",
        }
    }
}

/// The rotations observed, and the flags carried, at each step of the fixed
/// program; `None` for an ordinal outside it.
pub open spec fn step_expectation(step_ordinal: u32) -> Option<(u32, u32)> {
    if step_ordinal == MAINTENANCE_STEP_ROTATION_ONE {
        Some((1u32, MAINTENANCE_STEP_REPLAY_SAFE_FROM_BOOT_START))
    } else if step_ordinal == MAINTENANCE_STEP_ROTATION_TWO {
        Some((2u32, MAINTENANCE_STEP_REPLAY_SAFE_FROM_BOOT_START))
    } else if step_ordinal == MAINTENANCE_STEP_DRAIN {
        Some((2u32, MAINTENANCE_STEP_REPLAY_SAFE_FROM_BOOT_START | MAINTENANCE_STEP_DRAIN_VALIDATED))
    } else {
        None
    }
}

/// The bytes hashed to describe the effect of one step.
pub open spec fn step_effect_material(binding: MaintenanceStepCommitBinding) -> Seq<u8> {
    seq![0x42u8, 0x4e, 0x44, 0x52, 0x4d, 0x53, 0x54, 0x31] + binding.authorization_sha256@
        + binding.authorization_id@ + u64_bytes(binding.sequence) + u64_bytes(binding.operations)
        + u32_bytes(binding.max_uses) + u32_bytes(binding.step_ordinal)
        + u32_bytes(binding.observed_rotations) + u32_bytes(binding.flags)
        + binding.manifest_sha256@ + binding.policy_sha256@ + binding.root_sha256@
        + binding.device_binding_sha256@
}

/// The effect digest of a step: SHA-256 over everything but the digest itself.
pub fn maintenance_step_effect_sha256(binding: MaintenanceStepCommitBinding) -> (digest: [u8; 32])
    ensures
        digest@ == sha256_digest(step_effect_material(binding)),
{
    let mut material: Vec<u8> = Vec::new();
    push_bytes(&mut material, &[0x42u8, 0x4e, 0x44, 0x52, 0x4d, 0x53, 0x54, 0x31]);
    push_bytes(&mut material, &binding.authorization_sha256);
    push_bytes(&mut material, &binding.authorization_id);
    push_u64(&mut material, binding.sequence);
    push_u64(&mut material, binding.operations);
    push_u32(&mut material, binding.max_uses);
    push_u32(&mut material, binding.step_ordinal);
    push_u32(&mut material, binding.observed_rotations);
    push_u32(&mut material, binding.flags);
    push_bytes(&mut material, &binding.manifest_sha256);
    push_bytes(&mut material, &binding.policy_sha256);
    push_bytes(&mut material, &binding.root_sha256);
    push_bytes(&mut material, &binding.device_binding_sha256);
    assert(material@ =~= step_effect_material(binding));
    sha256(material.as_slice())
}

/// The step an authorization observed, with its effect digest filled in.
pub open spec fn observed_step(
    authorization: MaintenanceAuthorizationAuditBinding,
    step_ordinal: u32,
    observed_rotations: u32,
    drain_validated: bool,
) -> MaintenanceStepCommitBinding {
    let unsealed = MaintenanceStepCommitBinding {
        sequence: authorization.sequence,
        operations: authorization.operations,
        max_uses: authorization.max_uses,
        step_ordinal,
        observed_rotations,
        flags: MAINTENANCE_STEP_REPLAY_SAFE_FROM_BOOT_START | if drain_validated {
            MAINTENANCE_STEP_DRAIN_VALIDATED
        } else {
            0u32
        },
        authorization_sha256: authorization.authorization_sha256,
        authorization_id: authorization.authorization_id,
        manifest_sha256: authorization.manifest_sha256,
        policy_sha256: authorization.policy_sha256,
        root_sha256: authorization.root_sha256,
        device_binding_sha256: authorization.device_binding_sha256,
        effect_sha256: digest_at(zeros(32), 0),
    };
    MaintenanceStepCommitBinding {
        effect_sha256: digest_at(sha256_digest(step_effect_material(unsealed)), 0),
        ..unsealed
    }
}

impl MaintenanceStepCommitBinding {
    /// Builds the step that `authorization` observed and validates it.
    pub fn for_observation(
        authorization: MaintenanceAuthorizationAuditBinding,
        step_ordinal: u32,
        observed_rotations: u32,
        drain_validated: bool,
    ) -> (result: Result<Self, MaintenanceStepStateError>)
        ensures
            ({
                let binding = observed_step(authorization, step_ordinal, observed_rotations, drain_validated);
                result == if binding.spec_validate() is Err {
                    Err::<Self, MaintenanceStepStateError>(binding.spec_validate()->Err_0)
                } else {
                    Ok::<Self, MaintenanceStepStateError>(binding)
                }
            }),
    {
        let flags = MAINTENANCE_STEP_REPLAY_SAFE_FROM_BOOT_START | if drain_validated {
            MAINTENANCE_STEP_DRAIN_VALIDATED
        } else {
            0
        };
        let mut binding = MaintenanceStepCommitBinding {
            sequence: authorization.sequence,
            operations: authorization.operations,
            max_uses: authorization.max_uses,
            step_ordinal,
            observed_rotations,
            flags,
            authorization_sha256: authorization.authorization_sha256,
            authorization_id: authorization.authorization_id,
            manifest_sha256: authorization.manifest_sha256,
            policy_sha256: authorization.policy_sha256,
            root_sha256: authorization.root_sha256,
            device_binding_sha256: authorization.device_binding_sha256,
            effect_sha256: [0u8; 32],
        };
        proof {
            assert(zeros(32).subrange(0, 32) =~= binding.effect_sha256@);
            lemma_digest_at_view(zeros(32), 0, binding.effect_sha256);
        }
        let effect = maintenance_step_effect_sha256(binding);
        proof {
            let digest = sha256_digest(step_effect_material(binding));
            assert(digest.subrange(0, 32) =~= effect@);
            lemma_digest_at_view(digest, 0, effect);
        }
        binding.effect_sha256 = effect;
        assert(binding == observed_step(authorization, step_ordinal, observed_rotations, drain_validated));
        binding.validate()?;
        Ok(binding)
    }

    /// The first rule the step breaks: a nonzero sequence, the fixed
    /// storage-rotation program with two uses, an ordinal of the program with
    /// its fixed observation and flags, nonzero digests, and the effect digest
    /// of the step's own fields.
    pub open spec fn spec_validate(self) -> Result<(), MaintenanceStepStateError> {
        if self.sequence == 0 {
            Err(MaintenanceStepStateError::ZeroSequence)
        } else if self.operations != MAINTENANCE_STEP_OPERATION_STORAGE_ROTATION {
            Err(MaintenanceStepStateError::UnsupportedOperations)
        } else if self.max_uses != 2 {
            Err(MaintenanceStepStateError::UnexpectedUseLimit)
        } else if step_expectation(self.step_ordinal) is None {
            Err(MaintenanceStepStateError::InvalidStep)
        } else if self.observed_rotations != step_expectation(self.step_ordinal)->Some_0.0 {
            Err(MaintenanceStepStateError::ObservationMismatch)
        } else if self.flags != step_expectation(self.step_ordinal)->Some_0.1 {
            Err(MaintenanceStepStateError::InvalidFlags)
        } else if all_zero(self.authorization_sha256@) {
            Err(MaintenanceStepStateError::ZeroAuthorizationDigest)
        } else if all_zero(self.authorization_id@) {
            Err(MaintenanceStepStateError::ZeroAuthorizationId)
        } else if all_zero(self.manifest_sha256@) {
            Err(MaintenanceStepStateError::ZeroManifestDigest)
        } else if all_zero(self.policy_sha256@) {
            Err(MaintenanceStepStateError::ZeroPolicyDigest)
        } else if all_zero(self.root_sha256@) {
            Err(MaintenanceStepStateError::ZeroRootDigest)
        } else if all_zero(self.device_binding_sha256@) {
            Err(MaintenanceStepStateError::ZeroDeviceBinding)
        } else if all_zero(self.effect_sha256@) {
            Err(MaintenanceStepStateError::ZeroEffectDigest)
        } else if self.effect_sha256@ != sha256_digest(step_effect_material(self)) {
            Err(MaintenanceStepStateError::EffectMismatch)
        } else {
            Ok(())
        }
    }

    pub fn validate(self) -> (result: Result<(), MaintenanceStepStateError>)
        ensures
            result == self.spec_validate(),
    {
        if self.sequence == 0 {
            return Err(MaintenanceStepStateError::ZeroSequence);
        }
        if self.operations != MAINTENANCE_STEP_OPERATION_STORAGE_ROTATION {
            return Err(MaintenanceStepStateError::UnsupportedOperations);
        }
        if self.max_uses != 2 {
            return Err(MaintenanceStepStateError::UnexpectedUseLimit);
        }
        let (rotations, flags) = if self.step_ordinal == MAINTENANCE_STEP_ROTATION_ONE {
            (1u32, MAINTENANCE_STEP_REPLAY_SAFE_FROM_BOOT_START)
        } else if self.step_ordinal == MAINTENANCE_STEP_ROTATION_TWO {
            (2u32, MAINTENANCE_STEP_REPLAY_SAFE_FROM_BOOT_START)
        } else if self.step_ordinal == MAINTENANCE_STEP_DRAIN {
            (2u32, MAINTENANCE_STEP_REPLAY_SAFE_FROM_BOOT_START | MAINTENANCE_STEP_DRAIN_VALIDATED)
        } else {
            return Err(MaintenanceStepStateError::InvalidStep);
        };
        if self.observed_rotations != rotations {
            return Err(MaintenanceStepStateError::ObservationMismatch);
        }
        if self.flags != flags {
            return Err(MaintenanceStepStateError::InvalidFlags);
        }
        if is_zero(&self.authorization_sha256) {
            return Err(MaintenanceStepStateError::ZeroAuthorizationDigest);
        }
        if is_zero(&self.authorization_id) {
            return Err(MaintenanceStepStateError::ZeroAuthorizationId);
        }
        if is_zero(&self.manifest_sha256) {
            return Err(MaintenanceStepStateError::ZeroManifestDigest);
        }
        if is_zero(&self.policy_sha256) {
            return Err(MaintenanceStepStateError::ZeroPolicyDigest);
        }
        if is_zero(&self.root_sha256) {
            return Err(MaintenanceStepStateError::ZeroRootDigest);
        }
        if is_zero(&self.device_binding_sha256) {
            return Err(MaintenanceStepStateError::ZeroDeviceBinding);
        }
        if is_zero(&self.effect_sha256) {
            return Err(MaintenanceStepStateError::ZeroEffectDigest);
        }
        let effect = maintenance_step_effect_sha256(self);
        if !digest_eq(&self.effect_sha256, &effect) {
            return Err(MaintenanceStepStateError::EffectMismatch);
        }
        Ok(())
    }

    /// The authorization this step belongs to.
    pub open spec fn spec_authorization_binding(self) -> MaintenanceAuthorizationAuditBinding {
        MaintenanceAuthorizationAuditBinding {
            sequence: self.sequence,
            operations: self.operations,
            max_uses: self.max_uses,
            authorization_sha256: self.authorization_sha256,
            authorization_id: self.authorization_id,
            manifest_sha256: self.manifest_sha256,
            policy_sha256: self.policy_sha256,
            root_sha256: self.root_sha256,
            device_binding_sha256: self.device_binding_sha256,
        }
    }

    pub fn authorization_binding(self) -> (binding: MaintenanceAuthorizationAuditBinding)
        ensures
            binding == self.spec_authorization_binding(),
    {
        MaintenanceAuthorizationAuditBinding {
            sequence: self.sequence,
            operations: self.operations,
            max_uses: self.max_uses,
            authorization_sha256: self.authorization_sha256,
            authorization_id: self.authorization_id,
            manifest_sha256: self.manifest_sha256,
            policy_sha256: self.policy_sha256,
            root_sha256: self.root_sha256,
            device_binding_sha256: self.device_binding_sha256,
        }
    }

    /// Field-by-field equality.
    pub fn same_as(&self, other: &Self) -> (equal: bool)
        ensures
            equal == (*self == *other),
    {
        self.sequence == other.sequence
            && self.operations == other.operations
            && self.max_uses == other.max_uses
            && self.step_ordinal == other.step_ordinal
            && self.observed_rotations == other.observed_rotations
            && self.flags == other.flags
            && digest_eq(&self.authorization_sha256, &other.authorization_sha256)
            && digest_eq(&self.authorization_id, &other.authorization_id)
            && digest_eq(&self.manifest_sha256, &other.manifest_sha256)
            && digest_eq(&self.policy_sha256, &other.policy_sha256)
            && digest_eq(&self.root_sha256, &other.root_sha256)
            && digest_eq(&self.device_binding_sha256, &other.device_binding_sha256)
            && digest_eq(&self.effect_sha256, &other.effect_sha256)
    }
}

/// The bytes hashed to extend the step chain by one step.
pub open spec fn step_chain_material(
    previous_chain: Seq<u8>,
    base_sequence: u64,
    entry_count: u64,
    binding: MaintenanceStepCommitBinding,
) -> Seq<u8> {
    seq![0x42u8, 0x4e, 0x44, 0x52, 0x4d, 0x53, 0x54, 0x31] + previous_chain + binding.effect_sha256@
        + binding.authorization_sha256@ + binding.authorization_id@ + u64_bytes(binding.sequence)
        + u64_bytes(base_sequence) + u64_bytes(entry_count) + u64_bytes(binding.operations)
        + u32_bytes(binding.max_uses) + u32_bytes(binding.step_ordinal)
        + u32_bytes(binding.observed_rotations) + u32_bytes(binding.flags)
        + binding.manifest_sha256@ + binding.policy_sha256@ + binding.root_sha256@
        + binding.device_binding_sha256@
}

/// The step-chain digest after appending `binding` as entry `entry_count` of a
/// journal that starts at `base_sequence`.
pub fn maintenance_step_chain_sha256(
    previous_chain_sha256: [u8; 32],
    base_sequence: u64,
    entry_count: u64,
    binding: MaintenanceStepCommitBinding,
) -> (digest: [u8; 32])
    ensures
        digest@ == sha256_digest(step_chain_material(previous_chain_sha256@, base_sequence, entry_count, binding)),
{
    let mut material: Vec<u8> = Vec::new();
    push_bytes(&mut material, &[0x42u8, 0x4e, 0x44, 0x52, 0x4d, 0x53, 0x54, 0x31]);
    push_bytes(&mut material, &previous_chain_sha256);
    push_bytes(&mut material, &binding.effect_sha256);
    push_bytes(&mut material, &binding.authorization_sha256);
    push_bytes(&mut material, &binding.authorization_id);
    push_u64(&mut material, binding.sequence);
    push_u64(&mut material, base_sequence);
    push_u64(&mut material, entry_count);
    push_u64(&mut material, binding.operations);
    push_u32(&mut material, binding.max_uses);
    push_u32(&mut material, binding.step_ordinal);
    push_u32(&mut material, binding.observed_rotations);
    push_u32(&mut material, binding.flags);
    push_bytes(&mut material, &binding.manifest_sha256);
    push_bytes(&mut material, &binding.policy_sha256);
    push_bytes(&mut material, &binding.root_sha256);
    push_bytes(&mut material, &binding.device_binding_sha256);
    assert(material@ =~= step_chain_material(previous_chain_sha256@, base_sequence, entry_count, binding));
    sha256(material.as_slice())
}

#[derive(Clone, Copy, Debug, PartialEq, Eq)]
pub struct MaintenanceStepState {
    pub sequence: u64,
    pub base_sequence: u64,
    pub entry_count: u64,
    pub operations: u64,
    pub max_uses: u32,
    pub step_ordinal: u32,
    pub observed_rotations: u32,
    pub flags: u32,
    pub authorization_sha256: [u8; 32],
    pub authorization_id: [u8; 32],
    pub manifest_sha256: [u8; 32],
    pub policy_sha256: [u8; 32],
    pub root_sha256: [u8; 32],
    pub device_binding_sha256: [u8; 32],
    pub effect_sha256: [u8; 32],
    pub previous_chain_sha256: [u8; 32],
    pub chain_sha256: [u8; 32],
}

impl MaintenanceStepState {
    /// The step this head records.
    pub open spec fn spec_binding(self) -> MaintenanceStepCommitBinding {
        MaintenanceStepCommitBinding {
            sequence: self.sequence,
            operations: self.operations,
            max_uses: self.max_uses,
            step_ordinal: self.step_ordinal,
            observed_rotations: self.observed_rotations,
            flags: self.flags,
            authorization_sha256: self.authorization_sha256,
            authorization_id: self.authorization_id,
            manifest_sha256: self.manifest_sha256,
            policy_sha256: self.policy_sha256,
            root_sha256: self.root_sha256,
            device_binding_sha256: self.device_binding_sha256,
            effect_sha256: self.effect_sha256,
        }
    }

    pub fn binding(self) -> (binding: MaintenanceStepCommitBinding)
        ensures
            binding == self.spec_binding(),
    {
        MaintenanceStepCommitBinding {
            sequence: self.sequence,
            operations: self.operations,
            max_uses: self.max_uses,
            step_ordinal: self.step_ordinal,
            observed_rotations: self.observed_rotations,
            flags: self.flags,
            authorization_sha256: self.authorization_sha256,
            authorization_id: self.authorization_id,
            manifest_sha256: self.manifest_sha256,
            policy_sha256: self.policy_sha256,
            root_sha256: self.root_sha256,
            device_binding_sha256: self.device_binding_sha256,
            effect_sha256: self.effect_sha256,
        }
    }

    /// The first rule the head breaks: a valid step, a base sequence in
    /// `1..=sequence`, a nonzero entry count equal to three entries per
    /// earlier sequence plus the ordinal, and a nonzero chain digest that
    /// extends the previous one by this step.
    pub open spec fn spec_validate(self) -> Result<(), MaintenanceStepStateError> {
        if self.spec_binding().spec_validate() is Err {
            self.spec_binding().spec_validate()
        } else if self.base_sequence == 0 || self.base_sequence > self.sequence {
            Err(MaintenanceStepStateError::InvalidBaseSequence)
        } else if self.entry_count == 0 {
            Err(MaintenanceStepStateError::ZeroEntryCount)
        } else if self.entry_count != (self.sequence - self.base_sequence) * (MAINTENANCE_STEP_COUNT as int)
            + self.step_ordinal {
            Err(MaintenanceStepStateError::EntryCountMismatch)
        } else if all_zero(self.chain_sha256@) {
            Err(MaintenanceStepStateError::ZeroChainDigest)
        } else if self.chain_sha256@ != sha256_digest(
            step_chain_material(self.previous_chain_sha256@, self.base_sequence, self.entry_count, self.spec_binding()),
        ) {
            Err(MaintenanceStepStateError::ChainMismatch)
        } else {
            Ok(())
        }
    }

    pub fn validate(self) -> (result: Result<(), MaintenanceStepStateError>)
        ensures
            result == self.spec_validate(),
    {
        let binding = self.binding();
        binding.validate()?;
        if self.base_sequence == 0 || self.base_sequence > self.sequence {
            return Err(MaintenanceStepStateError::InvalidBaseSequence);
        }
        if self.entry_count == 0 {
            return Err(MaintenanceStepStateError::ZeroEntryCount);
        }
        let delta = self.sequence - self.base_sequence;
        let expected = match delta.checked_mul(MAINTENANCE_STEP_COUNT as u64) {
            Some(scaled) => scaled.checked_add(self.step_ordinal as u64),
            None => None,
        };
        match expected {
            Some(count) => {
                if self.entry_count != count {
                    return Err(MaintenanceStepStateError::EntryCountMismatch);
                }
            },
            None => return Err(MaintenanceStepStateError::EntryCountMismatch),
        }
        if is_zero(&self.chain_sha256) {
            return Err(MaintenanceStepStateError::ZeroChainDigest);
        }
        let chain = maintenance_step_chain_sha256(
            self.previous_chain_sha256,
            self.base_sequence,
            self.entry_count,
            binding,
        );
        if !digest_eq(&self.chain_sha256, &chain) {
            return Err(MaintenanceStepStateError::ChainMismatch);
        }
        Ok(())
    }

    /// Field-by-field equality.
    pub fn same_as(&self, other: &Self) -> (equal: bool)
        ensures
            equal == (*self == *other),
    {
        self.sequence == other.sequence
            && self.base_sequence == other.base_sequence
            && self.entry_count == other.entry_count
            && self.operations == other.operations
            && self.max_uses == other.max_uses
            && self.step_ordinal == other.step_ordinal
            && self.observed_rotations == other.observed_rotations
            && self.flags == other.flags
            && digest_eq(&self.authorization_sha256, &other.authorization_sha256)
            && digest_eq(&self.authorization_id, &other.authorization_id)
            && digest_eq(&self.manifest_sha256, &other.manifest_sha256)
            && digest_eq(&self.policy_sha256, &other.policy_sha256)
            && digest_eq(&self.root_sha256, &other.root_sha256)
            && digest_eq(&self.device_binding_sha256, &other.device_binding_sha256)
            && digest_eq(&self.effect_sha256, &other.effect_sha256)
            && digest_eq(&self.previous_chain_sha256, &other.previous_chain_sha256)
            && digest_eq(&self.chain_sha256, &other.chain_sha256)
    }
}

/// Bytes 16..352 of an encoded MaintenanceStepState: the fields its witness covers.
pub open spec fn step_body(state: MaintenanceStepState) -> Seq<u8> {
    u64_bytes(state.sequence)
        + u64_bytes(state.base_sequence)
        + u64_bytes(state.entry_count)
        + u64_bytes(state.operations)
        + u32_bytes(state.max_uses)
        + u32_bytes(state.step_ordinal)
        + u32_bytes(state.observed_rotations)
        + u32_bytes(state.flags)
        + state.authorization_sha256@
        + state.authorization_id@
        + state.manifest_sha256@
        + state.policy_sha256@
        + state.root_sha256@
        + state.device_binding_sha256@
        + state.effect_sha256@
        + state.previous_chain_sha256@
        + state.chain_sha256@
}

pub open spec fn step_bytes(state: MaintenanceStepState) -> Seq<u8> {
    MAINTENANCE_STEP_STATE_MAGIC@ + u32_bytes(MAINTENANCE_STEP_STATE_VERSION) + zeros(4) + step_body(state) + u64_bytes(
        spec_fnv1a64(step_body(state)) ^ MAINTENANCE_STEP_WITNESS,
    ) + zeros(16)
}

pub open spec fn spec_encode_step(state: MaintenanceStepState) -> Result<Seq<u8>, MaintenanceStepStateError> {
    if state.spec_validate() is Err {
        Err(state.spec_validate()->Err_0)
    } else {
        Ok(step_bytes(state))
    }
}

#[verifier::opaque]
pub open spec fn spec_decode_step(bytes: Seq<u8>) -> Result<MaintenanceStepState, MaintenanceStepStateError> {
    let state = MaintenanceStepState { sequence: spec_le_u64(bytes, 16), base_sequence: spec_le_u64(bytes, 24), entry_count: spec_le_u64(bytes, 32), operations: spec_le_u64(bytes, 40), max_uses: spec_le_u32(bytes, 48), step_ordinal: spec_le_u32(bytes, 52), observed_rotations: spec_le_u32(bytes, 56), flags: spec_le_u32(bytes, 60), authorization_sha256: digest_at(bytes, 64), authorization_id: digest_at(bytes, 96), manifest_sha256: digest_at(bytes, 128), policy_sha256: digest_at(bytes, 160), root_sha256: digest_at(bytes, 192), device_binding_sha256: digest_at(bytes, 224), effect_sha256: digest_at(bytes, 256), previous_chain_sha256: digest_at(bytes, 288), chain_sha256: digest_at(bytes, 320) };
    if bytes.len() != 376 {
        Err(MaintenanceStepStateError::WrongSize)
    } else if bytes.subrange(0, 8) != MAINTENANCE_STEP_STATE_MAGIC@ {
        Err(MaintenanceStepStateError::BadMagic)
    } else if spec_le_u32(bytes, 8) != MAINTENANCE_STEP_STATE_VERSION {
        Err(MaintenanceStepStateError::UnsupportedVersion)
    } else if !all_zero(bytes.subrange(12, 16)) || !all_zero(bytes.subrange(360, 376)) {
        Err(MaintenanceStepStateError::NonZeroReserved)
    } else if state.spec_validate() is Err {
        Err(state.spec_validate()->Err_0)
    } else if spec_le_u64(bytes, 352) != spec_fnv1a64(bytes.subrange(16, 352)) ^ MAINTENANCE_STEP_WITNESS {
        Err(MaintenanceStepStateError::WitnessMismatch)
    } else {
        Ok(state)
    }
}

impl MaintenanceStepState {
    pub fn encode(self) -> (result: Result<[u8; 376], MaintenanceStepStateError>)
        ensures
            match result {
                Ok(bytes) => spec_encode_step(self) == Ok::<Seq<u8>, MaintenanceStepStateError>(bytes@),
                Err(error) => spec_encode_step(self) == Err::<Seq<u8>, MaintenanceStepStateError>(error),
            },
    {
        self.validate()?;
        let mut body: Vec<u8> = Vec::new();
        push_u64(&mut body, self.sequence);
        push_u64(&mut body, self.base_sequence);
        push_u64(&mut body, self.entry_count);
        push_u64(&mut body, self.operations);
        push_u32(&mut body, self.max_uses);
        push_u32(&mut body, self.step_ordinal);
        push_u32(&mut body, self.observed_rotations);
        push_u32(&mut body, self.flags);
        push_bytes(&mut body, &self.authorization_sha256);
        push_bytes(&mut body, &self.authorization_id);
        push_bytes(&mut body, &self.manifest_sha256);
        push_bytes(&mut body, &self.policy_sha256);
        push_bytes(&mut body, &self.root_sha256);
        push_bytes(&mut body, &self.device_binding_sha256);
        push_bytes(&mut body, &self.effect_sha256);
        push_bytes(&mut body, &self.previous_chain_sha256);
        push_bytes(&mut body, &self.chain_sha256);
        assert(body@ =~= step_body(self));
        let witness = fnv1a64(body.as_slice()) ^ MAINTENANCE_STEP_WITNESS;
        let mut out: Vec<u8> = Vec::new();
        push_bytes(&mut out, &MAINTENANCE_STEP_STATE_MAGIC);
        push_u32(&mut out, MAINTENANCE_STEP_STATE_VERSION);
        push_zeros(&mut out, 4);
        push_bytes(&mut out, body.as_slice());
        push_u64(&mut out, witness);
        push_zeros(&mut out, 16);
        assert(out@ =~= step_bytes(self));
        Ok(into_array(&out))
    }

    pub fn decode(bytes: &[u8]) -> (result: Result<Self, MaintenanceStepStateError>)
        ensures
            result == spec_decode_step(bytes@),
    {
        reveal(spec_decode_step);
        if bytes.len() != 376 {
            return Err(MaintenanceStepStateError::WrongSize);
        }
        if !bytes_eq(&bytes[0..8], &MAINTENANCE_STEP_STATE_MAGIC) {
            return Err(MaintenanceStepStateError::BadMagic);
        }
        if le_u32(bytes, 8) != MAINTENANCE_STEP_STATE_VERSION {
            return Err(MaintenanceStepStateError::UnsupportedVersion);
        }
        if !is_zero_range(bytes, 12, 16) || !is_zero_range(bytes, 360, 376) {
            return Err(MaintenanceStepStateError::NonZeroReserved);
        }
        let state = MaintenanceStepState { sequence: le_u64(bytes, 16), base_sequence: le_u64(bytes, 24), entry_count: le_u64(bytes, 32), operations: le_u64(bytes, 40), max_uses: le_u32(bytes, 48), step_ordinal: le_u32(bytes, 52), observed_rotations: le_u32(bytes, 56), flags: le_u32(bytes, 60), authorization_sha256: read_digest(bytes, 64), authorization_id: read_digest(bytes, 96), manifest_sha256: read_digest(bytes, 128), policy_sha256: read_digest(bytes, 160), root_sha256: read_digest(bytes, 192), device_binding_sha256: read_digest(bytes, 224), effect_sha256: read_digest(bytes, 256), previous_chain_sha256: read_digest(bytes, 288), chain_sha256: read_digest(bytes, 320) };
        state.validate()?;
        if le_u64(bytes, 352) != fnv1a64(&bytes[16..352]) ^ MAINTENANCE_STEP_WITNESS {
            return Err(MaintenanceStepStateError::WitnessMismatch);
        }
        Ok(state)
    }
}

#[verifier::spinoff_prover]
#[verifier::rlimit(60)]
proof fn lemma_step_fields(state: MaintenanceStepState)
    ensures
        ({
            let s = step_bytes(state);
            &&& s.len() == 376
            &&& s.subrange(0, 8) == MAINTENANCE_STEP_STATE_MAGIC@
            &&& spec_le_u32(s, 8) == MAINTENANCE_STEP_STATE_VERSION
            &&& all_zero(s.subrange(12, 16))
            &&& all_zero(s.subrange(360, 376))
            &&& spec_le_u64(s, 16) == state.sequence
            &&& spec_le_u64(s, 24) == state.base_sequence
            &&& spec_le_u64(s, 32) == state.entry_count
            &&& spec_le_u64(s, 40) == state.operations
            &&& spec_le_u32(s, 48) == state.max_uses
            &&& spec_le_u32(s, 52) == state.step_ordinal
            &&& spec_le_u32(s, 56) == state.observed_rotations
            &&& spec_le_u32(s, 60) == state.flags
            &&& digest_at(s, 64) == state.authorization_sha256
            &&& digest_at(s, 96) == state.authorization_id
            &&& digest_at(s, 128) == state.manifest_sha256
            &&& digest_at(s, 160) == state.policy_sha256
            &&& digest_at(s, 192) == state.root_sha256
            &&& digest_at(s, 224) == state.device_binding_sha256
            &&& digest_at(s, 256) == state.effect_sha256
            &&& digest_at(s, 288) == state.previous_chain_sha256
            &&& digest_at(s, 320) == state.chain_sha256
            &&& s.subrange(16, 352) == step_body(state)
            &&& spec_le_u64(s, 352) == spec_fnv1a64(step_body(state)) ^ MAINTENANCE_STEP_WITNESS
        }),
{
    let s = step_bytes(state);
    let b = step_body(state);
    lemma_u32_bytes_zero();
    assert(s.subrange(0, 8) =~= MAINTENANCE_STEP_STATE_MAGIC@);
    assert(s.subrange(8, 12) =~= u32_bytes(MAINTENANCE_STEP_STATE_VERSION));
    assert(s.subrange(12, 16) =~= zeros(4));
    assert(s.subrange(16, 352) =~= b);
    assert(s.subrange(352, 360) =~= u64_bytes(spec_fnv1a64(b) ^ MAINTENANCE_STEP_WITNESS));
    assert(s.subrange(360, 376) =~= zeros(16));
    assert forall|i: int| 16 <= i < 352 implies s[i] == b[i - 16] by {
        assert(s.subrange(16, 352)[i - 16] == s[i]);
    }
    lemma_le_u32_at(s, 8, MAINTENANCE_STEP_STATE_VERSION);
    lemma_le_u64_at(s, 352, spec_fnv1a64(b) ^ MAINTENANCE_STEP_WITNESS);
    lemma_step_body_fields(state, s);
}

#[verifier::spinoff_prover]
#[verifier::rlimit(60)]
proof fn lemma_step_body_fields(state: MaintenanceStepState, s: Seq<u8>)
    requires
        s.len() == 376,
        forall|i: int| 16 <= i < 352 ==> s[i] == step_body(state)[i - 16],
    ensures
        spec_le_u64(s, 16) == state.sequence,
        spec_le_u64(s, 24) == state.base_sequence,
        spec_le_u64(s, 32) == state.entry_count,
        spec_le_u64(s, 40) == state.operations,
        spec_le_u32(s, 48) == state.max_uses,
        spec_le_u32(s, 52) == state.step_ordinal,
        spec_le_u32(s, 56) == state.observed_rotations,
        spec_le_u32(s, 60) == state.flags,
        digest_at(s, 64) == state.authorization_sha256,
        digest_at(s, 96) == state.authorization_id,
        digest_at(s, 128) == state.manifest_sha256,
        digest_at(s, 160) == state.policy_sha256,
        digest_at(s, 192) == state.root_sha256,
        digest_at(s, 224) == state.device_binding_sha256,
        digest_at(s, 256) == state.effect_sha256,
        digest_at(s, 288) == state.previous_chain_sha256,
        digest_at(s, 320) == state.chain_sha256,
{
    let b = step_body(state);
    assert(b.subrange(0, 8) =~= u64_bytes(state.sequence));
    assert(s.subrange(16, 24) =~= b.subrange(0, 8));
    lemma_le_u64_at(s, 16, state.sequence);
    assert(b.subrange(8, 16) =~= u64_bytes(state.base_sequence));
    assert(s.subrange(24, 32) =~= b.subrange(8, 16));
    lemma_le_u64_at(s, 24, state.base_sequence);
    assert(b.subrange(16, 24) =~= u64_bytes(state.entry_count));
    assert(s.subrange(32, 40) =~= b.subrange(16, 24));
    lemma_le_u64_at(s, 32, state.entry_count);
    assert(b.subrange(24, 32) =~= u64_bytes(state.operations));
    assert(s.subrange(40, 48) =~= b.subrange(24, 32));
    lemma_le_u64_at(s, 40, state.operations);
    assert(b.subrange(32, 36) =~= u32_bytes(state.max_uses));
    assert(s.subrange(48, 52) =~= b.subrange(32, 36));
    lemma_le_u32_at(s, 48, state.max_uses);
    assert(b.subrange(36, 40) =~= u32_bytes(state.step_ordinal));
    assert(s.subrange(52, 56) =~= b.subrange(36, 40));
    lemma_le_u32_at(s, 52, state.step_ordinal);
    assert(b.subrange(40, 44) =~= u32_bytes(state.observed_rotations));
    assert(s.subrange(56, 60) =~= b.subrange(40, 44));
    lemma_le_u32_at(s, 56, state.observed_rotations);
    assert(b.subrange(44, 48) =~= u32_bytes(state.flags));
    assert(s.subrange(60, 64) =~= b.subrange(44, 48));
    lemma_le_u32_at(s, 60, state.flags);
    assert(b.subrange(48, 80) =~= state.authorization_sha256@);
    assert(s.subrange(64, 96) =~= b.subrange(48, 80));
    lemma_digest_at_view(s, 64, state.authorization_sha256);
    assert(b.subrange(80, 112) =~= state.authorization_id@);
    assert(s.subrange(96, 128) =~= b.subrange(80, 112));
    lemma_digest_at_view(s, 96, state.authorization_id);
    assert(b.subrange(112, 144) =~= state.manifest_sha256@);
    assert(s.subrange(128, 160) =~= b.subrange(112, 144));
    lemma_digest_at_view(s, 128, state.manifest_sha256);
    assert(b.subrange(144, 176) =~= state.policy_sha256@);
    assert(s.subrange(160, 192) =~= b.subrange(144, 176));
    lemma_digest_at_view(s, 160, state.policy_sha256);
    assert(b.subrange(176, 208) =~= state.root_sha256@);
    assert(s.subrange(192, 224) =~= b.subrange(176, 208));
    lemma_digest_at_view(s, 192, state.root_sha256);
    assert(b.subrange(208, 240) =~= state.device_binding_sha256@);
    assert(s.subrange(224, 256) =~= b.subrange(208, 240));
    lemma_digest_at_view(s, 224, state.device_binding_sha256);
    assert(b.subrange(240, 272) =~= state.effect_sha256@);
    assert(s.subrange(256, 288) =~= b.subrange(240, 272));
    lemma_digest_at_view(s, 256, state.effect_sha256);
    assert(b.subrange(272, 304) =~= state.previous_chain_sha256@);
    assert(s.subrange(288, 320) =~= b.subrange(272, 304));
    lemma_digest_at_view(s, 288, state.previous_chain_sha256);
    assert(b.subrange(304, 336) =~= state.chain_sha256@);
    assert(s.subrange(320, 352) =~= b.subrange(304, 336));
    lemma_digest_at_view(s, 320, state.chain_sha256);
}

/// A step head that validates decodes from its encoding to itself.
pub proof fn lemma_step_round_trip(state: MaintenanceStepState)
    requires
        state.spec_validate() is Ok,
    ensures
        spec_decode_step(step_bytes(state)) == Ok::<MaintenanceStepState, MaintenanceStepStateError>(state),
{
    reveal(spec_decode_step);
    lemma_step_fields(state);
    let s = step_bytes(state);
    assert(MaintenanceStepState { sequence: spec_le_u64(s, 16), base_sequence: spec_le_u64(s, 24), entry_count: spec_le_u64(s, 32), operations: spec_le_u64(s, 40), max_uses: spec_le_u32(s, 48), step_ordinal: spec_le_u32(s, 52), observed_rotations: spec_le_u32(s, 56), flags: spec_le_u32(s, 60), authorization_sha256: digest_at(s, 64), authorization_id: digest_at(s, 96), manifest_sha256: digest_at(s, 128), policy_sha256: digest_at(s, 160), root_sha256: digest_at(s, 192), device_binding_sha256: digest_at(s, 224), effect_sha256: digest_at(s, 256), previous_chain_sha256: digest_at(s, 288), chain_sha256: digest_at(s, 320) } == state);
    
}


/// A head that decodes is valid.
pub proof fn lemma_decoded_step_is_valid(bytes: Seq<u8>)
    ensures
        spec_decode_step(bytes) is Ok ==> spec_decode_step(bytes)->Ok_0.spec_validate() is Ok,
{
    reveal(spec_decode_step);
}

} // verus!

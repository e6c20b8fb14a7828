//! The maintenance-plan journal head: the phase each operation of the fixed
//! maintenance program has reached, with its derived identities, and the hash
//! chain over every phase transition.
use vstd::prelude::*;
use crate::checksum::{fnv1a64, spec_fnv1a64};
use crate::codec::{
    all_zero, bytes_eq, digest_at, digest_eq, into_array, is_zero, is_zero_range, le_u32, le_u64,
    lemma_digest_at_view, lemma_le_u32_at, lemma_le_u64_at, lemma_u32_bytes_zero, push_bytes,
    push_u32, push_u64, push_zeros, read_digest, spec_le_u32, spec_le_u64, u32_bytes, u64_bytes,
    zeros,
};
use crate::digest::{sha256, sha256_digest};
use crate::layout::{
    MAINTENANCE_PLAN_COMPENSATED_WITHOUT_EFFECT, MAINTENANCE_PLAN_EFFECT_CONFIRMED,
    MAINTENANCE_PLAN_IDEMPOTENCY_TAG, MAINTENANCE_PLAN_IDEMPOTENT_EFFECT,
    MAINTENANCE_PLAN_OPERATION_INSTANCE_TAG, MAINTENANCE_PLAN_PHASE_APPLYING,
    MAINTENANCE_PLAN_PHASE_COMPENSATED, MAINTENANCE_PLAN_PHASE_CONFIRMED,
    MAINTENANCE_PLAN_PHASE_PREPARED, MAINTENANCE_PLAN_RESULT_MAY_BE_UNKNOWN,
    MAINTENANCE_PLAN_STATE_BYTES, MAINTENANCE_PLAN_STATE_MAGIC, MAINTENANCE_PLAN_STATE_VERSION,
    MAINTENANCE_PLAN_TRANSITIONS_PER_SEQUENCE, MAINTENANCE_PLAN_WITNESS, MAINTENANCE_STEP_DRAIN,
    MAINTENANCE_STEP_OPERATION_STORAGE_ROTATION, MAINTENANCE_STEP_ROTATION_ONE,
    MAINTENANCE_STEP_ROTATION_TWO,
};
use crate::maintenance_audit::{MaintenanceAuditStateError, MaintenanceAuthorizationAuditBinding};
use crate::maintenance_step::{
    observed_step, MaintenanceStepCommitBinding, MaintenanceStepStateError,
};

verus! {

broadcast use vstd::array::group_array_axioms;

/// One durable phase transition in the bounded maintenance plan.
///
/// The operation instance and idempotency key are derived from the exact
/// signed authorization and the step's effect descriptor. `APPLYING` is an
/// intent record: after a restart the resident effect may be absent or
/// already durable in the step journal, so the caller must reconcile that
/// ledger before confirming.
#[derive(Clone, Copy, Debug, PartialEq, Eq)]
pub struct MaintenancePlanTransitionBinding {
    pub sequence: u64,
    pub operations: u64,
    pub max_uses: u32,
    pub operation_ordinal: u32,
    pub phase: u32,
    pub flags: u32,
    pub authorization_sha256: [u8; 32],
    pub authorization_id: [u8; 32],
    pub manifest_sha256: [u8; 32],
    pub policy_sha256: [u8; 32],
    pub root_sha256: [u8; 32],
    pub device_binding_sha256: [u8; 32],
    pub effect_sha256: [u8; 32],
    pub operation_instance_id: [u8; 32],
    pub idempotency_key: [u8; 32],
}

#[derive(Clone, Copy, Debug, PartialEq, Eq, Structural)]
pub enum MaintenancePlanStateError {
    WrongSize,
    BadMagic,
    UnsupportedVersion,
    InvalidBaseSequence,
    ZeroTransitionCount,
    TransitionCountMismatch,
    UnsupportedOperations,
    UnexpectedUseLimit,
    InvalidOperation,
    InvalidPhase,
    InvalidFlags,
    ZeroEffectDigest,
    ZeroOperationInstance,
    ZeroIdempotencyKey,
    EffectMismatch,
    OperationInstanceMismatch,
    IdempotencyKeyMismatch,
    ZeroChainDigest,
    NonZeroReserved,
    ChainMismatch,
    WitnessMismatch,
    Authorization(MaintenanceAuditStateError),
    Step(MaintenanceStepStateError),
}

impl MaintenancePlanStateError {
    /// The fixed text that describes this error.
    pub open spec fn message(self) -> Seq<char> {
        match self {
            Self::WrongSize => "maintenance plan state has the wrong size"@,
            Self::BadMagic => "maintenance plan state magic is invalid"@,
            Self::UnsupportedVersion => "maintenance plan state version is unsupported"@,
            Self::InvalidBaseSequence => "maintenance plan base sequence is invalid"@,
            Self::ZeroTransitionCount => "maintenance plan transition count is zero"@,
            Self::TransitionCountMismatch => {
                "maintenance plan transition count does not match its sequence, operation, and phase"@
            }
            Self::UnsupportedOperations => {
                "maintenance plan is not the fixed storage-rotation operation"@
            }
            Self::UnexpectedUseLimit => "maintenance plan requires exactly two uses"@,
            Self::InvalidOperation => "maintenance plan operation is outside the fixed program"@,
            Self::InvalidPhase => "maintenance plan phase is invalid"@,
            Self::InvalidFlags => "maintenance plan flags do not match its phase"@,
            Self::ZeroEffectDigest => "maintenance plan effect digest is zero"@,
            Self::ZeroOperationInstance => "maintenance plan operation instance id is zero"@,
            Self::ZeroIdempotencyKey => "maintenance plan idempotency key is zero"@,
            Self::EffectMismatch => "maintenance plan effect digest is invalid"@,
            Self::OperationInstanceMismatch => "maintenance plan operation instance id is invalid"@,
            Self::IdempotencyKeyMismatch => "maintenance plan idempotency key is invalid"@,
            Self::ZeroChainDigest => "maintenance plan chain digest is zero"@,
            Self::NonZeroReserved => "maintenance plan reserved bytes are nonzero"@,
            Self::ChainMismatch => "maintenance plan chain digest is invalid"@,
            Self::WitnessMismatch => "maintenance plan witness is invalid"@,
            Self::Authorization(error) => error.message(),
            Self::Step(error) => error.message(),
        }
    }

    pub fn as_str(self) -> (text: &'static str)
        ensures
            text@ == self.message(),
    {
        match self {
            Self::WrongSize => "maintenance plan state has the wrong size",
            Self::BadMagic => "maintenance plan state magic is invalid",
            Self::UnsupportedVersion => "maintenance plan state version is unsupported",
            Self::InvalidBaseSequence => "maintenance plan base sequence is invalid",
            Self::ZeroTransitionCount => "maintenance plan transition count is zero",
            Self::TransitionCountMismatch => {
                "maintenance plan transition count does not match its sequence, operation, and phase"
            }
            Self::UnsupportedOperations => {
                "maintenance plan is not the fixed storage-rotation operation"
            }
            Self::UnexpectedUseLimit => "maintenance plan requires exactly two uses",
            Self::InvalidOperation => "maintenance plan operation is outside the fixed program",
            Self::InvalidPhase => "maintenance plan phase is invalid",
            Self::InvalidFlags => "maintenance plan flags do not match its phase",
            Self::ZeroEffectDigest => "maintenance plan effect digest is zero",
            Self::ZeroOperationInstance => "maintenance plan operation instance id is zero",
            Self::ZeroIdempotencyKey => "maintenance plan idempotency key is zero",
            Self::EffectMismatch => "maintenance plan effect digest is invalid",
            Self::OperationInstanceMismatch => "maintenance plan operation instance id is invalid",
            Self::IdempotencyKeyMismatch => "maintenance plan idempotency key is invalid",
            Self::ZeroChainDigest => "maintenance plan chain digest is zero",
            Self::NonZeroReserved => "maintenance plan reserved bytes are nonzero",
            Self::ChainMismatch => "maintenance plan chain digest is invalid",
            Self::WitnessMismatch => "maintenance plan witness is invalid",
            Self::Authorization(error) => error.as_str(),
            Self::Step(error) => error.as_str(),
        }
    }
}

/// The flags a plan transition carries in each phase; `None` for an unknown phase.
pub open spec fn spec_phase_flags(phase: u32) -> Option<u32> {
    if phase == MAINTENANCE_PLAN_PHASE_PREPARED {
        Some(MAINTENANCE_PLAN_IDEMPOTENT_EFFECT)
    } else if phase == MAINTENANCE_PLAN_PHASE_APPLYING {
        Some(MAINTENANCE_PLAN_IDEMPOTENT_EFFECT | MAINTENANCE_PLAN_RESULT_MAY_BE_UNKNOWN)
    } else if phase == MAINTENANCE_PLAN_PHASE_CONFIRMED {
        Some(MAINTENANCE_PLAN_IDEMPOTENT_EFFECT | MAINTENANCE_PLAN_EFFECT_CONFIRMED)
    } else if phase == MAINTENANCE_PLAN_PHASE_COMPENSATED {
        Some(MAINTENANCE_PLAN_IDEMPOTENT_EFFECT | MAINTENANCE_PLAN_COMPENSATED_WITHOUT_EFFECT)
    } else {
        None
    }
}

pub fn maintenance_plan_phase_flags(phase: u32) -> (flags: Option<u32>)
    ensures
        flags == spec_phase_flags(phase),
{
    if phase == MAINTENANCE_PLAN_PHASE_PREPARED {
        Some(MAINTENANCE_PLAN_IDEMPOTENT_EFFECT)
    } else if phase == MAINTENANCE_PLAN_PHASE_APPLYING {
        Some(MAINTENANCE_PLAN_IDEMPOTENT_EFFECT | MAINTENANCE_PLAN_RESULT_MAY_BE_UNKNOWN)
    } else if phase == MAINTENANCE_PLAN_PHASE_CONFIRMED {
        Some(MAINTENANCE_PLAN_IDEMPOTENT_EFFECT | MAINTENANCE_PLAN_EFFECT_CONFIRMED)
    } else if phase == MAINTENANCE_PLAN_PHASE_COMPENSATED {
        Some(MAINTENANCE_PLAN_IDEMPOTENT_EFFECT | MAINTENANCE_PLAN_COMPENSATED_WITHOUT_EFFECT)
    } else {
        None
    }
}

/// Where a phase falls among the three transitions of one operation:
/// prepared first, applying or compensated second, confirmed third.
pub open spec fn spec_phase_position(phase: u32) -> Option<u64> {
    if phase == MAINTENANCE_PLAN_PHASE_PREPARED {
        Some(1u64)
    } else if phase == MAINTENANCE_PLAN_PHASE_APPLYING || phase == MAINTENANCE_PLAN_PHASE_COMPENSATED {
        Some(2u64)
    } else if phase == MAINTENANCE_PLAN_PHASE_CONFIRMED {
        Some(3u64)
    } else {
        None
    }
}

pub fn maintenance_plan_phase_position(phase: u32) -> (position: Option<u64>)
    ensures
        position == spec_phase_position(phase),
{
    if phase == MAINTENANCE_PLAN_PHASE_PREPARED {
        Some(1)
    } else if phase == MAINTENANCE_PLAN_PHASE_APPLYING || phase == MAINTENANCE_PLAN_PHASE_COMPENSATED {
        Some(2)
    } else if phase == MAINTENANCE_PLAN_PHASE_CONFIRMED {
        Some(3)
    } else {
        None
    }
}

/// The step of the fixed program that plan operation `operation_ordinal`
/// performs for `authorization`.
pub open spec fn spec_plan_step_binding(
    authorization: MaintenanceAuthorizationAuditBinding,
    operation_ordinal: u32,
) -> Result<MaintenanceStepCommitBinding, MaintenancePlanStateError> {
    let observation = if operation_ordinal == MAINTENANCE_STEP_ROTATION_ONE {
        Some((1u32, false))
    } else if operation_ordinal == MAINTENANCE_STEP_ROTATION_TWO {
        Some((2u32, false))
    } else if operation_ordinal == MAINTENANCE_STEP_DRAIN {
        Some((2u32, true))
    } else {
        None
    };
    match observation {
        None => Err(MaintenancePlanStateError::InvalidOperation),
        Some((rotations, drained)) => {
            let step = observed_step(authorization, operation_ordinal, rotations, drained);
            if step.spec_validate() is Err {
                Err(MaintenancePlanStateError::Step(step.spec_validate()->Err_0))
            } else {
                Ok(step)
            }
        },
    }
}

pub fn maintenance_plan_step_binding(
    authorization: MaintenanceAuthorizationAuditBinding,
    operation_ordinal: u32,
) -> (result: Result<MaintenanceStepCommitBinding, MaintenancePlanStateError>)
    ensures
        result == spec_plan_step_binding(authorization, operation_ordinal),
{
    let (observed_rotations, drain_validated) = if operation_ordinal == MAINTENANCE_STEP_ROTATION_ONE {
        (1u32, false)
    } else if operation_ordinal == MAINTENANCE_STEP_ROTATION_TWO {
        (2u32, false)
    } else if operation_ordinal == MAINTENANCE_STEP_DRAIN {
        (2u32, true)
    } else {
        return Err(MaintenancePlanStateError::InvalidOperation);
    };
    match MaintenanceStepCommitBinding::for_observation(
        authorization,
        operation_ordinal,
        observed_rotations,
        drain_validated,
    ) {
        Ok(step) => Ok(step),
        Err(error) => Err(MaintenancePlanStateError::Step(error)),
    }
}

/// The bytes hashed to name the plan of one authorization.
pub open spec fn plan_id_material(authorization: MaintenanceAuthorizationAuditBinding) -> Seq<u8> {
    MAINTENANCE_PLAN_STATE_MAGIC@ + u64_bytes(authorization.sequence) + u64_bytes(authorization.operations)
        + u32_bytes(authorization.max_uses) + authorization.authorization_sha256@
        + authorization.authorization_id@ + authorization.manifest_sha256@
        + authorization.policy_sha256@ + authorization.root_sha256@
        + authorization.device_binding_sha256@
}

/// The plan identifier of one authorization.
pub fn maintenance_plan_id_sha256(authorization: MaintenanceAuthorizationAuditBinding) -> (digest: [u8; 32])
    ensures
        digest@ == sha256_digest(plan_id_material(authorization)),
{
    let mut material: Vec<u8> = Vec::new();
    push_bytes(&mut material, &MAINTENANCE_PLAN_STATE_MAGIC);
    push_u64(&mut material, authorization.sequence);
    push_u64(&mut material, authorization.operations);
    push_u32(&mut material, authorization.max_uses);
    push_bytes(&mut material, &authorization.authorization_sha256);
    push_bytes(&mut material, &authorization.authorization_id);
    push_bytes(&mut material, &authorization.manifest_sha256);
    push_bytes(&mut material, &authorization.policy_sha256);
    push_bytes(&mut material, &authorization.root_sha256);
    push_bytes(&mut material, &authorization.device_binding_sha256);
    assert(material@ =~= plan_id_material(authorization));
    sha256(material.as_slice())
}

/// The bytes hashed to name one operation instance of a plan.
pub open spec fn operation_instance_material(plan_id: Seq<u8>, operation_ordinal: u32, effect: Seq<u8>) -> Seq<u8> {
    MAINTENANCE_PLAN_OPERATION_INSTANCE_TAG@ + plan_id + u32_bytes(operation_ordinal) + effect
}

/// The identifier of operation `operation_ordinal` of a plan.
pub fn maintenance_plan_operation_instance_id_sha256(
    plan_id_sha256: [u8; 32],
    operation_ordinal: u32,
    effect_sha256: [u8; 32],
) -> (digest: [u8; 32])
    ensures
        digest@ == sha256_digest(operation_instance_material(plan_id_sha256@, operation_ordinal, effect_sha256@)),
{
    let mut material: Vec<u8> = Vec::new();
    push_bytes(&mut material, &MAINTENANCE_PLAN_OPERATION_INSTANCE_TAG);
    push_bytes(&mut material, &plan_id_sha256);
    push_u32(&mut material, operation_ordinal);
    push_bytes(&mut material, &effect_sha256);
    assert(material@ =~= operation_instance_material(plan_id_sha256@, operation_ordinal, effect_sha256@));
    sha256(material.as_slice())
}

/// The bytes hashed to derive the idempotency key of one operation instance.
pub open spec fn idempotency_material(plan_id: Seq<u8>, operation_instance: Seq<u8>, effect: Seq<u8>) -> Seq<u8> {
    MAINTENANCE_PLAN_IDEMPOTENCY_TAG@ + plan_id + operation_instance + effect
}

/// The idempotency key of one operation instance.
pub fn maintenance_plan_idempotency_key_sha256(
    plan_id_sha256: [u8; 32],
    operation_instance_id: [u8; 32],
    effect_sha256: [u8; 32],
) -> (digest: [u8; 32])
    ensures
        digest@ == sha256_digest(idempotency_material(plan_id_sha256@, operation_instance_id@, effect_sha256@)),
{
    let mut material: Vec<u8> = Vec::new();
    push_bytes(&mut material, &MAINTENANCE_PLAN_IDEMPOTENCY_TAG);
    push_bytes(&mut material, &plan_id_sha256);
    push_bytes(&mut material, &operation_instance_id);
    push_bytes(&mut material, &effect_sha256);
    assert(material@ =~= idempotency_material(plan_id_sha256@, operation_instance_id@, effect_sha256@));
    sha256(material.as_slice())
}

/// The operation-instance identifier derived for `authorization`'s plan.
pub open spec fn derived_operation_instance(
    authorization: MaintenanceAuthorizationAuditBinding,
    operation_ordinal: u32,
    effect: Seq<u8>,
) -> Seq<u8> {
    sha256_digest(operation_instance_material(sha256_digest(plan_id_material(authorization)), operation_ordinal, effect))
}

/// The idempotency key derived for `authorization`'s plan.
pub open spec fn derived_idempotency_key(
    authorization: MaintenanceAuthorizationAuditBinding,
    operation_ordinal: u32,
    effect: Seq<u8>,
) -> Seq<u8> {
    sha256_digest(idempotency_material(
        sha256_digest(plan_id_material(authorization)),
        derived_operation_instance(authorization, operation_ordinal, effect),
        effect,
    ))
}

/// The transition of operation `operation_ordinal` into `phase` for
/// `authorization`, with its derived identities.
pub open spec fn transition_for(
    authorization: MaintenanceAuthorizationAuditBinding,
    operation_ordinal: u32,
    phase: u32,
    flags: u32,
    effect: [u8; 32],
) -> MaintenancePlanTransitionBinding {
    MaintenancePlanTransitionBinding {
        sequence: authorization.sequence,
        operations: authorization.operations,
        max_uses: authorization.max_uses,
        operation_ordinal,
        phase,
        flags,
        authorization_sha256: authorization.authorization_sha256,
        authorization_id: authorization.authorization_id,
        manifest_sha256: authorization.manifest_sha256,
        policy_sha256: authorization.policy_sha256,
        root_sha256: authorization.root_sha256,
        device_binding_sha256: authorization.device_binding_sha256,
        effect_sha256: effect,
        operation_instance_id: digest_at(derived_operation_instance(authorization, operation_ordinal, effect@), 0),
        idempotency_key: digest_at(derived_idempotency_key(authorization, operation_ordinal, effect@), 0),
    }
}

/// What `for_transition` builds: the transition of operation
/// `operation_ordinal` into `phase`, provided it validates.
pub open spec fn spec_for_transition(
    authorization: MaintenanceAuthorizationAuditBinding,
    operation_ordinal: u32,
    phase: u32,
) -> Result<MaintenancePlanTransitionBinding, MaintenancePlanStateError> {
    match spec_plan_step_binding(authorization, operation_ordinal) {
        Err(error) => Err(error),
        Ok(step) => match spec_phase_flags(phase) {
            None => Err(MaintenancePlanStateError::InvalidPhase),
            Some(flags) => {
                let binding = transition_for(authorization, operation_ordinal, phase, flags, step.effect_sha256);
                if binding.spec_validate() is Err {
                    Err(binding.spec_validate()->Err_0)
                } else {
                    Ok(binding)
                }
            },
        },
    }
}

impl MaintenancePlanTransitionBinding {
    /// Builds the transition of operation `operation_ordinal` into `phase` for
    /// `authorization` and validates it.
    pub fn for_transition(
        authorization: MaintenanceAuthorizationAuditBinding,
        operation_ordinal: u32,
        phase: u32,
    ) -> (result: Result<Self, MaintenancePlanStateError>)
        ensures
            result == spec_for_transition(authorization, operation_ordinal, phase),
    {
        let step = maintenance_plan_step_binding(authorization, operation_ordinal)?;
        let flags = match maintenance_plan_phase_flags(phase) {
            Some(flags) => flags,
            None => return Err(MaintenancePlanStateError::InvalidPhase),
        };
        let plan_id = maintenance_plan_id_sha256(authorization);
        let operation_instance_id = maintenance_plan_operation_instance_id_sha256(
            plan_id,
            operation_ordinal,
            step.effect_sha256,
        );
        let idempotency_key = maintenance_plan_idempotency_key_sha256(
            plan_id,
            operation_instance_id,
            step.effect_sha256,
        );
        proof {
            let opi = derived_operation_instance(authorization, operation_ordinal, step.effect_sha256@);
            let idk = derived_idempotency_key(authorization, operation_ordinal, step.effect_sha256@);
            assert(opi.subrange(0, 32) =~= operation_instance_id@);
            lemma_digest_at_view(opi, 0, operation_instance_id);
            assert(idk.subrange(0, 32) =~= idempotency_key@);
            lemma_digest_at_view(idk, 0, idempotency_key);
        }
        let binding = MaintenancePlanTransitionBinding {
            sequence: authorization.sequence,
            operations: authorization.operations,
            max_uses: authorization.max_uses,
            operation_ordinal,
            phase,
            flags,
            authorization_sha256: authorization.authorization_sha256,
            authorization_id: authorization.authorization_id,
            manifest_sha256: authorization.manifest_sha256,
            policy_sha256: authorization.policy_sha256,
            root_sha256: authorization.root_sha256,
            device_binding_sha256: authorization.device_binding_sha256,
            effect_sha256: step.effect_sha256,
            operation_instance_id,
            idempotency_key,
        };
        binding.validate()?;
        Ok(binding)
    }

    /// The authorization this transition belongs to.
    pub open spec fn spec_authorization_binding(self) -> MaintenanceAuthorizationAuditBinding {
        MaintenanceAuthorizationAuditBinding {
            sequence: self.sequence,
            operations: self.operations,
            max_uses: self.max_uses,
            authorization_sha256: self.authorization_sha256,
            authorization_id: self.authorization_id,
            manifest_sha256: self.manifest_sha256,
            policy_sha256: self.policy_sha256,
            root_sha256: self.root_sha256,
            device_binding_sha256: self.device_binding_sha256,
        }
    }

    pub fn authorization_binding(self) -> (binding: MaintenanceAuthorizationAuditBinding)
        ensures
            binding == self.spec_authorization_binding(),
    {
        MaintenanceAuthorizationAuditBinding {
            sequence: self.sequence,
            operations: self.operations,
            max_uses: self.max_uses,
            authorization_sha256: self.authorization_sha256,
            authorization_id: self.authorization_id,
            manifest_sha256: self.manifest_sha256,
            policy_sha256: self.policy_sha256,
            root_sha256: self.root_sha256,
            device_binding_sha256: self.device_binding_sha256,
        }
    }

    /// The first rule the transition breaks: a valid authorization for the
    /// fixed two-use storage-rotation program, an operation of the program,
    /// a known phase with its flags, the effect of the operation's step, the
    /// operation instance and idempotency key derived from the plan, and
    /// nonzero digests.
    pub open spec fn spec_validate(self) -> Result<(), MaintenancePlanStateError> {
        let authorization = self.spec_authorization_binding();
        let step = spec_plan_step_binding(authorization, self.operation_ordinal);
        if authorization.spec_validate() is Err {
            Err(MaintenancePlanStateError::Authorization(authorization.spec_validate()->Err_0))
        } else if self.operations != MAINTENANCE_STEP_OPERATION_STORAGE_ROTATION {
            Err(MaintenancePlanStateError::UnsupportedOperations)
        } else if self.max_uses != 2 {
            Err(MaintenancePlanStateError::UnexpectedUseLimit)
        } else if !(MAINTENANCE_STEP_ROTATION_ONE <= self.operation_ordinal <= MAINTENANCE_STEP_DRAIN) {
            Err(MaintenancePlanStateError::InvalidOperation)
        } else if spec_phase_flags(self.phase) is None {
            Err(MaintenancePlanStateError::InvalidPhase)
        } else if self.flags != spec_phase_flags(self.phase)->Some_0 {
            Err(MaintenancePlanStateError::InvalidFlags)
        } else if step is Err {
            Err(step->Err_0)
        } else if self.effect_sha256 != step->Ok_0.effect_sha256 {
            Err(MaintenancePlanStateError::EffectMismatch)
        } else if self.operation_instance_id@ != derived_operation_instance(
            authorization,
            self.operation_ordinal,
            self.effect_sha256@,
        ) {
            Err(MaintenancePlanStateError::OperationInstanceMismatch)
        } else if self.idempotency_key@ != derived_idempotency_key(
            authorization,
            self.operation_ordinal,
            self.effect_sha256@,
        ) {
            Err(MaintenancePlanStateError::IdempotencyKeyMismatch)
        } else if all_zero(self.effect_sha256@) {
            Err(MaintenancePlanStateError::ZeroEffectDigest)
        } else if all_zero(self.operation_instance_id@) {
            Err(MaintenancePlanStateError::ZeroOperationInstance)
        } else if all_zero(self.idempotency_key@) {
            Err(MaintenancePlanStateError::ZeroIdempotencyKey)
        } else {
            Ok(())
        }
    }

    pub fn validate(self) -> (result: Result<(), MaintenancePlanStateError>)
        ensures
            result == self.spec_validate(),
    {
        let authorization = self.authorization_binding();
        if let Err(error) = authorization.validate() {
            return Err(MaintenancePlanStateError::Authorization(error));
        }
        if self.operations != MAINTENANCE_STEP_OPERATION_STORAGE_ROTATION {
            return Err(MaintenancePlanStateError::UnsupportedOperations);
        }
        if self.max_uses != 2 {
            return Err(MaintenancePlanStateError::UnexpectedUseLimit);
        }
        if self.operation_ordinal < MAINTENANCE_STEP_ROTATION_ONE || self.operation_ordinal > MAINTENANCE_STEP_DRAIN {
            return Err(MaintenancePlanStateError::InvalidOperation);
        }
        let expected_flags = match maintenance_plan_phase_flags(self.phase) {
            Some(flags) => flags,
            None => return Err(MaintenancePlanStateError::InvalidPhase),
        };
        if self.flags != expected_flags {
            return Err(MaintenancePlanStateError::InvalidFlags);
        }
        let step = maintenance_plan_step_binding(authorization, self.operation_ordinal)?;
        if !digest_eq(&self.effect_sha256, &step.effect_sha256) {
            return Err(MaintenancePlanStateError::EffectMismatch);
        }
        let plan_id = maintenance_plan_id_sha256(authorization);
        let operation_instance_id = maintenance_plan_operation_instance_id_sha256(
            plan_id,
            self.operation_ordinal,
            self.effect_sha256,
        );
        if !digest_eq(&self.operation_instance_id, &operation_instance_id) {
            return Err(MaintenancePlanStateError::OperationInstanceMismatch);
        }
        let idempotency_key = maintenance_plan_idempotency_key_sha256(
            plan_id,
            operation_instance_id,
            self.effect_sha256,
        );
        if !digest_eq(&self.idempotency_key, &idempotency_key) {
            return Err(MaintenancePlanStateError::IdempotencyKeyMismatch);
        }
        if is_zero(&self.effect_sha256) {
            return Err(MaintenancePlanStateError::ZeroEffectDigest);
        }
        if is_zero(&self.operation_instance_id) {
            return Err(MaintenancePlanStateError::ZeroOperationInstance);
        }
        if is_zero(&self.idempotency_key) {
            return Err(MaintenancePlanStateError::ZeroIdempotencyKey);
        }
        Ok(())
    }

    /// Field-by-field equality.
    pub fn same_as(&self, other: &Self) -> (equal: bool)
        ensures
            equal == (*self == *other),
    {
        self.sequence == other.sequence
            && self.operations == other.operations
            && self.max_uses == other.max_uses
            && self.operation_ordinal == other.operation_ordinal
            && self.phase == other.phase
            && self.flags == other.flags
            && digest_eq(&self.authorization_sha256, &other.authorization_sha256)
            && digest_eq(&self.authorization_id, &other.authorization_id)
            && digest_eq(&self.manifest_sha256, &other.manifest_sha256)
            && digest_eq(&self.policy_sha256, &other.policy_sha256)
            && digest_eq(&self.root_sha256, &other.root_sha256)
            && digest_eq(&self.device_binding_sha256, &other.device_binding_sha256)
            && digest_eq(&self.effect_sha256, &other.effect_sha256)
            && digest_eq(&self.operation_instance_id, &other.operation_instance_id)
            && digest_eq(&self.idempotency_key, &other.idempotency_key)
    }
}

/// The number of transitions a journal based at `base_sequence` holds once
/// it reaches this phase of this operation: nine per earlier authorization,
/// three per earlier operation, and the phase's position.
pub open spec fn transition_count_at(
    sequence: u64,
    base_sequence: u64,
    operation_ordinal: u32,
    position: u64,
) -> int {
    (sequence - base_sequence) * (MAINTENANCE_PLAN_TRANSITIONS_PER_SEQUENCE as int)
        + (operation_ordinal - 1) * 3 + position
}

/// The bytes hashed to extend the plan chain by one transition.
pub open spec fn plan_chain_material(
    previous_chain: Seq<u8>,
    base_sequence: u64,
    transition_count: u64,
    binding: MaintenancePlanTransitionBinding,
) -> Seq<u8> {
    MAINTENANCE_PLAN_STATE_MAGIC@ + previous_chain + u64_bytes(binding.sequence)
        + u64_bytes(base_sequence) + u64_bytes(transition_count) + u64_bytes(binding.operations)
        + u32_bytes(binding.max_uses) + u32_bytes(binding.operation_ordinal)
        + u32_bytes(binding.phase) + u32_bytes(binding.flags) + binding.authorization_sha256@
        + binding.authorization_id@ + binding.manifest_sha256@ + binding.policy_sha256@
        + binding.root_sha256@ + binding.device_binding_sha256@ + binding.effect_sha256@
        + binding.operation_instance_id@ + binding.idempotency_key@
}

/// The plan-chain digest after journaling `binding` as transition
/// `transition_count` of a journal based at `base_sequence`.
pub fn maintenance_plan_chain_sha256(
    previous_chain_sha256: [u8; 32],
    base_sequence: u64,
    transition_count: u64,
    binding: MaintenancePlanTransitionBinding,
) -> (digest: [u8; 32])
    ensures
        digest@ == sha256_digest(plan_chain_material(previous_chain_sha256@, base_sequence, transition_count, binding)),
{
    let mut material: Vec<u8> = Vec::new();
    push_bytes(&mut material, &MAINTENANCE_PLAN_STATE_MAGIC);
    push_bytes(&mut material, &previous_chain_sha256);
    push_u64(&mut material, binding.sequence);
    push_u64(&mut material, base_sequence);
    push_u64(&mut material, transition_count);
    push_u64(&mut material, binding.operations);
    push_u32(&mut material, binding.max_uses);
    push_u32(&mut material, binding.operation_ordinal);
    push_u32(&mut material, binding.phase);
    push_u32(&mut material, binding.flags);
    push_bytes(&mut material, &binding.authorization_sha256);
    push_bytes(&mut material, &binding.authorization_id);
    push_bytes(&mut material, &binding.manifest_sha256);
    push_bytes(&mut material, &binding.policy_sha256);
    push_bytes(&mut material, &binding.root_sha256);
    push_bytes(&mut material, &binding.device_binding_sha256);
    push_bytes(&mut material, &binding.effect_sha256);
    push_bytes(&mut material, &binding.operation_instance_id);
    push_bytes(&mut material, &binding.idempotency_key);
    assert(material@ =~= plan_chain_material(previous_chain_sha256@, base_sequence, transition_count, binding));
    sha256(material.as_slice())
}

#[derive(Clone, Copy, Debug, PartialEq, Eq)]
pub struct MaintenancePlanState {
    pub sequence: u64,
    pub base_sequence: u64,
    pub transition_count: u64,
    pub operations: u64,
    pub max_uses: u32,
    pub operation_ordinal: u32,
    pub phase: u32,
    pub flags: u32,
    pub authorization_sha256: [u8; 32],
    pub authorization_id: [u8; 32],
    pub manifest_sha256: [u8; 32],
    pub policy_sha256: [u8; 32],
    pub root_sha256: [u8; 32],
    pub device_binding_sha256: [u8; 32],
    pub effect_sha256: [u8; 32],
    pub operation_instance_id: [u8; 32],
    pub idempotency_key: [u8; 32],
    pub previous_chain_sha256: [u8; 32],
    pub chain_sha256: [u8; 32],
}

impl MaintenancePlanState {
    /// The transition this head records.
    pub open spec fn spec_binding(self) -> MaintenancePlanTransitionBinding {
        MaintenancePlanTransitionBinding {
            sequence: self.sequence,
            operations: self.operations,
            max_uses: self.max_uses,
            operation_ordinal: self.operation_ordinal,
            phase: self.phase,
            flags: self.flags,
            authorization_sha256: self.authorization_sha256,
            authorization_id: self.authorization_id,
            manifest_sha256: self.manifest_sha256,
            policy_sha256: self.policy_sha256,
            root_sha256: self.root_sha256,
            device_binding_sha256: self.device_binding_sha256,
            effect_sha256: self.effect_sha256,
            operation_instance_id: self.operation_instance_id,
            idempotency_key: self.idempotency_key,
        }
    }

    pub fn binding(self) -> (binding: MaintenancePlanTransitionBinding)
        ensures
            binding == self.spec_binding(),
    {
        MaintenancePlanTransitionBinding {
            sequence: self.sequence,
            operations: self.operations,
            max_uses: self.max_uses,
            operation_ordinal: self.operation_ordinal,
            phase: self.phase,
            flags: self.flags,
            authorization_sha256: self.authorization_sha256,
            authorization_id: self.authorization_id,
            manifest_sha256: self.manifest_sha256,
            policy_sha256: self.policy_sha256,
            root_sha256: self.root_sha256,
            device_binding_sha256: self.device_binding_sha256,
            effect_sha256: self.effect_sha256,
            operation_instance_id: self.operation_instance_id,
            idempotency_key: self.idempotency_key,
        }
    }

    /// The first rule the head breaks: a valid transition, a base sequence in
    /// `1..=sequence`, a nonzero transition count equal to the count at this
    /// sequence, operation and phase, and a nonzero chain digest that extends
    /// the previous one by this transition.
    pub open spec fn spec_validate(self) -> Result<(), MaintenancePlanStateError> {
        if self.spec_binding().spec_validate() is Err {
            self.spec_binding().spec_validate()
        } else if self.base_sequence == 0 || self.base_sequence > self.sequence {
            Err(MaintenancePlanStateError::InvalidBaseSequence)
        } else if self.transition_count == 0 {
            Err(MaintenancePlanStateError::ZeroTransitionCount)
        } else if spec_phase_position(self.phase) is None {
            Err(MaintenancePlanStateError::InvalidPhase)
        } else if self.transition_count != transition_count_at(
            self.sequence,
            self.base_sequence,
            self.operation_ordinal,
            spec_phase_position(self.phase)->Some_0,
        ) {
            Err(MaintenancePlanStateError::TransitionCountMismatch)
        } else if all_zero(self.chain_sha256@) {
            Err(MaintenancePlanStateError::ZeroChainDigest)
        } else if self.chain_sha256@ != sha256_digest(
            plan_chain_material(self.previous_chain_sha256@, self.base_sequence, self.transition_count, self.spec_binding()),
        ) {
            Err(MaintenancePlanStateError::ChainMismatch)
        } else {
            Ok(())
        }
    }

    pub fn validate(self) -> (result: Result<(), MaintenancePlanStateError>)
        ensures
            result == self.spec_validate(),
    {
        let binding = self.binding();
        binding.validate()?;
        if self.base_sequence == 0 || self.base_sequence > self.sequence {
            return Err(MaintenancePlanStateError::InvalidBaseSequence);
        }
        if self.transition_count == 0 {
            return Err(MaintenancePlanStateError::ZeroTransitionCount);
        }
        let position = match maintenance_plan_phase_position(self.phase) {
            Some(position) => position,
            None => return Err(MaintenancePlanStateError::InvalidPhase),
        };
        match plan_transition_count(self.sequence, self.base_sequence, self.operation_ordinal, position) {
            Some(count) => {
                if self.transition_count != count {
                    return Err(MaintenancePlanStateError::TransitionCountMismatch);
                }
            },
            None => return Err(MaintenancePlanStateError::TransitionCountMismatch),
        }
        if is_zero(&self.chain_sha256) {
            return Err(MaintenancePlanStateError::ZeroChainDigest);
        }
        let chain = maintenance_plan_chain_sha256(
            self.previous_chain_sha256,
            self.base_sequence,
            self.transition_count,
            binding,
        );
        if !digest_eq(&self.chain_sha256, &chain) {
            return Err(MaintenancePlanStateError::ChainMismatch);
        }
        Ok(())
    }

    /// Field-by-field equality.
    pub fn same_as(&self, other: &Self) -> (equal: bool)
        ensures
            equal == (*self == *other),
    {
        self.sequence == other.sequence
            && self.base_sequence == other.base_sequence
            && self.transition_count == other.transition_count
            && self.operations == other.operations
            && self.max_uses == other.max_uses
            && self.operation_ordinal == other.operation_ordinal
            && self.phase == other.phase
            && self.flags == other.flags
            && digest_eq(&self.authorization_sha256, &other.authorization_sha256)
            && digest_eq(&self.authorization_id, &other.authorization_id)
            && digest_eq(&self.manifest_sha256, &other.manifest_sha256)
            && digest_eq(&self.policy_sha256, &other.policy_sha256)
            && digest_eq(&self.root_sha256, &other.root_sha256)
            && digest_eq(&self.device_binding_sha256, &other.device_binding_sha256)
            && digest_eq(&self.effect_sha256, &other.effect_sha256)
            && digest_eq(&self.operation_instance_id, &other.operation_instance_id)
            && digest_eq(&self.idempotency_key, &other.idempotency_key)
            && digest_eq(&self.previous_chain_sha256, &other.previous_chain_sha256)
            && digest_eq(&self.chain_sha256, &other.chain_sha256)
    }
}

/// The transition count at this sequence, operation and phase position, when
/// it fits in 64 bits.
pub fn plan_transition_count(sequence: u64, base_sequence: u64, operation_ordinal: u32, position: u64) -> (count: Option<u64>)
    requires
        base_sequence <= sequence,
        1 <= operation_ordinal,
    ensures
        match count {
            Some(count) => count == transition_count_at(sequence, base_sequence, operation_ordinal, position),
            None => transition_count_at(sequence, base_sequence, operation_ordinal, position) > u64::MAX,
        },
{
    let delta = sequence - base_sequence;
    let scaled = match delta.checked_mul(MAINTENANCE_PLAN_TRANSITIONS_PER_SEQUENCE) {
        Some(scaled) => scaled,
        None => return None,
    };
    let operation = (operation_ordinal - 1) as u64;
    let prior = match operation.checked_mul(3) {
        Some(prior) => prior,
        None => return None,
    };
    let count = match scaled.checked_add(prior) {
        Some(count) => count,
        None => return None,
    };
    count.checked_add(position)
}

/// Bytes 16..416 of an encoded MaintenancePlanState: the fields its witness covers.
pub open spec fn plan_body(state: MaintenancePlanState) -> Seq<u8> {
    u64_bytes(state.sequence)
        + u64_bytes(state.base_sequence)
        + u64_bytes(state.transition_count)
        + u64_bytes(state.operations)
        + u32_bytes(state.max_uses)
        + u32_bytes(state.operation_ordinal)
        + u32_bytes(state.phase)
        + u32_bytes(state.flags)
        + state.authorization_sha256@
        + state.authorization_id@
        + state.manifest_sha256@
        + state.policy_sha256@
        + state.root_sha256@
        + state.device_binding_sha256@
        + state.effect_sha256@
        + state.operation_instance_id@
        + state.idempotency_key@
        + state.previous_chain_sha256@
        + state.chain_sha256@
}

pub open spec fn plan_bytes(state: MaintenancePlanState) -> Seq<u8> {
    MAINTENANCE_PLAN_STATE_MAGIC@ + u32_bytes(MAINTENANCE_PLAN_STATE_VERSION) + zeros(4) + plan_body(state) + u64_bytes(
        spec_fnv1a64(plan_body(state)) ^ MAINTENANCE_PLAN_WITNESS,
    )
}

pub open spec fn spec_encode_plan(state: MaintenancePlanState) -> Result<Seq<u8>, MaintenancePlanStateError> {
    if state.spec_validate() is Err {
        Err(state.spec_validate()->Err_0)
    } else {
        Ok(plan_bytes(state))
    }
}

#[verifier::opaque]
pub open spec fn spec_decode_plan(bytes: Seq<u8>) -> Result<MaintenancePlanState, MaintenancePlanStateError> {
    let state = MaintenancePlanState { sequence: spec_le_u64(bytes, 16), base_sequence: spec_le_u64(bytes, 24), transition_count: spec_le_u64(bytes, 32), operations: spec_le_u64(bytes, 40), max_uses: spec_le_u32(bytes, 48), operation_ordinal: spec_le_u32(bytes, 52), phase: spec_le_u32(bytes, 56), flags: spec_le_u32(bytes, 60), authorization_sha256: digest_at(bytes, 64), authorization_id: digest_at(bytes, 96), manifest_sha256: digest_at(bytes, 128), policy_sha256: digest_at(bytes, 160), root_sha256: digest_at(bytes, 192), device_binding_sha256: digest_at(bytes, 224), effect_sha256: digest_at(bytes, 256), operation_instance_id: digest_at(bytes, 288), idempotency_key: digest_at(bytes, 320), previous_chain_sha256: digest_at(bytes, 352), chain_sha256: digest_at(bytes, 384) };
    if bytes.len() != 424 {
        Err(MaintenancePlanStateError::WrongSize)
    } else if bytes.subrange(0, 8) != MAINTENANCE_PLAN_STATE_MAGIC@ {
        Err(MaintenancePlanStateError::BadMagic)
    } else if spec_le_u32(bytes, 8) != MAINTENANCE_PLAN_STATE_VERSION {
        Err(MaintenancePlanStateError::UnsupportedVersion)
    } else if !all_zero(bytes.subrange(12, 16)) {
        Err(MaintenancePlanStateError::NonZeroReserved)
    } else if state.spec_validate() is Err {
        Err(state.spec_validate()->Err_0)
    } else if spec_le_u64(bytes, 416) != spec_fnv1a64(bytes.subrange(16, 416)) ^ MAINTENANCE_PLAN_WITNESS {
        Err(MaintenancePlanStateError::WitnessMismatch)
    } else {
        Ok(state)
    }
}

impl MaintenancePlanState {
    pub fn encode(self) -> (result: Result<[u8; 424], MaintenancePlanStateError>)
        ensures
            match result {
                Ok(bytes) => spec_encode_plan(self) == Ok::<Seq<u8>, MaintenancePlanStateError>(bytes@),
                Err(error) => spec_encode_plan(self) == Err::<Seq<u8>, MaintenancePlanStateError>(error),
            },
    {
        self.validate()?;
        let mut body: Vec<u8> = Vec::new();
        push_u64(&mut body, self.sequence);
        push_u64(&mut body, self.base_sequence);
        push_u64(&mut body, self.transition_count);
        push_u64(&mut body, self.operations);
        push_u32(&mut body, self.max_uses);
        push_u32(&mut body, self.operation_ordinal);
        push_u32(&mut body, self.phase);
        push_u32(&mut body, self.flags);
        push_bytes(&mut body, &self.authorization_sha256);
        push_bytes(&mut body, &self.authorization_id);
        push_bytes(&mut body, &self.manifest_sha256);
        push_bytes(&mut body, &self.policy_sha256);
        push_bytes(&mut body, &self.root_sha256);
        push_bytes(&mut body, &self.device_binding_sha256);
        push_bytes(&mut body, &self.effect_sha256);
        push_bytes(&mut body, &self.operation_instance_id);
        push_bytes(&mut body, &self.idempotency_key);
        push_bytes(&mut body, &self.previous_chain_sha256);
        push_bytes(&mut body, &self.chain_sha256);
        assert(body@ =~= plan_body(self));
        let witness = fnv1a64(body.as_slice()) ^ MAINTENANCE_PLAN_WITNESS;
        let mut out: Vec<u8> = Vec::new();
        push_bytes(&mut out, &MAINTENANCE_PLAN_STATE_MAGIC);
        push_u32(&mut out, MAINTENANCE_PLAN_STATE_VERSION);
        push_zeros(&mut out, 4);
        push_bytes(&mut out, body.as_slice());
        push_u64(&mut out, witness);
        assert(out@ =~= plan_bytes(self));
        Ok(into_array(&out))
    }

    pub fn decode(bytes: &[u8]) -> (result: Result<Self, MaintenancePlanStateError>)
        ensures
            result == spec_decode_plan(bytes@),
    {
        reveal(spec_decode_plan);
        if bytes.len() != 424 {
            return Err(MaintenancePlanStateError::WrongSize);
        }
        if !bytes_eq(&bytes[0..8], &MAINTENANCE_PLAN_STATE_MAGIC) {
            return Err(MaintenancePlanStateError::BadMagic);
        }
        if le_u32(bytes, 8) != MAINTENANCE_PLAN_STATE_VERSION {
            return Err(MaintenancePlanStateError::UnsupportedVersion);
        }
        if !is_zero_range(bytes, 12, 16) {
            return Err(MaintenancePlanStateError::NonZeroReserved);
        }
        let state = MaintenancePlanState { sequence: le_u64(bytes, 16), base_sequence: le_u64(bytes, 24), transition_count: le_u64(bytes, 32), operations: le_u64(bytes, 40), max_uses: le_u32(bytes, 48), operation_ordinal: le_u32(bytes, 52), phase: le_u32(bytes, 56), flags: le_u32(bytes, 60), authorization_sha256: read_digest(bytes, 64), authorization_id: read_digest(bytes, 96), manifest_sha256: read_digest(bytes, 128), policy_sha256: read_digest(bytes, 160), root_sha256: read_digest(bytes, 192), device_binding_sha256: read_digest(bytes, 224), effect_sha256: read_digest(bytes, 256), operation_instance_id: read_digest(bytes, 288), idempotency_key: read_digest(bytes, 320), previous_chain_sha256: read_digest(bytes, 352), chain_sha256: read_digest(bytes, 384) };
        state.validate()?;
        if le_u64(bytes, 416) != fnv1a64(&bytes[16..416]) ^ MAINTENANCE_PLAN_WITNESS {
            return Err(MaintenancePlanStateError::WitnessMismatch);
        }
        Ok(state)
    }
}

#[verifier::spinoff_prover]
#[verifier::rlimit(60)]
proof fn lemma_plan_fields(state: MaintenancePlanState)
    ensures
        ({
            let s = plan_bytes(state);
            &&& s.len() == 424
            &&& s.subrange(0, 8) == MAINTENANCE_PLAN_STATE_MAGIC@
            &&& spec_le_u32(s, 8) == MAINTENANCE_PLAN_STATE_VERSION
            &&& all_zero(s.subrange(12, 16))
            &&& spec_le_u64(s, 16) == state.sequence
            &&& spec_le_u64(s, 24) == state.base_sequence
            &&& spec_le_u64(s, 32) == state.transition_count
            &&& spec_le_u64(s, 40) == state.operations
            &&& spec_le_u32(s, 48) == state.max_uses
            &&& spec_le_u32(s, 52) == state.operation_ordinal
            &&& spec_le_u32(s, 56) == state.phase
            &&& spec_le_u32(s, 60) == state.flags
            &&& digest_at(s, 64) == state.authorization_sha256
            &&& digest_at(s, 96) == state.authorization_id
            &&& digest_at(s, 128) == state.manifest_sha256
            &&& digest_at(s, 160) == state.policy_sha256
            &&& digest_at(s, 192) == state.root_sha256
            &&& digest_at(s, 224) == state.device_binding_sha256
            &&& digest_at(s, 256) == state.effect_sha256
            &&& digest_at(s, 288) == state.operation_instance_id
            &&& digest_at(s, 320) == state.idempotency_key
            &&& digest_at(s, 352) == state.previous_chain_sha256
            &&& digest_at(s, 384) == state.chain_sha256
            &&& s.subrange(16, 416) == plan_body(state)
            &&& spec_le_u64(s, 416) == spec_fnv1a64(plan_body(state)) ^ MAINTENANCE_PLAN_WITNESS
        }),
{
    let s = plan_bytes(state);
    let b = plan_body(state);
    lemma_u32_bytes_zero();
    assert(s.subrange(0, 8) =~= MAINTENANCE_PLAN_STATE_MAGIC@);
    assert(s.subrange(8, 12) =~= u32_bytes(MAINTENANCE_PLAN_STATE_VERSION));
    assert(s.subrange(12, 16) =~= zeros(4));
    assert(s.subrange(16, 416) =~= b);
    assert(s.subrange(416, 424) =~= u64_bytes(spec_fnv1a64(b) ^ MAINTENANCE_PLAN_WITNESS));
    assert forall|i: int| 16 <= i < 416 implies s[i] == b[i - 16] by {
        assert(s.subrange(16, 416)[i - 16] == s[i]);
    }
    lemma_le_u32_at(s, 8, MAINTENANCE_PLAN_STATE_VERSION);
    lemma_le_u64_at(s, 416, spec_fnv1a64(b) ^ MAINTENANCE_PLAN_WITNESS);
    lemma_plan_body_fields(state, s);
}

#[verifier::spinoff_prover]
#[verifier::rlimit(60)]
proof fn lemma_plan_body_fields(state: MaintenancePlanState, s: Seq<u8>)
    requires
        s.len() == 424,
        forall|i: int| 16 <= i < 416 ==> s[i] == plan_body(state)[i - 16],
    ensures
        spec_le_u64(s, 16) == state.sequence,
        spec_le_u64(s, 24) == state.base_sequence,
        spec_le_u64(s, 32) == state.transition_count,
        spec_le_u64(s, 40) == state.operations,
        spec_le_u32(s, 48) == state.max_uses,
        spec_le_u32(s, 52) == state.operation_ordinal,
        spec_le_u32(s, 56) == state.phase,
        spec_le_u32(s, 60) == state.flags,
        digest_at(s, 64) == state.authorization_sha256,
        digest_at(s, 96) == state.authorization_id,
        digest_at(s, 128) == state.manifest_sha256,
        digest_at(s, 160) == state.policy_sha256,
        digest_at(s, 192) == state.root_sha256,
        digest_at(s, 224) == state.device_binding_sha256,
        digest_at(s, 256) == state.effect_sha256,
        digest_at(s, 288) == state.operation_instance_id,
        digest_at(s, 320) == state.idempotency_key,
        digest_at(s, 352) == state.previous_chain_sha256,
        digest_at(s, 384) == state.chain_sha256,
{
    let b = plan_body(state);
    assert(b.subrange(0, 8) =~= u64_bytes(state.sequence));
    assert(s.subrange(16, 24) =~= b.subrange(0, 8));
    lemma_le_u64_at(s, 16, state.sequence);
    assert(b.subrange(8, 16) =~= u64_bytes(state.base_sequence));
    assert(s.subrange(24, 32) =~= b.subrange(8, 16));
    lemma_le_u64_at(s, 24, state.base_sequence);
    assert(b.subrange(16, 24) =~= u64_bytes(state.transition_count));
    assert(s.subrange(32, 40) =~= b.subrange(16, 24));
    lemma_le_u64_at(s, 32, state.transition_count);
    assert(b.subrange(24, 32) =~= u64_bytes(state.operations));
    assert(s.subrange(40, 48) =~= b.subrange(24, 32));
    lemma_le_u64_at(s, 40, state.operations);
    assert(b.subrange(32, 36) =~= u32_bytes(state.max_uses));
    assert(s.subrange(48, 52) =~= b.subrange(32, 36));
    lemma_le_u32_at(s, 48, state.max_uses);
    assert(b.subrange(36, 40) =~= u32_bytes(state.operation_ordinal));
    assert(s.subrange(52, 56) =~= b.subrange(36, 40));
    lemma_le_u32_at(s, 52, state.operation_ordinal);
    assert(b.subrange(40, 44) =~= u32_bytes(state.phase));
    assert(s.subrange(56, 60) =~= b.subrange(40, 44));
    lemma_le_u32_at(s, 56, state.phase);
    assert(b.subrange(44, 48) =~= u32_bytes(state.flags));
    assert(s.subrange(60, 64) =~= b.subrange(44, 48));
    lemma_le_u32_at(s, 60, state.flags);
    assert(b.subrange(48, 80) =~= state.authorization_sha256@);
    assert(s.subrange(64, 96) =~= b.subrange(48, 80));
    lemma_digest_at_view(s, 64, state.authorization_sha256);
    assert(b.subrange(80, 112) =~= state.authorization_id@);
    assert(s.subrange(96, 128) =~= b.subrange(80, 112));
    lemma_digest_at_view(s, 96, state.authorization_id);
    assert(b.subrange(112, 144) =~= state.manifest_sha256@);
    assert(s.subrange(128, 160) =~= b.subrange(112, 144));
    lemma_digest_at_view(s, 128, state.manifest_sha256);
    assert(b.subrange(144, 176) =~= state.policy_sha256@);
    assert(s.subrange(160, 192) =~= b.subrange(144, 176));
    lemma_digest_at_view(s, 160, state.policy_sha256);
    assert(b.subrange(176, 208) =~= state.root_sha256@);
    assert(s.subrange(192, 224) =~= b.subrange(176, 208));
    lemma_digest_at_view(s, 192, state.root_sha256);
    assert(b.subrange(208, 240) =~= state.device_binding_sha256@);
    assert(s.subrange(224, 256) =~= b.subrange(208, 240));
    lemma_digest_at_view(s, 224, state.device_binding_sha256);
    assert(b.subrange(240, 272) =~= state.effect_sha256@);
    assert(s.subrange(256, 288) =~= b.subrange(240, 272));
    lemma_digest_at_view(s, 256, state.effect_sha256);
    assert(b.subrange(272, 304) =~= state.operation_instance_id@);
    assert(s.subrange(288, 320) =~= b.subrange(272, 304));
    lemma_digest_at_view(s, 288, state.operation_instance_id);
    assert(b.subrange(304, 336) =~= state.idempotency_key@);
    assert(s.subrange(320, 352) =~= b.subrange(304, 336));
    lemma_digest_at_view(s, 320, state.idempotency_key);
    assert(b.subrange(336, 368) =~= state.previous_chain_sha256@);
    assert(s.subrange(352, 384) =~= b.subrange(336, 368));
    lemma_digest_at_view(s, 352, state.previous_chain_sha256);
    assert(b.subrange(368, 400) =~= state.chain_sha256@);
    assert(s.subrange(384, 416) =~= b.subrange(368, 400));
    lemma_digest_at_view(s, 384, state.chain_sha256);
}

/// A plan head that validates decodes from its encoding to itself.
pub proof fn lemma_plan_round_trip(state: MaintenancePlanState)
    requires
        state.spec_validate() is Ok,
    ensures
        spec_decode_plan(plan_bytes(state)) == Ok::<MaintenancePlanState, MaintenancePlanStateError>(state),
{
    reveal(spec_decode_plan);
    lemma_plan_fields(state);
    let s = plan_bytes(state);
    assert(MaintenancePlanState { sequence: spec_le_u64(s, 16), base_sequence: spec_le_u64(s, 24), transition_count: spec_le_u64(s, 32), operations: spec_le_u64(s, 40), max_uses: spec_le_u32(s, 48), operation_ordinal: spec_le_u32(s, 52), phase: spec_le_u32(s, 56), flags: spec_le_u32(s, 60), authorization_sha256: digest_at(s, 64), authorization_id: digest_at(s, 96), manifest_sha256: digest_at(s, 128), policy_sha256: digest_at(s, 160), root_sha256: digest_at(s, 192), device_binding_sha256: digest_at(s, 224), effect_sha256: digest_at(s, 256), operation_instance_id: digest_at(s, 288), idempotency_key: digest_at(s, 320), previous_chain_sha256: digest_at(s, 352), chain_sha256: digest_at(s, 384) } == state);
    
}


/// A plan head that decodes is valid.
pub proof fn lemma_decoded_plan_is_valid(bytes: Seq<u8>)
    ensures
        spec_decode_plan(bytes) is Ok ==> spec_decode_plan(bytes)->Ok_0.spec_validate() is Ok,
{
    reveal(spec_decode_plan);
}

} // verus!

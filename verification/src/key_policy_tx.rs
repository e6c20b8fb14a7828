//! Migration of the manifest rollback ledger to the ordered key policy.
use vstd::prelude::*;
use crate::codec::{all_zero, bytes_eq, digest_at, digest_eq, zeros};
use crate::io::{commit_ops, slot_reads, is_commit_phase, unchanged_except, IoOp, DurableSectorIo, IoPhase, PersistIoError};
use crate::layout::{
    FormatEpoch, Sector, MANIFEST_KEY_POLICY_STATE_MAGIC, MANIFEST_ROLLBACK_SLOT_RELATIVE_LBAS,
};
use crate::ledger::{commit_and_read_back, ledger_fits, load_ledger_slots, LoadFailure};
use crate::manifest_state::{
    lemma_key_policy_round_trip, spec_decode_key_policy, spec_decode_rollback, spec_encode_key_policy,
    ManifestKeyPolicyBinding, ManifestKeyPolicyState, ManifestKeyPolicyStateError,
    ManifestRollbackBinding, ManifestRollbackState, ManifestRollbackStateError,
};
use crate::manifest_tx::{
    ledger_ops,     lemma_kept_commit_is_recovered, ledger_commit_lba, initial_generation_of, initial_rejected_of, initial_slot_of, initial_valid_of,
    ledger_commit_outcome, ledger_readback_ok, max_u32, option_view, prepare_next_record,
    LedgerCommit, PreparedLedgerCommit,
};
use crate::record::{
    lemma_record_round_trip, lemma_recovered_slot, recover, recover_ledger, spec_decode_record, spec_encode_record,
    spec_recover, spec_recover_ledger, spec_validate_record_epoch, validate_record_epoch,
    DataRecord, RecordError, RecoveredModel, RecoveredRecord, RecoveryError,
};

verus! {

#[derive(Clone, Copy, Debug, PartialEq, Eq, Structural)]
pub enum ManifestKeyRotationError {
    PartitionBounds,
    ZeroBootstrapFloor,
    ZeroArtifactIndex,
    ZeroLegacyKeyEpoch,
    Io { phase: IoPhase, error: PersistIoError },
    Recovery(RecoveryError),
    LegacyState(ManifestRollbackStateError),
    PolicyState(ManifestKeyPolicyStateError),
    LegacyBindingMismatch,
    PolicyDigestMismatch,
    ActiveKeyBindingMismatch,
    RetiredKey { artifact_epoch: u32, active_epoch: u32 },
    SkippedKeyEpoch { artifact_epoch: u32, active_epoch: u32 },
    TransitionWithoutFloorAdvance { artifact_index: u32, persisted_floor: u32 },
    Rollback { actual: u32, minimum: u32 },
    Encode(RecordError),
    VerificationFailed,
}

impl ManifestKeyRotationError {
    /// The fixed text that describes this error.
    pub open spec fn message(self) -> Seq<char> {
        match self {
            Self::PartitionBounds => {
                "persistent manifest key-policy slots are outside the data partition"@
            }
            Self::ZeroBootstrapFloor => "manifest key-policy bootstrap floor is zero"@,
            Self::ZeroArtifactIndex => "manifest key-policy artifact index is zero"@,
            Self::ZeroLegacyKeyEpoch => "legacy manifest key epoch is zero"@,
            Self::Io {
                phase: IoPhase::ReadInitialSlot | IoPhase::ReadVerificationSlot,
                error: PersistIoError::RequiresReset,
            } => "persistent manifest key-policy read requires a device reset"@,
            Self::Io {
                phase: IoPhase::WriteInactiveSlot,
                error: PersistIoError::OutcomeUnknown,
            } => "persistent manifest key-policy write outcome is unknown and requires reset"@,
            Self::Io {
                phase: IoPhase::Flush,
                error: PersistIoError::OutcomeUnknown,
            } => "persistent manifest key-policy flush outcome is unknown and requires reset"@,
            Self::Io {
                phase: IoPhase::ReadInitialSlot,
                ..
            } => "persistent manifest key-policy initial record read failed"@,
            Self::Io {
                phase: IoPhase::WriteInactiveSlot,
                ..
            } => "persistent manifest key-policy inactive-slot write failed"@,
            Self::Io {
                phase: IoPhase::Flush,
                ..
            } => "persistent manifest key-policy cache flush failed"@,
            Self::Io {
                phase: IoPhase::ReadVerificationSlot,
                ..
            } => "persistent manifest key-policy verification read failed"@,
            Self::Io {
                phase: IoPhase::ReadSuperblock,
                ..
            } => "persistent manifest key-policy used an invalid superblock phase"@,
            Self::Recovery(error) => error.message(),
            Self::LegacyState(error) => error.message(),
            Self::PolicyState(error) => error.message(),
            Self::LegacyBindingMismatch => {
                "legacy rollback record is not the authorized key-policy predecessor"@
            }
            Self::PolicyDigestMismatch => {
                "persistent manifest record belongs to another compiled keyring policy"@
            }
            Self::ActiveKeyBindingMismatch => {
                "persistent manifest active-key digest or id changed within one epoch"@
            }
            Self::RetiredKey { .. } => "signed manifest uses a retired key epoch"@,
            Self::SkippedKeyEpoch { .. } => "signed manifest skipped a required key epoch"@,
            Self::TransitionWithoutFloorAdvance { .. } => {
                "manifest key transition did not advance the rollback floor"@
            }
            Self::Rollback { .. } => "signed manifest is below the persistent key-policy floor"@,
            Self::Encode(error) => error.message(),
            Self::VerificationFailed => {
                "persistent manifest key-policy write did not survive flush and readback"@
            }
        }
    }

    pub fn as_str(self) -> (text: &'static str)
        ensures
            text@ == self.message(),
    {
        match self {
            Self::PartitionBounds => {
                "persistent manifest key-policy slots are outside the data partition"
            }
            Self::ZeroBootstrapFloor => "manifest key-policy bootstrap floor is zero",
            Self::ZeroArtifactIndex => "manifest key-policy artifact index is zero",
            Self::ZeroLegacyKeyEpoch => "legacy manifest key epoch is zero",
            Self::Io {
                phase: IoPhase::ReadInitialSlot | IoPhase::ReadVerificationSlot,
                error: PersistIoError::RequiresReset,
            } => "persistent manifest key-policy read requires a device reset",
            Self::Io {
                phase: IoPhase::WriteInactiveSlot,
                error: PersistIoError::OutcomeUnknown,
            } => "persistent manifest key-policy write outcome is unknown and requires reset",
            Self::Io {
                phase: IoPhase::Flush,
                error: PersistIoError::OutcomeUnknown,
            } => "persistent manifest key-policy flush outcome is unknown and requires reset",
            Self::Io {
                phase: IoPhase::ReadInitialSlot,
                ..
            } => "persistent manifest key-policy initial record read failed",
            Self::Io {
                phase: IoPhase::WriteInactiveSlot,
                ..
            } => "persistent manifest key-policy inactive-slot write failed",
            Self::Io {
                phase: IoPhase::Flush,
                ..
            } => "persistent manifest key-policy cache flush failed",
            Self::Io {
                phase: IoPhase::ReadVerificationSlot,
                ..
            } => "persistent manifest key-policy verification read failed",
            Self::Io {
                phase: IoPhase::ReadSuperblock,
                ..
            } => "persistent manifest key-policy used an invalid superblock phase",
            Self::Recovery(error) => error.as_str(),
            Self::LegacyState(error) => error.as_str(),
            Self::PolicyState(error) => error.as_str(),
            Self::LegacyBindingMismatch => {
                "legacy rollback record is not the authorized key-policy predecessor"
            }
            Self::PolicyDigestMismatch => {
                "persistent manifest record belongs to another compiled keyring policy"
            }
            Self::ActiveKeyBindingMismatch => {
                "persistent manifest active-key digest or id changed within one epoch"
            }
            Self::RetiredKey { .. } => "signed manifest uses a retired key epoch",
            Self::SkippedKeyEpoch { .. } => "signed manifest skipped a required key epoch",
            Self::TransitionWithoutFloorAdvance { .. } => {
                "manifest key transition did not advance the rollback floor"
            }
            Self::Rollback { .. } => "signed manifest is below the persistent key-policy floor",
            Self::Encode(error) => error.as_str(),
            Self::VerificationFailed => {
                "persistent manifest key-policy write did not survive flush and readback"
            }
        }
    }
}

#[derive(Clone, Copy, Debug, PartialEq, Eq)]
pub struct ManifestKeyRotationEvidence {
    pub provisioned_before: bool,
    pub legacy_migrated: bool,
    pub key_transition: bool,
    pub previous_key_id: u8,
    pub previous_key_epoch: u32,
    pub active_key_id: u8,
    pub active_key_epoch: u32,
    pub bootstrap_floor: u32,
    pub persisted_floor_before: u32,
    pub effective_floor: u32,
    pub artifact_index: u32,
    pub committed_floor: u32,
    pub initial_generation: u64,
    pub committed_generation: u64,
    pub initial_slot: u8,
    pub committed_slot: u8,
    pub initial_valid_slots: u8,
    pub initial_rejected_slots: u8,
    pub initial_active_policy_slots: u8,
    pub committed_active_policy_slots: u8,
    pub floor_advanced: bool,
    pub record_written: bool,
    pub redundancy_repaired: bool,
    pub reads: u8,
    pub writes: u8,
    pub flushes: u8,
    pub binding: ManifestKeyPolicyBinding,
}

#[derive(Clone, Copy, Debug, PartialEq, Eq)]
pub struct ManifestKeyRotationRequest {
    pub partition_first_lba: u64,
    pub partition_sectors: u64,
    pub expected_format_epoch: FormatEpoch,
    pub bootstrap_floor: u32,
    pub artifact_index: u32,
    pub artifact_binding: ManifestKeyPolicyBinding,
    pub legacy_predecessor: ManifestRollbackBinding,
    pub legacy_predecessor_epoch: u32,
}

/// The payload the ledger held before: a legacy single-key rollback state or
/// an ordered key-policy state.
#[derive(Clone, Copy, Debug, PartialEq, Eq)]
pub enum ExistingManifestKeyState {
    Legacy(ManifestRollbackState),
    Policy(ManifestKeyPolicyState),
}

pub open spec fn spec_existing_key_state(payload: Seq<u8>) -> Result<
    ExistingManifestKeyState,
    ManifestKeyRotationError,
> {
    if payload.len() >= 8 && payload.subrange(0, 8) == MANIFEST_KEY_POLICY_STATE_MAGIC@ {
        match spec_decode_key_policy(payload) {
            Ok(state) => Ok(ExistingManifestKeyState::Policy(state)),
            Err(error) => Err(ManifestKeyRotationError::PolicyState(error)),
        }
    } else {
        match spec_decode_rollback(payload) {
            Ok(state) => Ok(ExistingManifestKeyState::Legacy(state)),
            Err(error) => Err(ManifestKeyRotationError::LegacyState(error)),
        }
    }
}

fn decode_existing_manifest_key_state(payload: &[u8]) -> (result: Result<
    ExistingManifestKeyState,
    ManifestKeyRotationError,
>)
    ensures
        result == spec_existing_key_state(payload@),
{
    if payload.len() >= 8 && bytes_eq(&payload[0..8], &MANIFEST_KEY_POLICY_STATE_MAGIC) {
        return match ManifestKeyPolicyState::decode(payload) {
            Ok(state) => Ok(ExistingManifestKeyState::Policy(state)),
            Err(error) => Err(ManifestKeyRotationError::PolicyState(error)),
        };
    }
    match ManifestRollbackState::decode(payload) {
        Ok(state) => Ok(ExistingManifestKeyState::Legacy(state)),
        Err(error) => Err(ManifestKeyRotationError::LegacyState(error)),
    }
}

/// The slot holds a committed record whose payload is exactly `expected`.
pub open spec fn slot_holds_policy(sector: Seq<u8>, format_epoch: FormatEpoch, expected: ManifestKeyPolicyState) -> bool {
    spec_decode_record(sector, format_epoch) is Ok && spec_decode_key_policy(
        spec_decode_record(sector, format_epoch)->Ok_0.payload,
    ) == Ok::<ManifestKeyPolicyState, ManifestKeyPolicyStateError>(expected)
}

/// How many of the two slots hold exactly `expected`.
pub open spec fn spec_policy_slot_count(
    slot0: Seq<u8>,
    slot1: Seq<u8>,
    format_epoch: FormatEpoch,
    expected: ManifestKeyPolicyState,
) -> u8 {
    ((if slot_holds_policy(slot0, format_epoch, expected) { 1int } else { 0int }) + (if slot_holds_policy(
        slot1,
        format_epoch,
        expected,
    ) { 1int } else { 0int })) as u8
}

fn slot_holds_policy_exec(sector: &Sector, expected_format_epoch: FormatEpoch, expected: &ManifestKeyPolicyState) -> (holds: bool)
    ensures
        holds == slot_holds_policy(sector@, expected_format_epoch, *expected),
{
    match DataRecord::decode(sector, expected_format_epoch) {
        Ok(record) => match ManifestKeyPolicyState::decode(record.payload) {
            Ok(state) => state.same_as(expected),
            Err(_) => false,
        },
        Err(_) => false,
    }
}

fn manifest_policy_slot_count(
    slot0: &Sector,
    slot1: &Sector,
    expected_format_epoch: FormatEpoch,
    expected: ManifestKeyPolicyState,
) -> (count: u8)
    ensures
        count == spec_policy_slot_count(slot0@, slot1@, expected_format_epoch, expected),
{
    let first: u8 = if slot_holds_policy_exec(slot0, expected_format_epoch, &expected) { 1 } else { 0 };
    let second: u8 = if slot_holds_policy_exec(slot1, expected_format_epoch, &expected) { 1 } else { 0 };
    first + second
}

/// The key, epoch, trust anchor and floor the ledger carried before.
pub struct PreviousKey {
    pub key_id: u8,
    pub key_epoch: u32,
    pub trust_anchor_sha256: [u8; 32],
    pub floor: u32,
    pub legacy_migrated: bool,
    pub selected_policy: Option<ManifestKeyPolicyState>,
}

pub open spec fn spec_previous_key(
    existing: Option<ExistingManifestKeyState>,
    legacy_predecessor: ManifestRollbackBinding,
    legacy_predecessor_epoch: u32,
    artifact_binding: ManifestKeyPolicyBinding,
) -> Result<PreviousKey, ManifestKeyRotationError> {
    match existing {
        None => Ok(PreviousKey {
            key_id: 0,
            key_epoch: 0,
            trust_anchor_sha256: digest_at(zeros(32), 0),
            floor: 0,
            legacy_migrated: false,
            selected_policy: None,
        }),
        Some(ExistingManifestKeyState::Legacy(state)) => if state.binding != legacy_predecessor {
            Err(ManifestKeyRotationError::LegacyBindingMismatch)
        } else {
            Ok(PreviousKey {
                key_id: state.binding.key_id,
                key_epoch: legacy_predecessor_epoch,
                trust_anchor_sha256: state.binding.trust_anchor_sha256,
                floor: state.floor,
                legacy_migrated: true,
                selected_policy: None,
            })
        },
        Some(ExistingManifestKeyState::Policy(state)) => if state.binding.policy_sha256
            != artifact_binding.policy_sha256 {
            Err(ManifestKeyRotationError::PolicyDigestMismatch)
        } else {
            Ok(PreviousKey {
                key_id: state.binding.key_id,
                key_epoch: state.binding.key_epoch,
                trust_anchor_sha256: state.binding.trust_anchor_sha256,
                floor: state.floor,
                legacy_migrated: false,
                selected_policy: Some(state),
            })
        },
    }
}

/// The epoch rules: a provisioned ledger may keep its active epoch with the
/// same key, or advance exactly one epoch while raising the floor.
pub open spec fn spec_epoch_rules(
    provisioned: bool,
    previous: PreviousKey,
    artifact_binding: ManifestKeyPolicyBinding,
    artifact_index: u32,
) -> Result<(), ManifestKeyRotationError> {
    let next_epoch = if previous.key_epoch == u32::MAX { u32::MAX } else { (previous.key_epoch + 1) as u32 };
    if !provisioned {
        Ok(())
    } else if artifact_binding.key_epoch < previous.key_epoch {
        Err(ManifestKeyRotationError::RetiredKey {
            artifact_epoch: artifact_binding.key_epoch,
            active_epoch: previous.key_epoch,
        })
    } else if artifact_binding.key_epoch > next_epoch {
        Err(ManifestKeyRotationError::SkippedKeyEpoch {
            artifact_epoch: artifact_binding.key_epoch,
            active_epoch: previous.key_epoch,
        })
    } else if artifact_binding.key_epoch == previous.key_epoch && (artifact_binding.key_id
        != previous.key_id || artifact_binding.trust_anchor_sha256 != previous.trust_anchor_sha256) {
        Err(ManifestKeyRotationError::ActiveKeyBindingMismatch)
    } else if artifact_binding.key_epoch > previous.key_epoch && artifact_index <= previous.floor {
        Err(ManifestKeyRotationError::TransitionWithoutFloorAdvance {
            artifact_index,
            persisted_floor: previous.floor,
        })
    } else {
        Ok(())
    }
}

/// What the key-policy ledger held, and what the transaction writes, if anything.
pub struct KeyRotationDecision {
    pub recovered: Option<RecoveredModel>,
    pub provisioned: bool,
    pub previous: PreviousKey,
    pub initial_active_policy_slots: u8,
    pub commit: Option<LedgerCommit>,
}

pub open spec fn spec_key_rotation_decision(
    slot0: Seq<u8>,
    slot1: Seq<u8>,
    request: ManifestKeyRotationRequest,
) -> Result<KeyRotationDecision, ManifestKeyRotationError> {
    let epoch = request.expected_format_epoch;
    match spec_recover_ledger(slot0, slot1, epoch) {
        Err(error) => Err(ManifestKeyRotationError::Recovery(error)),
        Ok(recovered) => {
            let existing = match recovered {
                Some(record) => match spec_existing_key_state(record.payload) {
                    Ok(state) => Ok(Some(state)),
                    Err(error) => Err(error),
                },
                None => Ok(None),
            };
            match existing {
                Err(error) => Err(error),
                Ok(existing) => match spec_previous_key(
                    existing,
                    request.legacy_predecessor,
                    request.legacy_predecessor_epoch,
                    request.artifact_binding,
                ) {
                    Err(error) => Err(error),
                    Ok(previous) => {
                        let provisioned = existing is Some;
                        let effective = max_u32(request.bootstrap_floor, previous.floor);
                        let committed_state = ManifestKeyPolicyState {
                            floor: request.artifact_index,
                            binding: request.artifact_binding,
                        };
                        let active = spec_policy_slot_count(slot0, slot1, epoch, committed_state);
                        let written = !provisioned || previous.selected_policy != Some(committed_state)
                            || active < 2;
                        if spec_epoch_rules(provisioned, previous, request.artifact_binding, request.artifact_index) is Err {
                            Err(spec_epoch_rules(provisioned, previous, request.artifact_binding, request.artifact_index)->Err_0)
                        } else if request.artifact_index < effective {
                            Err(ManifestKeyRotationError::Rollback { actual: request.artifact_index, minimum: effective })
                        } else if !written {
                            Ok(KeyRotationDecision {
                                recovered,
                                provisioned,
                                previous,
                                initial_active_policy_slots: active,
                                commit: None,
                            })
                        } else {
                            match spec_encode_key_policy(committed_state) {
                                Err(error) => Err(ManifestKeyRotationError::PolicyState(error)),
                                Ok(payload) => match crate::manifest_tx::spec_next_record(recovered, payload, epoch) {
                                    Err(Ok(error)) => Err(ManifestKeyRotationError::Recovery(error)),
                                    Err(Err(error)) => Err(ManifestKeyRotationError::Encode(error)),
                                    Ok(commit) => Ok(KeyRotationDecision {
                                        recovered,
                                        provisioned,
                                        previous,
                                        initial_active_policy_slots: active,
                                        commit: Some(commit),
                                    }),
                                },
                            }
                        }
                    },
                },
            }
        },
    }
}

pub open spec fn spec_key_rotation_precheck(request: ManifestKeyRotationRequest) -> Result<(), ManifestKeyRotationError> {
    if request.bootstrap_floor == 0 {
        Err(ManifestKeyRotationError::ZeroBootstrapFloor)
    } else if request.artifact_index == 0 {
        Err(ManifestKeyRotationError::ZeroArtifactIndex)
    } else if request.legacy_predecessor_epoch == 0 {
        Err(ManifestKeyRotationError::ZeroLegacyKeyEpoch)
    } else if request.artifact_binding.spec_validate() is Err {
        Err(ManifestKeyRotationError::PolicyState(request.artifact_binding.spec_validate()->Err_0))
    } else if request.legacy_predecessor.spec_validate() is Err {
        Err(ManifestKeyRotationError::LegacyState(request.legacy_predecessor.spec_validate()->Err_0))
    } else if spec_validate_record_epoch(request.expected_format_epoch) is Err {
        Err(ManifestKeyRotationError::Encode(spec_validate_record_epoch(request.expected_format_epoch)->Err_0))
    } else {
        Ok(())
    }
}

/// The decision of `enforce_and_rotate_manifest_key_policy`, from the device
/// contents alone.
pub open spec fn spec_key_rotation_plan(
    disk: Seq<Seq<u8>>,
    request: ManifestKeyRotationRequest,
) -> Result<KeyRotationDecision, ManifestKeyRotationError> {
    let slots = MANIFEST_ROLLBACK_SLOT_RELATIVE_LBAS;
    let first = request.partition_first_lba;
    if spec_key_rotation_precheck(request) is Err {
        Err(spec_key_rotation_precheck(request)->Err_0)
    } else if !ledger_fits(first, request.partition_sectors, slots, disk.len()) {
        Err(ManifestKeyRotationError::PartitionBounds)
    } else {
        spec_key_rotation_decision(disk[first + slots[0]], disk[first + slots[1]], request)
    }
}

pub open spec fn key_rotation_evidence(
    decision: KeyRotationDecision,
    request: ManifestKeyRotationRequest,
    committed_valid_slots: u8,
    committed_rejected_slots: u8,
    committed_active_policy_slots: u8,
) -> ManifestKeyRotationEvidence {
    let previous = decision.previous;
    let effective = max_u32(request.bootstrap_floor, previous.floor);
    let written = decision.commit is Some;
    let committed_state = ManifestKeyPolicyState {
        floor: request.artifact_index,
        binding: request.artifact_binding,
    };
    let active = decision.initial_active_policy_slots;
    ManifestKeyRotationEvidence {
        provisioned_before: decision.provisioned,
        legacy_migrated: previous.legacy_migrated,
        key_transition: decision.provisioned && request.artifact_binding.key_epoch > previous.key_epoch,
        previous_key_id: previous.key_id,
        previous_key_epoch: previous.key_epoch,
        active_key_id: request.artifact_binding.key_id,
        active_key_epoch: request.artifact_binding.key_epoch,
        bootstrap_floor: request.bootstrap_floor,
        persisted_floor_before: previous.floor,
        effective_floor: effective,
        artifact_index: request.artifact_index,
        committed_floor: if written { request.artifact_index } else { previous.floor },
        initial_generation: initial_generation_of(decision.recovered),
        committed_generation: if written {
            decision.commit->Some_0.committed_generation
        } else {
            initial_generation_of(decision.recovered)
        },
        initial_slot: initial_slot_of(decision.recovered),
        committed_slot: if written {
            decision.commit->Some_0.committed_slot as u8
        } else {
            initial_slot_of(decision.recovered)
        },
        initial_valid_slots: initial_valid_of(decision.recovered),
        initial_rejected_slots: initial_rejected_of(decision.recovered),
        initial_active_policy_slots: active,
        committed_active_policy_slots: if written { committed_active_policy_slots } else { active },
        floor_advanced: request.artifact_index > effective,
        record_written: written,
        redundancy_repaired: previous.selected_policy == Some(committed_state) && active < 2,
        reads: if written { 4 } else { 2 },
        writes: if written { 1 } else { 0 },
        flushes: if written { 1 } else { 0 },
        binding: request.artifact_binding,
    }
}

/// A failure of the commit after the reads: an I/O error while writing,
/// flushing or reading back, or a readback that does not show the commit.
pub open spec fn is_key_rotation_commit_failure(error: ManifestKeyRotationError) -> bool {
    match error {
        ManifestKeyRotationError::Io { phase, .. } => is_commit_phase(phase),
        ManifestKeyRotationError::Recovery(_) | ManifestKeyRotationError::PolicyState(_) | ManifestKeyRotationError::VerificationFailed => true,
        _ => false,
    }
}

pub open spec fn is_initial_key_rotation_read_error(error: ManifestKeyRotationError) -> bool {
    match error {
        ManifestKeyRotationError::Io { phase, .. } => phase == IoPhase::ReadInitialSlot,
        _ => false,
    }
}

fn previous_key(
    existing: Option<ExistingManifestKeyState>,
    legacy_predecessor: ManifestRollbackBinding,
    legacy_predecessor_epoch: u32,
    artifact_binding: ManifestKeyPolicyBinding,
) -> (result: Result<PreviousKey, ManifestKeyRotationError>)
    ensures
        result == spec_previous_key(existing, legacy_predecessor, legacy_predecessor_epoch, artifact_binding),
{
    match existing {
        None => {
            let zero = [0u8; 32];
            proof {
                assert(zero =~= digest_at(zeros(32), 0));
            }
            Ok(PreviousKey {
                key_id: 0,
                key_epoch: 0,
                trust_anchor_sha256: zero,
                floor: 0,
                legacy_migrated: false,
                selected_policy: None,
            })
        },
        Some(ExistingManifestKeyState::Legacy(state)) => {
            if !state.binding.same_as(&legacy_predecessor) {
                return Err(ManifestKeyRotationError::LegacyBindingMismatch);
            }
            Ok(PreviousKey {
                key_id: state.binding.key_id,
                key_epoch: legacy_predecessor_epoch,
                trust_anchor_sha256: state.binding.trust_anchor_sha256,
                floor: state.floor,
                legacy_migrated: true,
                selected_policy: None,
            })
        },
        Some(ExistingManifestKeyState::Policy(state)) => {
            if !digest_eq(&state.binding.policy_sha256, &artifact_binding.policy_sha256) {
                return Err(ManifestKeyRotationError::PolicyDigestMismatch);
            }
            Ok(PreviousKey {
                key_id: state.binding.key_id,
                key_epoch: state.binding.key_epoch,
                trust_anchor_sha256: state.binding.trust_anchor_sha256,
                floor: state.floor,
                legacy_migrated: false,
                selected_policy: Some(state),
            })
        },
    }
}

fn epoch_rules(
    provisioned: bool,
    previous: &PreviousKey,
    artifact_binding: ManifestKeyPolicyBinding,
    artifact_index: u32,
) -> (result: Result<(), ManifestKeyRotationError>)
    ensures
        result == spec_epoch_rules(provisioned, *previous, artifact_binding, artifact_index),
{
    if !provisioned {
        return Ok(());
    }
    let next_epoch = if previous.key_epoch == u32::MAX {
        u32::MAX
    } else {
        previous.key_epoch + 1
    };
    if artifact_binding.key_epoch < previous.key_epoch {
        return Err(ManifestKeyRotationError::RetiredKey {
            artifact_epoch: artifact_binding.key_epoch,
            active_epoch: previous.key_epoch,
        });
    }
    if artifact_binding.key_epoch > next_epoch {
        return Err(ManifestKeyRotationError::SkippedKeyEpoch {
            artifact_epoch: artifact_binding.key_epoch,
            active_epoch: previous.key_epoch,
        });
    }
    if artifact_binding.key_epoch == previous.key_epoch && (artifact_binding.key_id
        != previous.key_id || !digest_eq(&artifact_binding.trust_anchor_sha256, &previous.trust_anchor_sha256)) {
        return Err(ManifestKeyRotationError::ActiveKeyBindingMismatch);
    }
    if artifact_binding.key_epoch > previous.key_epoch && artifact_index <= previous.floor {
        return Err(ManifestKeyRotationError::TransitionWithoutFloorAdvance {
            artifact_index,
            persisted_floor: previous.floor,
        });
    }
    Ok(())
}

fn prepare_key_rotation<'a>(
    slot0: &'a Sector,
    slot1: &'a Sector,
    request: ManifestKeyRotationRequest,
) -> (result: Result<
    (Option<RecoveredRecord<'a>>, bool, PreviousKey, u8, Option<PreparedLedgerCommit>),
    ManifestKeyRotationError,
>)
    ensures
        match spec_key_rotation_decision(slot0@, slot1@, request) {
            Err(error) => result is Err && result->Err_0 == error,
            Ok(decision) => {
                let (recovered, provisioned, previous, active, prepared) = result->Ok_0;
                &&& result is Ok
                &&& option_view(recovered) == decision.recovered
                &&& provisioned == decision.provisioned
                &&& previous == decision.previous
                &&& active == decision.initial_active_policy_slots
                &&& (prepared is Some <==> decision.commit is Some)
                &&& (prepared is Some ==> {
                    let p = prepared->Some_0;
                    let c = decision.commit->Some_0;
                    &&& p.committed_generation == c.committed_generation
                    &&& p.committed_slot == c.committed_slot
                    &&& p.committed_sector@ == c.committed_sector
                    &&& c.committed_slot < 2
                    &&& spec_encode_record(request.expected_format_epoch, c.committed_generation, c.committed_payload)
                        == Ok::<Seq<u8>, RecordError>(c.committed_sector)
                })
            },
        },
{
    let expected_format_epoch = request.expected_format_epoch;
    let recovered = match recover_ledger([slot0, slot1], expected_format_epoch) {
        Ok(recovered) => recovered,
        Err(error) => return Err(ManifestKeyRotationError::Recovery(error)),
    };
    proof {
        if recovered is Some {
            lemma_recovered_slot(slot0@, slot1@, expected_format_epoch);
        }
    }
    assert(option_view(recovered) == spec_recover_ledger(slot0@, slot1@, expected_format_epoch)->Ok_0);
    let existing = match recovered {
        Some(record) => Some(decode_existing_manifest_key_state(record.payload)?),
        None => None,
    };
    let previous = previous_key(
        existing,
        request.legacy_predecessor,
        request.legacy_predecessor_epoch,
        request.artifact_binding,
    )?;
    let provisioned = existing.is_some();
    epoch_rules(provisioned, &previous, request.artifact_binding, request.artifact_index)?;
    let effective_floor = if request.bootstrap_floor >= previous.floor {
        request.bootstrap_floor
    } else {
        previous.floor
    };
    if request.artifact_index < effective_floor {
        return Err(ManifestKeyRotationError::Rollback { actual: request.artifact_index, minimum: effective_floor });
    }
    let committed_state = ManifestKeyPolicyState {
        floor: request.artifact_index,
        binding: request.artifact_binding,
    };
    let active = manifest_policy_slot_count(slot0, slot1, expected_format_epoch, committed_state);
    let selected_is_committed = match previous.selected_policy {
        Some(state) => state.same_as(&committed_state),
        None => false,
    };
    let record_written = !provisioned || !selected_is_committed || active < 2;
    if !record_written {
        return Ok((recovered, provisioned, previous, active, None));
    }
    let committed_payload = match committed_state.encode() {
        Ok(bytes) => bytes,
        Err(error) => return Err(ManifestKeyRotationError::PolicyState(error)),
    };
    let prepared = match prepare_next_record(&recovered, &committed_payload, expected_format_epoch) {
        Ok(prepared) => prepared,
        Err(Ok(error)) => return Err(ManifestKeyRotationError::Recovery(error)),
        Err(Err(error)) => return Err(ManifestKeyRotationError::Encode(error)),
    };
    Ok((recovered, provisioned, previous, active, Some(prepared)))
}

/// The transaction reads its ledger: its inputs pass the checks made before
/// any device access and the ledger lies on the device.
pub open spec fn key_rotation_reads_begin(device_sectors: nat, request: ManifestKeyRotationRequest) -> bool {
    &&& spec_key_rotation_precheck(request) is Ok
    &&& ledger_fits(request.partition_first_lba, request.partition_sectors, MANIFEST_ROLLBACK_SLOT_RELATIVE_LBAS, device_sectors)
}

/// The calls the transaction makes when none of them fails.
pub open spec fn key_rotation_ops(disk: Seq<Seq<u8>>, request: ManifestKeyRotationRequest) -> Seq<IoOp> {
    let plan = spec_key_rotation_plan(disk, request);
    ledger_ops(
        key_rotation_reads_begin(disk.len(), request),
        request.partition_first_lba,
        MANIFEST_ROLLBACK_SLOT_RELATIVE_LBAS,
        if plan is Ok { plan->Ok_0.commit } else { None },
    )
}

/// Migrates the single-key rollback record into the ordered persistent key
/// policy.
///
/// A cryptographically verified artifact may retain the active key epoch or
/// advance exactly one epoch while also raising the rollback floor. Reverse
/// transitions, skipped epochs, policy-namespace changes, and same-epoch key
/// substitutions fail before any write. Mixed old/new slots after a successful
/// transition are repaired on the next boot, followed by a read-only steady
/// state once both slots carry the active policy.
#[verifier::spinoff_prover]
#[verifier::rlimit(80)]
pub fn enforce_and_rotate_manifest_key_policy<D: DurableSectorIo>(
    io: &mut D,
    request: ManifestKeyRotationRequest,
) -> (result: Result<ManifestKeyRotationEvidence, ManifestKeyRotationError>)
    ensures
        result is Err && is_initial_key_rotation_read_error(result->Err_0) ==> old(io).log().len() < final(io).log().len(),
        ({
            let ops = key_rotation_ops(old(io).sectors(), request);
            &&& result is Ok || !(result->Err_0 is Io) ==> final(io).log() == old(io).log() + ops
            &&& result is Err && result->Err_0 is Io && result->Err_0->phase == IoPhase::WriteInactiveSlot
                ==> final(io).log() == old(io).log() + ops.take(ops.len() - 3)
            &&& result is Err && result->Err_0 is Io && result->Err_0->phase == IoPhase::Flush
                ==> final(io).log() == old(io).log() + ops.take(ops.len() - 2)
        }),
        match spec_key_rotation_plan(old(io).sectors(), request) {
            Err(error) => {
                &&& final(io).sectors() == old(io).sectors()
                &&& (result == Err::<ManifestKeyRotationEvidence, ManifestKeyRotationError>(error)
                    || (result is Err && is_initial_key_rotation_read_error(result->Err_0)))
                &&& !key_rotation_reads_begin(old(io).sectors().len(), request) ==> result == Err::<
                    ManifestKeyRotationEvidence,
                    ManifestKeyRotationError,
                >(error)
            },
            Ok(decision) => match decision.commit {
                None => {
                    &&& final(io).sectors() == old(io).sectors()
                    &&& result is Ok ==> result->Ok_0 == key_rotation_evidence(
                        decision,
                        request,
                        0,
                        0,
                        0,
                    )
                    &&& result is Err ==> is_initial_key_rotation_read_error(result->Err_0)
                },
                Some(commit) => {
                    let lba = ledger_commit_lba(
                        request.partition_first_lba,
                        MANIFEST_ROLLBACK_SLOT_RELATIVE_LBAS,
                        commit,
                    );
                    &&& unchanged_except(old(io).sectors(), final(io).sectors(), lba)
                    &&& result is Err ==> is_initial_key_rotation_read_error(result->Err_0)
                        || is_key_rotation_commit_failure(result->Err_0)
                    &&& final(io).sectors()[lba] == commit.committed_sector ==> result is Ok
                        || result->Err_0 is Io
                    &&& result is Err && !(result->Err_0 is Io) && !is_initial_key_rotation_read_error(result->Err_0) ==> result->Err_0 == key_policy_readback_error(
                        final(io).sectors()[request.partition_first_lba + MANIFEST_ROLLBACK_SLOT_RELATIVE_LBAS[0]],
                        final(io).sectors()[request.partition_first_lba + MANIFEST_ROLLBACK_SLOT_RELATIVE_LBAS[1]],
                        request.expected_format_epoch,
                    )
                    &&& result is Ok ==> {
                        let after = final(io).sectors();
                        let slots = MANIFEST_ROLLBACK_SLOT_RELATIVE_LBAS;
                        let first = request.partition_first_lba;
                        let slot0 = after[first + slots[0]];
                        let slot1 = after[first + slots[1]];
                        let recovered = spec_recover(slot0, slot1, request.expected_format_epoch);
                        let committed_state = ManifestKeyPolicyState {
                            floor: request.artifact_index,
                            binding: request.artifact_binding,
                        };
                        let active = spec_policy_slot_count(
                            slot0,
                            slot1,
                            request.expected_format_epoch,
                            committed_state,
                        );
                        &&& ledger_commit_outcome(
                            old(io).sectors(),
                            after,
                            first,
                            slots,
                            request.expected_format_epoch,
                            commit,
                        )
                        &&& active > 0
                        &&& result->Ok_0 == key_rotation_evidence(
                            decision,
                            request,
                            recovered->Ok_0.valid_slots,
                            recovered->Ok_0.rejected_slots,
                            active,
                        )
                    }
                },
            },
        },
{
    if request.bootstrap_floor == 0 {
        return Err(ManifestKeyRotationError::ZeroBootstrapFloor);
    }
    if request.artifact_index == 0 {
        return Err(ManifestKeyRotationError::ZeroArtifactIndex);
    }
    if request.legacy_predecessor_epoch == 0 {
        return Err(ManifestKeyRotationError::ZeroLegacyKeyEpoch);
    }
    if let Err(error) = request.artifact_binding.validate() {
        return Err(ManifestKeyRotationError::PolicyState(error));
    }
    if let Err(error) = request.legacy_predecessor.validate() {
        return Err(ManifestKeyRotationError::LegacyState(error));
    }
    if let Err(error) = validate_record_epoch(request.expected_format_epoch) {
        return Err(ManifestKeyRotationError::Encode(error));
    }
    let expected_format_epoch = request.expected_format_epoch;
    let partition_first_lba = request.partition_first_lba;
    let slots = MANIFEST_ROLLBACK_SLOT_RELATIVE_LBAS;
    let ghost start = io.log();
    let (slot0, slot1) = match load_ledger_slots(io, partition_first_lba, request.partition_sectors, slots) {
        Ok(pair) => pair,
        Err(LoadFailure::Io { phase, error }) => return Err(ManifestKeyRotationError::Io { phase, error }),
        Err(_) => return Err(ManifestKeyRotationError::PartitionBounds),
    };
    let (recovered, provisioned_before, previous, initial_active_policy_slots, prepared) =
        prepare_key_rotation(&slot0, &slot1, request)?;
    let ghost decision = spec_key_rotation_decision(slot0@, slot1@, request)->Ok_0;
    let bootstrap_floor = request.bootstrap_floor;
    let artifact_index = request.artifact_index;
    let artifact_binding = request.artifact_binding;
    let effective_floor = if bootstrap_floor >= previous.floor {
        bootstrap_floor
    } else {
        previous.floor
    };
    let committed_state = ManifestKeyPolicyState { floor: artifact_index, binding: artifact_binding };
    let selected_is_committed = match previous.selected_policy {
        Some(state) => state.same_as(&committed_state),
        None => false,
    };
    let key_transition = provisioned_before && artifact_binding.key_epoch > previous.key_epoch;
    let floor_advanced = artifact_index > effective_floor;
    let redundancy_repaired = selected_is_committed && initial_active_policy_slots < 2;
    let (initial_generation, initial_slot, initial_valid_slots, initial_rejected_slots) = match recovered {
        Some(record) => (record.generation, record.slot as u8, record.valid_slots, record.rejected_slots),
        None => (0u64, 0xffu8, 0u8, 0u8),
    };
    let prepared = match prepared {
        None => {
            return Ok(ManifestKeyRotationEvidence {
                provisioned_before,
                legacy_migrated: previous.legacy_migrated,
                key_transition,
                previous_key_id: previous.key_id,
                previous_key_epoch: previous.key_epoch,
                active_key_id: artifact_binding.key_id,
                active_key_epoch: artifact_binding.key_epoch,
                bootstrap_floor,
                persisted_floor_before: previous.floor,
                effective_floor,
                artifact_index,
                committed_floor: previous.floor,
                initial_generation,
                committed_generation: initial_generation,
                initial_slot,
                committed_slot: initial_slot,
                initial_valid_slots,
                initial_rejected_slots,
                initial_active_policy_slots,
                committed_active_policy_slots: initial_active_policy_slots,
                floor_advanced,
                record_written: false,
                redundancy_repaired,
                reads: 2,
                writes: 0,
                flushes: 0,
                binding: artifact_binding,
            });
        },
        Some(prepared) => prepared,
    };
    let ghost commit = decision.commit->Some_0;
    let first_lba = partition_first_lba + slots[0];
    let second_lba = partition_first_lba + slots[1];
    let committed_lba = if prepared.committed_slot == 0 {
        first_lba
    } else {
        second_lba
    };
    let ghost reads = slot_reads(first_lba, second_lba);
    let ghost calls = commit_ops(committed_lba, prepared.committed_sector@, first_lba, second_lba);
    proof {
        assert(start + reads + calls.take(1) =~= start + (reads + calls).take(3));
        assert(start + reads + calls.take(2) =~= start + (reads + calls).take(4));
        assert(start + reads + calls =~= start + (reads + calls));
    }
    let (verified0, verified1) = match commit_and_read_back(
        io,
        committed_lba,
        &prepared.committed_sector,
        first_lba,
        second_lba,
    ) {
        Ok(pair) => pair,
        Err((phase, error)) => return Err(ManifestKeyRotationError::Io { phase, error }),
    };
    proof {
        let committed = if commit.committed_slot == 0 { verified0@ } else { verified1@ };
        if committed == commit.committed_sector {
            lemma_kept_commit_is_recovered(
                slot0@,
                slot1@,
                verified0@,
                verified1@,
                expected_format_epoch,
                decision.recovered,
                commit.committed_payload,
            );
            lemma_key_policy_round_trip(ManifestKeyPolicyState { floor: artifact_index, binding: artifact_binding });
            lemma_record_round_trip(expected_format_epoch, commit.committed_generation, commit.committed_payload);
        }
    }
    let verified = match recover([&verified0, &verified1], expected_format_epoch) {
        Ok(record) => record,
        Err(error) => return Err(ManifestKeyRotationError::Recovery(error)),
    };
    let verified_state = match ManifestKeyPolicyState::decode(verified.payload) {
        Ok(state) => state,
        Err(error) => return Err(ManifestKeyRotationError::PolicyState(error)),
    };
    let committed_active_policy_slots = manifest_policy_slot_count(
        &verified0,
        &verified1,
        expected_format_epoch,
        committed_state,
    );
    if !ledger_readback_ok(
        &verified,
        &verified0,
        &verified1,
        &slot0,
        &slot1,
        &prepared,
        expected_format_epoch,
        Ghost(commit),
    ) || !verified_state.same_as(&committed_state) || committed_active_policy_slots == 0 {
        return Err(ManifestKeyRotationError::VerificationFailed);
    }
    Ok(ManifestKeyRotationEvidence {
        provisioned_before,
        legacy_migrated: previous.legacy_migrated,
        key_transition,
        previous_key_id: previous.key_id,
        previous_key_epoch: previous.key_epoch,
        active_key_id: artifact_binding.key_id,
        active_key_epoch: artifact_binding.key_epoch,
        bootstrap_floor,
        persisted_floor_before: previous.floor,
        effective_floor,
        artifact_index,
        committed_floor: artifact_index,
        initial_generation,
        committed_generation: prepared.committed_generation,
        initial_slot,
        committed_slot: prepared.committed_slot as u8,
        initial_valid_slots,
        initial_rejected_slots,
        initial_active_policy_slots,
        committed_active_policy_slots,
        floor_advanced,
        record_written: true,
        redundancy_repaired,
        reads: 4,
        writes: 1,
        flushes: 1,
        binding: artifact_binding,
    })
}

/// Key rotation keeps both the floor and the key order monotonic. When the
/// transaction decides to go ahead, the artifact index is at least the
/// bootstrap floor and the floor held before; on a provisioned ledger the
/// artifact either keeps the active epoch with the same key and trust anchor,
/// or moves exactly one epoch on while raising the floor; and afterwards the
/// ledger holds the artifact's floor and binding, in the record it writes or,
/// when it writes nothing, in the policy it already selected.
pub proof fn lemma_key_rotation_is_monotonic(
    slot0: Seq<u8>,
    slot1: Seq<u8>,
    request: ManifestKeyRotationRequest,
)
    requires
        spec_key_rotation_decision(slot0, slot1, request) is Ok,
    ensures
        ({
            let decision = spec_key_rotation_decision(slot0, slot1, request)->Ok_0;
            let previous = decision.previous;
            let artifact = request.artifact_binding;
            let held = ManifestKeyPolicyState { floor: request.artifact_index, binding: artifact };
            &&& request.artifact_index >= request.bootstrap_floor
            &&& request.artifact_index >= previous.floor
            &&& decision.provisioned ==> {
                ||| (artifact.key_epoch == previous.key_epoch && artifact.key_id == previous.key_id
                    && artifact.trust_anchor_sha256 == previous.trust_anchor_sha256)
                ||| (artifact.key_epoch == previous.key_epoch + 1 && request.artifact_index
                    > previous.floor)
            }
            &&& match decision.commit {
                Some(commit) => spec_decode_key_policy(commit.committed_payload) == Ok::<
                    ManifestKeyPolicyState,
                    ManifestKeyPolicyStateError,
                >(held),
                None => previous.selected_policy == Some(held),
            }
        }),
{
    let decision = spec_key_rotation_decision(slot0, slot1, request)->Ok_0;
    if decision.commit is Some {
        lemma_key_policy_round_trip(
            ManifestKeyPolicyState { floor: request.artifact_index, binding: request.artifact_binding },
        );
    }
}

/// The error a key-policy commit reports when the rollback slots it reads back do not
/// confirm the commit: recovery's error, the decoder's error, or a
/// verification failure.
pub open spec fn key_policy_readback_error(after0: Seq<u8>, after1: Seq<u8>, epoch: FormatEpoch) -> ManifestKeyRotationError {
    match spec_recover(after0, after1, epoch) {
        Err(error) => ManifestKeyRotationError::Recovery(error),
        Ok(record) => match spec_decode_key_policy(record.payload) {
            Err(error) => ManifestKeyRotationError::PolicyState(error),
            Ok(_) => ManifestKeyRotationError::VerificationFailed,
        },
    }
}

/// Against a provisioned key ledger whose active key is at epoch `E` with
/// floor `F`: an artifact signed at an epoch below `E` is refused as retired,
/// one past `E + 1` as skipped, one at `E` with another key or trust anchor as
/// a binding mismatch, and one at `E + 1` whose index does not exceed `F` as a
/// transition without floor advance. The same key at `E`, or any key at
/// `E + 1` with a higher index, passes.
pub proof fn lemma_key_epoch_rules(
    previous: PreviousKey,
    artifact_binding: ManifestKeyPolicyBinding,
    artifact_index: u32,
)
    ensures
        ({
            let rules = spec_epoch_rules(true, previous, artifact_binding, artifact_index);
            let epoch = artifact_binding.key_epoch;
            let active = previous.key_epoch;
            &&& epoch < active ==> rules == Err::<(), ManifestKeyRotationError>(
                ManifestKeyRotationError::RetiredKey { artifact_epoch: epoch, active_epoch: active },
            )
            &&& epoch > active + 1 ==> rules == Err::<(), ManifestKeyRotationError>(
                ManifestKeyRotationError::SkippedKeyEpoch { artifact_epoch: epoch, active_epoch: active },
            )
            &&& epoch == active && (artifact_binding.key_id != previous.key_id
                || artifact_binding.trust_anchor_sha256 != previous.trust_anchor_sha256) ==> rules == Err::<
                (),
                ManifestKeyRotationError,
            >(ManifestKeyRotationError::ActiveKeyBindingMismatch)
            &&& epoch == active + 1 && artifact_index <= previous.floor ==> rules == Err::<(), ManifestKeyRotationError>(
                ManifestKeyRotationError::TransitionWithoutFloorAdvance {
                    artifact_index,
                    persisted_floor: previous.floor,
                },
            )
            &&& epoch == active && artifact_binding.key_id == previous.key_id
                && artifact_binding.trust_anchor_sha256 == previous.trust_anchor_sha256 ==> rules is Ok
            &&& epoch == active + 1 && artifact_index > previous.floor ==> rules is Ok
        }),
{
}

} // verus!

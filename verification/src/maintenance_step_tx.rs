//! Admission checks over the maintenance ledgers, and committing or replaying
//! one step of the fixed maintenance program.
use vstd::prelude::*;
use crate::codec::{all_zero, digest_at, digest_eq, lemma_digest_at, lemma_digest_at_view, zeros};
use crate::digest::sha256_digest;
use crate::io::{commit_ops, is_commit_phase, ledger_reads, lemma_log_prefix_extend, lemma_log_prefix_then, lemma_log_prefix_widen, lemma_log_stops_after, log_prefix, slot_reads, unchanged_except, IoOp, DurableSectorIo, IoPhase, PersistIoError};
use crate::layout::{
    FormatEpoch, Sector, MAINTENANCE_AUDIT_SLOT_RELATIVE_LBAS,
    MAINTENANCE_EXECUTION_SLOT_RELATIVE_LBAS, MAINTENANCE_STEP_DRAIN,
    MAINTENANCE_STEP_DRAIN_VALIDATED, MAINTENANCE_STEP_REPLAY_SAFE_FROM_BOOT_START,
    MAINTENANCE_STEP_ROTATION_ONE, MAINTENANCE_STEP_SLOT_RELATIVE_LBAS,
};
use crate::ledger::{commit_and_read_back, ledger_fits, load_ledger_slots, LoadFailure};
use crate::maintenance_audit::{
    spec_decode_audit, MaintenanceAuditState, MaintenanceAuditStateError,
    MaintenanceAuthorizationAuditBinding,
};
use crate::maintenance_audit_tx::MaintenanceAuditRequest;
use crate::maintenance_execution::{MaintenanceExecutionState, MaintenanceExecutionStateError};
use crate::maintenance_execution_tx::{decoded_audit, decoded_execution, ledgers_diverge};
use crate::maintenance_step::{
    lemma_decoded_step_is_valid, lemma_step_round_trip, spec_decode_step, spec_encode_step, step_chain_material, maintenance_step_chain_sha256,
    MaintenanceStepCommitBinding, MaintenanceStepState, MaintenanceStepStateError,
};
use crate::manifest_tx::{
    lemma_kept_commit_is_recovered, ledger_commit_lba, initial_generation_of, initial_rejected_of, initial_slot_of, initial_valid_of,
    ledger_commit_outcome, ledger_readback_ok, option_view, prepare_next_record, spec_next_record,
    LedgerCommit, PreparedLedgerCommit,
};
use crate::record::{
    lemma_recovered_slot, recover, recover_ledger, spec_encode_record, spec_recover,
    spec_recover_ledger, spec_validate_record_epoch, validate_record_epoch, RecordError,
    RecoveredModel, RecoveredRecord, RecoveryError,
};

verus! {

broadcast use vstd::array::group_array_axioms;

#[derive(Clone, Copy, Debug, PartialEq, Eq, Structural)]
pub enum MaintenanceStepError {
    PartitionBounds,
    Io { phase: IoPhase, error: PersistIoError },
    AuditRecovery(RecoveryError),
    AuditState(MaintenanceAuditStateError),
    ExecutionRecovery(RecoveryError),
    ExecutionState(MaintenanceExecutionStateError),
    StepRecovery(RecoveryError),
    StepState(MaintenanceStepStateError),
    BootstrapStep { sequence: u64, step: u32 },
    Replay { actual: u64, minimum: u64 },
    SequenceGap { actual: u64, expected: u64 },
    StepGap { actual: u32, expected: u32 },
    AuthorizationBindingMismatch,
    NamespaceMismatch,
    LedgerDivergence,
    ExecutionAlreadyComplete,
    TerminalStepIncomplete,
    SequenceExhausted,
    Encode(RecordError),
    VerificationFailed,
}

impl MaintenanceStepError {
    /// The fixed text that describes this error.
    pub open spec fn message(self) -> Seq<char> {
        match self {
            Self::PartitionBounds => "maintenance step slots are outside the data partition"@,
            Self::Io {
                phase: IoPhase::ReadInitialSlot | IoPhase::ReadVerificationSlot,
                error: PersistIoError::RequiresReset,
            } => "maintenance step read requires a device reset"@,
            Self::Io {
                phase: IoPhase::WriteInactiveSlot,
                error: PersistIoError::OutcomeUnknown,
            } => "maintenance step write outcome is unknown and requires reset"@,
            Self::Io {
                phase: IoPhase::Flush,
                error: PersistIoError::OutcomeUnknown,
            } => "maintenance step flush outcome is unknown and requires reset"@,
            Self::Io {
                phase: IoPhase::ReadInitialSlot,
                ..
            } => "maintenance step initial record read failed"@,
            Self::Io {
                phase: IoPhase::WriteInactiveSlot,
                ..
            } => "maintenance step inactive-slot write failed"@,
            Self::Io {
                phase: IoPhase::Flush,
                ..
            } => "maintenance step cache flush failed"@,
            Self::Io {
                phase: IoPhase::ReadVerificationSlot,
                ..
            } => "maintenance step verification read failed"@,
            Self::Io {
                phase: IoPhase::ReadSuperblock,
                ..
            } => "maintenance step used an invalid superblock phase"@,
            Self::AuditRecovery(error)
            | Self::ExecutionRecovery(error)
            | Self::StepRecovery(error) => error.message(),
            Self::AuditState(error) => error.message(),
            Self::ExecutionState(error) => error.message(),
            Self::StepState(error) => error.message(),
            Self::BootstrapStep { .. } => {
                "maintenance step journal did not start at its first fixed step"@
            }
            Self::Replay { .. } => "maintenance step request predates the selected journal head"@,
            Self::SequenceGap { .. } => "maintenance step request skipped an authorization"@,
            Self::StepGap { .. } => "maintenance step request skipped a fixed program step"@,
            Self::AuthorizationBindingMismatch => {
                "maintenance step authorization does not match the durable audit head"@
            }
            Self::NamespaceMismatch => {
                "maintenance step journal belongs to another root, policy, or device namespace"@
            }
            Self::LedgerDivergence => {
                "maintenance audit, execution, and step ledgers violate their sequential invariant"@
            }
            Self::ExecutionAlreadyComplete => {
                "maintenance steps cannot mutate after execution completion"@
            }
            Self::TerminalStepIncomplete => {
                "maintenance execution cannot complete before the durable drain step"@
            }
            Self::SequenceExhausted => "maintenance step sequence or entry count is exhausted"@,
            Self::Encode(error) => error.message(),
            Self::VerificationFailed => {
                "maintenance step commit did not survive flush and readback"@
            }
        }
    }

    pub fn as_str(self) -> (text: &'static str)
        ensures
            text@ == self.message(),
    {
        match self {
            Self::PartitionBounds => "maintenance step slots are outside the data partition",
            Self::Io {
                phase: IoPhase::ReadInitialSlot | IoPhase::ReadVerificationSlot,
                error: PersistIoError::RequiresReset,
            } => "maintenance step read requires a device reset",
            Self::Io {
                phase: IoPhase::WriteInactiveSlot,
                error: PersistIoError::OutcomeUnknown,
            } => "maintenance step write outcome is unknown and requires reset",
            Self::Io {
                phase: IoPhase::Flush,
                error: PersistIoError::OutcomeUnknown,
            } => "maintenance step flush outcome is unknown and requires reset",
            Self::Io {
                phase: IoPhase::ReadInitialSlot,
                ..
            } => "maintenance step initial record read failed",
            Self::Io {
                phase: IoPhase::WriteInactiveSlot,
                ..
            } => "maintenance step inactive-slot write failed",
            Self::Io {
                phase: IoPhase::Flush,
                ..
            } => "maintenance step cache flush failed",
            Self::Io {
                phase: IoPhase::ReadVerificationSlot,
                ..
            } => "maintenance step verification read failed",
            Self::Io {
                phase: IoPhase::ReadSuperblock,
                ..
            } => "maintenance step used an invalid superblock phase",
            Self::AuditRecovery(error)
            | Self::ExecutionRecovery(error)
            | Self::StepRecovery(error) => error.as_str(),
            Self::AuditState(error) => error.as_str(),
            Self::ExecutionState(error) => error.as_str(),
            Self::StepState(error) => error.as_str(),
            Self::BootstrapStep { .. } => {
                "maintenance step journal did not start at its first fixed step"
            }
            Self::Replay { .. } => "maintenance step request predates the selected journal head",
            Self::SequenceGap { .. } => "maintenance step request skipped an authorization",
            Self::StepGap { .. } => "maintenance step request skipped a fixed program step",
            Self::AuthorizationBindingMismatch => {
                "maintenance step authorization does not match the durable audit head"
            }
            Self::NamespaceMismatch => {
                "maintenance step journal belongs to another root, policy, or device namespace"
            }
            Self::LedgerDivergence => {
                "maintenance audit, execution, and step ledgers violate their sequential invariant"
            }
            Self::ExecutionAlreadyComplete => {
                "maintenance steps cannot mutate after execution completion"
            }
            Self::TerminalStepIncomplete => {
                "maintenance execution cannot complete before the durable drain step"
            }
            Self::SequenceExhausted => "maintenance step sequence or entry count is exhausted",
            Self::Encode(error) => error.as_str(),
            Self::VerificationFailed => {
                "maintenance step commit did not survive flush and readback"
            }
        }
    }
}

#[derive(Clone, Copy, Debug, PartialEq, Eq)]
pub struct MaintenanceStepAdmissionEvidence {
    pub provisioned_before: bool,
    pub legacy_anchor: bool,
    pub resumes_current_sequence: bool,
    pub audit_sequence: u64,
    pub execution_sequence: u64,
    pub step_sequence: u64,
    pub step_base_sequence: u64,
    pub step_entry_count: u64,
    pub step_ordinal: u32,
    pub step_generation: u64,
    pub step_slot: u8,
    pub step_valid_slots: u8,
    pub step_rejected_slots: u8,
    pub reads: u8,
    pub step_effect_sha256: [u8; 32],
    pub step_chain_sha256: [u8; 32],
    pub binding: MaintenanceAuthorizationAuditBinding,
}

#[derive(Clone, Copy, Debug, PartialEq, Eq)]
pub struct MaintenanceStepCommitRequest {
    pub partition_first_lba: u64,
    pub partition_sectors: u64,
    pub expected_format_epoch: FormatEpoch,
    pub binding: MaintenanceStepCommitBinding,
}

#[derive(Clone, Copy, Debug, PartialEq, Eq)]
pub struct MaintenanceStepEvidence {
    pub provisioned_before: bool,
    pub replayed: bool,
    pub requested_sequence: u64,
    pub requested_step_ordinal: u32,
    pub previous_sequence: u64,
    pub committed_sequence: u64,
    pub base_sequence: u64,
    pub previous_entry_count: u64,
    pub committed_entry_count: u64,
    pub previous_step_ordinal: u32,
    pub committed_step_ordinal: u32,
    pub initial_generation: u64,
    pub committed_generation: u64,
    pub initial_slot: u8,
    pub committed_slot: u8,
    pub initial_valid_slots: u8,
    pub initial_rejected_slots: u8,
    pub committed_valid_slots: u8,
    pub committed_rejected_slots: u8,
    pub reads: u8,
    pub writes: u8,
    pub flushes: u8,
    pub previous_chain_sha256: [u8; 32],
    pub committed_chain_sha256: [u8; 32],
    pub binding: MaintenanceStepCommitBinding,
}

#[derive(Clone, Copy, Debug, PartialEq, Eq)]
pub struct MaintenanceStepTerminalEvidence {
    pub sequence: u64,
    pub base_sequence: u64,
    pub entry_count: u64,
    pub step_ordinal: u32,
    pub generation: u64,
    pub slot: u8,
    pub valid_slots: u8,
    pub rejected_slots: u8,
    pub reads: u8,
    pub chain_sha256: [u8; 32],
    pub binding: MaintenanceAuthorizationAuditBinding,
}

#[derive(Clone, Copy, Debug, PartialEq, Eq)]
pub struct MaintenanceStepTerminalRequest {
    pub partition_first_lba: u64,
    pub partition_sectors: u64,
    pub expected_format_epoch: FormatEpoch,
    pub authorization: MaintenanceAuthorizationAuditBinding,
    pub rotations_completed: u32,
}

/// The audit, execution and step ledgers all lie inside the partition.
pub open spec fn step_ledgers_fit(first: u64, sectors: u64, device_sectors: nat) -> bool {
    &&& ledger_fits(first, sectors, MAINTENANCE_AUDIT_SLOT_RELATIVE_LBAS, device_sectors)
    &&& ledger_fits(first, sectors, MAINTENANCE_EXECUTION_SLOT_RELATIVE_LBAS, device_sectors)
    &&& ledger_fits(first, sectors, MAINTENANCE_STEP_SLOT_RELATIVE_LBAS, device_sectors)
}

pub open spec fn decoded_step(recovered: Option<RecoveredModel>) -> Result<Option<MaintenanceStepState>, MaintenanceStepStateError> {
    match recovered {
        Some(record) => match spec_decode_step(record.payload) {
            Ok(state) => Ok(Some(state)),
            Err(error) => Err(error),
        },
        None => Ok(None),
    }
}

/// The three recovered and decoded ledger heads.
pub struct LedgerHeads {
    pub audit: Option<MaintenanceAuditState>,
    pub execution: Option<MaintenanceExecutionState>,
    pub step_recovered: Option<RecoveredModel>,
    pub step: Option<MaintenanceStepState>,
}

/// Recovers and decodes the three ledgers, audit first.
pub open spec fn spec_ledger_heads(slots: Seq<Seq<u8>>, format_epoch: FormatEpoch) -> Result<LedgerHeads, MaintenanceStepError> {
    let audit = spec_recover_ledger(slots[0], slots[1], format_epoch);
    let execution = spec_recover_ledger(slots[2], slots[3], format_epoch);
    let step = spec_recover_ledger(slots[4], slots[5], format_epoch);
    if audit is Err {
        Err(MaintenanceStepError::AuditRecovery(audit->Err_0))
    } else if decoded_audit(audit->Ok_0) is Err {
        Err(MaintenanceStepError::AuditState(decoded_audit(audit->Ok_0)->Err_0))
    } else if execution is Err {
        Err(MaintenanceStepError::ExecutionRecovery(execution->Err_0))
    } else if decoded_execution(execution->Ok_0) is Err {
        Err(MaintenanceStepError::ExecutionState(decoded_execution(execution->Ok_0)->Err_0))
    } else if step is Err {
        Err(MaintenanceStepError::StepRecovery(step->Err_0))
    } else if decoded_step(step->Ok_0) is Err {
        Err(MaintenanceStepError::StepState(decoded_step(step->Ok_0)->Err_0))
    } else {
        Ok(LedgerHeads {
            audit: decoded_audit(audit->Ok_0)->Ok_0,
            execution: decoded_execution(execution->Ok_0)->Ok_0,
            step_recovered: step->Ok_0,
            step: decoded_step(step->Ok_0)->Ok_0,
        })
    }
}

pub open spec fn same_namespace_as_audit(step: MaintenanceStepState, audit: MaintenanceAuditState) -> bool {
    &&& step.root_sha256 == audit.root_sha256
    &&& step.policy_sha256 == audit.policy_sha256
    &&& step.device_binding_sha256 == audit.device_binding_sha256
}

/// Why `binding` may not be admitted over the audit and execution heads, if
/// it may not.
pub open spec fn spec_step_admission_heads_check(
    heads: LedgerHeads,
    binding: MaintenanceAuthorizationAuditBinding,
) -> Result<(), MaintenanceStepError> {
    match heads.audit {
        Some(audit) => if audit.root_sha256 != binding.root_sha256 || audit.policy_sha256
            != binding.policy_sha256 || audit.device_binding_sha256 != binding.device_binding_sha256 {
            Err(MaintenanceStepError::NamespaceMismatch)
        } else if binding.sequence < audit.sequence {
            Err(MaintenanceStepError::Replay { actual: binding.sequence, minimum: audit.sequence })
        } else if binding.sequence == audit.sequence && binding != audit.spec_binding() {
            Err(MaintenanceStepError::AuthorizationBindingMismatch)
        } else if audit.sequence == u64::MAX {
            Err(MaintenanceStepError::SequenceExhausted)
        } else if binding.sequence > audit.sequence + 1 {
            Err(MaintenanceStepError::SequenceGap { actual: binding.sequence, expected: (audit.sequence + 1) as u64 })
        } else if ledgers_diverge(audit, heads.execution) {
            Err(MaintenanceStepError::LedgerDivergence)
        } else {
            Ok(())
        },
        None => if heads.execution is Some || heads.step is Some || binding.sequence != 1 {
            Err(MaintenanceStepError::LedgerDivergence)
        } else {
            Ok(())
        },
    }
}

/// Why the selected step head blocks admission of `binding`, if it does.
pub open spec fn spec_step_admission_step_check(
    heads: LedgerHeads,
    binding: MaintenanceAuthorizationAuditBinding,
) -> Result<(), MaintenanceStepError> {
    let execution_sequence = match heads.execution { Some(state) => state.sequence, None => 0 };
    match heads.step {
        None => Ok(()),
        Some(step) => match heads.audit {
            None => Err(MaintenanceStepError::LedgerDivergence),
            Some(audit) => if !same_namespace_as_audit(step, audit) || step.sequence > audit.sequence {
                Err(MaintenanceStepError::LedgerDivergence)
            } else if step.sequence == audit.sequence && step.spec_binding().spec_authorization_binding()
                != audit.spec_binding() {
                Err(MaintenanceStepError::LedgerDivergence)
            } else if step.sequence == audit.sequence && execution_sequence == audit.sequence
                && step.step_ordinal != MAINTENANCE_STEP_DRAIN {
                Err(MaintenanceStepError::LedgerDivergence)
            } else if step.sequence != audit.sequence && !(step.sequence == execution_sequence
                && step.step_ordinal == MAINTENANCE_STEP_DRAIN) {
                Err(MaintenanceStepError::LedgerDivergence)
            } else if audit.sequence == u64::MAX {
                Err(MaintenanceStepError::SequenceExhausted)
            } else if binding.sequence == audit.sequence + 1 && (step.sequence != audit.sequence
                || step.step_ordinal != MAINTENANCE_STEP_DRAIN) {
                Err(MaintenanceStepError::TerminalStepIncomplete)
            } else {
                Ok(())
            },
        },
    }
}

/// The admission evidence over the ledger heads.
pub open spec fn step_admission_evidence(
    heads: LedgerHeads,
    binding: MaintenanceAuthorizationAuditBinding,
) -> MaintenanceStepAdmissionEvidence {
    let audit_sequence = match heads.audit { Some(state) => state.sequence, None => 0 };
    let execution_sequence = match heads.execution { Some(state) => state.sequence, None => 0 };
    let step = heads.step;
    MaintenanceStepAdmissionEvidence {
        provisioned_before: step is Some,
        legacy_anchor: step is None && (heads.audit is Some || heads.execution is Some),
        resumes_current_sequence: step is Some && step->Some_0.sequence == audit_sequence
            && binding.sequence == audit_sequence,
        audit_sequence,
        execution_sequence,
        step_sequence: match step { Some(state) => state.sequence, None => 0 },
        step_base_sequence: match step { Some(state) => state.base_sequence, None => 0 },
        step_entry_count: match step { Some(state) => state.entry_count, None => 0 },
        step_ordinal: match step { Some(state) => state.step_ordinal, None => 0 },
        step_generation: initial_generation_of(heads.step_recovered),
        step_slot: initial_slot_of(heads.step_recovered),
        step_valid_slots: initial_valid_of(heads.step_recovered),
        step_rejected_slots: initial_rejected_of(heads.step_recovered),
        reads: 6,
        step_effect_sha256: match step { Some(state) => state.effect_sha256, None => digest_at(zeros(32), 0) },
        step_chain_sha256: match step { Some(state) => state.chain_sha256, None => digest_at(zeros(32), 0) },
        binding,
    }
}

/// The result of `preflight_maintenance_step_admission`, from the device
/// contents alone.
pub open spec fn spec_step_admission_plan(disk: Seq<Seq<u8>>, request: MaintenanceAuditRequest) -> Result<
    MaintenanceStepAdmissionEvidence,
    MaintenanceStepError,
> {
    let first = request.partition_first_lba;
    if request.binding.spec_validate() is Err {
        Err(MaintenanceStepError::AuditState(request.binding.spec_validate()->Err_0))
    } else if spec_validate_record_epoch(request.expected_format_epoch) is Err {
        Err(MaintenanceStepError::Encode(spec_validate_record_epoch(request.expected_format_epoch)->Err_0))
    } else if !step_ledgers_fit(first, request.partition_sectors, disk.len()) {
        Err(MaintenanceStepError::PartitionBounds)
    } else {
        let heads = spec_ledger_heads(three_ledgers(disk, first), request.expected_format_epoch);
        if heads is Err {
            Err(heads->Err_0)
        } else if spec_step_admission_heads_check(heads->Ok_0, request.binding) is Err {
            Err(spec_step_admission_heads_check(heads->Ok_0, request.binding)->Err_0)
        } else if spec_step_admission_step_check(heads->Ok_0, request.binding) is Err {
            Err(spec_step_admission_step_check(heads->Ok_0, request.binding)->Err_0)
        } else {
            Ok(step_admission_evidence(heads->Ok_0, request.binding))
        }
    }
}

/// The audit, execution and step slots, in that order.
pub open spec fn three_ledgers(disk: Seq<Seq<u8>>, first: u64) -> Seq<Seq<u8>> {
    let audit = MAINTENANCE_AUDIT_SLOT_RELATIVE_LBAS;
    let execution = MAINTENANCE_EXECUTION_SLOT_RELATIVE_LBAS;
    let step = MAINTENANCE_STEP_SLOT_RELATIVE_LBAS;
    seq![
        disk[first + audit[0]],
        disk[first + audit[1]],
        disk[first + execution[0]],
        disk[first + execution[1]],
        disk[first + step[0]],
        disk[first + step[1]],
    ]
}

/// A failure of the commit after the reads: an I/O error while writing,
/// flushing or reading back, or a readback that does not show the commit.
pub open spec fn is_step_commit_failure(error: MaintenanceStepError) -> bool {
    match error {
        MaintenanceStepError::Io { phase, .. } => is_commit_phase(phase),
        MaintenanceStepError::StepRecovery(_) | MaintenanceStepError::StepState(_) | MaintenanceStepError::VerificationFailed => true,
        _ => false,
    }
}

/// A failure of the reads before any write.
pub open spec fn is_initial_step_read_error(error: MaintenanceStepError) -> bool {
    match error {
        MaintenanceStepError::Io { phase, .. } => phase == IoPhase::ReadInitialSlot,
        _ => false,
    }
}

/// Where the selected record of a ledger came from.
#[derive(Clone, Copy, Debug, PartialEq, Eq)]
pub struct SlotSummary {
    pub generation: u64,
    pub slot: u8,
    pub valid_slots: u8,
    pub rejected_slots: u8,
}

pub open spec fn summarizes(summary: Option<SlotSummary>, recovered: Option<RecoveredModel>) -> bool {
    match recovered {
        Some(record) => summary == Some(SlotSummary {
            generation: record.generation,
            slot: record.slot as u8,
            valid_slots: record.valid_slots,
            rejected_slots: record.rejected_slots,
        }),
        None => summary is None,
    }
}

/// Checks that the partition holds all three ledgers.
fn check_step_ledger_bounds<D: DurableSectorIo>(io: &D, first: u64, sectors: u64) -> (fits: bool)
    ensures
        fits == step_ledgers_fit(first, sectors, io.sectors().len()),
{
    let device_sectors = io.sector_count();
    match first.checked_add(sectors) {
        None => false,
        Some(end) => end <= device_sectors && MAINTENANCE_AUDIT_SLOT_RELATIVE_LBAS[0] < sectors
            && MAINTENANCE_AUDIT_SLOT_RELATIVE_LBAS[1] < sectors
            && MAINTENANCE_EXECUTION_SLOT_RELATIVE_LBAS[0] < sectors
            && MAINTENANCE_EXECUTION_SLOT_RELATIVE_LBAS[1] < sectors
            && MAINTENANCE_STEP_SLOT_RELATIVE_LBAS[0] < sectors
            && MAINTENANCE_STEP_SLOT_RELATIVE_LBAS[1] < sectors,
    }
}

/// Reads one ledger's two slots inside a partition already known to hold it.
fn load_slots<D: DurableSectorIo>(io: &mut D, first: u64, sectors: u64, slots: [u64; 2]) -> (result: Result<
    (Sector, Sector),
    MaintenanceStepError,
>)
    requires
        ledger_fits(first, sectors, slots, old(io).sectors().len()),
    ensures
        result is Err ==> old(io).log().len() < final(io).log().len(),
        final(io).sectors() == old(io).sectors(),
        match result {
            Ok((slot0, slot1)) => slot0@ == old(io).sectors()[first + slots[0]] && slot1@ == old(
                io,
            ).sectors()[first + slots[1]],
            Err(error) => is_initial_step_read_error(error),
        },
        log_prefix(old(io).log(), final(io).log(), ledger_reads(first, slots)),
        result is Ok ==> final(io).log() == old(io).log() + ledger_reads(first, slots),
{
    let ghost start = io.log();
    let loaded = load_ledger_slots(io, first, sectors, slots);
    proof {
        let r = ledger_reads(first, slots);
        assert(start =~= start + r.take(0));
        assert(start.push(IoOp::Read((first + slots[0]) as u64)) =~= start + r.take(1));
        assert(start + r =~= start + r.take(2));
    }
    match loaded {
        Ok(pair) => Ok(pair),
        Err(LoadFailure::Io { phase, error }) => Err(MaintenanceStepError::Io { phase, error }),
        Err(_) => Err(MaintenanceStepError::PartitionBounds),
    }
}

fn decode_audit_head(slot0: &Sector, slot1: &Sector, expected_format_epoch: FormatEpoch) -> (result: Result<
    Option<MaintenanceAuditState>,
    MaintenanceStepError,
>)
    ensures
        match spec_recover_ledger(slot0@, slot1@, expected_format_epoch) {
            Err(error) => result == Err::<Option<MaintenanceAuditState>, MaintenanceStepError>(
                MaintenanceStepError::AuditRecovery(error),
            ),
            Ok(recovered) => match decoded_audit(recovered) {
                Err(error) => result == Err::<Option<MaintenanceAuditState>, MaintenanceStepError>(
                    MaintenanceStepError::AuditState(error),
                ),
                Ok(head) => result == Ok::<Option<MaintenanceAuditState>, MaintenanceStepError>(head),
            },
        },
{
    match recover_ledger([slot0, slot1], expected_format_epoch) {
        Err(error) => Err(MaintenanceStepError::AuditRecovery(error)),
        Ok(None) => Ok(None),
        Ok(Some(record)) => match MaintenanceAuditState::decode(record.payload) {
            Ok(state) => Ok(Some(state)),
            Err(error) => Err(MaintenanceStepError::AuditState(error)),
        },
    }
}

fn decode_execution_head(slot0: &Sector, slot1: &Sector, expected_format_epoch: FormatEpoch) -> (result: Result<
    Option<MaintenanceExecutionState>,
    MaintenanceStepError,
>)
    ensures
        match spec_recover_ledger(slot0@, slot1@, expected_format_epoch) {
            Err(error) => result == Err::<Option<MaintenanceExecutionState>, MaintenanceStepError>(
                MaintenanceStepError::ExecutionRecovery(error),
            ),
            Ok(recovered) => match decoded_execution(recovered) {
                Err(error) => result == Err::<Option<MaintenanceExecutionState>, MaintenanceStepError>(
                    MaintenanceStepError::ExecutionState(error),
                ),
                Ok(head) => result == Ok::<Option<MaintenanceExecutionState>, MaintenanceStepError>(head),
            },
        },
{
    match recover_ledger([slot0, slot1], expected_format_epoch) {
        Err(error) => Err(MaintenanceStepError::ExecutionRecovery(error)),
        Ok(None) => Ok(None),
        Ok(Some(record)) => match MaintenanceExecutionState::decode(record.payload) {
            Ok(state) => Ok(Some(state)),
            Err(error) => Err(MaintenanceStepError::ExecutionState(error)),
        },
    }
}

fn decode_step_head<'a>(slot0: &'a Sector, slot1: &'a Sector, expected_format_epoch: FormatEpoch) -> (result: Result<
    (Option<RecoveredRecord<'a>>, Option<MaintenanceStepState>),
    MaintenanceStepError,
>)
    ensures
        match spec_recover_ledger(slot0@, slot1@, expected_format_epoch) {
            Err(error) => result is Err && result->Err_0 == MaintenanceStepError::StepRecovery(error),
            Ok(recovered) => match decoded_step(recovered) {
                Err(error) => result is Err && result->Err_0 == MaintenanceStepError::StepState(error),
                Ok(head) => {
                    &&& result is Ok
                    &&& option_view(result->Ok_0.0) == recovered
                    &&& result->Ok_0.1 == head
                    &&& (result->Ok_0.0 is Some ==> result->Ok_0.0->Some_0.slot < 2)
                },
            },
        },
{
    let recovered = match recover_ledger([slot0, slot1], expected_format_epoch) {
        Err(error) => return Err(MaintenanceStepError::StepRecovery(error)),
        Ok(recovered) => recovered,
    };
    proof {
        if recovered is Some {
            lemma_recovered_slot(slot0@, slot1@, expected_format_epoch);
        }
    }
    assert(option_view(recovered) == spec_recover_ledger(slot0@, slot1@, expected_format_epoch)->Ok_0);
    match recovered {
        None => Ok((None, None)),
        Some(record) => match MaintenanceStepState::decode(record.payload) {
            Ok(state) => Ok((recovered, Some(state))),
            Err(error) => Err(MaintenanceStepError::StepState(error)),
        },
    }
}

fn summary(recovered: &Option<RecoveredRecord>) -> (result: Option<SlotSummary>)
    ensures
        summarizes(result, option_view(*recovered)),
{
    match recovered {
        Some(record) => Some(
            SlotSummary {
                generation: record.generation,
                slot: record.slot as u8,
                valid_slots: record.valid_slots,
                rejected_slots: record.rejected_slots,
            },
        ),
        None => None,
    }
}

/// The reads of the audit, execution and step ledgers, in that order.
pub open spec fn step_ledger_reads(first: u64) -> Seq<IoOp> {
    ledger_reads(first, MAINTENANCE_AUDIT_SLOT_RELATIVE_LBAS) + ledger_reads(
        first,
        MAINTENANCE_EXECUTION_SLOT_RELATIVE_LBAS,
    ) + ledger_reads(first, MAINTENANCE_STEP_SLOT_RELATIVE_LBAS)
}

/// Reads and decodes the three ledger heads, one ledger at a time.
fn load_ledger_heads<D: DurableSectorIo>(
    io: &mut D,
    first: u64,
    sectors: u64,
    expected_format_epoch: FormatEpoch,
) -> (result: Result<
    (Option<MaintenanceAuditState>, Option<MaintenanceExecutionState>, Option<SlotSummary>, Option<MaintenanceStepState>),
    MaintenanceStepError,
>)
    requires
        step_ledgers_fit(first, sectors, old(io).sectors().len()),
    ensures
        result is Err && is_initial_step_read_error(result->Err_0) ==> old(io).log().len() < final(io).log().len(),
        final(io).sectors() == old(io).sectors(),
        log_prefix(old(io).log(), final(io).log(), step_ledger_reads(first)),
        result is Ok ==> final(io).log() == old(io).log() + step_ledger_reads(first),
        match spec_ledger_heads(three_ledgers(old(io).sectors(), first), expected_format_epoch) {
            Err(error) => result == Err::<
                (Option<MaintenanceAuditState>, Option<MaintenanceExecutionState>, Option<SlotSummary>, Option<MaintenanceStepState>),
                MaintenanceStepError,
            >(error) || (result is Err && is_initial_step_read_error(result->Err_0)),
            Ok(heads) => match result {
                Ok((audit, execution, step_summary, step)) => {
                    &&& audit == heads.audit
                    &&& execution == heads.execution
                    &&& step == heads.step
                    &&& summarizes(step_summary, heads.step_recovered)
                },
                Err(error) => is_initial_step_read_error(error),
            },
        },
{
    let ghost disk = io.sectors();
    let ghost start = io.log();
    let ghost a = ledger_reads(first, MAINTENANCE_AUDIT_SLOT_RELATIVE_LBAS);
    let ghost e = ledger_reads(first, MAINTENANCE_EXECUTION_SLOT_RELATIVE_LBAS);
    let ghost t = ledger_reads(first, MAINTENANCE_STEP_SLOT_RELATIVE_LBAS);
    let loaded = load_slots(io, first, sectors, MAINTENANCE_AUDIT_SLOT_RELATIVE_LBAS);
    proof {
        lemma_log_prefix_widen(start, io.log(), a, e + t);
        assert(a + (e + t) =~= step_ledger_reads(first));
    }
    let (audit0, audit1) = loaded?;
    let audit = decode_audit_head(&audit0, &audit1, expected_format_epoch)?;
    let ghost mid = io.log();
    let loaded = load_slots(io, first, sectors, MAINTENANCE_EXECUTION_SLOT_RELATIVE_LBAS);
    proof {
        lemma_log_prefix_then(start, mid, io.log(), a, e);
        lemma_log_prefix_widen(start, io.log(), a + e, t);
    }
    let (execution0, execution1) = loaded?;
    proof {
        assert(io.log() =~= start + (a + e));
    }
    let execution = decode_execution_head(&execution0, &execution1, expected_format_epoch)?;
    let ghost mid = io.log();
    let loaded = load_slots(io, first, sectors, MAINTENANCE_STEP_SLOT_RELATIVE_LBAS);
    proof {
        lemma_log_prefix_then(start, mid, io.log(), a + e, t);
    }
    let (step0, step1) = loaded?;
    proof {
        assert(io.log() =~= start + step_ledger_reads(first));
    }
    let (recovered, step) = decode_step_head(&step0, &step1, expected_format_epoch)?;
    assert(three_ledgers(disk, first) =~= seq![audit0@, audit1@, execution0@, execution1@, step0@, step1@]);
    Ok((audit, execution, summary(&recovered), step))
}

pub open spec fn heads_without_position(
    audit: Option<MaintenanceAuditState>,
    execution: Option<MaintenanceExecutionState>,
    step: Option<MaintenanceStepState>,
) -> LedgerHeads {
    LedgerHeads { audit, execution, step_recovered: None, step }
}

/// Checks the admission of `binding` against the three ledger heads.
fn check_step_admission(
    audit: Option<MaintenanceAuditState>,
    execution: Option<MaintenanceExecutionState>,
    step: Option<MaintenanceStepState>,
    binding: MaintenanceAuthorizationAuditBinding,
) -> (result: Result<(), MaintenanceStepError>)
    ensures
        ({
            let heads = heads_without_position(audit, execution, step);
            result == if spec_step_admission_heads_check(heads, binding) is Err {
                spec_step_admission_heads_check(heads, binding)
            } else {
                spec_step_admission_step_check(heads, binding)
            }
        }),
{
    let execution_sequence = match execution {
        Some(state) => state.sequence,
        None => 0,
    };
    match audit {
        Some(audit) => {
            if !digest_eq(&audit.root_sha256, &binding.root_sha256) || !digest_eq(
                &audit.policy_sha256,
                &binding.policy_sha256,
            ) || !digest_eq(&audit.device_binding_sha256, &binding.device_binding_sha256) {
                return Err(MaintenanceStepError::NamespaceMismatch);
            }
            if binding.sequence < audit.sequence {
                return Err(MaintenanceStepError::Replay { actual: binding.sequence, minimum: audit.sequence });
            }
            if binding.sequence == audit.sequence && !binding.same_as(&audit.binding()) {
                return Err(MaintenanceStepError::AuthorizationBindingMismatch);
            }
            let next = match audit.sequence.checked_add(1) {
                Some(next) => next,
                None => return Err(MaintenanceStepError::SequenceExhausted),
            };
            if binding.sequence > next {
                return Err(MaintenanceStepError::SequenceGap { actual: binding.sequence, expected: next });
            }
            match execution {
                Some(completed) => {
                    if !digest_eq(&completed.root_sha256, &audit.root_sha256) || !digest_eq(
                        &completed.policy_sha256,
                        &audit.policy_sha256,
                    ) || !digest_eq(&completed.device_binding_sha256, &audit.device_binding_sha256)
                        || completed.sequence > audit.sequence || audit.sequence - completed.sequence > 1
                        || (completed.sequence == audit.sequence
                        && !completed.completion_binding().authorization_binding().same_as(&audit.binding())) {
                        return Err(MaintenanceStepError::LedgerDivergence);
                    }
                },
                None => {
                    if audit.sequence != 1 {
                        return Err(MaintenanceStepError::LedgerDivergence);
                    }
                },
            }
        },
        None => {
            if execution.is_some() || step.is_some() || binding.sequence != 1 {
                return Err(MaintenanceStepError::LedgerDivergence);
            }
        },
    }
    if let Some(step) = step {
        let audit = match audit {
            Some(audit) => audit,
            None => return Err(MaintenanceStepError::LedgerDivergence),
        };
        if !digest_eq(&step.root_sha256, &audit.root_sha256) || !digest_eq(
            &step.policy_sha256,
            &audit.policy_sha256,
        ) || !digest_eq(&step.device_binding_sha256, &audit.device_binding_sha256)
            || step.sequence > audit.sequence {
            return Err(MaintenanceStepError::LedgerDivergence);
        }
        if step.sequence == audit.sequence {
            if !step.binding().authorization_binding().same_as(&audit.binding()) {
                return Err(MaintenanceStepError::LedgerDivergence);
            }
            if execution_sequence == audit.sequence && step.step_ordinal != MAINTENANCE_STEP_DRAIN {
                return Err(MaintenanceStepError::LedgerDivergence);
            }
        } else if !(step.sequence == execution_sequence && step.step_ordinal == MAINTENANCE_STEP_DRAIN) {
            return Err(MaintenanceStepError::LedgerDivergence);
        }
        let next = match audit.sequence.checked_add(1) {
            Some(next) => next,
            None => return Err(MaintenanceStepError::SequenceExhausted),
        };
        if binding.sequence == next && (step.sequence != audit.sequence || step.step_ordinal
            != MAINTENANCE_STEP_DRAIN) {
            return Err(MaintenanceStepError::TerminalStepIncomplete);
        }
    }
    Ok(())
}

/// Step admission reads the ledgers: the binding and format epoch pass their
/// checks and the partition holds all three ledgers.
pub open spec fn step_admission_reads_begin(device_sectors: nat, request: MaintenanceAuditRequest) -> bool {
    &&& request.binding.spec_validate() is Ok
    &&& spec_validate_record_epoch(request.expected_format_epoch) is Ok
    &&& step_ledgers_fit(request.partition_first_lba, request.partition_sectors, device_sectors)
}

/// The terminal check reads the ledgers: the authorization passes its checks
/// and the partition holds the audit and step ledgers.
pub open spec fn step_terminal_reads_begin(device_sectors: nat, request: MaintenanceStepTerminalRequest) -> bool {
    &&& request.authorization.spec_validate() is Ok
    &&& audit_and_step_fit(request.partition_first_lba, request.partition_sectors, device_sectors)
}

/// The reads of the terminal check: the audit ledger, then the step ledger.
pub open spec fn step_terminal_reads(first: u64) -> Seq<IoOp> {
    ledger_reads(first, MAINTENANCE_AUDIT_SLOT_RELATIVE_LBAS) + ledger_reads(first, MAINTENANCE_STEP_SLOT_RELATIVE_LBAS)
}

/// Validates the audit, execution and step ledgers before the authorization
/// audit is allowed to advance.
///
/// This read-only pass runs before any step mutation. It accepts an empty
/// step ledger as an explicit migration anchor, but once the step journal
/// exists its selected head must be terminal for the preceding authorization
/// or belong to the exact unfinished authorization being resumed.
pub fn preflight_maintenance_step_admission<D: DurableSectorIo>(
    io: &mut D,
    request: MaintenanceAuditRequest,
) -> (result: Result<MaintenanceStepAdmissionEvidence, MaintenanceStepError>)
    ensures
        result is Err && is_initial_step_read_error(result->Err_0) ==> old(io).log().len() < final(io).log().len(),
        final(io).sectors() == old(io).sectors(),
        log_prefix(old(io).log(), final(io).log(), step_ledger_reads(request.partition_first_lba)),
        result is Ok ==> final(io).log() == old(io).log() + step_ledger_reads(request.partition_first_lba),
        !step_admission_reads_begin(old(io).sectors().len(), request) ==> final(io).log() == old(io).log()
            && result == Err::<MaintenanceStepAdmissionEvidence, MaintenanceStepError>(
            spec_step_admission_plan(old(io).sectors(), request)->Err_0,
        ),
        match spec_step_admission_plan(old(io).sectors(), request) {
            Err(error) => result == Err::<MaintenanceStepAdmissionEvidence, MaintenanceStepError>(error) || (
            result is Err && is_initial_step_read_error(result->Err_0)),
            Ok(evidence) => result == Ok::<MaintenanceStepAdmissionEvidence, MaintenanceStepError>(evidence) || (
            result is Err && is_initial_step_read_error(result->Err_0)),
        },
{
    let binding = request.binding;
    let first = request.partition_first_lba;
    if let Err(error) = binding.validate() {
        return Err(MaintenanceStepError::AuditState(error));
    }
    if let Err(error) = validate_record_epoch(request.expected_format_epoch) {
        return Err(MaintenanceStepError::Encode(error));
    }
    if !check_step_ledger_bounds(io, first, request.partition_sectors) {
        return Err(MaintenanceStepError::PartitionBounds);
    }
    let ghost disk = io.sectors();
    let (audit, execution, step_summary, step) = load_ledger_heads(
        io,
        first,
        request.partition_sectors,
        request.expected_format_epoch,
    )?;
    check_step_admission(audit, execution, step, binding)?;
    let audit_sequence = match audit {
        Some(state) => state.sequence,
        None => 0,
    };
    let execution_sequence = match execution {
        Some(state) => state.sequence,
        None => 0,
    };
    let (step_sequence, step_base_sequence, step_entry_count, step_ordinal, step_effect_sha256, step_chain_sha256) =
        match step {
        Some(state) => (
            state.sequence,
            state.base_sequence,
            state.entry_count,
            state.step_ordinal,
            state.effect_sha256,
            state.chain_sha256,
        ),
        None => (0u64, 0u64, 0u64, 0u32, [0u8; 32], [0u8; 32]),
    };
    proof {
        if step is None {
            assert(zeros(32).subrange(0, 32) =~= step_effect_sha256@);
            lemma_digest_at_view(zeros(32), 0, step_effect_sha256);
        }
    }
    let (step_generation, step_slot, step_valid_slots, step_rejected_slots) = match step_summary {
        Some(position) => (position.generation, position.slot, position.valid_slots, position.rejected_slots),
        None => (0u64, 0xffu8, 0u8, 0u8),
    };
    Ok(
        MaintenanceStepAdmissionEvidence {
            provisioned_before: step.is_some(),
            legacy_anchor: step.is_none() && (audit.is_some() || execution.is_some()),
            resumes_current_sequence: step_sequence == audit_sequence && step.is_some()
                && binding.sequence == audit_sequence,
            audit_sequence,
            execution_sequence,
            step_sequence,
            step_base_sequence,
            step_entry_count,
            step_ordinal,
            step_generation,
            step_slot,
            step_valid_slots,
            step_rejected_slots,
            reads: 6,
            step_effect_sha256,
            step_chain_sha256,
            binding,
        },
    )
}

/// The audit head a step must belong to.
pub open spec fn spec_step_audit(
    slot0: Seq<u8>,
    slot1: Seq<u8>,
    format_epoch: FormatEpoch,
    binding: MaintenanceStepCommitBinding,
) -> Result<MaintenanceAuditState, MaintenanceStepError> {
    match spec_recover_ledger(slot0, slot1, format_epoch) {
        Err(error) => Err(MaintenanceStepError::AuditRecovery(error)),
        Ok(None) => Err(MaintenanceStepError::LedgerDivergence),
        Ok(Some(record)) => match spec_decode_audit(record.payload) {
            Err(error) => Err(MaintenanceStepError::AuditState(error)),
            Ok(audit) => if audit.spec_binding() != binding.spec_authorization_binding() {
                Err(MaintenanceStepError::AuthorizationBindingMismatch)
            } else {
                Ok(audit)
            },
        },
    }
}

/// Steps are journaled only while the authorization is unfinished: the
/// execution head must be the one just before it.
pub open spec fn spec_step_execution_check(
    slot0: Seq<u8>,
    slot1: Seq<u8>,
    format_epoch: FormatEpoch,
    binding: MaintenanceStepCommitBinding,
) -> Result<(), MaintenanceStepError> {
    match spec_recover_ledger(slot0, slot1, format_epoch) {
        Err(error) => Err(MaintenanceStepError::ExecutionRecovery(error)),
        Ok(recovered) => match decoded_execution(recovered) {
            Err(error) => Err(MaintenanceStepError::ExecutionState(error)),
            Ok(Some(state)) => if state.sequence == binding.sequence {
                Err(MaintenanceStepError::ExecutionAlreadyComplete)
            } else if state.sequence == u64::MAX {
                Err(MaintenanceStepError::SequenceExhausted)
            } else if state.sequence + 1 != binding.sequence {
                Err(MaintenanceStepError::LedgerDivergence)
            } else {
                Ok(())
            },
            Ok(None) => if binding.sequence != 1 {
                Err(MaintenanceStepError::LedgerDivergence)
            } else {
                Ok(())
            },
        },
    }
}

/// The step head that journals `binding` after `existing`; `None` when
/// `binding` is already journaled and is replayed without a write.
pub open spec fn spec_step_successor(
    existing: Option<MaintenanceStepState>,
    binding: MaintenanceStepCommitBinding,
) -> Result<Option<MaintenanceStepState>, MaintenanceStepError> {
    let checked = match existing {
        Some(state) => if state.root_sha256 != binding.root_sha256 || state.policy_sha256
            != binding.policy_sha256 || state.device_binding_sha256 != binding.device_binding_sha256 {
            Err(MaintenanceStepError::NamespaceMismatch)
        } else if binding.sequence < state.sequence {
            Err(MaintenanceStepError::Replay { actual: binding.sequence, minimum: state.sequence })
        } else if binding.sequence == state.sequence {
            if state.spec_binding().spec_authorization_binding() != binding.spec_authorization_binding() {
                Err(MaintenanceStepError::AuthorizationBindingMismatch)
            } else if binding.step_ordinal <= state.step_ordinal {
                Ok(false)
            } else if state.step_ordinal == u32::MAX {
                Err(MaintenanceStepError::SequenceExhausted)
            } else if binding.step_ordinal != state.step_ordinal + 1 {
                Err(MaintenanceStepError::StepGap { actual: binding.step_ordinal, expected: (state.step_ordinal + 1) as u32 })
            } else {
                Ok(true)
            }
        } else if state.sequence == u64::MAX {
            Err(MaintenanceStepError::SequenceExhausted)
        } else if binding.sequence != state.sequence + 1 {
            Err(MaintenanceStepError::SequenceGap { actual: binding.sequence, expected: (state.sequence + 1) as u64 })
        } else if state.step_ordinal != MAINTENANCE_STEP_DRAIN || binding.step_ordinal != MAINTENANCE_STEP_ROTATION_ONE {
            Err(MaintenanceStepError::TerminalStepIncomplete)
        } else {
            Ok(true)
        },
        None => if binding.step_ordinal != MAINTENANCE_STEP_ROTATION_ONE {
            Err(MaintenanceStepError::BootstrapStep { sequence: binding.sequence, step: binding.step_ordinal })
        } else {
            Ok(true)
        },
    };
    let (base_sequence, previous_entry_count, previous_chain) = match existing {
        Some(state) => (state.base_sequence, state.entry_count, state.chain_sha256),
        None => (binding.sequence, 0u64, digest_at(zeros(32), 0)),
    };
    if checked is Err {
        Err(checked->Err_0)
    } else if !checked->Ok_0 {
        Ok(None)
    } else if previous_entry_count == u64::MAX {
        Err(MaintenanceStepError::SequenceExhausted)
    } else {
        let entry_count = (previous_entry_count + 1) as u64;
        Ok(Some(MaintenanceStepState {
            sequence: binding.sequence,
            base_sequence,
            entry_count,
            operations: binding.operations,
            max_uses: binding.max_uses,
            step_ordinal: binding.step_ordinal,
            observed_rotations: binding.observed_rotations,
            flags: binding.flags,
            authorization_sha256: binding.authorization_sha256,
            authorization_id: binding.authorization_id,
            manifest_sha256: binding.manifest_sha256,
            policy_sha256: binding.policy_sha256,
            root_sha256: binding.root_sha256,
            device_binding_sha256: binding.device_binding_sha256,
            effect_sha256: binding.effect_sha256,
            previous_chain_sha256: previous_chain,
            chain_sha256: digest_at(
                sha256_digest(step_chain_material(previous_chain@, base_sequence, entry_count, binding)),
                0,
            ),
        }))
    }
}

/// A step head appended to the journal, with the record written for it.
pub struct StepCommit {
    pub state: MaintenanceStepState,
    pub commit: LedgerCommit,
}

/// What the step journal held, and what the transaction writes, if anything.
pub struct StepDecision {
    pub recovered: Option<RecoveredModel>,
    pub existing: Option<MaintenanceStepState>,
    pub committed: Option<StepCommit>,
}

/// The step transaction's decision from the journal's two slots.
pub open spec fn spec_step_decision(
    slot0: Seq<u8>,
    slot1: Seq<u8>,
    format_epoch: FormatEpoch,
    binding: MaintenanceStepCommitBinding,
) -> Result<StepDecision, MaintenanceStepError> {
    match spec_recover_ledger(slot0, slot1, format_epoch) {
        Err(error) => Err(MaintenanceStepError::StepRecovery(error)),
        Ok(recovered) => match decoded_step(recovered) {
            Err(error) => Err(MaintenanceStepError::StepState(error)),
            Ok(existing) => match spec_step_successor(existing, binding) {
                Err(error) => Err(error),
                Ok(None) => Ok(StepDecision { recovered, existing, committed: None }),
                Ok(Some(state)) => if recovered is Some && recovered->Some_0.generation == u64::MAX {
                    Err(MaintenanceStepError::StepRecovery(RecoveryError::GenerationExhausted))
                } else {
                    match spec_encode_step(state) {
                        Err(error) => Err(MaintenanceStepError::StepState(error)),
                        Ok(payload) => match spec_next_record(recovered, payload, format_epoch) {
                            Err(Ok(error)) => Err(MaintenanceStepError::StepRecovery(error)),
                            Err(Err(error)) => Err(MaintenanceStepError::Encode(error)),
                            Ok(commit) => Ok(StepDecision { recovered, existing, committed: Some(StepCommit { state, commit }) }),
                        },
                    }
                },
            },
        },
    }
}

/// The decision of `commit_maintenance_step`, from the device contents alone.
pub open spec fn spec_step_plan(disk: Seq<Seq<u8>>, request: MaintenanceStepCommitRequest) -> Result<
    StepDecision,
    MaintenanceStepError,
> {
    let first = request.partition_first_lba;
    let epoch = request.expected_format_epoch;
    let slots = three_ledgers(disk, first);
    if request.binding.spec_validate() is Err {
        Err(MaintenanceStepError::StepState(request.binding.spec_validate()->Err_0))
    } else if spec_validate_record_epoch(epoch) is Err {
        Err(MaintenanceStepError::Encode(spec_validate_record_epoch(epoch)->Err_0))
    } else if !step_ledgers_fit(first, request.partition_sectors, disk.len()) {
        Err(MaintenanceStepError::PartitionBounds)
    } else if spec_step_audit(slots[0], slots[1], epoch, request.binding) is Err {
        Err(spec_step_audit(slots[0], slots[1], epoch, request.binding)->Err_0)
    } else if spec_step_execution_check(slots[2], slots[3], epoch, request.binding) is Err {
        Err(spec_step_execution_check(slots[2], slots[3], epoch, request.binding)->Err_0)
    } else {
        spec_step_decision(slots[4], slots[5], epoch, request.binding)
    }
}

/// The evidence reported for `decision`; a commit's slot counts are those of
/// the readback.
pub open spec fn step_evidence(
    decision: StepDecision,
    binding: MaintenanceStepCommitBinding,
    committed_valid_slots: u8,
    committed_rejected_slots: u8,
) -> MaintenanceStepEvidence {
    let existing = decision.existing;
    let previous_sequence = match existing { Some(state) => state.sequence, None => 0 };
    let previous_entry_count = match existing { Some(state) => state.entry_count, None => 0 };
    let previous_step_ordinal = match existing { Some(state) => state.step_ordinal, None => 0 };
    match decision.committed {
        None => {
            let state = existing->Some_0;
            MaintenanceStepEvidence {
                provisioned_before: true,
                replayed: true,
                requested_sequence: binding.sequence,
                requested_step_ordinal: binding.step_ordinal,
                previous_sequence,
                committed_sequence: state.sequence,
                base_sequence: state.base_sequence,
                previous_entry_count,
                committed_entry_count: state.entry_count,
                previous_step_ordinal,
                committed_step_ordinal: state.step_ordinal,
                initial_generation: initial_generation_of(decision.recovered),
                committed_generation: initial_generation_of(decision.recovered),
                initial_slot: initial_slot_of(decision.recovered),
                committed_slot: initial_slot_of(decision.recovered),
                initial_valid_slots: initial_valid_of(decision.recovered),
                initial_rejected_slots: initial_rejected_of(decision.recovered),
                committed_valid_slots: initial_valid_of(decision.recovered),
                committed_rejected_slots: initial_rejected_of(decision.recovered),
                reads: 6,
                writes: 0,
                flushes: 0,
                previous_chain_sha256: state.previous_chain_sha256,
                committed_chain_sha256: state.chain_sha256,
                binding,
            }
        },
        Some(step) => MaintenanceStepEvidence {
            provisioned_before: existing is Some,
            replayed: false,
            requested_sequence: binding.sequence,
            requested_step_ordinal: binding.step_ordinal,
            previous_sequence,
            committed_sequence: binding.sequence,
            base_sequence: step.state.base_sequence,
            previous_entry_count,
            committed_entry_count: step.state.entry_count,
            previous_step_ordinal,
            committed_step_ordinal: binding.step_ordinal,
            initial_generation: initial_generation_of(decision.recovered),
            committed_generation: step.commit.committed_generation,
            initial_slot: initial_slot_of(decision.recovered),
            committed_slot: step.commit.committed_slot as u8,
            initial_valid_slots: initial_valid_of(decision.recovered),
            initial_rejected_slots: initial_rejected_of(decision.recovered),
            committed_valid_slots,
            committed_rejected_slots,
            reads: 8,
            writes: 1,
            flushes: 1,
            previous_chain_sha256: step.state.previous_chain_sha256,
            committed_chain_sha256: step.state.chain_sha256,
            binding,
        },
    }
}

fn step_audit(
    slot0: &Sector,
    slot1: &Sector,
    expected_format_epoch: FormatEpoch,
    binding: MaintenanceStepCommitBinding,
) -> (result: Result<MaintenanceAuditState, MaintenanceStepError>)
    ensures
        result == spec_step_audit(slot0@, slot1@, expected_format_epoch, binding),
{
    let recovered = match recover_ledger([slot0, slot1], expected_format_epoch) {
        Ok(Some(record)) => record,
        Ok(None) => return Err(MaintenanceStepError::LedgerDivergence),
        Err(error) => return Err(MaintenanceStepError::AuditRecovery(error)),
    };
    let audit = match MaintenanceAuditState::decode(recovered.payload) {
        Ok(state) => state,
        Err(error) => return Err(MaintenanceStepError::AuditState(error)),
    };
    if !audit.binding().same_as(&binding.authorization_binding()) {
        return Err(MaintenanceStepError::AuthorizationBindingMismatch);
    }
    Ok(audit)
}

fn step_execution_check(
    slot0: &Sector,
    slot1: &Sector,
    expected_format_epoch: FormatEpoch,
    binding: MaintenanceStepCommitBinding,
) -> (result: Result<(), MaintenanceStepError>)
    ensures
        result == spec_step_execution_check(slot0@, slot1@, expected_format_epoch, binding),
{
    match decode_execution_head(slot0, slot1, expected_format_epoch)? {
        Some(state) => {
            if state.sequence == binding.sequence {
                return Err(MaintenanceStepError::ExecutionAlreadyComplete);
            }
            let next = match state.sequence.checked_add(1) {
                Some(next) => next,
                None => return Err(MaintenanceStepError::SequenceExhausted),
            };
            if next != binding.sequence {
                return Err(MaintenanceStepError::LedgerDivergence);
            }
        },
        None => {
            if binding.sequence != 1 {
                return Err(MaintenanceStepError::LedgerDivergence);
            }
        },
    }
    Ok(())
}

/// The step head that journals `binding` after `existing`, or `None` for a
/// read-only replay of an already journaled step.
pub fn maintenance_step_successor(
    existing: Option<MaintenanceStepState>,
    binding: MaintenanceStepCommitBinding,
) -> (result: Result<Option<MaintenanceStepState>, MaintenanceStepError>)
    ensures
        result == spec_step_successor(existing, binding),
{
    let (base_sequence, previous_entry_count, previous_chain_sha256) = match existing {
        Some(state) => {
            if !digest_eq(&state.root_sha256, &binding.root_sha256) || !digest_eq(
                &state.policy_sha256,
                &binding.policy_sha256,
            ) || !digest_eq(&state.device_binding_sha256, &binding.device_binding_sha256) {
                return Err(MaintenanceStepError::NamespaceMismatch);
            }
            if binding.sequence < state.sequence {
                return Err(MaintenanceStepError::Replay { actual: binding.sequence, minimum: state.sequence });
            }
            if binding.sequence == state.sequence {
                if !state.binding().authorization_binding().same_as(&binding.authorization_binding()) {
                    return Err(MaintenanceStepError::AuthorizationBindingMismatch);
                }
                if binding.step_ordinal <= state.step_ordinal {
                    return Ok(None);
                }
                let expected = match state.step_ordinal.checked_add(1) {
                    Some(next) => next,
                    None => return Err(MaintenanceStepError::SequenceExhausted),
                };
                if binding.step_ordinal != expected {
                    return Err(MaintenanceStepError::StepGap { actual: binding.step_ordinal, expected });
                }
            } else {
                let expected = match state.sequence.checked_add(1) {
                    Some(next) => next,
                    None => return Err(MaintenanceStepError::SequenceExhausted),
                };
                if binding.sequence != expected {
                    return Err(MaintenanceStepError::SequenceGap { actual: binding.sequence, expected });
                }
                if state.step_ordinal != MAINTENANCE_STEP_DRAIN || binding.step_ordinal
                    != MAINTENANCE_STEP_ROTATION_ONE {
                    return Err(MaintenanceStepError::TerminalStepIncomplete);
                }
            }
            (state.base_sequence, state.entry_count, state.chain_sha256)
        },
        None => {
            if binding.step_ordinal != MAINTENANCE_STEP_ROTATION_ONE {
                return Err(MaintenanceStepError::BootstrapStep { sequence: binding.sequence, step: binding.step_ordinal });
            }
            (binding.sequence, 0u64, [0u8; 32])
        },
    };
    proof {
        if existing is None {
            assert(zeros(32).subrange(0, 32) =~= previous_chain_sha256@);
            lemma_digest_at_view(zeros(32), 0, previous_chain_sha256);
        }
    }
    let entry_count = match previous_entry_count.checked_add(1) {
        Some(count) => count,
        None => return Err(MaintenanceStepError::SequenceExhausted),
    };
    let chain_sha256 = maintenance_step_chain_sha256(previous_chain_sha256, base_sequence, entry_count, binding);
    proof {
        let digest = sha256_digest(step_chain_material(previous_chain_sha256@, base_sequence, entry_count, binding));
        assert(digest.subrange(0, 32) =~= chain_sha256@);
        lemma_digest_at_view(digest, 0, chain_sha256);
    }
    Ok(
        Some(
            MaintenanceStepState {
                sequence: binding.sequence,
                base_sequence,
                entry_count,
                operations: binding.operations,
                max_uses: binding.max_uses,
                step_ordinal: binding.step_ordinal,
                observed_rotations: binding.observed_rotations,
                flags: binding.flags,
                authorization_sha256: binding.authorization_sha256,
                authorization_id: binding.authorization_id,
                manifest_sha256: binding.manifest_sha256,
                policy_sha256: binding.policy_sha256,
                root_sha256: binding.root_sha256,
                device_binding_sha256: binding.device_binding_sha256,
                effect_sha256: binding.effect_sha256,
                previous_chain_sha256,
                chain_sha256,
            },
        ),
    )
}

/// Reads the step journal held in two slots and prepares the record, if any,
/// that journals `binding`.
fn prepare_step<'a>(
    slot0: &'a Sector,
    slot1: &'a Sector,
    expected_format_epoch: FormatEpoch,
    binding: MaintenanceStepCommitBinding,
) -> (result: Result<
    (Option<RecoveredRecord<'a>>, Option<MaintenanceStepState>, Option<(MaintenanceStepState, PreparedLedgerCommit)>),
    MaintenanceStepError,
>)
    ensures
        match spec_step_decision(slot0@, slot1@, expected_format_epoch, binding) {
            Err(error) => result is Err && result->Err_0 == error,
            Ok(decision) => {
                let (recovered, existing, committed) = result->Ok_0;
                &&& result is Ok
                &&& option_view(recovered) == decision.recovered
                &&& existing == decision.existing
                &&& (committed is Some <==> decision.committed is Some)
                &&& (committed is None ==> existing is Some)
                &&& (committed is Some ==> {
                    let (state, p) = committed->Some_0;
                    let c = decision.committed->Some_0.commit;
                    &&& state == decision.committed->Some_0.state
                    &&& p.committed_generation == c.committed_generation
                    &&& p.committed_slot == c.committed_slot
                    &&& p.committed_sector@ == c.committed_sector
                    &&& c.committed_slot < 2
                    &&& spec_encode_record(expected_format_epoch, c.committed_generation, c.committed_payload)
                        == Ok::<Seq<u8>, RecordError>(c.committed_sector)
                })
            },
        },
{
    let (recovered, existing) = decode_step_head(slot0, slot1, expected_format_epoch)?;
    let state = match maintenance_step_successor(existing, binding)? {
        None => return Ok((recovered, existing, None)),
        Some(state) => state,
    };
    if let Some(record) = recovered {
        if record.generation == u64::MAX {
            return Err(MaintenanceStepError::StepRecovery(RecoveryError::GenerationExhausted));
        }
    }
    let payload = match state.encode() {
        Ok(bytes) => bytes,
        Err(error) => return Err(MaintenanceStepError::StepState(error)),
    };
    let prepared = match prepare_next_record(&recovered, &payload, expected_format_epoch) {
        Ok(prepared) => prepared,
        Err(Ok(error)) => return Err(MaintenanceStepError::StepRecovery(error)),
        Err(Err(error)) => return Err(MaintenanceStepError::Encode(error)),
    };
    Ok((recovered, existing, Some((state, prepared))))
}

/// A step commit reads the ledgers: the binding and format epoch pass their
/// checks and the partition holds all three ledgers.
pub open spec fn step_commit_reads_begin(device_sectors: nat, request: MaintenanceStepCommitRequest) -> bool {
    &&& request.binding.spec_validate() is Ok
    &&& spec_validate_record_epoch(request.expected_format_epoch) is Ok
    &&& step_ledgers_fit(request.partition_first_lba, request.partition_sectors, device_sectors)
}

/// The calls a step commit makes when none of them fails: nothing when it
/// refuses before reading, the reads of the three ledgers, and, when it
/// journals a step, the commit's calls on the step ledger.
#[verifier::opaque]
pub open spec fn step_commit_ops(disk: Seq<Seq<u8>>, request: MaintenanceStepCommitRequest) -> Seq<IoOp> {
    let first = request.partition_first_lba;
    let slots = MAINTENANCE_STEP_SLOT_RELATIVE_LBAS;
    let plan = spec_step_plan(disk, request);
    if !step_commit_reads_begin(disk.len(), request) {
        Seq::empty()
    } else if plan is Ok && plan->Ok_0.committed is Some {
        step_ledger_reads(first) + commit_ops(
            ledger_commit_lba(first, slots, plan->Ok_0.committed->Some_0.commit) as u64,
            plan->Ok_0.committed->Some_0.commit.committed_sector,
            (first + slots[0]) as u64,
            (first + slots[1]) as u64,
        )
    } else {
        step_stage_reads(three_ledgers(disk, first), first, request.expected_format_epoch, request.binding)
    }
}

/// The reads of a step commit's ledgers when none fails: the audit ledger's,
/// then the execution ledger's once the audit head admits the step, then the
/// step ledger's once the execution head does.
pub open spec fn step_stage_reads(
    slots: Seq<Seq<u8>>,
    first: u64,
    epoch: FormatEpoch,
    binding: MaintenanceStepCommitBinding,
) -> Seq<IoOp> {
    let a = ledger_reads(first, MAINTENANCE_AUDIT_SLOT_RELATIVE_LBAS);
    let e = ledger_reads(first, MAINTENANCE_EXECUTION_SLOT_RELATIVE_LBAS);
    if spec_step_audit(slots[0], slots[1], epoch, binding) is Err {
        a
    } else if spec_step_execution_check(slots[2], slots[3], epoch, binding) is Err {
        a + e
    } else {
        step_ledger_reads(first)
    }
}

/// Reads the audit and execution ledgers and checks them against the step to
/// commit, then reads the step ledger.
fn load_step_commit_ledgers<D: DurableSectorIo>(
    io: &mut D,
    first: u64,
    sectors: u64,
    expected_format_epoch: FormatEpoch,
    binding: MaintenanceStepCommitBinding,
) -> (result: Result<(Sector, Sector), MaintenanceStepError>)
    requires
        step_ledgers_fit(first, sectors, old(io).sectors().len()),
    ensures
        result is Err && is_initial_step_read_error(result->Err_0) ==> old(io).log().len() < final(io).log().len(),
        final(io).sectors() == old(io).sectors(),
        log_prefix(old(io).log(), final(io).log(), step_ledger_reads(first)),
        result is Ok ==> final(io).log() == old(io).log() + step_ledger_reads(first),
        log_prefix(
            old(io).log(),
            final(io).log(),
            step_stage_reads(three_ledgers(old(io).sectors(), first), first, expected_format_epoch, binding),
        ),
        result is Ok || !is_initial_step_read_error(result->Err_0) ==> final(io).log() == old(io).log()
            + step_stage_reads(three_ledgers(old(io).sectors(), first), first, expected_format_epoch, binding),
        ({
            let slots = three_ledgers(old(io).sectors(), first);
            let audit = spec_step_audit(slots[0], slots[1], expected_format_epoch, binding);
            let execution = spec_step_execution_check(slots[2], slots[3], expected_format_epoch, binding);
            match result {
                Ok((slot0, slot1)) => audit is Ok && execution is Ok && slot0@ == slots[4] && slot1@ == slots[5],
                Err(error) => is_initial_step_read_error(error) || (audit is Err && error == audit->Err_0) || (
                audit is Ok && execution is Err && error == execution->Err_0),
            }
        }),
{
    let ghost disk = io.sectors();
    let ghost start = io.log();
    let ghost reads = step_ledger_reads(first);
    let ghost a = ledger_reads(first, MAINTENANCE_AUDIT_SLOT_RELATIVE_LBAS);
    let ghost e = ledger_reads(first, MAINTENANCE_EXECUTION_SLOT_RELATIVE_LBAS);
    let ghost t = ledger_reads(first, MAINTENANCE_STEP_SLOT_RELATIVE_LBAS);
    let ghost stage = step_stage_reads(three_ledgers(disk, first), first, expected_format_epoch, binding);
    proof {
        assert(reads.take(2) =~= a);
        assert(reads.take(4) =~= a + e);
        assert(a + e + t =~= reads);
        assert(stage.take(2) =~= a);
        assert(stage.len() >= 4 ==> stage.take(4) =~= a + e);
    }
    let loaded = load_slots(io, first, sectors, MAINTENANCE_AUDIT_SLOT_RELATIVE_LBAS);
    proof {
        lemma_log_prefix_extend(start, io.log(), a, reads);
        lemma_log_prefix_extend(start, io.log(), a, stage);
    }
    let (audit0, audit1) = loaded?;
    match step_audit(&audit0, &audit1, expected_format_epoch, binding) {
        Ok(_) => {},
        Err(error) => {
            proof {
                assert(stage == a);
            }
            return Err(error);
        },
    }
    let ghost mid = io.log();
    let loaded = load_slots(io, first, sectors, MAINTENANCE_EXECUTION_SLOT_RELATIVE_LBAS);
    proof {
        lemma_log_prefix_then(start, mid, io.log(), a, e);
        lemma_log_prefix_extend(start, io.log(), a + e, reads);
        lemma_log_prefix_extend(start, io.log(), a + e, stage);
    }
    let (execution0, execution1) = loaded?;
    proof {
        assert(io.log() =~= start + (a + e));
    }
    match step_execution_check(&execution0, &execution1, expected_format_epoch, binding) {
        Ok(_) => {},
        Err(error) => {
            proof {
                assert(stage == a + e);
            }
            return Err(error);
        },
    }
    let ghost mid = io.log();
    let loaded = load_slots(io, first, sectors, MAINTENANCE_STEP_SLOT_RELATIVE_LBAS);
    proof {
        lemma_log_prefix_then(start, mid, io.log(), a + e, t);
    }
    let (slot0, slot1) = loaded?;
    proof {
        assert(io.log() =~= start + reads);
        assert(three_ledgers(disk, first) =~= seq![audit0@, audit1@, execution0@, execution1@, slot0@, slot1@]);
    }
    Ok((slot0, slot1))
}

/// The calls of a step commit begin with the reads of the three ledgers and
/// end there unless the decision journals a step.
proof fn lemma_step_commit_ops(disk: Seq<Seq<u8>>, request: MaintenanceStepCommitRequest)
    ensures
        ({
            let ops = step_commit_ops(disk, request);
            let first = request.partition_first_lba;
            let slots = MAINTENANCE_STEP_SLOT_RELATIVE_LBAS;
            let plan = spec_step_plan(disk, request);
            let stage = step_stage_reads(three_ledgers(disk, first), first, request.expected_format_epoch, request.binding);
            &&& !step_commit_reads_begin(disk.len(), request) ==> ops == Seq::<IoOp>::empty()
            &&& step_commit_reads_begin(disk.len(), request) ==> ops.len() >= stage.len() && ops.take(stage.len() as int) == stage
            &&& step_commit_reads_begin(disk.len(), request) && plan is Ok ==> stage == step_ledger_reads(first)
            &&& step_commit_reads_begin(disk.len(), request) && plan is Ok && plan->Ok_0.committed is Some
                ==> ops == step_ledger_reads(first) + commit_ops(
                ledger_commit_lba(first, slots, plan->Ok_0.committed->Some_0.commit) as u64,
                plan->Ok_0.committed->Some_0.commit.committed_sector,
                (first + slots[0]) as u64,
                (first + slots[1]) as u64,
            )
            &&& step_commit_reads_begin(disk.len(), request) && !(plan is Ok && plan->Ok_0.committed is Some)
                ==> ops == stage
        }),
{
    reveal(step_commit_ops);
    let first = request.partition_first_lba;
    let ops = step_commit_ops(disk, request);
    let stage = step_stage_reads(three_ledgers(disk, first), first, request.expected_format_epoch, request.binding);
    if step_commit_reads_begin(disk.len(), request) {
        assert(ops.take(stage.len() as int) =~= stage);
    }
}

/// Commits or idempotently replays one fixed maintenance-program step.
///
/// Requests below the selected ordinal are accepted read-only only for the
/// exact same authorization and deterministic effect descriptor. A request
/// above the immediate next ordinal, a new authorization before the prior
/// drain, or any request after execution completion fails without mutation.
#[verifier::spinoff_prover]
#[verifier::rlimit(100)]
pub fn commit_maintenance_step<D: DurableSectorIo>(
    io: &mut D,
    request: MaintenanceStepCommitRequest,
) -> (result: Result<MaintenanceStepEvidence, MaintenanceStepError>)
    ensures
        result is Err && is_initial_step_read_error(result->Err_0) ==> old(io).log().len() < final(io).log().len(),
        log_prefix(old(io).log(), final(io).log(), step_commit_ops(old(io).sectors(), request)),
        result is Ok || !(result->Err_0 is Io || is_initial_step_read_error(result->Err_0)) ==> final(io).log()
            == old(io).log() + step_commit_ops(old(io).sectors(), request),
        result is Err && result->Err_0 is Io && result->Err_0->phase == IoPhase::WriteInactiveSlot ==> final(io).log()
            == old(io).log() + step_commit_ops(old(io).sectors(), request).take(step_commit_ops(old(io).sectors(), request).len() - 3),
        result is Err && result->Err_0 is Io && result->Err_0->phase == IoPhase::Flush ==> final(io).log()
            == old(io).log() + step_commit_ops(old(io).sectors(), request).take(step_commit_ops(old(io).sectors(), request).len() - 2),
        !step_commit_reads_begin(old(io).sectors().len(), request) ==> final(io).log() == old(io).log()
            && result == Err::<MaintenanceStepEvidence, MaintenanceStepError>(
            spec_step_plan(old(io).sectors(), request)->Err_0,
        ),
        match spec_step_plan(old(io).sectors(), request) {
            Err(error) => {
                &&& final(io).sectors() == old(io).sectors()
                &&& (result == Err::<MaintenanceStepEvidence, MaintenanceStepError>(error) || (
                result is Err && is_initial_step_read_error(result->Err_0)))
            },
            Ok(decision) => match decision.committed {
                None => {
                    &&& final(io).sectors() == old(io).sectors()
                    &&& (result == Ok::<MaintenanceStepEvidence, MaintenanceStepError>(
                        step_evidence(decision, request.binding, 0, 0),
                    ) || (result is Err && is_initial_step_read_error(result->Err_0)))
                },
                Some(step) => {
                    let lba = ledger_commit_lba(
                        request.partition_first_lba,
                        MAINTENANCE_STEP_SLOT_RELATIVE_LBAS,
                        step.commit,
                    );
                    &&& unchanged_except(old(io).sectors(), final(io).sectors(), lba)
                    &&& result is Err ==> is_initial_step_read_error(result->Err_0)
                        || is_step_commit_failure(result->Err_0)
                    &&& final(io).sectors()[lba] == step.commit.committed_sector ==> result is Ok
                        || result->Err_0 is Io
                    &&& result is Err && !(result->Err_0 is Io) && !is_initial_step_read_error(result->Err_0) ==> result->Err_0 == step_readback_error(
                        final(io).sectors()[request.partition_first_lba + MAINTENANCE_STEP_SLOT_RELATIVE_LBAS[0]],
                        final(io).sectors()[request.partition_first_lba + MAINTENANCE_STEP_SLOT_RELATIVE_LBAS[1]],
                        request.expected_format_epoch,
                    )
                    &&& result is Ok ==> {
                        let after = final(io).sectors();
                        let slots = MAINTENANCE_STEP_SLOT_RELATIVE_LBAS;
                        let first = request.partition_first_lba;
                        let recovered = spec_recover(after[first + slots[0]], after[first + slots[1]], request.expected_format_epoch);
                        &&& ledger_commit_outcome(
                            old(io).sectors(),
                            after,
                            first,
                            slots,
                            request.expected_format_epoch,
                            step.commit,
                        )
                        &&& result->Ok_0 == step_evidence(
                            decision,
                            request.binding,
                            recovered->Ok_0.valid_slots,
                            recovered->Ok_0.rejected_slots,
                        )
                    }
                },
            },
        },
{
    proof {
        lemma_step_commit_ops(old(io).sectors(), request);
    }
    let binding = request.binding;
    let expected_format_epoch = request.expected_format_epoch;
    let first = request.partition_first_lba;
    let sectors = request.partition_sectors;
    if let Err(error) = binding.validate() {
        return Err(MaintenanceStepError::StepState(error));
    }
    if let Err(error) = validate_record_epoch(expected_format_epoch) {
        return Err(MaintenanceStepError::Encode(error));
    }
    if !check_step_ledger_bounds(io, first, sectors) {
        return Err(MaintenanceStepError::PartitionBounds);
    }
    let ghost disk = io.sectors();
    let ghost start = io.log();
    let ghost ops = step_commit_ops(disk, request);
    let ghost reads = step_ledger_reads(first);
    let ghost stage = step_stage_reads(three_ledgers(disk, first), first, expected_format_epoch, binding);
    let loaded = load_step_commit_ledgers(io, first, sectors, expected_format_epoch, binding);
    proof {
        lemma_log_prefix_extend(start, io.log(), stage, ops);
    }
    let (slot0, slot1) = loaded?;
    let slots = MAINTENANCE_STEP_SLOT_RELATIVE_LBAS;
    let (recovered, existing, committed) = prepare_step(&slot0, &slot1, expected_format_epoch, binding)?;
    let ghost decision = spec_step_decision(slot0@, slot1@, expected_format_epoch, binding)->Ok_0;
    let (previous_sequence, previous_entry_count, previous_step_ordinal) = match existing {
        Some(state) => (state.sequence, state.entry_count, state.step_ordinal),
        None => (0u64, 0u64, 0u32),
    };
    let (initial_generation, initial_slot, initial_valid_slots, initial_rejected_slots) = match recovered {
        Some(record) => (record.generation, record.slot as u8, record.valid_slots, record.rejected_slots),
        None => (0u64, 0xffu8, 0u8, 0u8),
    };
    let (committed_state, prepared) = match committed {
        None => {
            let state = match existing {
                Some(state) => state,
                None => return Err(MaintenanceStepError::LedgerDivergence),
            };
            return Ok(
                MaintenanceStepEvidence {
                    provisioned_before: true,
                    replayed: true,
                    requested_sequence: binding.sequence,
                    requested_step_ordinal: binding.step_ordinal,
                    previous_sequence,
                    committed_sequence: state.sequence,
                    base_sequence: state.base_sequence,
                    previous_entry_count,
                    committed_entry_count: state.entry_count,
                    previous_step_ordinal,
                    committed_step_ordinal: state.step_ordinal,
                    initial_generation,
                    committed_generation: initial_generation,
                    initial_slot,
                    committed_slot: initial_slot,
                    initial_valid_slots,
                    initial_rejected_slots,
                    committed_valid_slots: initial_valid_slots,
                    committed_rejected_slots: initial_rejected_slots,
                    reads: 6,
                    writes: 0,
                    flushes: 0,
                    previous_chain_sha256: state.previous_chain_sha256,
                    committed_chain_sha256: state.chain_sha256,
                    binding,
                },
            );
        },
        Some(pair) => pair,
    };
    let ghost commit = decision.committed->Some_0.commit;
    let first_lba = first + slots[0];
    let second_lba = first + slots[1];
    let committed_lba = if prepared.committed_slot == 0 {
        first_lba
    } else {
        second_lba
    };
    let ghost calls = commit_ops(committed_lba, prepared.committed_sector@, first_lba, second_lba);
    let ghost mid = io.log();
    proof {
        assert(ops =~= reads + calls);
    }
    let committed_io = commit_and_read_back(
        io,
        committed_lba,
        &prepared.committed_sector,
        first_lba,
        second_lba,
    );
    proof {
        lemma_log_prefix_then(start, mid, io.log(), reads, calls);
    }
    let (verified0, verified1) = match committed_io {
        Ok(pair) => pair,
        Err((phase, error)) => {
            proof {
                if phase == IoPhase::WriteInactiveSlot {
                    lemma_log_stops_after(start, mid, io.log(), reads, calls, 1);
                }
                if phase == IoPhase::Flush {
                    lemma_log_stops_after(start, mid, io.log(), reads, calls, 2);
                }
            }
            return Err(MaintenanceStepError::Io { phase, error });
        },
    };
    proof {
        let committed = if commit.committed_slot == 0 { verified0@ } else { verified1@ };
        if committed == commit.committed_sector {
            lemma_kept_commit_is_recovered(
                slot0@,
                slot1@,
                verified0@,
                verified1@,
                expected_format_epoch,
                decision.recovered,
                commit.committed_payload,
            );
            lemma_step_round_trip(decision.committed->Some_0.state);
        }
    }
    let verified = match recover([&verified0, &verified1], expected_format_epoch) {
        Ok(record) => record,
        Err(error) => return Err(MaintenanceStepError::StepRecovery(error)),
    };
    let verified_state = match MaintenanceStepState::decode(verified.payload) {
        Ok(state) => state,
        Err(error) => return Err(MaintenanceStepError::StepState(error)),
    };
    if !ledger_readback_ok(
        &verified,
        &verified0,
        &verified1,
        &slot0,
        &slot1,
        &prepared,
        expected_format_epoch,
        Ghost(commit),
    ) || !verified_state.same_as(&committed_state) {
        return Err(MaintenanceStepError::VerificationFailed);
    }
    Ok(
        MaintenanceStepEvidence {
            provisioned_before: existing.is_some(),
            replayed: false,
            requested_sequence: binding.sequence,
            requested_step_ordinal: binding.step_ordinal,
            previous_sequence,
            committed_sequence: binding.sequence,
            base_sequence: committed_state.base_sequence,
            previous_entry_count,
            committed_entry_count: committed_state.entry_count,
            previous_step_ordinal,
            committed_step_ordinal: binding.step_ordinal,
            initial_generation,
            committed_generation: prepared.committed_generation,
            initial_slot,
            committed_slot: prepared.committed_slot as u8,
            initial_valid_slots,
            initial_rejected_slots,
            committed_valid_slots: verified.valid_slots,
            committed_rejected_slots: verified.rejected_slots,
            reads: 8,
            writes: 1,
            flushes: 1,
            previous_chain_sha256: committed_state.previous_chain_sha256,
            committed_chain_sha256: committed_state.chain_sha256,
            binding,
        },
    )
}

/// The audit and step ledgers lie inside the partition.
pub open spec fn audit_and_step_fit(first: u64, sectors: u64, device_sectors: nat) -> bool {
    &&& ledger_fits(first, sectors, MAINTENANCE_AUDIT_SLOT_RELATIVE_LBAS, device_sectors)
    &&& ledger_fits(first, sectors, MAINTENANCE_STEP_SLOT_RELATIVE_LBAS, device_sectors)
}

/// The selected step is the drain step of `authorization`, after exactly
/// `rotations_completed` rotations.
pub open spec fn is_terminal_step(
    state: MaintenanceStepState,
    authorization: MaintenanceAuthorizationAuditBinding,
    rotations_completed: u32,
) -> bool {
    &&& state.spec_binding().spec_authorization_binding() == authorization
    &&& state.sequence == authorization.sequence
    &&& state.step_ordinal == MAINTENANCE_STEP_DRAIN
    &&& state.observed_rotations == rotations_completed
    &&& state.flags == (MAINTENANCE_STEP_REPLAY_SAFE_FROM_BOOT_START | MAINTENANCE_STEP_DRAIN_VALIDATED)
}

/// The result of `validate_maintenance_step_terminal`, from the device
/// contents alone.
pub open spec fn spec_step_terminal_plan(disk: Seq<Seq<u8>>, request: MaintenanceStepTerminalRequest) -> Result<
    MaintenanceStepTerminalEvidence,
    MaintenanceStepError,
> {
    let first = request.partition_first_lba;
    let epoch = request.expected_format_epoch;
    let audit_slots = MAINTENANCE_AUDIT_SLOT_RELATIVE_LBAS;
    let step_slots = MAINTENANCE_STEP_SLOT_RELATIVE_LBAS;
    if request.authorization.spec_validate() is Err {
        Err(MaintenanceStepError::AuditState(request.authorization.spec_validate()->Err_0))
    } else if !audit_and_step_fit(first, request.partition_sectors, disk.len()) {
        Err(MaintenanceStepError::PartitionBounds)
    } else {
        match spec_recover(disk[first + audit_slots[0]], disk[first + audit_slots[1]], epoch) {
            Err(error) => Err(MaintenanceStepError::AuditRecovery(error)),
            Ok(audit) => match spec_decode_audit(audit.payload) {
                Err(error) => Err(MaintenanceStepError::AuditState(error)),
                Ok(audit_state) => if audit_state.spec_binding() != request.authorization {
                    Err(MaintenanceStepError::AuthorizationBindingMismatch)
                } else {
                    match spec_recover_ledger(disk[first + step_slots[0]], disk[first + step_slots[1]], epoch) {
                        Err(error) => Err(MaintenanceStepError::StepRecovery(error)),
                        Ok(None) => Err(MaintenanceStepError::TerminalStepIncomplete),
                        Ok(Some(step)) => match spec_decode_step(step.payload) {
                            Err(error) => Err(MaintenanceStepError::StepState(error)),
                            Ok(state) => if !is_terminal_step(state, request.authorization, request.rotations_completed) {
                                Err(MaintenanceStepError::TerminalStepIncomplete)
                            } else {
                                Ok(MaintenanceStepTerminalEvidence {
                                    sequence: state.sequence,
                                    base_sequence: state.base_sequence,
                                    entry_count: state.entry_count,
                                    step_ordinal: state.step_ordinal,
                                    generation: step.generation,
                                    slot: step.slot as u8,
                                    valid_slots: step.valid_slots,
                                    rejected_slots: step.rejected_slots,
                                    reads: 4,
                                    chain_sha256: state.chain_sha256,
                                    binding: state.spec_binding().spec_authorization_binding(),
                                })
                            },
                        },
                    }
                },
            },
        }
    }
}

/// Reads and binds the selected terminal drain step immediately before the
/// aggregate execution-completion transaction.
pub fn validate_maintenance_step_terminal<D: DurableSectorIo>(
    io: &mut D,
    request: MaintenanceStepTerminalRequest,
) -> (result: Result<MaintenanceStepTerminalEvidence, MaintenanceStepError>)
    ensures
        result is Err && is_initial_step_read_error(result->Err_0) ==> old(io).log().len() < final(io).log().len(),
        final(io).sectors() == old(io).sectors(),
        log_prefix(old(io).log(), final(io).log(), step_terminal_reads(request.partition_first_lba)),
        result is Ok ==> final(io).log() == old(io).log() + step_terminal_reads(request.partition_first_lba),
        !step_terminal_reads_begin(old(io).sectors().len(), request) ==> final(io).log() == old(io).log()
            && result == Err::<MaintenanceStepTerminalEvidence, MaintenanceStepError>(
            spec_step_terminal_plan(old(io).sectors(), request)->Err_0,
        ),
        match spec_step_terminal_plan(old(io).sectors(), request) {
            Err(error) => result == Err::<MaintenanceStepTerminalEvidence, MaintenanceStepError>(error) || (
            result is Err && is_initial_step_read_error(result->Err_0)),
            Ok(evidence) => result == Ok::<MaintenanceStepTerminalEvidence, MaintenanceStepError>(evidence) || (
            result is Err && is_initial_step_read_error(result->Err_0)),
        },
{
    let authorization = request.authorization;
    let first = request.partition_first_lba;
    let sectors = request.partition_sectors;
    let epoch = request.expected_format_epoch;
    if let Err(error) = authorization.validate() {
        return Err(MaintenanceStepError::AuditState(error));
    }
    let device_sectors = io.sector_count();
    let fits = match first.checked_add(sectors) {
        None => false,
        Some(end) => end <= device_sectors && MAINTENANCE_AUDIT_SLOT_RELATIVE_LBAS[0] < sectors
            && MAINTENANCE_AUDIT_SLOT_RELATIVE_LBAS[1] < sectors && MAINTENANCE_STEP_SLOT_RELATIVE_LBAS[0]
            < sectors && MAINTENANCE_STEP_SLOT_RELATIVE_LBAS[1] < sectors,
    };
    if !fits {
        return Err(MaintenanceStepError::PartitionBounds);
    }
    let ghost start = io.log();
    let ghost a = ledger_reads(first, MAINTENANCE_AUDIT_SLOT_RELATIVE_LBAS);
    let ghost t = ledger_reads(first, MAINTENANCE_STEP_SLOT_RELATIVE_LBAS);
    let loaded = load_slots(io, first, sectors, MAINTENANCE_AUDIT_SLOT_RELATIVE_LBAS);
    proof {
        lemma_log_prefix_widen(start, io.log(), a, t);
    }
    let (audit0, audit1) = loaded?;
    let audit = match recover([&audit0, &audit1], epoch) {
        Ok(record) => record,
        Err(error) => return Err(MaintenanceStepError::AuditRecovery(error)),
    };
    let audit_state = match MaintenanceAuditState::decode(audit.payload) {
        Ok(state) => state,
        Err(error) => return Err(MaintenanceStepError::AuditState(error)),
    };
    if !audit_state.binding().same_as(&authorization) {
        return Err(MaintenanceStepError::AuthorizationBindingMismatch);
    }
    let ghost mid = io.log();
    let loaded = load_slots(io, first, sectors, MAINTENANCE_STEP_SLOT_RELATIVE_LBAS);
    proof {
        lemma_log_prefix_then(start, mid, io.log(), a, t);
    }
    let (step0, step1) = loaded?;
    let step = match recover_ledger([&step0, &step1], epoch) {
        Ok(Some(record)) => record,
        Ok(None) => return Err(MaintenanceStepError::TerminalStepIncomplete),
        Err(error) => return Err(MaintenanceStepError::StepRecovery(error)),
    };
    let state = match MaintenanceStepState::decode(step.payload) {
        Ok(state) => state,
        Err(error) => return Err(MaintenanceStepError::StepState(error)),
    };
    if !state.binding().authorization_binding().same_as(&authorization) || state.sequence != authorization.sequence
        || state.step_ordinal != MAINTENANCE_STEP_DRAIN || state.observed_rotations != request.rotations_completed
        || state.flags != (MAINTENANCE_STEP_REPLAY_SAFE_FROM_BOOT_START | MAINTENANCE_STEP_DRAIN_VALIDATED) {
        return Err(MaintenanceStepError::TerminalStepIncomplete);
    }
    Ok(
        MaintenanceStepTerminalEvidence {
            sequence: state.sequence,
            base_sequence: state.base_sequence,
            entry_count: state.entry_count,
            step_ordinal: state.step_ordinal,
            generation: step.generation,
            slot: step.slot as u8,
            valid_slots: step.valid_slots,
            rejected_slots: step.rejected_slots,
            reads: 4,
            chain_sha256: state.chain_sha256,
            binding: state.binding().authorization_binding(),
        },
    )
}

/// After a successful step commit, recovering the step journal yields exactly
/// the journaled step, one entry past the previous head: the next ordinal of
/// the same authorization, or the first rotation of the next authorization
/// after the previous drain, or the first rotation of a fresh journal.
pub proof fn lemma_step_commit_recovers_successor(
    before: Seq<Seq<u8>>,
    after: Seq<Seq<u8>>,
    request: MaintenanceStepCommitRequest,
)
    requires
        spec_step_plan(before, request) is Ok,
        spec_step_plan(before, request)->Ok_0.committed is Some,
        ledger_commit_outcome(
            before,
            after,
            request.partition_first_lba,
            MAINTENANCE_STEP_SLOT_RELATIVE_LBAS,
            request.expected_format_epoch,
            spec_step_plan(before, request)->Ok_0.committed->Some_0.commit,
        ),
    ensures
        ({
            let decision = spec_step_plan(before, request)->Ok_0;
            let first = request.partition_first_lba;
            let slots = MAINTENANCE_STEP_SLOT_RELATIVE_LBAS;
            let recovered = spec_recover(after[first + slots[0]], after[first + slots[1]], request.expected_format_epoch);
            let head = decision.committed->Some_0.state;
            &&& spec_decode_step(recovered->Ok_0.payload) == Ok::<MaintenanceStepState, MaintenanceStepStateError>(head)
            &&& head.spec_binding() == request.binding
            &&& match decision.existing {
                Some(previous) => {
                    &&& head.entry_count == previous.entry_count + 1
                    &&& head.base_sequence == previous.base_sequence
                    &&& head.previous_chain_sha256 == previous.chain_sha256
                    &&& if head.sequence == previous.sequence {
                        head.step_ordinal == previous.step_ordinal + 1
                    } else {
                        &&& head.sequence == previous.sequence + 1
                        &&& previous.step_ordinal == MAINTENANCE_STEP_DRAIN
                        &&& head.step_ordinal == MAINTENANCE_STEP_ROTATION_ONE
                    }
                },
                None => {
                    &&& head.entry_count == 1
                    &&& head.base_sequence == head.sequence
                    &&& head.step_ordinal == MAINTENANCE_STEP_ROTATION_ONE
                    &&& all_zero(head.previous_chain_sha256@)
                },
            }
        }),
{
    let decision = spec_step_plan(before, request)->Ok_0;
    lemma_step_round_trip(decision.committed->Some_0.state);
    if decision.existing is Some {
        lemma_decoded_step_is_valid(decision.recovered->Some_0.payload);
    } else {
        lemma_digest_at(zeros(32), 0);
    }
}

/// A step request at or below the journaled ordinal of the same authorization
/// is a replay: the transaction reports the journaled head and writes nothing.
pub proof fn lemma_step_replay_is_read_only(disk: Seq<Seq<u8>>, request: MaintenanceStepCommitRequest)
    requires
        spec_step_plan(disk, request) is Ok,
        spec_step_plan(disk, request)->Ok_0.committed is None,
    ensures
        ({
            let decision = spec_step_plan(disk, request)->Ok_0;
            let previous = decision.existing->Some_0;
            &&& decision.existing is Some
            &&& previous.sequence == request.binding.sequence
            &&& request.binding.step_ordinal <= previous.step_ordinal
            &&& step_evidence(decision, request.binding, 0, 0).replayed
            &&& step_evidence(decision, request.binding, 0, 0).writes == 0
        }),
{
}

/// The error a step commit reports when the step slots it reads back do not
/// confirm the commit: recovery's error, the decoder's error, or a
/// verification failure.
pub open spec fn step_readback_error(after0: Seq<u8>, after1: Seq<u8>, epoch: FormatEpoch) -> MaintenanceStepError {
    match spec_recover(after0, after1, epoch) {
        Err(error) => MaintenanceStepError::StepRecovery(error),
        Ok(record) => match spec_decode_step(record.payload) {
            Err(error) => MaintenanceStepError::StepState(error),
            Ok(_) => MaintenanceStepError::VerificationFailed,
        },
    }
}

/// A step is refused once the execution ledger holds its sequence. Against the
/// step head: an empty journal takes only the first rotation step; a step of
/// the next sequence needs a drained predecessor and starts at rotation one;
/// and a step of the same authorization at or below the head's ordinal is a
/// read-only replay.
pub proof fn lemma_step_refusals(
    execution0: Seq<u8>,
    execution1: Seq<u8>,
    format_epoch: FormatEpoch,
    existing: Option<MaintenanceStepState>,
    binding: MaintenanceStepCommitBinding,
)
    ensures
        spec_recover_ledger(execution0, execution1, format_epoch) matches Ok(recovered) && decoded_execution(recovered)
            matches Ok(Some(state)) && state.sequence == binding.sequence ==> spec_step_execution_check(
            execution0,
            execution1,
            format_epoch,
            binding,
        ) == Err::<(), MaintenanceStepError>(MaintenanceStepError::ExecutionAlreadyComplete),
        existing is None && binding.step_ordinal != MAINTENANCE_STEP_ROTATION_ONE ==> spec_step_successor(
            existing,
            binding,
        ) == Err::<Option<MaintenanceStepState>, MaintenanceStepError>(
            MaintenanceStepError::BootstrapStep { sequence: binding.sequence, step: binding.step_ordinal },
        ),
        ({
            let head = existing->Some_0;
            &&& existing is Some
            &&& head.root_sha256 == binding.root_sha256
            &&& head.policy_sha256 == binding.policy_sha256
            &&& head.device_binding_sha256 == binding.device_binding_sha256
        }) ==> {
            let head = existing->Some_0;
            let next = spec_step_successor(existing, binding);
            &&& head.sequence < u64::MAX && binding.sequence == head.sequence + 1 && (head.step_ordinal
                != MAINTENANCE_STEP_DRAIN || binding.step_ordinal != MAINTENANCE_STEP_ROTATION_ONE) ==> next
                == Err::<Option<MaintenanceStepState>, MaintenanceStepError>(
                MaintenanceStepError::TerminalStepIncomplete,
            )
            &&& binding.sequence == head.sequence && head.spec_binding().spec_authorization_binding()
                == binding.spec_authorization_binding() && binding.step_ordinal <= head.step_ordinal ==> next
                == Ok::<Option<MaintenanceStepState>, MaintenanceStepError>(None)
        },
{
}

} // verus!

//! Admission checks over the four maintenance ledgers, and committing or
//! replaying one phase transition of the maintenance plan.
use vstd::prelude::*;
use crate::codec::{all_zero, digest_at, digest_eq, lemma_digest_at, lemma_digest_at_view, zeros};
use crate::digest::sha256_digest;
use crate::io::{commit_ops, is_commit_phase, ledger_reads, lemma_log_prefix_extend, lemma_log_prefix_then, lemma_log_prefix_widen, lemma_log_stops_after, log_prefix, slot_reads, unchanged_except, IoOp, DurableSectorIo, IoPhase, PersistIoError};
use crate::layout::{
    FormatEpoch, Sector, MAINTENANCE_PLAN_PHASE_APPLYING, MAINTENANCE_PLAN_PHASE_COMPENSATED,
    MAINTENANCE_PLAN_PHASE_CONFIRMED, MAINTENANCE_PLAN_PHASE_PREPARED,
    MAINTENANCE_PLAN_SLOT_RELATIVE_LBAS, MAINTENANCE_STEP_DRAIN, MAINTENANCE_STEP_ROTATION_ONE,
};
use crate::ledger::{commit_and_read_back, ledger_fits, load_ledger_slots, LoadFailure};
use crate::maintenance_audit::MaintenanceAuthorizationAuditBinding;
use crate::maintenance_audit_tx::MaintenanceAuditRequest;
use crate::maintenance_plan::{
    lemma_decoded_plan_is_valid, lemma_plan_round_trip, maintenance_plan_chain_sha256, maintenance_plan_phase_position, plan_chain_material,
    plan_transition_count, spec_decode_plan, spec_encode_plan, spec_phase_position,
    transition_count_at, MaintenancePlanState, MaintenancePlanStateError,
    MaintenancePlanTransitionBinding,
};
use crate::maintenance_step_tx::{
    preflight_maintenance_step_admission, spec_step_admission_plan, step_admission_reads_begin, step_ledger_reads, MaintenanceStepAdmissionEvidence,
    MaintenanceStepError,
};
use crate::manifest_tx::{
    lemma_kept_commit_is_recovered, ledger_commit_lba, initial_generation_of, initial_rejected_of, initial_slot_of, initial_valid_of,
    ledger_commit_outcome, ledger_readback_ok, option_view, prepare_next_record, spec_next_record,
    LedgerCommit, PreparedLedgerCommit,
};
use crate::record::{
    lemma_recovered_slot, recover, recover_ledger, spec_encode_record, spec_recover,
    spec_recover_ledger, spec_validate_record_epoch, validate_record_epoch, RecordError,
    RecoveredModel, RecoveredRecord, RecoveryError,
};

verus! {

broadcast use vstd::array::group_array_axioms;

#[derive(Clone, Copy, Debug, PartialEq, Eq, Structural)]
pub enum MaintenancePlanError {
    PartitionBounds,
    Io { phase: IoPhase, error: PersistIoError },
    StepPreflight(MaintenanceStepError),
    PlanRecovery(RecoveryError),
    PlanState(MaintenancePlanStateError),
    BootstrapTransition,
    Replay { actual: u64, minimum: u64 },
    TransitionGap,
    InvalidTransition,
    AuthorizationBindingMismatch,
    LedgerDivergence,
    EffectNotApplied,
    EffectAlreadyApplied,
    PlanCompensated,
    TerminalPlanIncomplete,
    SequenceExhausted,
    Encode(RecordError),
    VerificationFailed,
}

impl MaintenancePlanError {
    /// The fixed text that describes this error.
    pub open spec fn message(self) -> Seq<char> {
        match self {
            Self::PartitionBounds => "maintenance plan slots are outside the data partition"@,
            Self::Io {
                phase: IoPhase::ReadInitialSlot | IoPhase::ReadVerificationSlot,
                error: PersistIoError::RequiresReset,
            } => "maintenance plan read requires a device reset"@,
            Self::Io {
                phase: IoPhase::WriteInactiveSlot,
                error: PersistIoError::OutcomeUnknown,
            } => "maintenance plan write outcome is unknown and requires reset"@,
            Self::Io {
                phase: IoPhase::Flush,
                error: PersistIoError::OutcomeUnknown,
            } => "maintenance plan flush outcome is unknown and requires reset"@,
            Self::Io {
                phase: IoPhase::ReadInitialSlot,
                ..
            } => "maintenance plan initial record read failed"@,
            Self::Io {
                phase: IoPhase::WriteInactiveSlot,
                ..
            } => "maintenance plan inactive-slot write failed"@,
            Self::Io {
                phase: IoPhase::Flush,
                ..
            } => "maintenance plan cache flush failed"@,
            Self::Io {
                phase: IoPhase::ReadVerificationSlot,
                ..
            } => "maintenance plan verification read failed"@,
            Self::Io {
                phase: IoPhase::ReadSuperblock,
                ..
            } => "maintenance plan used an invalid superblock phase"@,
            Self::StepPreflight(error) => error.message(),
            Self::PlanRecovery(error) => error.message(),
            Self::PlanState(error) => error.message(),
            Self::BootstrapTransition => {
                "maintenance plan did not begin with operation one prepared"@
            }
            Self::Replay { .. } => "maintenance plan request predates the selected plan head"@,
            Self::TransitionGap => "maintenance plan request skipped a phase or operation"@,
            Self::InvalidTransition => "maintenance plan phase transition is not legal"@,
            Self::AuthorizationBindingMismatch => {
                "maintenance plan authorization does not exactly match its selected head"@
            }
            Self::LedgerDivergence => {
                "maintenance audit, execution, step, and plan ledgers diverged"@
            }
            Self::EffectNotApplied => {
                "maintenance plan cannot confirm before the exact M79 effect is durable"@
            }
            Self::EffectAlreadyApplied => {
                "maintenance plan cannot prepare, apply, or compensate after the effect is durable"@
            }
            Self::PlanCompensated => "maintenance plan was terminally compensated before apply"@,
            Self::TerminalPlanIncomplete => {
                "maintenance execution cannot complete before operation three is confirmed"@
            }
            Self::SequenceExhausted => "maintenance plan sequence or transition count is exhausted"@,
            Self::Encode(error) => error.message(),
            Self::VerificationFailed => {
                "maintenance plan commit did not survive flush and readback"@
            }
        }
    }

    pub fn as_str(self) -> (text: &'static str)
        ensures
            text@ == self.message(),
    {
        match self {
            Self::PartitionBounds => "maintenance plan slots are outside the data partition",
            Self::Io {
                phase: IoPhase::ReadInitialSlot | IoPhase::ReadVerificationSlot,
                error: PersistIoError::RequiresReset,
            } => "maintenance plan read requires a device reset",
            Self::Io {
                phase: IoPhase::WriteInactiveSlot,
                error: PersistIoError::OutcomeUnknown,
            } => "maintenance plan write outcome is unknown and requires reset",
            Self::Io {
                phase: IoPhase::Flush,
                error: PersistIoError::OutcomeUnknown,
            } => "maintenance plan flush outcome is unknown and requires reset",
            Self::Io {
                phase: IoPhase::ReadInitialSlot,
                ..
            } => "maintenance plan initial record read failed",
            Self::Io {
                phase: IoPhase::WriteInactiveSlot,
                ..
            } => "maintenance plan inactive-slot write failed",
            Self::Io {
                phase: IoPhase::Flush,
                ..
            } => "maintenance plan cache flush failed",
            Self::Io {
                phase: IoPhase::ReadVerificationSlot,
                ..
            } => "maintenance plan verification read failed",
            Self::Io {
                phase: IoPhase::ReadSuperblock,
                ..
            } => "maintenance plan used an invalid superblock phase",
            Self::StepPreflight(error) => error.as_str(),
            Self::PlanRecovery(error) => error.as_str(),
            Self::PlanState(error) => error.as_str(),
            Self::BootstrapTransition => {
                "maintenance plan did not begin with operation one prepared"
            }
            Self::Replay { .. } => "maintenance plan request predates the selected plan head",
            Self::TransitionGap => "maintenance plan request skipped a phase or operation",
            Self::InvalidTransition => "maintenance plan phase transition is not legal",
            Self::AuthorizationBindingMismatch => {
                "maintenance plan authorization does not exactly match its selected head"
            }
            Self::LedgerDivergence => {
                "maintenance audit, execution, step, and plan ledgers diverged"
            }
            Self::EffectNotApplied => {
                "maintenance plan cannot confirm before the exact M79 effect is durable"
            }
            Self::EffectAlreadyApplied => {
                "maintenance plan cannot prepare, apply, or compensate after the effect is durable"
            }
            Self::PlanCompensated => "maintenance plan was terminally compensated before apply",
            Self::TerminalPlanIncomplete => {
                "maintenance execution cannot complete before operation three is confirmed"
            }
            Self::SequenceExhausted => "maintenance plan sequence or transition count is exhausted",
            Self::Encode(error) => error.as_str(),
            Self::VerificationFailed => {
                "maintenance plan commit did not survive flush and readback"
            }
        }
    }
}

#[derive(Clone, Copy, Debug, PartialEq, Eq)]
pub struct MaintenancePlanAdmissionEvidence {
    pub step: MaintenanceStepAdmissionEvidence,
    pub provisioned_before: bool,
    pub legacy_anchor: bool,
    pub resumes_current_sequence: bool,
    pub result_unknown: bool,
    pub effect_observed_unconfirmed: bool,
    pub sequence: u64,
    pub base_sequence: u64,
    pub transition_count: u64,
    pub operation_ordinal: u32,
    pub phase: u32,
    pub generation: u64,
    pub slot: u8,
    pub valid_slots: u8,
    pub rejected_slots: u8,
    pub reads: u8,
    pub effect_sha256: [u8; 32],
    pub operation_instance_id: [u8; 32],
    pub idempotency_key: [u8; 32],
    pub chain_sha256: [u8; 32],
    pub binding: MaintenanceAuthorizationAuditBinding,
}

#[derive(Clone, Copy, Debug, PartialEq, Eq)]
pub struct MaintenancePlanTransitionRequest {
    pub partition_first_lba: u64,
    pub partition_sectors: u64,
    pub expected_format_epoch: FormatEpoch,
    pub binding: MaintenancePlanTransitionBinding,
}

#[derive(Clone, Copy, Debug, PartialEq, Eq)]
pub struct MaintenancePlanEvidence {
    pub provisioned_before: bool,
    pub replayed: bool,
    pub requested_sequence: u64,
    pub requested_operation_ordinal: u32,
    pub requested_phase: u32,
    pub previous_sequence: u64,
    pub committed_sequence: u64,
    pub base_sequence: u64,
    pub previous_transition_count: u64,
    pub committed_transition_count: u64,
    pub previous_operation_ordinal: u32,
    pub committed_operation_ordinal: u32,
    pub previous_phase: u32,
    pub committed_phase: u32,
    pub initial_generation: u64,
    pub committed_generation: u64,
    pub initial_slot: u8,
    pub committed_slot: u8,
    pub initial_valid_slots: u8,
    pub initial_rejected_slots: u8,
    pub committed_valid_slots: u8,
    pub committed_rejected_slots: u8,
    pub reads: u8,
    pub writes: u8,
    pub flushes: u8,
    pub result_unknown_before: bool,
    pub effect_observed_before: bool,
    pub previous_chain_sha256: [u8; 32],
    pub committed_chain_sha256: [u8; 32],
    pub requested_binding: MaintenancePlanTransitionBinding,
    pub committed_binding: MaintenancePlanTransitionBinding,
}

#[derive(Clone, Copy, Debug, PartialEq, Eq)]
pub struct MaintenancePlanTerminalRequest {
    pub partition_first_lba: u64,
    pub partition_sectors: u64,
    pub expected_format_epoch: FormatEpoch,
    pub authorization: MaintenanceAuthorizationAuditBinding,
    pub expected_step_chain_sha256: [u8; 32],
}

#[derive(Clone, Copy, Debug, PartialEq, Eq)]
pub struct MaintenancePlanTerminalEvidence {
    pub sequence: u64,
    pub base_sequence: u64,
    pub transition_count: u64,
    pub operation_ordinal: u32,
    pub phase: u32,
    pub generation: u64,
    pub slot: u8,
    pub valid_slots: u8,
    pub rejected_slots: u8,
    pub reads: u8,
    pub effect_sha256: [u8; 32],
    pub operation_instance_id: [u8; 32],
    pub idempotency_key: [u8; 32],
    pub chain_sha256: [u8; 32],
    pub binding: MaintenanceAuthorizationAuditBinding,
}

pub open spec fn decoded_plan(recovered: Option<RecoveredModel>) -> Result<Option<MaintenancePlanState>, MaintenancePlanStateError> {
    match recovered {
        Some(record) => match spec_decode_plan(record.payload) {
            Ok(state) => Ok(Some(state)),
            Err(error) => Err(error),
        },
        None => Ok(None),
    }
}

/// What the plan head says of the current operation: whether an applying
/// intent's result is still unknown, or its effect was observed but not yet
/// confirmed.
pub struct PlanReconciliation {
    pub result_unknown: bool,
    pub effect_observed_unconfirmed: bool,
}

/// Reconciles the plan head `plan` with the step journal as admission saw it.
pub open spec fn spec_reconcile_plan(
    plan: MaintenancePlanState,
    step: MaintenanceStepAdmissionEvidence,
    binding: MaintenanceAuthorizationAuditBinding,
) -> Result<PlanReconciliation, MaintenancePlanError> {
    let current = if step.step_sequence == plan.sequence { step.step_ordinal } else { 0u32 };
    let prior = plan.operation_ordinal - 1;
    if binding.sequence < plan.sequence {
        Err(MaintenancePlanError::Replay { actual: binding.sequence, minimum: plan.sequence })
    } else if binding.sequence == plan.sequence && binding != plan.spec_binding().spec_authorization_binding() {
        Err(MaintenancePlanError::AuthorizationBindingMismatch)
    } else if binding.sequence != plan.sequence && plan.sequence == u64::MAX {
        Err(MaintenancePlanError::SequenceExhausted)
    } else if binding.sequence != plan.sequence && (binding.sequence != plan.sequence + 1
        || plan.operation_ordinal != MAINTENANCE_STEP_DRAIN || plan.phase != MAINTENANCE_PLAN_PHASE_CONFIRMED
        || step.execution_sequence != plan.sequence || step.step_sequence != plan.sequence
        || step.step_ordinal != MAINTENANCE_STEP_DRAIN) {
        Err(MaintenancePlanError::LedgerDivergence)
    } else if plan.sequence > step.audit_sequence || (plan.sequence != step.audit_sequence
        && plan.sequence != step.execution_sequence) {
        Err(MaintenancePlanError::LedgerDivergence)
    } else if plan.phase == MAINTENANCE_PLAN_PHASE_PREPARED || plan.phase == MAINTENANCE_PLAN_PHASE_COMPENSATED {
        if current != prior {
            Err(MaintenancePlanError::LedgerDivergence)
        } else if step.execution_sequence == plan.sequence {
            Err(MaintenancePlanError::LedgerDivergence)
        } else {
            Ok(PlanReconciliation { result_unknown: false, effect_observed_unconfirmed: false })
        }
    } else if plan.phase == MAINTENANCE_PLAN_PHASE_APPLYING {
        if current != prior && current != plan.operation_ordinal {
            Err(MaintenancePlanError::LedgerDivergence)
        } else if step.execution_sequence == plan.sequence {
            Err(MaintenancePlanError::LedgerDivergence)
        } else {
            Ok(PlanReconciliation {
                result_unknown: current == prior,
                effect_observed_unconfirmed: current == plan.operation_ordinal,
            })
        }
    } else if plan.phase == MAINTENANCE_PLAN_PHASE_CONFIRMED {
        if current < plan.operation_ordinal {
            Err(MaintenancePlanError::LedgerDivergence)
        } else if step.execution_sequence == plan.sequence && plan.operation_ordinal != MAINTENANCE_STEP_DRAIN {
            Err(MaintenancePlanError::LedgerDivergence)
        } else {
            Ok(PlanReconciliation { result_unknown: false, effect_observed_unconfirmed: false })
        }
    } else {
        Err(MaintenancePlanError::InvalidTransition)
    }
}

/// With no plan journal, admission is a fresh first authorization or the
/// authorization right after a completed predecessor that predates the plan.
pub open spec fn completed_predecessor_anchor(
    step: MaintenanceStepAdmissionEvidence,
    binding: MaintenanceAuthorizationAuditBinding,
) -> bool {
    &&& step.execution_sequence < u64::MAX
    &&& step.execution_sequence + 1 == binding.sequence
    &&& (step.audit_sequence == step.execution_sequence || step.audit_sequence == binding.sequence)
    &&& step.legacy_anchor
    &&& !step.provisioned_before
}

pub open spec fn fresh_plan_start(
    step: MaintenanceStepAdmissionEvidence,
    binding: MaintenanceAuthorizationAuditBinding,
) -> bool {
    &&& binding.sequence == 1
    &&& step.audit_sequence == 0
    &&& step.execution_sequence == 0
    &&& !step.provisioned_before
}

/// The plan admission evidence.
pub open spec fn plan_admission_evidence(
    step: MaintenanceStepAdmissionEvidence,
    recovered: Option<RecoveredModel>,
    plan: Option<MaintenancePlanState>,
    reconciliation: PlanReconciliation,
    binding: MaintenanceAuthorizationAuditBinding,
) -> MaintenancePlanAdmissionEvidence {
    MaintenancePlanAdmissionEvidence {
        step,
        provisioned_before: plan is Some,
        legacy_anchor: plan is None && completed_predecessor_anchor(step, binding),
        resumes_current_sequence: plan is Some && binding.sequence == plan->Some_0.sequence,
        result_unknown: reconciliation.result_unknown,
        effect_observed_unconfirmed: reconciliation.effect_observed_unconfirmed,
        sequence: match plan { Some(p) => p.sequence, None => 0 },
        base_sequence: match plan { Some(p) => p.base_sequence, None => 0 },
        transition_count: match plan { Some(p) => p.transition_count, None => 0 },
        operation_ordinal: match plan { Some(p) => p.operation_ordinal, None => 0 },
        phase: match plan { Some(p) => p.phase, None => 0 },
        generation: initial_generation_of(recovered),
        slot: initial_slot_of(recovered),
        valid_slots: initial_valid_of(recovered),
        rejected_slots: initial_rejected_of(recovered),
        reads: (step.reads + 2) as u8,
        effect_sha256: match plan { Some(p) => p.effect_sha256, None => digest_at(zeros(32), 0) },
        operation_instance_id: match plan { Some(p) => p.operation_instance_id, None => digest_at(zeros(32), 0) },
        idempotency_key: match plan { Some(p) => p.idempotency_key, None => digest_at(zeros(32), 0) },
        chain_sha256: match plan { Some(p) => p.chain_sha256, None => digest_at(zeros(32), 0) },
        binding,
    }
}

/// Admission's decision once the step preflight has passed, from the plan
/// journal's two slots.
pub open spec fn spec_plan_admission_decision(
    step: MaintenanceStepAdmissionEvidence,
    slot0: Seq<u8>,
    slot1: Seq<u8>,
    format_epoch: FormatEpoch,
    binding: MaintenanceAuthorizationAuditBinding,
) -> Result<MaintenancePlanAdmissionEvidence, MaintenancePlanError> {
    match spec_recover_ledger(slot0, slot1, format_epoch) {
        Err(error) => Err(MaintenancePlanError::PlanRecovery(error)),
        Ok(recovered) => match decoded_plan(recovered) {
            Err(error) => Err(MaintenancePlanError::PlanState(error)),
            Ok(Some(plan)) => match spec_reconcile_plan(plan, step, binding) {
                Err(error) => Err(error),
                Ok(reconciliation) => if step.reads > 253 {
                    Err(MaintenancePlanError::SequenceExhausted)
                } else {
                    Ok(plan_admission_evidence(step, recovered, Some(plan), reconciliation, binding))
                },
            },
            Ok(None) => if !fresh_plan_start(step, binding) && !completed_predecessor_anchor(step, binding) {
                Err(MaintenancePlanError::LedgerDivergence)
            } else if step.reads > 253 {
                Err(MaintenancePlanError::SequenceExhausted)
            } else {
                Ok(plan_admission_evidence(
                    step,
                    recovered,
                    None,
                    PlanReconciliation { result_unknown: false, effect_observed_unconfirmed: false },
                    binding,
                ))
            },
        },
    }
}

/// The result of `preflight_maintenance_plan_admission`, from the device
/// contents alone.
pub open spec fn spec_plan_admission_plan(disk: Seq<Seq<u8>>, request: MaintenanceAuditRequest) -> Result<
    MaintenancePlanAdmissionEvidence,
    MaintenancePlanError,
> {
    let first = request.partition_first_lba;
    let slots = MAINTENANCE_PLAN_SLOT_RELATIVE_LBAS;
    if request.binding.spec_validate() is Err {
        Err(MaintenancePlanError::PlanState(MaintenancePlanStateError::Authorization(request.binding.spec_validate()->Err_0)))
    } else if spec_validate_record_epoch(request.expected_format_epoch) is Err {
        Err(MaintenancePlanError::Encode(spec_validate_record_epoch(request.expected_format_epoch)->Err_0))
    } else if !ledger_fits(first, request.partition_sectors, slots, disk.len()) {
        Err(MaintenancePlanError::PartitionBounds)
    } else {
        match spec_step_admission_plan(disk, request) {
            Err(error) => Err(MaintenancePlanError::StepPreflight(error)),
            Ok(step) => spec_plan_admission_decision(
                step,
                disk[first + slots[0]],
                disk[first + slots[1]],
                request.expected_format_epoch,
                request.binding,
            ),
        }
    }
}

/// A failure of the commit after the reads: an I/O error while writing,
/// flushing or reading back, or a readback that does not show the commit.
pub open spec fn is_plan_commit_failure(error: MaintenancePlanError) -> bool {
    match error {
        MaintenancePlanError::Io { phase, .. } => is_commit_phase(phase),
        MaintenancePlanError::PlanRecovery(_) | MaintenancePlanError::PlanState(_) | MaintenancePlanError::VerificationFailed => true,
        _ => false,
    }
}

/// A failure of the reads before any write.
pub open spec fn is_initial_plan_read_error(error: MaintenancePlanError) -> bool {
    match error {
        MaintenancePlanError::Io { phase, .. } => phase == IoPhase::ReadInitialSlot,
        MaintenancePlanError::StepPreflight(MaintenanceStepError::Io { phase, .. }) => phase
            == IoPhase::ReadInitialSlot,
        _ => false,
    }
}

/// Reconciles the plan head with the step journal as admission saw it.
fn reconcile_plan(
    plan: MaintenancePlanState,
    step: MaintenanceStepAdmissionEvidence,
    binding: MaintenanceAuthorizationAuditBinding,
) -> (result: Result<(bool, bool), MaintenancePlanError>)
    requires
        plan.spec_validate() is Ok,
    ensures
        match spec_reconcile_plan(plan, step, binding) {
            Err(error) => result == Err::<(bool, bool), MaintenancePlanError>(error),
            Ok(r) => result == Ok::<(bool, bool), MaintenancePlanError>((r.result_unknown, r.effect_observed_unconfirmed)),
        },
{
    if binding.sequence < plan.sequence {
        return Err(MaintenancePlanError::Replay { actual: binding.sequence, minimum: plan.sequence });
    }
    if binding.sequence == plan.sequence {
        if !binding.same_as(&plan.binding().authorization_binding()) {
            return Err(MaintenancePlanError::AuthorizationBindingMismatch);
        }
    } else {
        let next = match plan.sequence.checked_add(1) {
            Some(next) => next,
            None => return Err(MaintenancePlanError::SequenceExhausted),
        };
        if binding.sequence != next || plan.operation_ordinal != MAINTENANCE_STEP_DRAIN || plan.phase
            != MAINTENANCE_PLAN_PHASE_CONFIRMED || step.execution_sequence != plan.sequence
            || step.step_sequence != plan.sequence || step.step_ordinal != MAINTENANCE_STEP_DRAIN {
            return Err(MaintenancePlanError::LedgerDivergence);
        }
    }
    if plan.sequence > step.audit_sequence || (plan.sequence != step.audit_sequence && plan.sequence
        != step.execution_sequence) {
        return Err(MaintenancePlanError::LedgerDivergence);
    }
    let current_step_ordinal = if step.step_sequence == plan.sequence {
        step.step_ordinal
    } else {
        0
    };
    let prior_step_ordinal = plan.operation_ordinal - 1;
    let mut result_unknown = false;
    let mut effect_observed_unconfirmed = false;
    if plan.phase == MAINTENANCE_PLAN_PHASE_PREPARED || plan.phase == MAINTENANCE_PLAN_PHASE_COMPENSATED {
        if current_step_ordinal != prior_step_ordinal {
            return Err(MaintenancePlanError::LedgerDivergence);
        }
    } else if plan.phase == MAINTENANCE_PLAN_PHASE_APPLYING {
        if current_step_ordinal != prior_step_ordinal && current_step_ordinal != plan.operation_ordinal {
            return Err(MaintenancePlanError::LedgerDivergence);
        }
        result_unknown = current_step_ordinal == prior_step_ordinal;
        effect_observed_unconfirmed = current_step_ordinal == plan.operation_ordinal;
    } else if plan.phase == MAINTENANCE_PLAN_PHASE_CONFIRMED {
        if current_step_ordinal < plan.operation_ordinal {
            return Err(MaintenancePlanError::LedgerDivergence);
        }
    } else {
        return Err(MaintenancePlanError::InvalidTransition);
    }
    if step.execution_sequence == plan.sequence && (plan.operation_ordinal != MAINTENANCE_STEP_DRAIN
        || plan.phase != MAINTENANCE_PLAN_PHASE_CONFIRMED) {
        return Err(MaintenancePlanError::LedgerDivergence);
    }
    Ok((result_unknown, effect_observed_unconfirmed))
}

/// Reads one plan-ledger pair inside a partition already known to hold it.
fn load_plan_slots<D: DurableSectorIo>(io: &mut D, first: u64, sectors: u64) -> (result: Result<
    (Sector, Sector),
    MaintenancePlanError,
>)
    requires
        ledger_fits(first, sectors, MAINTENANCE_PLAN_SLOT_RELATIVE_LBAS, old(io).sectors().len()),
    ensures
        result is Err ==> old(io).log().len() < final(io).log().len(),
        final(io).sectors() == old(io).sectors(),
        match result {
            Ok((slot0, slot1)) => {
                let slots = MAINTENANCE_PLAN_SLOT_RELATIVE_LBAS;
                slot0@ == old(io).sectors()[first + slots[0]] && slot1@ == old(io).sectors()[first + slots[1]]
            },
            Err(error) => is_initial_plan_read_error(error),
        },
        log_prefix(old(io).log(), final(io).log(), ledger_reads(first, MAINTENANCE_PLAN_SLOT_RELATIVE_LBAS)),
        result is Ok ==> final(io).log() == old(io).log() + ledger_reads(first, MAINTENANCE_PLAN_SLOT_RELATIVE_LBAS),
{
    let ghost start = io.log();
    let loaded = load_ledger_slots(io, first, sectors, MAINTENANCE_PLAN_SLOT_RELATIVE_LBAS);
    proof {
        let r = ledger_reads(first, MAINTENANCE_PLAN_SLOT_RELATIVE_LBAS);
        assert(start =~= start + r.take(0));
        assert(start.push(IoOp::Read((first + MAINTENANCE_PLAN_SLOT_RELATIVE_LBAS[0]) as u64)) =~= start + r.take(1));
        assert(start + r =~= start + r.take(2));
    }
    match loaded {
        Ok(pair) => Ok(pair),
        Err(LoadFailure::Io { phase, error }) => Err(MaintenancePlanError::Io { phase, error }),
        Err(_) => Err(MaintenancePlanError::PartitionBounds),
    }
}

fn decode_plan_head<'a>(slot0: &'a Sector, slot1: &'a Sector, expected_format_epoch: FormatEpoch) -> (result: Result<
    (Option<RecoveredRecord<'a>>, Option<MaintenancePlanState>),
    MaintenancePlanError,
>)
    ensures
        match spec_recover_ledger(slot0@, slot1@, expected_format_epoch) {
            Err(error) => result is Err && result->Err_0 == MaintenancePlanError::PlanRecovery(error),
            Ok(recovered) => match decoded_plan(recovered) {
                Err(error) => result is Err && result->Err_0 == MaintenancePlanError::PlanState(error),
                Ok(head) => {
                    &&& result is Ok
                    &&& option_view(result->Ok_0.0) == recovered
                    &&& result->Ok_0.1 == head
                    &&& (result->Ok_0.0 is Some ==> result->Ok_0.0->Some_0.slot < 2)
                    &&& (head is Some ==> head->Some_0.spec_validate() is Ok)
                },
            },
        },
{
    let recovered = match recover_ledger([slot0, slot1], expected_format_epoch) {
        Err(error) => return Err(MaintenancePlanError::PlanRecovery(error)),
        Ok(recovered) => recovered,
    };
    proof {
        if recovered is Some {
            lemma_recovered_slot(slot0@, slot1@, expected_format_epoch);
            crate::maintenance_plan::lemma_decoded_plan_is_valid(recovered->Some_0.payload@);
        }
    }
    assert(option_view(recovered) == spec_recover_ledger(slot0@, slot1@, expected_format_epoch)->Ok_0);
    match recovered {
        None => Ok((None, None)),
        Some(record) => match MaintenancePlanState::decode(record.payload) {
            Ok(state) => Ok((recovered, Some(state))),
            Err(error) => Err(MaintenancePlanError::PlanState(error)),
        },
    }
}

/// Plan admission reads the ledgers: the plan ledger lies on the device and
/// step admission reads its ledgers.
pub open spec fn plan_admission_reads_begin(device_sectors: nat, request: MaintenanceAuditRequest) -> bool {
    &&& ledger_fits(request.partition_first_lba, request.partition_sectors, MAINTENANCE_PLAN_SLOT_RELATIVE_LBAS, device_sectors)
    &&& step_admission_reads_begin(device_sectors, request)
}

/// The reads of plan admission: the three step-admission ledgers, then the
/// plan ledger.
pub open spec fn plan_admission_reads(first: u64) -> Seq<IoOp> {
    step_ledger_reads(first) + ledger_reads(first, MAINTENANCE_PLAN_SLOT_RELATIVE_LBAS)
}

/// Validates the audit, execution, step and plan ledgers before the
/// authorization audit may move.
///
/// An empty plan journal is accepted only alongside an empty step journal at
/// a fresh sequence-one bootstrap or immediately after a durably completed
/// predecessor. Once provisioned, the plan head must describe the exact
/// authorization and be reconcilable with the selected step head.
pub fn preflight_maintenance_plan_admission<D: DurableSectorIo>(
    io: &mut D,
    request: MaintenanceAuditRequest,
) -> (result: Result<MaintenancePlanAdmissionEvidence, MaintenancePlanError>)
    ensures
        result is Err && is_initial_plan_read_error(result->Err_0) ==> old(io).log().len() < final(io).log().len(),
        final(io).sectors() == old(io).sectors(),
        log_prefix(old(io).log(), final(io).log(), plan_admission_reads(request.partition_first_lba)),
        result is Ok ==> final(io).log() == old(io).log() + plan_admission_reads(request.partition_first_lba),
        !plan_admission_reads_begin(old(io).sectors().len(), request) ==> final(io).log() == old(io).log()
            && result == Err::<MaintenancePlanAdmissionEvidence, MaintenancePlanError>(
            spec_plan_admission_plan(old(io).sectors(), request)->Err_0,
        ),
        match spec_plan_admission_plan(old(io).sectors(), request) {
            Err(error) => result == Err::<MaintenancePlanAdmissionEvidence, MaintenancePlanError>(error) || (
            result is Err && is_initial_plan_read_error(result->Err_0)),
            Ok(evidence) => result == Ok::<MaintenancePlanAdmissionEvidence, MaintenancePlanError>(evidence) || (
            result is Err && is_initial_plan_read_error(result->Err_0)),
        },
{
    let binding = request.binding;
    let first = request.partition_first_lba;
    let sectors = request.partition_sectors;
    if let Err(error) = binding.validate() {
        return Err(MaintenancePlanError::PlanState(MaintenancePlanStateError::Authorization(error)));
    }
    if let Err(error) = validate_record_epoch(request.expected_format_epoch) {
        return Err(MaintenancePlanError::Encode(error));
    }
    let device_sectors = io.sector_count();
    let fits = match first.checked_add(sectors) {
        None => false,
        Some(end) => end <= device_sectors && MAINTENANCE_PLAN_SLOT_RELATIVE_LBAS[0] < sectors
            && MAINTENANCE_PLAN_SLOT_RELATIVE_LBAS[1] < sectors,
    };
    if !fits {
        return Err(MaintenancePlanError::PartitionBounds);
    }
    let ghost start = io.log();
    let ghost steps = step_ledger_reads(first);
    let ghost plans = ledger_reads(first, MAINTENANCE_PLAN_SLOT_RELATIVE_LBAS);
    let admitted = preflight_maintenance_step_admission(io, request);
    proof {
        lemma_log_prefix_widen(start, io.log(), steps, plans);
    }
    let step = match admitted {
        Ok(step) => step,
        Err(error) => return Err(MaintenancePlanError::StepPreflight(error)),
    };
    let ghost mid = io.log();
    let loaded = load_plan_slots(io, first, sectors);
    proof {
        lemma_log_prefix_then(start, mid, io.log(), steps, plans);
    }
    let (slot0, slot1) = loaded?;
    let (recovered, plan) = decode_plan_head(&slot0, &slot1, request.expected_format_epoch)?;
    let (result_unknown, effect_observed_unconfirmed, legacy_anchor) = match plan {
        Some(plan) => {
            let (unknown, observed) = reconcile_plan(plan, step, binding)?;
            (unknown, observed, false)
        },
        None => {
            let fresh = binding.sequence == 1 && step.audit_sequence == 0 && step.execution_sequence == 0
                && !step.provisioned_before;
            let completed_predecessor = step.execution_sequence < u64::MAX && step.execution_sequence + 1
                == binding.sequence && (step.audit_sequence == step.execution_sequence || step.audit_sequence
                == binding.sequence) && step.legacy_anchor && !step.provisioned_before;
            if !fresh && !completed_predecessor {
                return Err(MaintenancePlanError::LedgerDivergence);
            }
            (false, false, completed_predecessor)
        },
    };
    let reads = match step.reads.checked_add(2) {
        Some(reads) => reads,
        None => return Err(MaintenancePlanError::SequenceExhausted),
    };
    let (sequence, base_sequence, transition_count, operation_ordinal, phase) = match plan {
        Some(p) => (p.sequence, p.base_sequence, p.transition_count, p.operation_ordinal, p.phase),
        None => (0u64, 0u64, 0u64, 0u32, 0u32),
    };
    let (effect_sha256, operation_instance_id, idempotency_key, chain_sha256) = match plan {
        Some(p) => (p.effect_sha256, p.operation_instance_id, p.idempotency_key, p.chain_sha256),
        None => ([0u8; 32], [0u8; 32], [0u8; 32], [0u8; 32]),
    };
    proof {
        if plan is None {
            assert(zeros(32).subrange(0, 32) =~= effect_sha256@);
            lemma_digest_at_view(zeros(32), 0, effect_sha256);
        }
    }
    let (generation, slot, valid_slots, rejected_slots) = match recovered {
        Some(record) => (record.generation, record.slot as u8, record.valid_slots, record.rejected_slots),
        None => (0u64, 0xffu8, 0u8, 0u8),
    };
    Ok(
        MaintenancePlanAdmissionEvidence {
            step,
            provisioned_before: plan.is_some(),
            legacy_anchor,
            resumes_current_sequence: plan.is_some() && binding.sequence == sequence,
            result_unknown,
            effect_observed_unconfirmed,
            sequence,
            base_sequence,
            transition_count,
            operation_ordinal,
            phase,
            generation,
            slot,
            valid_slots,
            rejected_slots,
            reads,
            effect_sha256,
            operation_instance_id,
            idempotency_key,
            chain_sha256,
            binding,
        },
    )
}

/// The transition count `binding` reaches in a journal based at
/// `base_sequence`.
pub open spec fn spec_requested_transition_count(
    base_sequence: u64,
    binding: MaintenancePlanTransitionBinding,
) -> Result<u64, MaintenancePlanError> {
    if spec_phase_position(binding.phase) is None {
        Err(MaintenancePlanError::InvalidTransition)
    } else if binding.sequence < base_sequence || transition_count_at(
        binding.sequence,
        base_sequence,
        binding.operation_ordinal,
        spec_phase_position(binding.phase)->Some_0,
    ) > u64::MAX {
        Err(MaintenancePlanError::SequenceExhausted)
    } else {
        Ok(transition_count_at(
            binding.sequence,
            base_sequence,
            binding.operation_ordinal,
            spec_phase_position(binding.phase)->Some_0,
        ) as u64)
    }
}

pub fn maintenance_plan_requested_transition_count(
    base_sequence: u64,
    binding: MaintenancePlanTransitionBinding,
) -> (result: Result<u64, MaintenancePlanError>)
    requires
        1 <= binding.operation_ordinal,
    ensures
        result == spec_requested_transition_count(base_sequence, binding),
{
    let position = match maintenance_plan_phase_position(binding.phase) {
        Some(position) => position,
        None => return Err(MaintenancePlanError::InvalidTransition),
    };
    if binding.sequence < base_sequence {
        return Err(MaintenancePlanError::SequenceExhausted);
    }
    match plan_transition_count(binding.sequence, base_sequence, binding.operation_ordinal, position) {
        Some(count) => Ok(count),
        None => Err(MaintenancePlanError::SequenceExhausted),
    }
}

/// `requested` directly follows `previous`: within one authorization,
/// prepared may move to applying or compensated, applying to confirmed, and a
/// confirmed operation before the drain to the next operation's prepared;
/// across authorizations, only from the confirmed drain to the next
/// authorization's first prepared operation.
pub open spec fn spec_transition_is_next(
    previous: MaintenancePlanTransitionBinding,
    requested: MaintenancePlanTransitionBinding,
) -> bool {
    if requested.sequence == previous.sequence {
        if (previous.phase == MAINTENANCE_PLAN_PHASE_PREPARED && requested.phase == MAINTENANCE_PLAN_PHASE_APPLYING)
            || (previous.phase == MAINTENANCE_PLAN_PHASE_PREPARED && requested.phase == MAINTENANCE_PLAN_PHASE_COMPENSATED)
            || (previous.phase == MAINTENANCE_PLAN_PHASE_APPLYING && requested.phase == MAINTENANCE_PLAN_PHASE_CONFIRMED) {
            requested.operation_ordinal == previous.operation_ordinal
        } else if previous.phase == MAINTENANCE_PLAN_PHASE_CONFIRMED && requested.phase == MAINTENANCE_PLAN_PHASE_PREPARED {
            previous.operation_ordinal < MAINTENANCE_STEP_DRAIN && requested.operation_ordinal == previous.operation_ordinal + 1
        } else {
            false
        }
    } else {
        &&& previous.phase == MAINTENANCE_PLAN_PHASE_CONFIRMED
        &&& previous.operation_ordinal == MAINTENANCE_STEP_DRAIN
        &&& previous.sequence < u64::MAX
        &&& previous.sequence + 1 == requested.sequence
        &&& requested.operation_ordinal == MAINTENANCE_STEP_ROTATION_ONE
        &&& requested.phase == MAINTENANCE_PLAN_PHASE_PREPARED
    }
}

pub fn maintenance_plan_transition_is_next(
    previous: MaintenancePlanTransitionBinding,
    requested: MaintenancePlanTransitionBinding,
) -> (next: bool)
    ensures
        next == spec_transition_is_next(previous, requested),
{
    if requested.sequence == previous.sequence {
        if (previous.phase == MAINTENANCE_PLAN_PHASE_PREPARED && requested.phase == MAINTENANCE_PLAN_PHASE_APPLYING)
            || (previous.phase == MAINTENANCE_PLAN_PHASE_PREPARED && requested.phase == MAINTENANCE_PLAN_PHASE_COMPENSATED)
            || (previous.phase == MAINTENANCE_PLAN_PHASE_APPLYING && requested.phase == MAINTENANCE_PLAN_PHASE_CONFIRMED) {
            requested.operation_ordinal == previous.operation_ordinal
        } else if previous.phase == MAINTENANCE_PLAN_PHASE_CONFIRMED && requested.phase == MAINTENANCE_PLAN_PHASE_PREPARED {
            previous.operation_ordinal < MAINTENANCE_STEP_DRAIN && requested.operation_ordinal == previous.operation_ordinal + 1
        } else {
            false
        }
    } else {
        previous.phase == MAINTENANCE_PLAN_PHASE_CONFIRMED && previous.operation_ordinal == MAINTENANCE_STEP_DRAIN
            && previous.sequence < u64::MAX && previous.sequence + 1 == requested.sequence
            && requested.operation_ordinal == MAINTENANCE_STEP_ROTATION_ONE
            && requested.phase == MAINTENANCE_PLAN_PHASE_PREPARED
    }
}

/// The phase's effect rule against the step journal as admission saw it: a
/// prepared, applying or compensated operation must not have its step yet; a
/// confirmed one must have exactly its step with its effect.
pub open spec fn spec_effect_check(
    admission: MaintenancePlanAdmissionEvidence,
    binding: MaintenancePlanTransitionBinding,
) -> Result<(), MaintenancePlanError> {
    let current = if admission.step.step_sequence == binding.sequence { admission.step.step_ordinal } else { 0u32 };
    if binding.phase == MAINTENANCE_PLAN_PHASE_PREPARED || binding.phase == MAINTENANCE_PLAN_PHASE_APPLYING
        || binding.phase == MAINTENANCE_PLAN_PHASE_COMPENSATED {
        if current != binding.operation_ordinal - 1 {
            Err(MaintenancePlanError::EffectAlreadyApplied)
        } else {
            Ok(())
        }
    } else if binding.phase == MAINTENANCE_PLAN_PHASE_CONFIRMED {
        if admission.step.step_sequence != binding.sequence || admission.step.step_ordinal != binding.operation_ordinal
            || admission.step.step_effect_sha256 != binding.effect_sha256 {
            Err(MaintenancePlanError::EffectNotApplied)
        } else {
            Ok(())
        }
    } else {
        Err(MaintenancePlanError::InvalidTransition)
    }
}

/// The plan head that journals `binding` after `existing`; `None` when
/// `binding` is already journaled and is replayed without a write.
pub open spec fn spec_plan_successor(
    admission: MaintenancePlanAdmissionEvidence,
    existing: Option<MaintenancePlanState>,
    binding: MaintenancePlanTransitionBinding,
) -> Result<Option<MaintenancePlanState>, MaintenancePlanError> {
    let replay_or_next = match existing {
        Some(state) => if binding.sequence < state.sequence {
            Err(MaintenancePlanError::Replay { actual: binding.sequence, minimum: state.sequence })
        } else if binding.sequence == state.sequence && binding.spec_authorization_binding()
            != state.spec_binding().spec_authorization_binding() {
            Err(MaintenancePlanError::AuthorizationBindingMismatch)
        } else if spec_requested_transition_count(state.base_sequence, binding) is Err {
            Err(spec_requested_transition_count(state.base_sequence, binding)->Err_0)
        } else {
            let requested = spec_requested_transition_count(state.base_sequence, binding)->Ok_0;
            if binding.sequence == state.sequence && requested <= state.transition_count {
                let exact = requested == state.transition_count && binding == state.spec_binding();
                let prefix = requested < state.transition_count && (state.phase != MAINTENANCE_PLAN_PHASE_COMPENSATED
                    || (binding.operation_ordinal == state.operation_ordinal && binding.phase == MAINTENANCE_PLAN_PHASE_PREPARED));
                if !exact && !prefix {
                    if state.phase == MAINTENANCE_PLAN_PHASE_COMPENSATED {
                        Err(MaintenancePlanError::PlanCompensated)
                    } else {
                        Err(MaintenancePlanError::InvalidTransition)
                    }
                } else if admission.reads > 253 {
                    Err(MaintenancePlanError::SequenceExhausted)
                } else {
                    Ok(false)
                }
            } else if state.phase == MAINTENANCE_PLAN_PHASE_COMPENSATED {
                Err(MaintenancePlanError::PlanCompensated)
            } else if !spec_transition_is_next(state.spec_binding(), binding) {
                Err(MaintenancePlanError::TransitionGap)
            } else if state.transition_count == u64::MAX {
                Err(MaintenancePlanError::SequenceExhausted)
            } else if requested != state.transition_count + 1 {
                Err(MaintenancePlanError::TransitionGap)
            } else {
                Ok(true)
            }
        },
        None => if binding.operation_ordinal != MAINTENANCE_STEP_ROTATION_ONE || binding.phase
            != MAINTENANCE_PLAN_PHASE_PREPARED || (!admission.legacy_anchor && binding.sequence != 1) {
            Err(MaintenancePlanError::BootstrapTransition)
        } else {
            Ok(true)
        },
    };
    let (base_sequence, previous_chain) = match existing {
        Some(state) => (state.base_sequence, state.chain_sha256),
        None => (binding.sequence, digest_at(zeros(32), 0)),
    };
    let committed_count = spec_requested_transition_count(base_sequence, binding);
    if replay_or_next is Err {
        Err(replay_or_next->Err_0)
    } else if !replay_or_next->Ok_0 {
        Ok(None)
    } else if spec_effect_check(admission, binding) is Err {
        Err(spec_effect_check(admission, binding)->Err_0)
    } else if committed_count is Err {
        Err(committed_count->Err_0)
    } else {
        Ok(Some(MaintenancePlanState {
            sequence: binding.sequence,
            base_sequence,
            transition_count: committed_count->Ok_0,
            operations: binding.operations,
            max_uses: binding.max_uses,
            operation_ordinal: binding.operation_ordinal,
            phase: binding.phase,
            flags: binding.flags,
            authorization_sha256: binding.authorization_sha256,
            authorization_id: binding.authorization_id,
            manifest_sha256: binding.manifest_sha256,
            policy_sha256: binding.policy_sha256,
            root_sha256: binding.root_sha256,
            device_binding_sha256: binding.device_binding_sha256,
            effect_sha256: binding.effect_sha256,
            operation_instance_id: binding.operation_instance_id,
            idempotency_key: binding.idempotency_key,
            previous_chain_sha256: previous_chain,
            chain_sha256: digest_at(
                sha256_digest(plan_chain_material(previous_chain@, base_sequence, committed_count->Ok_0, binding)),
                0,
            ),
        }))
    }
}

/// A plan head appended to the journal, with the record written for it.
pub struct PlanCommit {
    pub state: MaintenancePlanState,
    pub commit: LedgerCommit,
}

/// What the plan journal held, and what the transaction writes, if anything.
pub struct PlanDecision {
    pub admission: MaintenancePlanAdmissionEvidence,
    pub recovered: Option<RecoveredModel>,
    pub existing: Option<MaintenancePlanState>,
    pub committed: Option<PlanCommit>,
}

/// The plan transaction's decision from the journal's two slots, once
/// admission has passed.
pub open spec fn spec_plan_transition_decision(
    admission: MaintenancePlanAdmissionEvidence,
    slot0: Seq<u8>,
    slot1: Seq<u8>,
    format_epoch: FormatEpoch,
    binding: MaintenancePlanTransitionBinding,
) -> Result<PlanDecision, MaintenancePlanError> {
    match spec_recover_ledger(slot0, slot1, format_epoch) {
        Err(error) => Err(MaintenancePlanError::PlanRecovery(error)),
        Ok(recovered) => match decoded_plan(recovered) {
            Err(error) => Err(MaintenancePlanError::PlanState(error)),
            Ok(existing) => match spec_plan_successor(admission, existing, binding) {
                Err(error) => Err(error),
                Ok(None) => Ok(PlanDecision { admission, recovered, existing, committed: None }),
                Ok(Some(state)) => if recovered is Some && recovered->Some_0.generation == u64::MAX {
                    Err(MaintenancePlanError::PlanRecovery(RecoveryError::GenerationExhausted))
                } else {
                    match spec_encode_plan(state) {
                        Err(error) => Err(MaintenancePlanError::PlanState(error)),
                        Ok(payload) => match spec_next_record(recovered, payload, format_epoch) {
                            Err(Ok(error)) => Err(MaintenancePlanError::PlanRecovery(error)),
                            Err(Err(error)) => Err(MaintenancePlanError::Encode(error)),
                            Ok(commit) => Ok(PlanDecision { admission, recovered, existing, committed: Some(PlanCommit { state, commit }) }),
                        },
                    }
                },
            },
        },
    }
}

pub open spec fn admission_request(request: MaintenancePlanTransitionRequest) -> MaintenanceAuditRequest {
    MaintenanceAuditRequest {
        partition_first_lba: request.partition_first_lba,
        partition_sectors: request.partition_sectors,
        expected_format_epoch: request.expected_format_epoch,
        binding: request.binding.spec_authorization_binding(),
    }
}

/// The decision of `commit_maintenance_plan_transition`, from the device
/// contents alone.
pub open spec fn spec_plan_transition_plan(disk: Seq<Seq<u8>>, request: MaintenancePlanTransitionRequest) -> Result<
    PlanDecision,
    MaintenancePlanError,
> {
    let first = request.partition_first_lba;
    let slots = MAINTENANCE_PLAN_SLOT_RELATIVE_LBAS;
    if request.binding.spec_validate() is Err {
        Err(MaintenancePlanError::PlanState(request.binding.spec_validate()->Err_0))
    } else {
        match spec_plan_admission_plan(disk, admission_request(request)) {
            Err(error) => Err(error),
            Ok(admission) => spec_plan_transition_decision(
                admission,
                disk[first + slots[0]],
                disk[first + slots[1]],
                request.expected_format_epoch,
                request.binding,
            ),
        }
    }
}

/// The evidence reported for `decision`; a commit's slot counts are those of
/// the readback.
pub open spec fn plan_evidence(
    decision: PlanDecision,
    binding: MaintenancePlanTransitionBinding,
    committed_valid_slots: u8,
    committed_rejected_slots: u8,
) -> MaintenancePlanEvidence {
    let existing = decision.existing;
    let recovered = decision.recovered;
    let admission = decision.admission;
    match decision.committed {
        None => {
            let state = existing->Some_0;
            MaintenancePlanEvidence {
                provisioned_before: true,
                replayed: true,
                requested_sequence: binding.sequence,
                requested_operation_ordinal: binding.operation_ordinal,
                requested_phase: binding.phase,
                previous_sequence: state.sequence,
                committed_sequence: state.sequence,
                base_sequence: state.base_sequence,
                previous_transition_count: state.transition_count,
                committed_transition_count: state.transition_count,
                previous_operation_ordinal: state.operation_ordinal,
                committed_operation_ordinal: state.operation_ordinal,
                previous_phase: state.phase,
                committed_phase: state.phase,
                initial_generation: initial_generation_of(recovered),
                committed_generation: initial_generation_of(recovered),
                initial_slot: initial_slot_of(recovered),
                committed_slot: initial_slot_of(recovered),
                initial_valid_slots: initial_valid_of(recovered),
                initial_rejected_slots: initial_rejected_of(recovered),
                committed_valid_slots: initial_valid_of(recovered),
                committed_rejected_slots: initial_rejected_of(recovered),
                reads: (admission.reads + 2) as u8,
                writes: 0,
                flushes: 0,
                result_unknown_before: admission.result_unknown,
                effect_observed_before: admission.effect_observed_unconfirmed,
                previous_chain_sha256: state.chain_sha256,
                committed_chain_sha256: state.chain_sha256,
                requested_binding: binding,
                committed_binding: state.spec_binding(),
            }
        },
        Some(plan) => MaintenancePlanEvidence {
            provisioned_before: existing is Some,
            replayed: false,
            requested_sequence: binding.sequence,
            requested_operation_ordinal: binding.operation_ordinal,
            requested_phase: binding.phase,
            previous_sequence: match existing { Some(state) => state.sequence, None => 0 },
            committed_sequence: binding.sequence,
            base_sequence: plan.state.base_sequence,
            previous_transition_count: match existing { Some(state) => state.transition_count, None => 0 },
            committed_transition_count: plan.state.transition_count,
            previous_operation_ordinal: match existing { Some(state) => state.operation_ordinal, None => 0 },
            committed_operation_ordinal: binding.operation_ordinal,
            previous_phase: match existing { Some(state) => state.phase, None => 0 },
            committed_phase: binding.phase,
            initial_generation: initial_generation_of(recovered),
            committed_generation: plan.commit.committed_generation,
            initial_slot: initial_slot_of(recovered),
            committed_slot: plan.commit.committed_slot as u8,
            initial_valid_slots: initial_valid_of(recovered),
            initial_rejected_slots: initial_rejected_of(recovered),
            committed_valid_slots,
            committed_rejected_slots,
            reads: (admission.reads + 4) as u8,
            writes: 1,
            flushes: 1,
            result_unknown_before: admission.result_unknown,
            effect_observed_before: admission.effect_observed_unconfirmed,
            previous_chain_sha256: plan.state.previous_chain_sha256,
            committed_chain_sha256: plan.state.chain_sha256,
            requested_binding: binding,
            committed_binding: binding,
        },
    }
}

/// Admission always reports the six ledger reads of the step preflight and
/// the two plan reads.
pub proof fn lemma_admission_reads(disk: Seq<Seq<u8>>, request: MaintenanceAuditRequest)
    ensures
        spec_plan_admission_plan(disk, request) is Ok ==> spec_plan_admission_plan(disk, request)->Ok_0.reads == 8,
{
}

/// The plan head that journals `binding` after `existing`, or `None` for a
/// read-only replay.
pub fn maintenance_plan_successor(
    admission: MaintenancePlanAdmissionEvidence,
    existing: Option<MaintenancePlanState>,
    binding: MaintenancePlanTransitionBinding,
) -> (result: Result<Option<MaintenancePlanState>, MaintenancePlanError>)
    requires
        binding.spec_validate() is Ok,
        existing is Some ==> existing->Some_0.spec_validate() is Ok,
    ensures
        result == spec_plan_successor(admission, existing, binding),
{
    let (base_sequence, previous_chain_sha256) = match existing {
        Some(state) => {
            if binding.sequence < state.sequence {
                return Err(MaintenancePlanError::Replay { actual: binding.sequence, minimum: state.sequence });
            }
            if binding.sequence == state.sequence && !binding.authorization_binding().same_as(
                &state.binding().authorization_binding(),
            ) {
                return Err(MaintenancePlanError::AuthorizationBindingMismatch);
            }
            let requested = maintenance_plan_requested_transition_count(state.base_sequence, binding)?;
            if binding.sequence == state.sequence && requested <= state.transition_count {
                let exact = requested == state.transition_count && binding.same_as(&state.binding());
                let prefix = requested < state.transition_count && (state.phase
                    != MAINTENANCE_PLAN_PHASE_COMPENSATED || (binding.operation_ordinal == state.operation_ordinal
                    && binding.phase == MAINTENANCE_PLAN_PHASE_PREPARED));
                if !exact && !prefix {
                    if state.phase == MAINTENANCE_PLAN_PHASE_COMPENSATED {
                        return Err(MaintenancePlanError::PlanCompensated);
                    }
                    return Err(MaintenancePlanError::InvalidTransition);
                }
                if admission.reads > 253 {
                    return Err(MaintenancePlanError::SequenceExhausted);
                }
                return Ok(None);
            }
            if state.phase == MAINTENANCE_PLAN_PHASE_COMPENSATED {
                return Err(MaintenancePlanError::PlanCompensated);
            }
            if !maintenance_plan_transition_is_next(state.binding(), binding) {
                return Err(MaintenancePlanError::TransitionGap);
            }
            let next = match state.transition_count.checked_add(1) {
                Some(next) => next,
                None => return Err(MaintenancePlanError::SequenceExhausted),
            };
            if requested != next {
                return Err(MaintenancePlanError::TransitionGap);
            }
            (state.base_sequence, state.chain_sha256)
        },
        None => {
            if binding.operation_ordinal != MAINTENANCE_STEP_ROTATION_ONE || binding.phase
                != MAINTENANCE_PLAN_PHASE_PREPARED || (!admission.legacy_anchor && binding.sequence != 1) {
                return Err(MaintenancePlanError::BootstrapTransition);
            }
            (binding.sequence, [0u8; 32])
        },
    };
    proof {
        if existing is None {
            assert(zeros(32).subrange(0, 32) =~= previous_chain_sha256@);
            lemma_digest_at_view(zeros(32), 0, previous_chain_sha256);
        }
    }
    let current_step_ordinal = if admission.step.step_sequence == binding.sequence {
        admission.step.step_ordinal
    } else {
        0
    };
    if binding.phase == MAINTENANCE_PLAN_PHASE_PREPARED || binding.phase == MAINTENANCE_PLAN_PHASE_APPLYING
        || binding.phase == MAINTENANCE_PLAN_PHASE_COMPENSATED {
        if current_step_ordinal != binding.operation_ordinal - 1 {
            return Err(MaintenancePlanError::EffectAlreadyApplied);
        }
    } else if binding.phase == MAINTENANCE_PLAN_PHASE_CONFIRMED {
        if admission.step.step_sequence != binding.sequence || admission.step.step_ordinal
            != binding.operation_ordinal || !digest_eq(&admission.step.step_effect_sha256, &binding.effect_sha256) {
            return Err(MaintenancePlanError::EffectNotApplied);
        }
    } else {
        return Err(MaintenancePlanError::InvalidTransition);
    }
    let transition_count = maintenance_plan_requested_transition_count(base_sequence, binding)?;
    let chain_sha256 = maintenance_plan_chain_sha256(previous_chain_sha256, base_sequence, transition_count, binding);
    proof {
        let digest = sha256_digest(plan_chain_material(previous_chain_sha256@, base_sequence, transition_count, binding));
        assert(digest.subrange(0, 32) =~= chain_sha256@);
        lemma_digest_at_view(digest, 0, chain_sha256);
    }
    Ok(
        Some(
            MaintenancePlanState {
                sequence: binding.sequence,
                base_sequence,
                transition_count,
                operations: binding.operations,
                max_uses: binding.max_uses,
                operation_ordinal: binding.operation_ordinal,
                phase: binding.phase,
                flags: binding.flags,
                authorization_sha256: binding.authorization_sha256,
                authorization_id: binding.authorization_id,
                manifest_sha256: binding.manifest_sha256,
                policy_sha256: binding.policy_sha256,
                root_sha256: binding.root_sha256,
                device_binding_sha256: binding.device_binding_sha256,
                effect_sha256: binding.effect_sha256,
                operation_instance_id: binding.operation_instance_id,
                idempotency_key: binding.idempotency_key,
                previous_chain_sha256,
                chain_sha256,
            },
        ),
    )
}

/// Reads the plan journal held in two slots and prepares the record, if any,
/// that journals `binding`.
fn prepare_plan<'a>(
    admission: MaintenancePlanAdmissionEvidence,
    slot0: &'a Sector,
    slot1: &'a Sector,
    expected_format_epoch: FormatEpoch,
    binding: MaintenancePlanTransitionBinding,
) -> (result: Result<
    (Option<RecoveredRecord<'a>>, Option<MaintenancePlanState>, Option<(MaintenancePlanState, PreparedLedgerCommit)>),
    MaintenancePlanError,
>)
    requires
        binding.spec_validate() is Ok,
    ensures
        match spec_plan_transition_decision(admission, slot0@, slot1@, expected_format_epoch, binding) {
            Err(error) => result is Err && result->Err_0 == error,
            Ok(decision) => {
                let (recovered, existing, committed) = result->Ok_0;
                &&& result is Ok
                &&& option_view(recovered) == decision.recovered
                &&& existing == decision.existing
                &&& (committed is Some <==> decision.committed is Some)
                &&& (committed is None ==> existing is Some && recovered is Some)
                &&& (committed is Some ==> {
                    let (state, p) = committed->Some_0;
                    let c = decision.committed->Some_0.commit;
                    &&& state == decision.committed->Some_0.state
                    &&& p.committed_generation == c.committed_generation
                    &&& p.committed_slot == c.committed_slot
                    &&& p.committed_sector@ == c.committed_sector
                    &&& c.committed_slot < 2
                    &&& spec_encode_record(expected_format_epoch, c.committed_generation, c.committed_payload)
                        == Ok::<Seq<u8>, RecordError>(c.committed_sector)
                })
            },
        },
{
    let (recovered, existing) = decode_plan_head(slot0, slot1, expected_format_epoch)?;
    let state = match maintenance_plan_successor(admission, existing, binding)? {
        None => return Ok((recovered, existing, None)),
        Some(state) => state,
    };
    if let Some(record) = recovered {
        if record.generation == u64::MAX {
            return Err(MaintenancePlanError::PlanRecovery(RecoveryError::GenerationExhausted));
        }
    }
    let payload = match state.encode() {
        Ok(bytes) => bytes,
        Err(error) => return Err(MaintenancePlanError::PlanState(error)),
    };
    let prepared = match prepare_next_record(&recovered, &payload, expected_format_epoch) {
        Ok(prepared) => prepared,
        Err(Ok(error)) => return Err(MaintenancePlanError::PlanRecovery(error)),
        Err(Err(error)) => return Err(MaintenancePlanError::Encode(error)),
    };
    Ok((recovered, existing, Some((state, prepared))))
}

/// A plan transition reads the ledgers: its binding passes its checks and
/// plan admission reads its ledgers.
pub open spec fn plan_transition_reads_begin(device_sectors: nat, request: MaintenancePlanTransitionRequest) -> bool {
    &&& request.binding.spec_validate() is Ok
    &&& plan_admission_reads_begin(device_sectors, admission_request(request))
}

/// The calls a plan transition makes when none of them fails: nothing when it
/// refuses before reading, the reads of plan admission and of the plan ledger
/// once more, and, when it journals a transition, the commit's calls.
#[verifier::opaque]
pub open spec fn plan_transition_ops(disk: Seq<Seq<u8>>, request: MaintenancePlanTransitionRequest) -> Seq<IoOp> {
    let first = request.partition_first_lba;
    let slots = MAINTENANCE_PLAN_SLOT_RELATIVE_LBAS;
    let plan = spec_plan_transition_plan(disk, request);
    let reads = plan_admission_reads(first) + ledger_reads(first, slots);
    if !plan_transition_reads_begin(disk.len(), request) {
        Seq::empty()
    } else if plan is Ok && plan->Ok_0.committed is Some {
        reads + commit_ops(
            ledger_commit_lba(first, slots, plan->Ok_0.committed->Some_0.commit) as u64,
            plan->Ok_0.committed->Some_0.commit.committed_sector,
            (first + slots[0]) as u64,
            (first + slots[1]) as u64,
        )
    } else {
        reads
    }
}

/// The calls of a plan transition begin with its reads and end there unless
/// the decision journals a transition.
proof fn lemma_plan_transition_ops(disk: Seq<Seq<u8>>, request: MaintenancePlanTransitionRequest)
    ensures
        ({
            let ops = plan_transition_ops(disk, request);
            let first = request.partition_first_lba;
            let slots = MAINTENANCE_PLAN_SLOT_RELATIVE_LBAS;
            let plan = spec_plan_transition_plan(disk, request);
            let reads = plan_admission_reads(first) + ledger_reads(first, slots);
            &&& !plan_transition_reads_begin(disk.len(), request) ==> ops == Seq::<IoOp>::empty()
            &&& plan_transition_reads_begin(disk.len(), request) ==> ops.len() >= 10 && ops.take(10) == reads
                && ops.take(8) == plan_admission_reads(first)
            &&& plan_transition_reads_begin(disk.len(), request) && plan is Ok && plan->Ok_0.committed is Some
                ==> ops == reads + commit_ops(
                ledger_commit_lba(first, slots, plan->Ok_0.committed->Some_0.commit) as u64,
                plan->Ok_0.committed->Some_0.commit.committed_sector,
                (first + slots[0]) as u64,
                (first + slots[1]) as u64,
            )
            &&& plan_transition_reads_begin(disk.len(), request) && !(plan is Ok && plan->Ok_0.committed is Some)
                ==> ops == reads
        }),
{
    reveal(plan_transition_ops);
    let first = request.partition_first_lba;
    let ops = plan_transition_ops(disk, request);
    let reads = plan_admission_reads(first) + ledger_reads(first, MAINTENANCE_PLAN_SLOT_RELATIVE_LBAS);
    if plan_transition_reads_begin(disk.len(), request) {
        assert(ops.take(10) =~= reads);
        assert(ops.take(8) =~= plan_admission_reads(first));
    }
}

/// Commits or read-only replays one maintenance-plan phase.
///
/// Every mutating path first revalidates all four maintenance ledgers. The
/// `APPLYING` intent is durable before the resident effect, while
/// `CONFIRMED` is legal only after the matching step effect is selected from
/// disk. Compensation is terminal and legal only directly after `PREPARED`.
#[verifier::spinoff_prover]
#[verifier::rlimit(80)]
pub fn commit_maintenance_plan_transition<D: DurableSectorIo>(
    io: &mut D,
    request: MaintenancePlanTransitionRequest,
) -> (result: Result<MaintenancePlanEvidence, MaintenancePlanError>)
    ensures
        result is Err && is_initial_plan_read_error(result->Err_0) ==> old(io).log().len() < final(io).log().len(),
        log_prefix(old(io).log(), final(io).log(), plan_transition_ops(old(io).sectors(), request)),
        result is Ok ==> final(io).log() == old(io).log() + plan_transition_ops(old(io).sectors(), request),
        result is Err && result->Err_0 is Io && result->Err_0->phase == IoPhase::WriteInactiveSlot ==> final(io).log()
            == old(io).log() + plan_transition_ops(old(io).sectors(), request).take(plan_transition_ops(old(io).sectors(), request).len() - 3),
        result is Err && result->Err_0 is Io && result->Err_0->phase == IoPhase::Flush ==> final(io).log()
            == old(io).log() + plan_transition_ops(old(io).sectors(), request).take(plan_transition_ops(old(io).sectors(), request).len() - 2),
        !plan_transition_reads_begin(old(io).sectors().len(), request) ==> final(io).log() == old(io).log()
            && result == Err::<MaintenancePlanEvidence, MaintenancePlanError>(
            spec_plan_transition_plan(old(io).sectors(), request)->Err_0,
        ),
        match spec_plan_transition_plan(old(io).sectors(), request) {
            Err(error) => {
                &&& final(io).sectors() == old(io).sectors()
                &&& (result == Err::<MaintenancePlanEvidence, MaintenancePlanError>(error) || (
                result is Err && is_initial_plan_read_error(result->Err_0)))
            },
            Ok(decision) => match decision.committed {
                None => {
                    &&& final(io).sectors() == old(io).sectors()
                    &&& (result == Ok::<MaintenancePlanEvidence, MaintenancePlanError>(
                        plan_evidence(decision, request.binding, 0, 0),
                    ) || (result is Err && is_initial_plan_read_error(result->Err_0)))
                },
                Some(plan) => {
                    let lba = ledger_commit_lba(
                        request.partition_first_lba,
                        MAINTENANCE_PLAN_SLOT_RELATIVE_LBAS,
                        plan.commit,
                    );
                    &&& unchanged_except(old(io).sectors(), final(io).sectors(), lba)
                    &&& result is Err ==> is_initial_plan_read_error(result->Err_0)
                        || is_plan_commit_failure(result->Err_0)
                    &&& final(io).sectors()[lba] == plan.commit.committed_sector ==> result is Ok
                        || result->Err_0 is Io
                        || is_initial_plan_read_error(result->Err_0)
                    &&& result is Err && !(result->Err_0 is Io) && !is_initial_plan_read_error(result->Err_0) ==> result->Err_0 == plan_readback_error(
                        final(io).sectors()[request.partition_first_lba + MAINTENANCE_PLAN_SLOT_RELATIVE_LBAS[0]],
                        final(io).sectors()[request.partition_first_lba + MAINTENANCE_PLAN_SLOT_RELATIVE_LBAS[1]],
                        request.expected_format_epoch,
                    )
                    &&& result is Ok ==> {
                        let after = final(io).sectors();
                        let slots = MAINTENANCE_PLAN_SLOT_RELATIVE_LBAS;
                        let first = request.partition_first_lba;
                        let recovered = spec_recover(after[first + slots[0]], after[first + slots[1]], request.expected_format_epoch);
                        &&& ledger_commit_outcome(
                            old(io).sectors(),
                            after,
                            first,
                            slots,
                            request.expected_format_epoch,
                            plan.commit,
                        )
                        &&& result->Ok_0 == plan_evidence(
                            decision,
                            request.binding,
                            recovered->Ok_0.valid_slots,
                            recovered->Ok_0.rejected_slots,
                        )
                    }
                },
            },
        },
{
    let binding = request.binding;
    let expected_format_epoch = request.expected_format_epoch;
    let first = request.partition_first_lba;
    if let Err(error) = binding.validate() {
        return Err(MaintenancePlanError::PlanState(error));
    }
    let ghost disk = io.sectors();
    let audit_request = MaintenanceAuditRequest {
        partition_first_lba: first,
        partition_sectors: request.partition_sectors,
        expected_format_epoch,
        binding: binding.authorization_binding(),
    };
    assert(audit_request == admission_request(request));
    let ghost start = io.log();
    let ghost ops = plan_transition_ops(disk, request);
    let ghost admitted_reads = plan_admission_reads(first);
    let ghost plans = ledger_reads(first, MAINTENANCE_PLAN_SLOT_RELATIVE_LBAS);
    proof {
        lemma_plan_transition_ops(disk, request);
    }
    let admitted = preflight_maintenance_plan_admission(io, audit_request);
    proof {
        if plan_transition_reads_begin(disk.len(), request) {
            lemma_log_prefix_extend(start, io.log(), admitted_reads, ops);
        }
    }
    let admission = admitted?;
    proof {
        lemma_admission_reads(disk, audit_request);
    }
    let ghost mid = io.log();
    let loaded = load_plan_slots(io, first, request.partition_sectors);
    proof {
        lemma_log_prefix_then(start, mid, io.log(), admitted_reads, plans);
        lemma_log_prefix_extend(start, io.log(), admitted_reads + plans, ops);
    }
    let (slot0, slot1) = loaded?;
    proof {
        assert(io.log() =~= start + (admitted_reads + plans));
    }
    let (recovered, existing, committed) = prepare_plan(admission, &slot0, &slot1, expected_format_epoch, binding)?;
    let ghost decision = spec_plan_transition_decision(admission, slot0@, slot1@, expected_format_epoch, binding)->Ok_0;
    let (initial_generation, initial_slot, initial_valid_slots, initial_rejected_slots) = match recovered {
        Some(record) => (record.generation, record.slot as u8, record.valid_slots, record.rejected_slots),
        None => (0u64, 0xffu8, 0u8, 0u8),
    };
    let (committed_state, prepared) = match committed {
        None => {
            let state = match existing {
                Some(state) => state,
                None => return Err(MaintenancePlanError::LedgerDivergence),
            };
            return Ok(
                MaintenancePlanEvidence {
                    provisioned_before: true,
                    replayed: true,
                    requested_sequence: binding.sequence,
                    requested_operation_ordinal: binding.operation_ordinal,
                    requested_phase: binding.phase,
                    previous_sequence: state.sequence,
                    committed_sequence: state.sequence,
                    base_sequence: state.base_sequence,
                    previous_transition_count: state.transition_count,
                    committed_transition_count: state.transition_count,
                    previous_operation_ordinal: state.operation_ordinal,
                    committed_operation_ordinal: state.operation_ordinal,
                    previous_phase: state.phase,
                    committed_phase: state.phase,
                    initial_generation,
                    committed_generation: initial_generation,
                    initial_slot,
                    committed_slot: initial_slot,
                    initial_valid_slots,
                    initial_rejected_slots,
                    committed_valid_slots: initial_valid_slots,
                    committed_rejected_slots: initial_rejected_slots,
                    reads: admission.reads + 2,
                    writes: 0,
                    flushes: 0,
                    result_unknown_before: admission.result_unknown,
                    effect_observed_before: admission.effect_observed_unconfirmed,
                    previous_chain_sha256: state.chain_sha256,
                    committed_chain_sha256: state.chain_sha256,
                    requested_binding: binding,
                    committed_binding: state.binding(),
                },
            );
        },
        Some(pair) => pair,
    };
    let (previous_sequence, previous_transition_count, previous_operation_ordinal, previous_phase) = match existing {
        Some(state) => (state.sequence, state.transition_count, state.operation_ordinal, state.phase),
        None => (0u64, 0u64, 0u32, 0u32),
    };
    let ghost commit = decision.committed->Some_0.commit;
    let slots = MAINTENANCE_PLAN_SLOT_RELATIVE_LBAS;
    let first_lba = first + slots[0];
    let second_lba = first + slots[1];
    let committed_lba = if prepared.committed_slot == 0 {
        first_lba
    } else {
        second_lba
    };
    let ghost calls = commit_ops(committed_lba, prepared.committed_sector@, first_lba, second_lba);
    let ghost mid = io.log();
    let committed_io = commit_and_read_back(
        io,
        committed_lba,
        &prepared.committed_sector,
        first_lba,
        second_lba,
    );
    proof {
        lemma_log_prefix_then(start, mid, io.log(), admitted_reads + plans, calls);
    }
    let (verified0, verified1) = match committed_io {
        Ok(pair) => pair,
        Err((phase, error)) => {
            proof {
                if phase == IoPhase::WriteInactiveSlot {
                    lemma_log_stops_after(start, mid, io.log(), admitted_reads + plans, calls, 1);
                }
                if phase == IoPhase::Flush {
                    lemma_log_stops_after(start, mid, io.log(), admitted_reads + plans, calls, 2);
                }
            }
            return Err(MaintenancePlanError::Io { phase, error });
        },
    };
    proof {
        let committed = if commit.committed_slot == 0 { verified0@ } else { verified1@ };
        if committed == commit.committed_sector {
            lemma_kept_commit_is_recovered(
                slot0@,
                slot1@,
                verified0@,
                verified1@,
                expected_format_epoch,
                decision.recovered,
                commit.committed_payload,
            );
            lemma_plan_round_trip(decision.committed->Some_0.state);
        }
    }
    let verified = match recover([&verified0, &verified1], expected_format_epoch) {
        Ok(record) => record,
        Err(error) => return Err(MaintenancePlanError::PlanRecovery(error)),
    };
    let verified_state = match MaintenancePlanState::decode(verified.payload) {
        Ok(state) => state,
        Err(error) => return Err(MaintenancePlanError::PlanState(error)),
    };
    if !ledger_readback_ok(
        &verified,
        &verified0,
        &verified1,
        &slot0,
        &slot1,
        &prepared,
        expected_format_epoch,
        Ghost(commit),
    ) || !verified_state.same_as(&committed_state) {
        return Err(MaintenancePlanError::VerificationFailed);
    }
    Ok(
        MaintenancePlanEvidence {
            provisioned_before: existing.is_some(),
            replayed: false,
            requested_sequence: binding.sequence,
            requested_operation_ordinal: binding.operation_ordinal,
            requested_phase: binding.phase,
            previous_sequence,
            committed_sequence: binding.sequence,
            base_sequence: committed_state.base_sequence,
            previous_transition_count,
            committed_transition_count: committed_state.transition_count,
            previous_operation_ordinal,
            committed_operation_ordinal: binding.operation_ordinal,
            previous_phase,
            committed_phase: binding.phase,
            initial_generation,
            committed_generation: prepared.committed_generation,
            initial_slot,
            committed_slot: prepared.committed_slot as u8,
            initial_valid_slots,
            initial_rejected_slots,
            committed_valid_slots: verified.valid_slots,
            committed_rejected_slots: verified.rejected_slots,
            reads: admission.reads + 4,
            writes: 1,
            flushes: 1,
            result_unknown_before: admission.result_unknown,
            effect_observed_before: admission.effect_observed_unconfirmed,
            previous_chain_sha256: committed_state.previous_chain_sha256,
            committed_chain_sha256: committed_state.chain_sha256,
            requested_binding: binding,
            committed_binding: binding,
        },
    )
}

/// The plan head is the confirmed drain of `authorization`, and the step
/// journal holds that drain with the expected chain digest and the same effect.
pub open spec fn is_terminal_plan(
    admission: MaintenancePlanAdmissionEvidence,
    authorization: MaintenanceAuthorizationAuditBinding,
    expected_step_chain_sha256: [u8; 32],
) -> bool {
    &&& admission.provisioned_before
    &&& admission.sequence == authorization.sequence
    &&& admission.operation_ordinal == MAINTENANCE_STEP_DRAIN
    &&& admission.phase == MAINTENANCE_PLAN_PHASE_CONFIRMED
    &&& admission.step.step_sequence == authorization.sequence
    &&& admission.step.step_ordinal == MAINTENANCE_STEP_DRAIN
    &&& admission.step.step_chain_sha256 == expected_step_chain_sha256
    &&& admission.effect_sha256 == admission.step.step_effect_sha256
}

pub open spec fn plan_terminal_evidence(
    admission: MaintenancePlanAdmissionEvidence,
    authorization: MaintenanceAuthorizationAuditBinding,
) -> MaintenancePlanTerminalEvidence {
    MaintenancePlanTerminalEvidence {
        sequence: admission.sequence,
        base_sequence: admission.base_sequence,
        transition_count: admission.transition_count,
        operation_ordinal: admission.operation_ordinal,
        phase: admission.phase,
        generation: admission.generation,
        slot: admission.slot,
        valid_slots: admission.valid_slots,
        rejected_slots: admission.rejected_slots,
        reads: admission.reads,
        effect_sha256: admission.effect_sha256,
        operation_instance_id: admission.operation_instance_id,
        idempotency_key: admission.idempotency_key,
        chain_sha256: admission.chain_sha256,
        binding: authorization,
    }
}

pub open spec fn terminal_admission_request(request: MaintenancePlanTerminalRequest) -> MaintenanceAuditRequest {
    MaintenanceAuditRequest {
        partition_first_lba: request.partition_first_lba,
        partition_sectors: request.partition_sectors,
        expected_format_epoch: request.expected_format_epoch,
        binding: request.authorization,
    }
}

/// Selects the confirmed terminal plan head immediately before execution
/// completion.
pub fn validate_maintenance_plan_terminal<D: DurableSectorIo>(
    io: &mut D,
    request: MaintenancePlanTerminalRequest,
) -> (result: Result<MaintenancePlanTerminalEvidence, MaintenancePlanError>)
    ensures
        result is Err && is_initial_plan_read_error(result->Err_0) ==> old(io).log().len() < final(io).log().len(),
        final(io).sectors() == old(io).sectors(),
        log_prefix(old(io).log(), final(io).log(), plan_admission_reads(request.partition_first_lba)),
        result is Ok ==> final(io).log() == old(io).log() + plan_admission_reads(request.partition_first_lba),
        !plan_admission_reads_begin(old(io).sectors().len(), terminal_admission_request(request))
            ==> final(io).log() == old(io).log() && result == Err::<MaintenancePlanTerminalEvidence, MaintenancePlanError>(
            spec_plan_admission_plan(old(io).sectors(), terminal_admission_request(request))->Err_0,
        ),
        match spec_plan_admission_plan(old(io).sectors(), terminal_admission_request(request)) {
            Err(error) => result == Err::<MaintenancePlanTerminalEvidence, MaintenancePlanError>(error) || (
            result is Err && is_initial_plan_read_error(result->Err_0)),
            Ok(admission) => if is_terminal_plan(admission, request.authorization, request.expected_step_chain_sha256) {
                result == Ok::<MaintenancePlanTerminalEvidence, MaintenancePlanError>(
                    plan_terminal_evidence(admission, request.authorization),
                ) || (result is Err && is_initial_plan_read_error(result->Err_0))
            } else {
                result == Err::<MaintenancePlanTerminalEvidence, MaintenancePlanError>(
                    MaintenancePlanError::TerminalPlanIncomplete,
                ) || (result is Err && is_initial_plan_read_error(result->Err_0))
            },
        },
{
    let authorization = request.authorization;
    let admission = preflight_maintenance_plan_admission(
        io,
        MaintenanceAuditRequest {
            partition_first_lba: request.partition_first_lba,
            partition_sectors: request.partition_sectors,
            expected_format_epoch: request.expected_format_epoch,
            binding: authorization,
        },
    )?;
    if !admission.provisioned_before || admission.sequence != authorization.sequence || admission.operation_ordinal
        != MAINTENANCE_STEP_DRAIN || admission.phase != MAINTENANCE_PLAN_PHASE_CONFIRMED
        || admission.step.step_sequence != authorization.sequence || admission.step.step_ordinal
        != MAINTENANCE_STEP_DRAIN || !digest_eq(&admission.step.step_chain_sha256, &request.expected_step_chain_sha256)
        || !digest_eq(&admission.effect_sha256, &admission.step.step_effect_sha256) {
        return Err(MaintenancePlanError::TerminalPlanIncomplete);
    }
    Ok(
        MaintenancePlanTerminalEvidence {
            sequence: admission.sequence,
            base_sequence: admission.base_sequence,
            transition_count: admission.transition_count,
            operation_ordinal: admission.operation_ordinal,
            phase: admission.phase,
            generation: admission.generation,
            slot: admission.slot,
            valid_slots: admission.valid_slots,
            rejected_slots: admission.rejected_slots,
            reads: admission.reads,
            effect_sha256: admission.effect_sha256,
            operation_instance_id: admission.operation_instance_id,
            idempotency_key: admission.idempotency_key,
            chain_sha256: admission.chain_sha256,
            binding: authorization,
        },
    )
}

/// After a successful plan commit, recovering the plan journal yields exactly
/// the journaled transition, one transition past the previous head and
/// directly following it, or the first prepared operation of a fresh journal.
#[verifier::rlimit(30)]
pub proof fn lemma_plan_commit_recovers_successor(
    before: Seq<Seq<u8>>,
    after: Seq<Seq<u8>>,
    request: MaintenancePlanTransitionRequest,
)
    requires
        spec_plan_transition_plan(before, request) is Ok,
        spec_plan_transition_plan(before, request)->Ok_0.committed is Some,
        ledger_commit_outcome(
            before,
            after,
            request.partition_first_lba,
            MAINTENANCE_PLAN_SLOT_RELATIVE_LBAS,
            request.expected_format_epoch,
            spec_plan_transition_plan(before, request)->Ok_0.committed->Some_0.commit,
        ),
    ensures
        ({
            let decision = spec_plan_transition_plan(before, request)->Ok_0;
            let first = request.partition_first_lba;
            let slots = MAINTENANCE_PLAN_SLOT_RELATIVE_LBAS;
            let recovered = spec_recover(after[first + slots[0]], after[first + slots[1]], request.expected_format_epoch);
            let head = decision.committed->Some_0.state;
            &&& spec_decode_plan(recovered->Ok_0.payload) == Ok::<MaintenancePlanState, MaintenancePlanStateError>(head)
            &&& head.spec_binding() == request.binding
            &&& match decision.existing {
                Some(previous) => {
                    &&& head.transition_count == previous.transition_count + 1
                    &&& head.previous_chain_sha256 == previous.chain_sha256
                    &&& spec_transition_is_next(previous.spec_binding(), head.spec_binding())
                    &&& previous.phase != MAINTENANCE_PLAN_PHASE_COMPENSATED
                },
                None => {
                    &&& head.operation_ordinal == MAINTENANCE_STEP_ROTATION_ONE
                    &&& head.phase == MAINTENANCE_PLAN_PHASE_PREPARED
                    &&& head.base_sequence == head.sequence
                    &&& all_zero(head.previous_chain_sha256@)
                },
            }
        }),
{
    let decision = spec_plan_transition_plan(before, request)->Ok_0;
    lemma_plan_round_trip(decision.committed->Some_0.state);
    if decision.existing is Some {
        lemma_decoded_plan_is_valid(decision.recovered->Some_0.payload);
    } else {
        lemma_digest_at(zeros(32), 0);
    }
}

/// A confirmed phase is journaled only once the step journal holds exactly
/// that operation's step with the same effect digest.
pub proof fn lemma_plan_confirms_only_applied_effects(disk: Seq<Seq<u8>>, request: MaintenancePlanTransitionRequest)
    requires
        spec_plan_transition_plan(disk, request) is Ok,
        spec_plan_transition_plan(disk, request)->Ok_0.committed is Some,
        request.binding.phase == MAINTENANCE_PLAN_PHASE_CONFIRMED,
    ensures
        ({
            let step = spec_plan_transition_plan(disk, request)->Ok_0.admission.step;
            &&& step.step_sequence == request.binding.sequence
            &&& step.step_ordinal == request.binding.operation_ordinal
            &&& step.step_effect_sha256 == request.binding.effect_sha256
        }),
{
}

/// Compensation is terminal: once the journal head is compensated, no
/// transition is ever written.
pub proof fn lemma_compensated_plan_is_terminal(disk: Seq<Seq<u8>>, request: MaintenancePlanTransitionRequest)
    requires
        spec_plan_transition_plan(disk, request) is Ok,
        spec_plan_transition_plan(disk, request)->Ok_0.existing is Some,
        spec_plan_transition_plan(disk, request)->Ok_0.existing->Some_0.phase == MAINTENANCE_PLAN_PHASE_COMPENSATED,
    ensures
        spec_plan_transition_plan(disk, request)->Ok_0.committed is None,
{
}

/// The error a plan transition reports when the plan slots it reads back do not
/// confirm the commit: recovery's error, the decoder's error, or a
/// verification failure.
pub open spec fn plan_readback_error(after0: Seq<u8>, after1: Seq<u8>, epoch: FormatEpoch) -> MaintenancePlanError {
    match spec_recover(after0, after1, epoch) {
        Err(error) => MaintenancePlanError::PlanRecovery(error),
        Ok(record) => match spec_decode_plan(record.payload) {
            Err(error) => MaintenancePlanError::PlanState(error),
            Ok(_) => MaintenancePlanError::VerificationFailed,
        },
    }
}

} // verus!

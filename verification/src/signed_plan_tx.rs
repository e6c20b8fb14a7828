//! Binding the exact signed maintenance program to its authorization, once,
//! with read-only replays.
use vstd::prelude::*;
use crate::codec::{all_zero, digest_at, digest_eq, lemma_digest_at, lemma_digest_at_view, zeros};
use crate::digest::sha256_digest;
use crate::io::{commit_ops, is_commit_phase, ledger_reads, lemma_log_prefix_extend, lemma_log_prefix_then, lemma_log_prefix_widen, lemma_log_stops_after, log_prefix, slot_reads, unchanged_except, IoOp, DurableSectorIo, IoPhase, PersistIoError};
use crate::layout::{
    FormatEpoch, Sector, MAINTENANCE_PLAN_PHASE_CONFIRMED, MAINTENANCE_STEP_DRAIN,
    SIGNED_MAINTENANCE_PLAN_SLOT_RELATIVE_LBAS,
};
use crate::ledger::{commit_and_read_back, ledger_fits, load_ledger_slots, LoadFailure};
use crate::maintenance_audit::MaintenanceAuthorizationAuditBinding;
use crate::maintenance_audit_tx::MaintenanceAuditRequest;
use crate::maintenance_plan_tx::{
    plan_admission_reads, plan_admission_reads_begin, lemma_admission_reads, preflight_maintenance_plan_admission, spec_plan_admission_plan,
    MaintenancePlanAdmissionEvidence, MaintenancePlanError,
};
use crate::maintenance_step_tx::MaintenanceStepError;
use crate::manifest_tx::{
    lemma_kept_commit_is_recovered, ledger_commit_lba, initial_generation_of, initial_rejected_of, initial_slot_of, initial_valid_of,
    ledger_commit_outcome, ledger_readback_ok, option_view, prepare_next_record, spec_next_record,
    LedgerCommit, PreparedLedgerCommit,
};
use crate::record::{
    lemma_recovered_slot, recover, recover_ledger, spec_encode_record, spec_recover,
    spec_recover_ledger, spec_validate_record_epoch, validate_record_epoch, RecordError,
    RecoveredModel, RecoveredRecord, RecoveryError,
};
use crate::signed_plan::{
    lemma_signed_plan_round_trip, signed_maintenance_plan_chain_sha256, signed_plan_chain_material, spec_decode_signed_plan,
    spec_encode_signed_plan, SignedMaintenancePlanBinding, SignedMaintenancePlanState,
    SignedMaintenancePlanStateError,
};

verus! {

broadcast use vstd::array::group_array_axioms;

#[derive(Clone, Copy, Debug, PartialEq, Eq, Structural)]
pub enum SignedMaintenancePlanError {
    PartitionBounds,
    Io { phase: IoPhase, error: PersistIoError },
    PlanPreflight(MaintenancePlanError),
    ProgramRecovery(RecoveryError),
    ProgramState(SignedMaintenancePlanStateError),
    Replay { actual: u64, minimum: u64 },
    SequenceGap,
    ProgramBindingMismatch,
    LedgerDivergence,
    SequenceExhausted,
    Encode(RecordError),
    VerificationFailed,
    TerminalProgramIncomplete,
}

impl SignedMaintenancePlanError {
    /// The fixed text that describes this error.
    pub open spec fn message(self) -> Seq<char> {
        match self {
            Self::PartitionBounds => "signed maintenance-plan slots are outside the data partition"@,
            Self::Io {
                phase: IoPhase::ReadInitialSlot | IoPhase::ReadVerificationSlot,
                error: PersistIoError::RequiresReset,
            } => "signed maintenance-plan read requires a device reset"@,
            Self::Io {
                phase: IoPhase::WriteInactiveSlot,
                error: PersistIoError::OutcomeUnknown,
            } => "signed maintenance-plan write outcome is unknown and requires reset"@,
            Self::Io {
                phase: IoPhase::Flush,
                error: PersistIoError::OutcomeUnknown,
            } => "signed maintenance-plan flush outcome is unknown and requires reset"@,
            Self::Io {
                phase: IoPhase::ReadInitialSlot,
                ..
            } => "signed maintenance-plan initial record read failed"@,
            Self::Io {
                phase: IoPhase::WriteInactiveSlot,
                ..
            } => "signed maintenance-plan inactive-slot write failed"@,
            Self::Io {
                phase: IoPhase::Flush,
                ..
            } => "signed maintenance-plan cache flush failed"@,
            Self::Io {
                phase: IoPhase::ReadVerificationSlot,
                ..
            } => "signed maintenance-plan verification read failed"@,
            Self::Io {
                phase: IoPhase::ReadSuperblock,
                ..
            } => "signed maintenance-plan used an invalid superblock phase"@,
            Self::PlanPreflight(error) => error.message(),
            Self::ProgramRecovery(error) => error.message(),
            Self::ProgramState(error) => error.message(),
            Self::Replay { .. } => "signed maintenance-plan predates the selected program binding"@,
            Self::SequenceGap => "signed maintenance-plan skipped an authorization sequence"@,
            Self::ProgramBindingMismatch => {
                "signed maintenance-plan differs from the durable binding at this sequence"@
            }
            Self::LedgerDivergence => {
                "signed maintenance-plan binding and M80 plan ledgers diverged"@
            }
            Self::SequenceExhausted => {
                "signed maintenance-plan sequence or evidence count is exhausted"@
            }
            Self::Encode(error) => error.message(),
            Self::VerificationFailed => {
                "signed maintenance-plan binding did not survive flush and readback"@
            }
            Self::TerminalProgramIncomplete => {
                "maintenance execution cannot complete without its exact durable signed program"@
            }
        }
    }

    pub fn as_str(self) -> (text: &'static str)
        ensures
            text@ == self.message(),
    {
        match self {
            Self::PartitionBounds => "signed maintenance-plan slots are outside the data partition",
            Self::Io {
                phase: IoPhase::ReadInitialSlot | IoPhase::ReadVerificationSlot,
                error: PersistIoError::RequiresReset,
            } => "signed maintenance-plan read requires a device reset",
            Self::Io {
                phase: IoPhase::WriteInactiveSlot,
                error: PersistIoError::OutcomeUnknown,
            } => "signed maintenance-plan write outcome is unknown and requires reset",
            Self::Io {
                phase: IoPhase::Flush,
                error: PersistIoError::OutcomeUnknown,
            } => "signed maintenance-plan flush outcome is unknown and requires reset",
            Self::Io {
                phase: IoPhase::ReadInitialSlot,
                ..
            } => "signed maintenance-plan initial record read failed",
            Self::Io {
                phase: IoPhase::WriteInactiveSlot,
                ..
            } => "signed maintenance-plan inactive-slot write failed",
            Self::Io {
                phase: IoPhase::Flush,
                ..
            } => "signed maintenance-plan cache flush failed",
            Self::Io {
                phase: IoPhase::ReadVerificationSlot,
                ..
            } => "signed maintenance-plan verification read failed",
            Self::Io {
                phase: IoPhase::ReadSuperblock,
                ..
            } => "signed maintenance-plan used an invalid superblock phase",
            Self::PlanPreflight(error) => error.as_str(),
            Self::ProgramRecovery(error) => error.as_str(),
            Self::ProgramState(error) => error.as_str(),
            Self::Replay { .. } => "signed maintenance-plan predates the selected program binding",
            Self::SequenceGap => "signed maintenance-plan skipped an authorization sequence",
            Self::ProgramBindingMismatch => {
                "signed maintenance-plan differs from the durable binding at this sequence"
            }
            Self::LedgerDivergence => {
                "signed maintenance-plan binding and M80 plan ledgers diverged"
            }
            Self::SequenceExhausted => {
                "signed maintenance-plan sequence or evidence count is exhausted"
            }
            Self::Encode(error) => error.as_str(),
            Self::VerificationFailed => {
                "signed maintenance-plan binding did not survive flush and readback"
            }
            Self::TerminalProgramIncomplete => {
                "maintenance execution cannot complete without its exact durable signed program"
            }
        }
    }
}

#[derive(Clone, Copy, Debug, PartialEq, Eq)]
pub struct SignedMaintenancePlanRequest {
    pub partition_first_lba: u64,
    pub partition_sectors: u64,
    pub expected_format_epoch: FormatEpoch,
    pub authorization: MaintenanceAuthorizationAuditBinding,
    pub binding: SignedMaintenancePlanBinding,
}

#[derive(Clone, Copy, Debug, PartialEq, Eq)]
pub struct SignedMaintenancePlanAdmissionEvidence {
    pub plan: MaintenancePlanAdmissionEvidence,
    pub provisioned_before: bool,
    pub exact_replay: bool,
    pub predecessor_complete: bool,
    pub sequence: u64,
    pub generation: u64,
    pub slot: u8,
    pub valid_slots: u8,
    pub rejected_slots: u8,
    pub reads: u8,
    pub chain_sha256: [u8; 32],
    pub binding: SignedMaintenancePlanBinding,
}

#[derive(Clone, Copy, Debug, PartialEq, Eq)]
pub struct SignedMaintenancePlanEvidence {
    pub provisioned_before: bool,
    pub replayed: bool,
    pub predecessor_complete: bool,
    pub previous_sequence: u64,
    pub committed_sequence: u64,
    pub initial_generation: u64,
    pub committed_generation: u64,
    pub initial_slot: u8,
    pub committed_slot: u8,
    pub initial_valid_slots: u8,
    pub initial_rejected_slots: u8,
    pub committed_valid_slots: u8,
    pub committed_rejected_slots: u8,
    pub reads: u8,
    pub writes: u8,
    pub flushes: u8,
    pub previous_chain_sha256: [u8; 32],
    pub committed_chain_sha256: [u8; 32],
    pub binding: SignedMaintenancePlanBinding,
}

#[derive(Clone, Copy, Debug, PartialEq, Eq)]
pub struct SignedMaintenancePlanTerminalRequest {
    pub partition_first_lba: u64,
    pub partition_sectors: u64,
    pub expected_format_epoch: FormatEpoch,
    pub authorization: MaintenanceAuthorizationAuditBinding,
    pub binding: SignedMaintenancePlanBinding,
    pub expected_plan_chain_sha256: [u8; 32],
}

#[derive(Clone, Copy, Debug, PartialEq, Eq)]
pub struct SignedMaintenancePlanTerminalEvidence {
    pub sequence: u64,
    pub generation: u64,
    pub slot: u8,
    pub valid_slots: u8,
    pub rejected_slots: u8,
    pub reads: u8,
    pub program_chain_sha256: [u8; 32],
    pub plan_chain_sha256: [u8; 32],
    pub binding: SignedMaintenancePlanBinding,
}

pub open spec fn decoded_program(recovered: Option<RecoveredModel>) -> Result<
    Option<SignedMaintenancePlanState>,
    SignedMaintenancePlanStateError,
> {
    match recovered {
        Some(record) => match spec_decode_signed_plan(record.payload) {
            Ok(state) => Ok(Some(state)),
            Err(error) => Err(error),
        },
        None => Ok(None),
    }
}

/// Whether `binding` is an exact replay of the program head, and whether its
/// predecessor is complete; or why the program may not be bound.
pub open spec fn spec_program_admission(
    plan: MaintenancePlanAdmissionEvidence,
    program: Option<SignedMaintenancePlanState>,
    binding: SignedMaintenancePlanBinding,
) -> Result<bool, SignedMaintenancePlanError> {
    match program {
        Some(program) => {
            let head = program.binding.authorization_sequence;
            if binding.authorization_sequence < head {
                Err(SignedMaintenancePlanError::Replay { actual: binding.authorization_sequence, minimum: head })
            } else if binding.authorization_sequence == head {
                if binding != program.binding {
                    Err(SignedMaintenancePlanError::ProgramBindingMismatch)
                } else if !(plan.legacy_anchor || (plan.provisioned_before && plan.sequence
                    == binding.authorization_sequence)) {
                    Err(SignedMaintenancePlanError::LedgerDivergence)
                } else {
                    Ok(true)
                }
            } else if head == u64::MAX || head + 1 != binding.authorization_sequence {
                Err(SignedMaintenancePlanError::SequenceGap)
            } else if !(plan.provisioned_before && plan.sequence == head && plan.operation_ordinal
                == MAINTENANCE_STEP_DRAIN && plan.phase == MAINTENANCE_PLAN_PHASE_CONFIRMED
                && plan.step.execution_sequence == head) {
                Err(SignedMaintenancePlanError::LedgerDivergence)
            } else {
                Ok(false)
            }
        },
        None => if !(plan.legacy_anchor || (binding.authorization_sequence == 1 && !plan.provisioned_before
            && plan.step.audit_sequence == 0 && plan.step.execution_sequence == 0)) {
            Err(SignedMaintenancePlanError::LedgerDivergence)
        } else {
            Ok(false)
        },
    }
}

/// Admission's decision once the plan preflight has passed, from the program
/// ledger's two slots.
pub open spec fn spec_signed_admission_decision(
    plan: MaintenancePlanAdmissionEvidence,
    slot0: Seq<u8>,
    slot1: Seq<u8>,
    format_epoch: FormatEpoch,
    binding: SignedMaintenancePlanBinding,
) -> Result<SignedMaintenancePlanAdmissionEvidence, SignedMaintenancePlanError> {
    match spec_recover_ledger(slot0, slot1, format_epoch) {
        Err(error) => Err(SignedMaintenancePlanError::ProgramRecovery(error)),
        Ok(recovered) => match decoded_program(recovered) {
            Err(error) => Err(SignedMaintenancePlanError::ProgramState(error)),
            Ok(program) => match spec_program_admission(plan, program, binding) {
                Err(error) => Err(error),
                Ok(exact_replay) => if plan.reads > 253 {
                    Err(SignedMaintenancePlanError::SequenceExhausted)
                } else {
                    Ok(SignedMaintenancePlanAdmissionEvidence {
                        plan,
                        provisioned_before: program is Some,
                        exact_replay,
                        predecessor_complete: true,
                        sequence: match program { Some(p) => p.binding.authorization_sequence, None => 0 },
                        generation: initial_generation_of(recovered),
                        slot: initial_slot_of(recovered),
                        valid_slots: initial_valid_of(recovered),
                        rejected_slots: initial_rejected_of(recovered),
                        reads: (plan.reads + 2) as u8,
                        chain_sha256: match program { Some(p) => p.chain_sha256, None => digest_at(zeros(32), 0) },
                        binding,
                    })
                },
            },
        },
    }
}

pub open spec fn plan_request(request: SignedMaintenancePlanRequest) -> MaintenanceAuditRequest {
    MaintenanceAuditRequest {
        partition_first_lba: request.partition_first_lba,
        partition_sectors: request.partition_sectors,
        expected_format_epoch: request.expected_format_epoch,
        binding: request.authorization,
    }
}

/// The result of `preflight_signed_maintenance_plan`, from the device
/// contents alone.
pub open spec fn spec_signed_admission_plan(disk: Seq<Seq<u8>>, request: SignedMaintenancePlanRequest) -> Result<
    SignedMaintenancePlanAdmissionEvidence,
    SignedMaintenancePlanError,
> {
    let first = request.partition_first_lba;
    let slots = SIGNED_MAINTENANCE_PLAN_SLOT_RELATIVE_LBAS;
    if request.binding.spec_validate(request.authorization) is Err {
        Err(SignedMaintenancePlanError::ProgramState(request.binding.spec_validate(request.authorization)->Err_0))
    } else if spec_validate_record_epoch(request.expected_format_epoch) is Err {
        Err(SignedMaintenancePlanError::Encode(spec_validate_record_epoch(request.expected_format_epoch)->Err_0))
    } else if !ledger_fits(first, request.partition_sectors, slots, disk.len()) {
        Err(SignedMaintenancePlanError::PartitionBounds)
    } else {
        match spec_plan_admission_plan(disk, plan_request(request)) {
            Err(error) => Err(SignedMaintenancePlanError::PlanPreflight(error)),
            Ok(plan) => spec_signed_admission_decision(
                plan,
                disk[first + slots[0]],
                disk[first + slots[1]],
                request.expected_format_epoch,
                request.binding,
            ),
        }
    }
}

/// A failure of the commit after the reads: an I/O error while writing,
/// flushing or reading back, or a readback that does not show the commit.
pub open spec fn is_signed_commit_failure(error: SignedMaintenancePlanError) -> bool {
    match error {
        SignedMaintenancePlanError::Io { phase, .. } => is_commit_phase(phase),
        SignedMaintenancePlanError::ProgramRecovery(_) | SignedMaintenancePlanError::ProgramState(_) | SignedMaintenancePlanError::VerificationFailed => true,
        _ => false,
    }
}

/// A failure of the reads before any write.
pub open spec fn is_initial_signed_read_error(error: SignedMaintenancePlanError) -> bool {
    match error {
        SignedMaintenancePlanError::Io { phase, .. } => phase == IoPhase::ReadInitialSlot,
        SignedMaintenancePlanError::PlanPreflight(MaintenancePlanError::Io { phase, .. }) => phase
            == IoPhase::ReadInitialSlot,
        SignedMaintenancePlanError::PlanPreflight(
            MaintenancePlanError::StepPreflight(MaintenanceStepError::Io { phase, .. }),
        ) => phase == IoPhase::ReadInitialSlot,
        _ => false,
    }
}

/// A signed-program head appended to the ledger, with the record written for it.
pub struct ProgramCommit {
    pub state: SignedMaintenancePlanState,
    pub commit: LedgerCommit,
}

/// What the program ledger held, and what the transaction writes, if anything.
pub struct ProgramDecision {
    pub admission: SignedMaintenancePlanAdmissionEvidence,
    pub recovered: Option<RecoveredModel>,
    pub previous: Option<SignedMaintenancePlanState>,
    pub committed: Option<ProgramCommit>,
}

/// The commit's decision from the program ledger's two slots, once admission
/// has passed without an exact replay.
pub open spec fn spec_program_commit_decision(
    admission: SignedMaintenancePlanAdmissionEvidence,
    slot0: Seq<u8>,
    slot1: Seq<u8>,
    request: SignedMaintenancePlanRequest,
) -> Result<ProgramDecision, SignedMaintenancePlanError> {
    let format_epoch = request.expected_format_epoch;
    match spec_recover_ledger(slot0, slot1, format_epoch) {
        Err(error) => Err(SignedMaintenancePlanError::ProgramRecovery(error)),
        Ok(recovered) => match decoded_program(recovered) {
            Err(error) => Err(SignedMaintenancePlanError::ProgramState(error)),
            Ok(previous) => {
                let previous_sequence = match previous { Some(p) => p.binding.authorization_sequence, None => 0 };
                let previous_chain = match previous { Some(p) => p.chain_sha256, None => digest_at(zeros(32), 0) };
                let state = SignedMaintenancePlanState {
                    binding: request.binding,
                    previous_chain_sha256: previous_chain,
                    chain_sha256: digest_at(sha256_digest(signed_plan_chain_material(previous_chain@, request.binding)), 0),
                };
                if (previous is Some) != admission.provisioned_before || previous_sequence != admission.sequence
                    || previous_chain != admission.chain_sha256 {
                    Err(SignedMaintenancePlanError::LedgerDivergence)
                } else if recovered is Some && recovered->Some_0.generation == u64::MAX {
                    Err(SignedMaintenancePlanError::ProgramRecovery(RecoveryError::GenerationExhausted))
                } else {
                    match spec_encode_signed_plan(state, request.authorization) {
                        Err(error) => Err(SignedMaintenancePlanError::ProgramState(error)),
                        Ok(payload) => match spec_next_record(recovered, payload, format_epoch) {
                            Err(Ok(error)) => Err(SignedMaintenancePlanError::ProgramRecovery(error)),
                            Err(Err(error)) => Err(SignedMaintenancePlanError::Encode(error)),
                            Ok(commit) => Ok(ProgramDecision {
                                admission,
                                recovered,
                                previous,
                                committed: Some(ProgramCommit { state, commit }),
                            }),
                        },
                    }
                }
            },
        },
    }
}

/// The decision of `commit_signed_maintenance_plan`, from the device contents
/// alone.
pub open spec fn spec_program_commit_plan(disk: Seq<Seq<u8>>, request: SignedMaintenancePlanRequest) -> Result<
    ProgramDecision,
    SignedMaintenancePlanError,
> {
    let first = request.partition_first_lba;
    let slots = SIGNED_MAINTENANCE_PLAN_SLOT_RELATIVE_LBAS;
    match spec_signed_admission_plan(disk, request) {
        Err(error) => Err(error),
        Ok(admission) => if admission.exact_replay {
            Ok(ProgramDecision { admission, recovered: None, previous: None, committed: None })
        } else {
            spec_program_commit_decision(admission, disk[first + slots[0]], disk[first + slots[1]], request)
        },
    }
}

/// The evidence reported for `decision`; a commit's slot counts are those of
/// the readback.
pub open spec fn program_evidence(
    decision: ProgramDecision,
    binding: SignedMaintenancePlanBinding,
    committed_valid_slots: u8,
    committed_rejected_slots: u8,
) -> SignedMaintenancePlanEvidence {
    let admission = decision.admission;
    match decision.committed {
        None => SignedMaintenancePlanEvidence {
            provisioned_before: true,
            replayed: true,
            predecessor_complete: admission.predecessor_complete,
            previous_sequence: admission.sequence,
            committed_sequence: admission.sequence,
            initial_generation: admission.generation,
            committed_generation: admission.generation,
            initial_slot: admission.slot,
            committed_slot: admission.slot,
            initial_valid_slots: admission.valid_slots,
            initial_rejected_slots: admission.rejected_slots,
            committed_valid_slots: admission.valid_slots,
            committed_rejected_slots: admission.rejected_slots,
            reads: admission.reads,
            writes: 0,
            flushes: 0,
            previous_chain_sha256: admission.chain_sha256,
            committed_chain_sha256: admission.chain_sha256,
            binding,
        },
        Some(program) => SignedMaintenancePlanEvidence {
            provisioned_before: decision.previous is Some,
            replayed: false,
            predecessor_complete: admission.predecessor_complete,
            previous_sequence: match decision.previous { Some(p) => p.binding.authorization_sequence, None => 0 },
            committed_sequence: binding.authorization_sequence,
            initial_generation: initial_generation_of(decision.recovered),
            committed_generation: program.commit.committed_generation,
            initial_slot: initial_slot_of(decision.recovered),
            committed_slot: program.commit.committed_slot as u8,
            initial_valid_slots: initial_valid_of(decision.recovered),
            initial_rejected_slots: initial_rejected_of(decision.recovered),
            committed_valid_slots,
            committed_rejected_slots,
            reads: (admission.reads + 4) as u8,
            writes: 1,
            flushes: 1,
            previous_chain_sha256: program.state.previous_chain_sha256,
            committed_chain_sha256: program.state.chain_sha256,
            binding,
        },
    }
}

/// Admission reports the ten ledger reads of the plan preflight and the
/// program reads.
proof fn lemma_signed_admission_reads(disk: Seq<Seq<u8>>, request: SignedMaintenancePlanRequest)
    ensures
        spec_signed_admission_plan(disk, request) is Ok ==> spec_signed_admission_plan(disk, request)->Ok_0.reads == 10,
{
    lemma_admission_reads(disk, plan_request(request));
}

/// Reads the program ledger's two slots inside a partition already known to
/// hold them.
fn load_program_slots<D: DurableSectorIo>(io: &mut D, first: u64, sectors: u64) -> (result: Result<
    (Sector, Sector),
    SignedMaintenancePlanError,
>)
    requires
        ledger_fits(first, sectors, SIGNED_MAINTENANCE_PLAN_SLOT_RELATIVE_LBAS, old(io).sectors().len()),
    ensures
        result is Err ==> old(io).log().len() < final(io).log().len(),
        final(io).sectors() == old(io).sectors(),
        match result {
            Ok((slot0, slot1)) => {
                let slots = SIGNED_MAINTENANCE_PLAN_SLOT_RELATIVE_LBAS;
                slot0@ == old(io).sectors()[first + slots[0]] && slot1@ == old(io).sectors()[first + slots[1]]
            },
            Err(error) => is_initial_signed_read_error(error),
        },
        log_prefix(old(io).log(), final(io).log(), ledger_reads(first, SIGNED_MAINTENANCE_PLAN_SLOT_RELATIVE_LBAS)),
        result is Ok ==> final(io).log() == old(io).log() + ledger_reads(first, SIGNED_MAINTENANCE_PLAN_SLOT_RELATIVE_LBAS),
{
    let ghost start = io.log();
    let loaded = load_ledger_slots(io, first, sectors, SIGNED_MAINTENANCE_PLAN_SLOT_RELATIVE_LBAS);
    proof {
        let r = ledger_reads(first, SIGNED_MAINTENANCE_PLAN_SLOT_RELATIVE_LBAS);
        assert(start =~= start + r.take(0));
        assert(start.push(IoOp::Read((first + SIGNED_MAINTENANCE_PLAN_SLOT_RELATIVE_LBAS[0]) as u64)) =~= start + r.take(1));
        assert(start + r =~= start + r.take(2));
    }
    match loaded {
        Ok(pair) => Ok(pair),
        Err(LoadFailure::Io { phase, error }) => Err(SignedMaintenancePlanError::Io { phase, error }),
        Err(_) => Err(SignedMaintenancePlanError::PartitionBounds),
    }
}

fn decode_program_head<'a>(slot0: &'a Sector, slot1: &'a Sector, expected_format_epoch: FormatEpoch) -> (result: Result<
    (Option<RecoveredRecord<'a>>, Option<SignedMaintenancePlanState>),
    SignedMaintenancePlanError,
>)
    ensures
        match spec_recover_ledger(slot0@, slot1@, expected_format_epoch) {
            Err(error) => result is Err && result->Err_0 == SignedMaintenancePlanError::ProgramRecovery(error),
            Ok(recovered) => match decoded_program(recovered) {
                Err(error) => result is Err && result->Err_0 == SignedMaintenancePlanError::ProgramState(error),
                Ok(head) => {
                    &&& result is Ok
                    &&& option_view(result->Ok_0.0) == recovered
                    &&& result->Ok_0.1 == head
                    &&& (result->Ok_0.0 is Some ==> result->Ok_0.0->Some_0.slot < 2)
                },
            },
        },
{
    let recovered = match recover_ledger([slot0, slot1], expected_format_epoch) {
        Err(error) => return Err(SignedMaintenancePlanError::ProgramRecovery(error)),
        Ok(recovered) => recovered,
    };
    proof {
        if recovered is Some {
            lemma_recovered_slot(slot0@, slot1@, expected_format_epoch);
        }
    }
    assert(option_view(recovered) == spec_recover_ledger(slot0@, slot1@, expected_format_epoch)->Ok_0);
    match recovered {
        None => Ok((None, None)),
        Some(record) => match SignedMaintenancePlanState::decode(record.payload) {
            Ok(state) => Ok((recovered, Some(state))),
            Err(error) => Err(SignedMaintenancePlanError::ProgramState(error)),
        },
    }
}

fn program_admission(
    plan: MaintenancePlanAdmissionEvidence,
    program: Option<SignedMaintenancePlanState>,
    binding: SignedMaintenancePlanBinding,
) -> (result: Result<bool, SignedMaintenancePlanError>)
    ensures
        result == spec_program_admission(plan, program, binding),
{
    match program {
        Some(program) => {
            let head = program.binding.authorization_sequence;
            if binding.authorization_sequence < head {
                return Err(SignedMaintenancePlanError::Replay { actual: binding.authorization_sequence, minimum: head });
            }
            if binding.authorization_sequence == head {
                if !binding.same_as(&program.binding) {
                    return Err(SignedMaintenancePlanError::ProgramBindingMismatch);
                }
                if !(plan.legacy_anchor || (plan.provisioned_before && plan.sequence == binding.authorization_sequence)) {
                    return Err(SignedMaintenancePlanError::LedgerDivergence);
                }
                return Ok(true);
            }
            if head == u64::MAX || head + 1 != binding.authorization_sequence {
                return Err(SignedMaintenancePlanError::SequenceGap);
            }
            if !(plan.provisioned_before && plan.sequence == head && plan.operation_ordinal == MAINTENANCE_STEP_DRAIN
                && plan.phase == MAINTENANCE_PLAN_PHASE_CONFIRMED && plan.step.execution_sequence == head) {
                return Err(SignedMaintenancePlanError::LedgerDivergence);
            }
            Ok(false)
        },
        None => {
            if !(plan.legacy_anchor || (binding.authorization_sequence == 1 && !plan.provisioned_before
                && plan.step.audit_sequence == 0 && plan.step.execution_sequence == 0)) {
                return Err(SignedMaintenancePlanError::LedgerDivergence);
            }
            Ok(false)
        },
    }
}

/// Program admission reads the ledgers: the binding and format epoch pass
/// their checks, the program ledger lies on the device, and plan admission
/// reads its ledgers.
pub open spec fn signed_admission_reads_begin(device_sectors: nat, request: SignedMaintenancePlanRequest) -> bool {
    &&& request.binding.spec_validate(request.authorization) is Ok
    &&& spec_validate_record_epoch(request.expected_format_epoch) is Ok
    &&& ledger_fits(request.partition_first_lba, request.partition_sectors, SIGNED_MAINTENANCE_PLAN_SLOT_RELATIVE_LBAS, device_sectors)
    &&& plan_admission_reads_begin(device_sectors, plan_request(request))
}

/// The reads of program admission: those of plan admission, then the program
/// ledger.
pub open spec fn signed_admission_reads(first: u64) -> Seq<IoOp> {
    plan_admission_reads(first) + ledger_reads(first, SIGNED_MAINTENANCE_PLAN_SLOT_RELATIVE_LBAS)
}

/// Validates the ledger set before the signed program binding or the
/// authorization audit may mutate.
///
/// A fresh binding is legal only at the same predecessor boundary accepted by
/// the plan. Once provisioned, an exact artifact replay is read-only; a
/// different artifact at the same authorization sequence fails closed.
pub fn preflight_signed_maintenance_plan<D: DurableSectorIo>(
    io: &mut D,
    request: SignedMaintenancePlanRequest,
) -> (result: Result<SignedMaintenancePlanAdmissionEvidence, SignedMaintenancePlanError>)
    ensures
        result is Err && is_initial_signed_read_error(result->Err_0) ==> old(io).log().len() < final(io).log().len(),
        final(io).sectors() == old(io).sectors(),
        log_prefix(old(io).log(), final(io).log(), signed_admission_reads(request.partition_first_lba)),
        result is Ok ==> final(io).log() == old(io).log() + signed_admission_reads(request.partition_first_lba),
        !signed_admission_reads_begin(old(io).sectors().len(), request) ==> final(io).log() == old(io).log()
            && result == Err::<SignedMaintenancePlanAdmissionEvidence, SignedMaintenancePlanError>(
            spec_signed_admission_plan(old(io).sectors(), request)->Err_0,
        ),
        match spec_signed_admission_plan(old(io).sectors(), request) {
            Err(error) => result == Err::<SignedMaintenancePlanAdmissionEvidence, SignedMaintenancePlanError>(error) || (
            result is Err && is_initial_signed_read_error(result->Err_0)),
            Ok(evidence) => result == Ok::<SignedMaintenancePlanAdmissionEvidence, SignedMaintenancePlanError>(evidence) || (
            result is Err && is_initial_signed_read_error(result->Err_0)),
        },
{
    let binding = request.binding;
    let first = request.partition_first_lba;
    let sectors = request.partition_sectors;
    if let Err(error) = binding.validate(request.authorization) {
        return Err(SignedMaintenancePlanError::ProgramState(error));
    }
    if let Err(error) = validate_record_epoch(request.expected_format_epoch) {
        return Err(SignedMaintenancePlanError::Encode(error));
    }
    let device_sectors = io.sector_count();
    let fits = match first.checked_add(sectors) {
        None => false,
        Some(end) => end <= device_sectors && SIGNED_MAINTENANCE_PLAN_SLOT_RELATIVE_LBAS[0] < sectors
            && SIGNED_MAINTENANCE_PLAN_SLOT_RELATIVE_LBAS[1] < sectors,
    };
    if !fits {
        return Err(SignedMaintenancePlanError::PartitionBounds);
    }
    let audit_request = MaintenanceAuditRequest {
        partition_first_lba: first,
        partition_sectors: sectors,
        expected_format_epoch: request.expected_format_epoch,
        binding: request.authorization,
    };
    assert(audit_request == plan_request(request));
    let ghost start = io.log();
    let ghost plans = plan_admission_reads(first);
    let ghost programs = ledger_reads(first, SIGNED_MAINTENANCE_PLAN_SLOT_RELATIVE_LBAS);
    let admitted = preflight_maintenance_plan_admission(io, audit_request);
    proof {
        lemma_log_prefix_widen(start, io.log(), plans, programs);
    }
    let plan = match admitted {
        Ok(plan) => plan,
        Err(error) => return Err(SignedMaintenancePlanError::PlanPreflight(error)),
    };
    let ghost mid = io.log();
    let loaded = load_program_slots(io, first, sectors);
    proof {
        lemma_log_prefix_then(start, mid, io.log(), plans, programs);
    }
    let (slot0, slot1) = loaded?;
    let (recovered, program) = decode_program_head(&slot0, &slot1, request.expected_format_epoch)?;
    let exact_replay = program_admission(plan, program, binding)?;
    let reads = match plan.reads.checked_add(2) {
        Some(reads) => reads,
        None => return Err(SignedMaintenancePlanError::SequenceExhausted),
    };
    let (sequence, chain_sha256) = match program {
        Some(p) => (p.binding.authorization_sequence, p.chain_sha256),
        None => (0u64, [0u8; 32]),
    };
    proof {
        if program is None {
            assert(zeros(32).subrange(0, 32) =~= chain_sha256@);
            lemma_digest_at_view(zeros(32), 0, chain_sha256);
        }
    }
    let (generation, slot, valid_slots, rejected_slots) = match recovered {
        Some(record) => (record.generation, record.slot as u8, record.valid_slots, record.rejected_slots),
        None => (0u64, 0xffu8, 0u8, 0u8),
    };
    Ok(
        SignedMaintenancePlanAdmissionEvidence {
            plan,
            provisioned_before: program.is_some(),
            exact_replay,
            predecessor_complete: true,
            sequence,
            generation,
            slot,
            valid_slots,
            rejected_slots,
            reads,
            chain_sha256,
            binding,
        },
    )
}

/// Reads the program ledger again and prepares the record that binds
/// `request.binding` after the admitted head.
fn prepare_program<'a>(
    admission: SignedMaintenancePlanAdmissionEvidence,
    slot0: &'a Sector,
    slot1: &'a Sector,
    request: SignedMaintenancePlanRequest,
) -> (result: Result<
    (Option<RecoveredRecord<'a>>, Option<SignedMaintenancePlanState>, SignedMaintenancePlanState, PreparedLedgerCommit),
    SignedMaintenancePlanError,
>)
    ensures
        match spec_program_commit_decision(admission, slot0@, slot1@, request) {
            Err(error) => result is Err && result->Err_0 == error,
            Ok(decision) => {
                let (recovered, previous, state, p) = result->Ok_0;
                let c = decision.committed->Some_0.commit;
                &&& result is Ok
                &&& decision.committed is Some
                &&& option_view(recovered) == decision.recovered
                &&& previous == decision.previous
                &&& state == decision.committed->Some_0.state
                &&& p.committed_generation == c.committed_generation
                &&& p.committed_slot == c.committed_slot
                &&& p.committed_sector@ == c.committed_sector
                &&& c.committed_slot < 2
                &&& spec_encode_record(request.expected_format_epoch, c.committed_generation, c.committed_payload)
                    == Ok::<Seq<u8>, RecordError>(c.committed_sector)
            },
        },
{
    let (recovered, previous) = decode_program_head(slot0, slot1, request.expected_format_epoch)?;
    let (previous_sequence, previous_chain_sha256) = match previous {
        Some(p) => (p.binding.authorization_sequence, p.chain_sha256),
        None => (0u64, [0u8; 32]),
    };
    proof {
        if previous is None {
            assert(zeros(32).subrange(0, 32) =~= previous_chain_sha256@);
            lemma_digest_at_view(zeros(32), 0, previous_chain_sha256);
        }
    }
    if previous.is_some() != admission.provisioned_before || previous_sequence != admission.sequence
        || !digest_eq(&previous_chain_sha256, &admission.chain_sha256) {
        return Err(SignedMaintenancePlanError::LedgerDivergence);
    }
    let chain_sha256 = signed_maintenance_plan_chain_sha256(previous_chain_sha256, request.binding);
    proof {
        let digest = sha256_digest(signed_plan_chain_material(previous_chain_sha256@, request.binding));
        assert(digest.subrange(0, 32) =~= chain_sha256@);
        lemma_digest_at_view(digest, 0, chain_sha256);
    }
    let state = SignedMaintenancePlanState { binding: request.binding, previous_chain_sha256, chain_sha256 };
    if let Some(record) = recovered {
        if record.generation == u64::MAX {
            return Err(SignedMaintenancePlanError::ProgramRecovery(RecoveryError::GenerationExhausted));
        }
    }
    let payload = match state.encode(request.authorization) {
        Ok(bytes) => bytes,
        Err(error) => return Err(SignedMaintenancePlanError::ProgramState(error)),
    };
    let prepared = match prepare_next_record(&recovered, &payload, request.expected_format_epoch) {
        Ok(prepared) => prepared,
        Err(Ok(error)) => return Err(SignedMaintenancePlanError::ProgramRecovery(error)),
        Err(Err(error)) => return Err(SignedMaintenancePlanError::Encode(error)),
    };
    Ok((recovered, previous, state, prepared))
}

/// The calls a program commit makes when none of them fails: nothing when it
/// refuses before reading, the reads of program admission, and, unless the
/// binding is an exact replay, the program ledger once more and, when it
/// journals the binding, the commit's calls.
#[verifier::opaque]
pub open spec fn program_commit_ops(disk: Seq<Seq<u8>>, request: SignedMaintenancePlanRequest) -> Seq<IoOp> {
    let first = request.partition_first_lba;
    let slots = SIGNED_MAINTENANCE_PLAN_SLOT_RELATIVE_LBAS;
    let admission = spec_signed_admission_plan(disk, request);
    let plan = spec_program_commit_plan(disk, request);
    let reads = signed_admission_reads(first) + ledger_reads(first, slots);
    if !signed_admission_reads_begin(disk.len(), request) {
        Seq::empty()
    } else if admission is Ok && admission->Ok_0.exact_replay {
        signed_admission_reads(first)
    } else if plan is Ok && plan->Ok_0.committed is Some {
        reads + commit_ops(
            ledger_commit_lba(first, slots, plan->Ok_0.committed->Some_0.commit) as u64,
            plan->Ok_0.committed->Some_0.commit.committed_sector,
            (first + slots[0]) as u64,
            (first + slots[1]) as u64,
        )
    } else {
        reads
    }
}

/// The calls of a program commit begin with the reads of program admission.
proof fn lemma_program_commit_ops(disk: Seq<Seq<u8>>, request: SignedMaintenancePlanRequest)
    ensures
        ({
            let ops = program_commit_ops(disk, request);
            let first = request.partition_first_lba;
            let slots = SIGNED_MAINTENANCE_PLAN_SLOT_RELATIVE_LBAS;
            let admission = spec_signed_admission_plan(disk, request);
            let plan = spec_program_commit_plan(disk, request);
            let reads = signed_admission_reads(first) + ledger_reads(first, slots);
            &&& !signed_admission_reads_begin(disk.len(), request) ==> ops == Seq::<IoOp>::empty()
            &&& signed_admission_reads_begin(disk.len(), request) ==> ops.len() >= 10 && ops.take(10)
                == signed_admission_reads(first)
            &&& signed_admission_reads_begin(disk.len(), request) && admission is Ok
                && admission->Ok_0.exact_replay ==> ops == signed_admission_reads(first)
            &&& signed_admission_reads_begin(disk.len(), request) && !(admission is Ok
                && admission->Ok_0.exact_replay) ==> ops.len() >= 12 && ops.take(12) == reads
            &&& signed_admission_reads_begin(disk.len(), request) && !(admission is Ok
                && admission->Ok_0.exact_replay) && plan is Ok && plan->Ok_0.committed is Some ==> ops == reads
                + commit_ops(
                ledger_commit_lba(first, slots, plan->Ok_0.committed->Some_0.commit) as u64,
                plan->Ok_0.committed->Some_0.commit.committed_sector,
                (first + slots[0]) as u64,
                (first + slots[1]) as u64,
            )
            &&& signed_admission_reads_begin(disk.len(), request) && !(admission is Ok
                && admission->Ok_0.exact_replay) && !(plan is Ok && plan->Ok_0.committed is Some) ==> ops == reads
        }),
{
    reveal(program_commit_ops);
    let first = request.partition_first_lba;
    let ops = program_commit_ops(disk, request);
    let reads = signed_admission_reads(first) + ledger_reads(first, SIGNED_MAINTENANCE_PLAN_SLOT_RELATIVE_LBAS);
    if signed_admission_reads_begin(disk.len(), request) {
        assert(ops.take(10) =~= signed_admission_reads(first));
        assert(reads.take(10) =~= signed_admission_reads(first));
        if !(spec_signed_admission_plan(disk, request) is Ok && spec_signed_admission_plan(disk, request)->Ok_0.exact_replay) {
            assert(ops.take(12) =~= reads);
        }
    }
}

/// Commits the exact verified program binding with inactive-slot
/// write/flush/full-readback semantics, or replays it without mutation.
#[verifier::spinoff_prover]
#[verifier::rlimit(80)]
pub fn commit_signed_maintenance_plan<D: DurableSectorIo>(
    io: &mut D,
    request: SignedMaintenancePlanRequest,
) -> (result: Result<SignedMaintenancePlanEvidence, SignedMaintenancePlanError>)
    ensures
        result is Err && is_initial_signed_read_error(result->Err_0) ==> old(io).log().len() < final(io).log().len(),
        log_prefix(old(io).log(), final(io).log(), program_commit_ops(old(io).sectors(), request)),
        result is Ok ==> final(io).log() == old(io).log() + program_commit_ops(old(io).sectors(), request),
        result is Err && result->Err_0 is Io && result->Err_0->phase == IoPhase::WriteInactiveSlot ==> final(io).log()
            == old(io).log() + program_commit_ops(old(io).sectors(), request).take(program_commit_ops(old(io).sectors(), request).len() - 3),
        result is Err && result->Err_0 is Io && result->Err_0->phase == IoPhase::Flush ==> final(io).log()
            == old(io).log() + program_commit_ops(old(io).sectors(), request).take(program_commit_ops(old(io).sectors(), request).len() - 2),
        !signed_admission_reads_begin(old(io).sectors().len(), request) ==> final(io).log() == old(io).log()
            && result == Err::<SignedMaintenancePlanEvidence, SignedMaintenancePlanError>(
            spec_program_commit_plan(old(io).sectors(), request)->Err_0,
        ),
        match spec_program_commit_plan(old(io).sectors(), request) {
            Err(error) => {
                &&& final(io).sectors() == old(io).sectors()
                &&& (result == Err::<SignedMaintenancePlanEvidence, SignedMaintenancePlanError>(error) || (
                result is Err && is_initial_signed_read_error(result->Err_0)))
            },
            Ok(decision) => match decision.committed {
                None => {
                    &&& final(io).sectors() == old(io).sectors()
                    &&& (result == Ok::<SignedMaintenancePlanEvidence, SignedMaintenancePlanError>(
                        program_evidence(decision, request.binding, 0, 0),
                    ) || (result is Err && is_initial_signed_read_error(result->Err_0)))
                },
                Some(program) => {
                    let lba = ledger_commit_lba(
                        request.partition_first_lba,
                        SIGNED_MAINTENANCE_PLAN_SLOT_RELATIVE_LBAS,
                        program.commit,
                    );
                    &&& unchanged_except(old(io).sectors(), final(io).sectors(), lba)
                    &&& result is Err ==> is_initial_signed_read_error(result->Err_0)
                        || is_signed_commit_failure(result->Err_0)
                    &&& final(io).sectors()[lba] == program.commit.committed_sector ==> result is Ok
                        || result->Err_0 is Io
                        || is_initial_signed_read_error(result->Err_0)
                    &&& result is Err && !(result->Err_0 is Io) && !is_initial_signed_read_error(result->Err_0) ==> result->Err_0 == program_readback_error(
                        final(io).sectors()[request.partition_first_lba + SIGNED_MAINTENANCE_PLAN_SLOT_RELATIVE_LBAS[0]],
                        final(io).sectors()[request.partition_first_lba + SIGNED_MAINTENANCE_PLAN_SLOT_RELATIVE_LBAS[1]],
                        request.expected_format_epoch,
                    )
                    &&& result is Ok ==> {
                        let after = final(io).sectors();
                        let slots = SIGNED_MAINTENANCE_PLAN_SLOT_RELATIVE_LBAS;
                        let first = request.partition_first_lba;
                        let recovered = spec_recover(after[first + slots[0]], after[first + slots[1]], request.expected_format_epoch);
                        &&& ledger_commit_outcome(
                            old(io).sectors(),
                            after,
                            first,
                            slots,
                            request.expected_format_epoch,
                            program.commit,
                        )
                        &&& result->Ok_0 == program_evidence(
                            decision,
                            request.binding,
                            recovered->Ok_0.valid_slots,
                            recovered->Ok_0.rejected_slots,
                        )
                    }
                },
            },
        },
{
    let ghost disk = io.sectors();
    let ghost start = io.log();
    let ghost ops = program_commit_ops(disk, request);
    let ghost admitted_reads = signed_admission_reads(request.partition_first_lba);
    let ghost programs = ledger_reads(request.partition_first_lba, SIGNED_MAINTENANCE_PLAN_SLOT_RELATIVE_LBAS);
    proof {
        lemma_program_commit_ops(disk, request);
    }
    let admitted = preflight_signed_maintenance_plan(io, request);
    proof {
        if signed_admission_reads_begin(disk.len(), request) {
            lemma_log_prefix_extend(start, io.log(), admitted_reads, ops);
        }
    }
    let admission = admitted?;
    proof {
        lemma_signed_admission_reads(disk, request);
    }
    if admission.exact_replay {
        return Ok(
            SignedMaintenancePlanEvidence {
                provisioned_before: true,
                replayed: true,
                predecessor_complete: admission.predecessor_complete,
                previous_sequence: admission.sequence,
                committed_sequence: admission.sequence,
                initial_generation: admission.generation,
                committed_generation: admission.generation,
                initial_slot: admission.slot,
                committed_slot: admission.slot,
                initial_valid_slots: admission.valid_slots,
                initial_rejected_slots: admission.rejected_slots,
                committed_valid_slots: admission.valid_slots,
                committed_rejected_slots: admission.rejected_slots,
                reads: admission.reads,
                writes: 0,
                flushes: 0,
                previous_chain_sha256: admission.chain_sha256,
                committed_chain_sha256: admission.chain_sha256,
                binding: request.binding,
            },
        );
    }
    let first = request.partition_first_lba;
    let ghost mid = io.log();
    let loaded = load_program_slots(io, first, request.partition_sectors);
    proof {
        lemma_log_prefix_then(start, mid, io.log(), admitted_reads, programs);
        lemma_log_prefix_extend(start, io.log(), admitted_reads + programs, ops);
    }
    let (slot0, slot1) = loaded?;
    proof {
        assert(io.log() =~= start + (admitted_reads + programs));
    }
    let (recovered, previous, committed_state, prepared) = prepare_program(admission, &slot0, &slot1, request)?;
    let ghost decision = spec_program_commit_decision(admission, slot0@, slot1@, request)->Ok_0;
    let ghost commit = decision.committed->Some_0.commit;
    let previous_sequence = match previous {
        Some(p) => p.binding.authorization_sequence,
        None => 0,
    };
    let (initial_generation, initial_slot, initial_valid_slots, initial_rejected_slots) = match recovered {
        Some(record) => (record.generation, record.slot as u8, record.valid_slots, record.rejected_slots),
        None => (0u64, 0xffu8, 0u8, 0u8),
    };
    let slots = SIGNED_MAINTENANCE_PLAN_SLOT_RELATIVE_LBAS;
    let first_lba = first + slots[0];
    let second_lba = first + slots[1];
    let committed_lba = if prepared.committed_slot == 0 {
        first_lba
    } else {
        second_lba
    };
    let ghost calls = commit_ops(committed_lba, prepared.committed_sector@, first_lba, second_lba);
    let ghost mid = io.log();
    let committed_io = commit_and_read_back(
        io,
        committed_lba,
        &prepared.committed_sector,
        first_lba,
        second_lba,
    );
    proof {
        lemma_log_prefix_then(start, mid, io.log(), admitted_reads + programs, calls);
    }
    let (verified0, verified1) = match committed_io {
        Ok(pair) => pair,
        Err((phase, error)) => {
            proof {
                if phase == IoPhase::WriteInactiveSlot {
                    lemma_log_stops_after(start, mid, io.log(), admitted_reads + programs, calls, 1);
                }
                if phase == IoPhase::Flush {
                    lemma_log_stops_after(start, mid, io.log(), admitted_reads + programs, calls, 2);
                }
            }
            return Err(SignedMaintenancePlanError::Io { phase, error });
        },
    };
    proof {
        let committed = if commit.committed_slot == 0 { verified0@ } else { verified1@ };
        if committed == commit.committed_sector {
            lemma_kept_commit_is_recovered(
                slot0@,
                slot1@,
                verified0@,
                verified1@,
                request.expected_format_epoch,
                decision.recovered,
                commit.committed_payload,
            );
            lemma_signed_plan_round_trip(decision.committed->Some_0.state, request.authorization);
        }
    }
    let verified = match recover([&verified0, &verified1], request.expected_format_epoch) {
        Ok(record) => record,
        Err(error) => return Err(SignedMaintenancePlanError::ProgramRecovery(error)),
    };
    let verified_state = match SignedMaintenancePlanState::decode(verified.payload) {
        Ok(state) => state,
        Err(error) => return Err(SignedMaintenancePlanError::ProgramState(error)),
    };
    if !ledger_readback_ok(
        &verified,
        &verified0,
        &verified1,
        &slot0,
        &slot1,
        &prepared,
        request.expected_format_epoch,
        Ghost(commit),
    ) || !verified_state.same_as(&committed_state) {
        return Err(SignedMaintenancePlanError::VerificationFailed);
    }
    Ok(
        SignedMaintenancePlanEvidence {
            provisioned_before: previous.is_some(),
            replayed: false,
            predecessor_complete: admission.predecessor_complete,
            previous_sequence,
            committed_sequence: request.binding.authorization_sequence,
            initial_generation,
            committed_generation: prepared.committed_generation,
            initial_slot,
            committed_slot: prepared.committed_slot as u8,
            initial_valid_slots,
            initial_rejected_slots,
            committed_valid_slots: verified.valid_slots,
            committed_rejected_slots: verified.rejected_slots,
            reads: admission.reads + 4,
            writes: 1,
            flushes: 1,
            previous_chain_sha256: committed_state.previous_chain_sha256,
            committed_chain_sha256: committed_state.chain_sha256,
            binding: request.binding,
        },
    )
}

pub open spec fn terminal_program_request(request: SignedMaintenancePlanTerminalRequest) -> SignedMaintenancePlanRequest {
    SignedMaintenancePlanRequest {
        partition_first_lba: request.partition_first_lba,
        partition_sectors: request.partition_sectors,
        expected_format_epoch: request.expected_format_epoch,
        authorization: request.authorization,
        binding: request.binding,
    }
}

/// The program head is exactly the requested binding, and the plan head is
/// the confirmed drain of the same authorization with the expected chain.
pub open spec fn is_terminal_program(
    admission: SignedMaintenancePlanAdmissionEvidence,
    request: SignedMaintenancePlanTerminalRequest,
) -> bool {
    &&& admission.provisioned_before
    &&& admission.exact_replay
    &&& admission.sequence == request.binding.authorization_sequence
    &&& admission.plan.provisioned_before
    &&& admission.plan.sequence == request.binding.authorization_sequence
    &&& admission.plan.operation_ordinal == MAINTENANCE_STEP_DRAIN
    &&& admission.plan.phase == MAINTENANCE_PLAN_PHASE_CONFIRMED
    &&& admission.plan.chain_sha256 == request.expected_plan_chain_sha256
}

pub open spec fn program_terminal_evidence(
    admission: SignedMaintenancePlanAdmissionEvidence,
    request: SignedMaintenancePlanTerminalRequest,
) -> SignedMaintenancePlanTerminalEvidence {
    SignedMaintenancePlanTerminalEvidence {
        sequence: admission.sequence,
        generation: admission.generation,
        slot: admission.slot,
        valid_slots: admission.valid_slots,
        rejected_slots: admission.rejected_slots,
        reads: admission.reads,
        program_chain_sha256: admission.chain_sha256,
        plan_chain_sha256: admission.plan.chain_sha256,
        binding: request.binding,
    }
}

/// Selects the exact durable signed program and the plan's terminal head
/// immediately before execution completion.
pub fn validate_signed_maintenance_plan_terminal<D: DurableSectorIo>(
    io: &mut D,
    request: SignedMaintenancePlanTerminalRequest,
) -> (result: Result<SignedMaintenancePlanTerminalEvidence, SignedMaintenancePlanError>)
    ensures
        result is Err && is_initial_signed_read_error(result->Err_0) ==> old(io).log().len() < final(io).log().len(),
        final(io).sectors() == old(io).sectors(),
        log_prefix(old(io).log(), final(io).log(), signed_admission_reads(request.partition_first_lba)),
        result is Ok ==> final(io).log() == old(io).log() + signed_admission_reads(request.partition_first_lba),
        !signed_admission_reads_begin(old(io).sectors().len(), terminal_program_request(request))
            ==> final(io).log() == old(io).log() && result == Err::<
            SignedMaintenancePlanTerminalEvidence,
            SignedMaintenancePlanError,
        >(spec_signed_admission_plan(old(io).sectors(), terminal_program_request(request))->Err_0),
        match spec_signed_admission_plan(old(io).sectors(), terminal_program_request(request)) {
            Err(error) => result == Err::<SignedMaintenancePlanTerminalEvidence, SignedMaintenancePlanError>(error) || (
            result is Err && is_initial_signed_read_error(result->Err_0)),
            Ok(admission) => if is_terminal_program(admission, request) {
                result == Ok::<SignedMaintenancePlanTerminalEvidence, SignedMaintenancePlanError>(
                    program_terminal_evidence(admission, request),
                ) || (result is Err && is_initial_signed_read_error(result->Err_0))
            } else {
                result == Err::<SignedMaintenancePlanTerminalEvidence, SignedMaintenancePlanError>(
                    SignedMaintenancePlanError::TerminalProgramIncomplete,
                ) || (result is Err && is_initial_signed_read_error(result->Err_0))
            },
        },
{
    let admission = preflight_signed_maintenance_plan(
        io,
        SignedMaintenancePlanRequest {
            partition_first_lba: request.partition_first_lba,
            partition_sectors: request.partition_sectors,
            expected_format_epoch: request.expected_format_epoch,
            authorization: request.authorization,
            binding: request.binding,
        },
    )?;
    if !admission.provisioned_before || !admission.exact_replay || admission.sequence
        != request.binding.authorization_sequence || !admission.plan.provisioned_before || admission.plan.sequence
        != request.binding.authorization_sequence || admission.plan.operation_ordinal != MAINTENANCE_STEP_DRAIN
        || admission.plan.phase != MAINTENANCE_PLAN_PHASE_CONFIRMED || !digest_eq(
        &admission.plan.chain_sha256,
        &request.expected_plan_chain_sha256,
    ) {
        return Err(SignedMaintenancePlanError::TerminalProgramIncomplete);
    }
    Ok(
        SignedMaintenancePlanTerminalEvidence {
            sequence: admission.sequence,
            generation: admission.generation,
            slot: admission.slot,
            valid_slots: admission.valid_slots,
            rejected_slots: admission.rejected_slots,
            reads: admission.reads,
            program_chain_sha256: admission.chain_sha256,
            plan_chain_sha256: admission.plan.chain_sha256,
            binding: request.binding,
        },
    )
}

/// After a successful program commit, recovering the program ledger yields
/// exactly the requested binding, chained to the previous head.
pub proof fn lemma_program_commit_recovers_binding(
    before: Seq<Seq<u8>>,
    after: Seq<Seq<u8>>,
    request: SignedMaintenancePlanRequest,
)
    requires
        spec_program_commit_plan(before, request) is Ok,
        spec_program_commit_plan(before, request)->Ok_0.committed is Some,
        ledger_commit_outcome(
            before,
            after,
            request.partition_first_lba,
            SIGNED_MAINTENANCE_PLAN_SLOT_RELATIVE_LBAS,
            request.expected_format_epoch,
            spec_program_commit_plan(before, request)->Ok_0.committed->Some_0.commit,
        ),
    ensures
        ({
            let decision = spec_program_commit_plan(before, request)->Ok_0;
            let first = request.partition_first_lba;
            let slots = SIGNED_MAINTENANCE_PLAN_SLOT_RELATIVE_LBAS;
            let recovered = spec_recover(after[first + slots[0]], after[first + slots[1]], request.expected_format_epoch);
            let head = decision.committed->Some_0.state;
            &&& spec_decode_signed_plan(recovered->Ok_0.payload) == Ok::<
                SignedMaintenancePlanState,
                SignedMaintenancePlanStateError,
            >(head)
            &&& head.binding == request.binding
            &&& match decision.previous {
                Some(previous) => head.previous_chain_sha256 == previous.chain_sha256,
                None => all_zero(head.previous_chain_sha256@),
            }
        }),
{
    let decision = spec_program_commit_plan(before, request)->Ok_0;
    lemma_signed_plan_round_trip(decision.committed->Some_0.state, request.authorization);
    if decision.previous is None {
        lemma_digest_at(zeros(32), 0);
    }
}

/// A program binding is written once: the commit writes nothing exactly when
/// admission finds the same binding already durable.
pub proof fn lemma_program_replay_is_read_only(disk: Seq<Seq<u8>>, request: SignedMaintenancePlanRequest)
    requires
        spec_program_commit_plan(disk, request) is Ok,
    ensures
        spec_program_commit_plan(disk, request)->Ok_0.committed is None
            <==> spec_signed_admission_plan(disk, request)->Ok_0.exact_replay,
{
}

/// A durable program binding is never substituted: admission at its
/// sequence passes only for the identical binding.
pub proof fn lemma_program_binding_is_immutable(
    plan: MaintenancePlanAdmissionEvidence,
    program: SignedMaintenancePlanState,
    binding: SignedMaintenancePlanBinding,
)
    requires
        binding.authorization_sequence == program.binding.authorization_sequence,
        spec_program_admission(plan, Some(program), binding) is Ok,
    ensures
        binding == program.binding,
{
}

/// The error a signed-plan commit reports when the signed-plan slots it reads back do not
/// confirm the commit: recovery's error, the decoder's error, or a
/// verification failure.
pub open spec fn program_readback_error(after0: Seq<u8>, after1: Seq<u8>, epoch: FormatEpoch) -> SignedMaintenancePlanError {
    match spec_recover(after0, after1, epoch) {
        Err(error) => SignedMaintenancePlanError::ProgramRecovery(error),
        Ok(record) => match spec_decode_signed_plan(record.payload) {
            Err(error) => SignedMaintenancePlanError::ProgramState(error),
            Ok(_) => SignedMaintenancePlanError::VerificationFailed,
        },
    }
}

} // verus!

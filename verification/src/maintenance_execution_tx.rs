//! Admitting a maintenance authorization against the execution ledger, and
//! sealing one completed maintenance execution.
use vstd::prelude::*;
use crate::codec::{all_zero, digest_at, digest_eq, lemma_digest_at, lemma_digest_at_view, zeros};
use crate::digest::sha256_digest;
use crate::io::{commit_ops, is_commit_phase, ledger_reads, lemma_log_prefix_extend, lemma_log_prefix_then, lemma_log_prefix_widen, lemma_log_stops_after, log_prefix, unchanged_except, IoOp, DurableSectorIo, IoPhase, PersistIoError};
use crate::layout::{
    FormatEpoch, Sector, MAINTENANCE_AUDIT_SLOT_RELATIVE_LBAS,
    MAINTENANCE_EXECUTION_SLOT_RELATIVE_LBAS,
};
use crate::ledger::{commit_and_read_back, ledger_fits, load_ledger_slots, LoadFailure};
use crate::maintenance_audit::{
    spec_decode_audit, MaintenanceAuditState, MaintenanceAuditStateError,
    MaintenanceAuthorizationAuditBinding,
};
use crate::maintenance_audit_tx::{
    audit_ops, audit_evidence, commit_maintenance_authorization, is_audit_commit_failure, spec_audit_plan, MaintenanceAuditError,
    MaintenanceAuditEvidence, MaintenanceAuditRequest,
};
use crate::maintenance_execution::{
    execution_chain_material, lemma_decoded_execution_is_valid, lemma_execution_round_trip, maintenance_execution_chain_sha256, spec_decode_execution,
    spec_encode_execution, MaintenanceExecutionCompletionBinding, MaintenanceExecutionState,
    MaintenanceExecutionStateError,
};
use crate::manifest_tx::{
    lemma_kept_commit_is_recovered, ledger_commit_lba, initial_generation_of, initial_rejected_of, initial_slot_of, initial_valid_of,
    ledger_commit_outcome, ledger_readback_ok, option_view, prepare_next_record, spec_next_record,
    LedgerCommit, PreparedLedgerCommit,
};
use crate::record::{
    lemma_recovered_slot, recover, recover_ledger, spec_encode_record, spec_recover,
    spec_recover_ledger, spec_validate_record_epoch, validate_record_epoch, RecordError,
    RecoveredModel, RecoveredRecord, RecoveryError,
};

verus! {

broadcast use vstd::array::group_array_axioms;

#[derive(Clone, Copy, Debug, PartialEq, Eq, Structural)]
pub enum MaintenanceExecutionError {
    PartitionBounds,
    Io { phase: IoPhase, error: PersistIoError },
    AuditRecovery(RecoveryError),
    AuditState(MaintenanceAuditStateError),
    ExecutionRecovery(RecoveryError),
    ExecutionState(MaintenanceExecutionStateError),
    AuditTransaction(MaintenanceAuditError),
    BootstrapSequence { actual: u64 },
    Replay { actual: u64, minimum: u64 },
    CompletedReplay { actual: u64, minimum: u64 },
    SequenceGap { actual: u64, expected: u64 },
    IncompletePredecessor { actual: u64, unfinished: u64 },
    AuthorizationBindingMismatch,
    NamespaceMismatch,
    LedgerDivergence,
    SequenceExhausted,
    Encode(RecordError),
    VerificationFailed,
}

impl MaintenanceExecutionError {
    /// The fixed text that describes this error.
    pub open spec fn message(self) -> Seq<char> {
        match self {
            Self::PartitionBounds => "maintenance execution slots are outside the data partition"@,
            Self::Io {
                phase: IoPhase::ReadInitialSlot | IoPhase::ReadVerificationSlot,
                error: PersistIoError::RequiresReset,
            } => "maintenance execution read requires a device reset"@,
            Self::Io {
                phase: IoPhase::WriteInactiveSlot,
                error: PersistIoError::OutcomeUnknown,
            } => "maintenance execution write outcome is unknown and requires reset"@,
            Self::Io {
                phase: IoPhase::Flush,
                error: PersistIoError::OutcomeUnknown,
            } => "maintenance execution flush outcome is unknown and requires reset"@,
            Self::Io {
                phase: IoPhase::ReadInitialSlot,
                ..
            } => "maintenance execution initial record read failed"@,
            Self::Io {
                phase: IoPhase::WriteInactiveSlot,
                ..
            } => "maintenance execution inactive-slot write failed"@,
            Self::Io {
                phase: IoPhase::Flush,
                ..
            } => "maintenance execution cache flush failed"@,
            Self::Io {
                phase: IoPhase::ReadVerificationSlot,
                ..
            } => "maintenance execution verification read failed"@,
            Self::Io {
                phase: IoPhase::ReadSuperblock,
                ..
            } => "maintenance execution used an invalid superblock phase"@,
            Self::AuditRecovery(error) | Self::ExecutionRecovery(error) => error.message(),
            Self::AuditState(error) => error.message(),
            Self::ExecutionState(error) => error.message(),
            Self::AuditTransaction(error) => error.message(),
            Self::BootstrapSequence { .. } => {
                "first maintenance execution authorization sequence is not one"@
            }
            Self::Replay { .. } => "maintenance authorization predates the unfinished audit head"@,
            Self::CompletedReplay { .. } => {
                "maintenance authorization execution was already completed"@
            }
            Self::SequenceGap { .. } => "maintenance authorization skipped an execution sequence"@,
            Self::IncompletePredecessor { .. } => {
                "maintenance authorization predecessor is not durably completed"@
            }
            Self::AuthorizationBindingMismatch => {
                "maintenance resume authorization does not exactly match the unfinished audit head"@
            }
            Self::NamespaceMismatch => {
                "maintenance execution belongs to another root, policy, or device namespace"@
            }
            Self::LedgerDivergence => {
                "maintenance audit and execution ledgers violate their sequential invariant"@
            }
            Self::SequenceExhausted => "maintenance execution sequence is exhausted"@,
            Self::Encode(error) => error.message(),
            Self::VerificationFailed => {
                "maintenance execution completion did not survive flush and readback"@
            }
        }
    }

    pub fn as_str(self) -> (text: &'static str)
        ensures
            text@ == self.message(),
    {
        match self {
            Self::PartitionBounds => "maintenance execution slots are outside the data partition",
            Self::Io {
                phase: IoPhase::ReadInitialSlot | IoPhase::ReadVerificationSlot,
                error: PersistIoError::RequiresReset,
            } => "maintenance execution read requires a device reset",
            Self::Io {
                phase: IoPhase::WriteInactiveSlot,
                error: PersistIoError::OutcomeUnknown,
            } => "maintenance execution write outcome is unknown and requires reset",
            Self::Io {
                phase: IoPhase::Flush,
                error: PersistIoError::OutcomeUnknown,
            } => "maintenance execution flush outcome is unknown and requires reset",
            Self::Io {
                phase: IoPhase::ReadInitialSlot,
                ..
            } => "maintenance execution initial record read failed",
            Self::Io {
                phase: IoPhase::WriteInactiveSlot,
                ..
            } => "maintenance execution inactive-slot write failed",
            Self::Io {
                phase: IoPhase::Flush,
                ..
            } => "maintenance execution cache flush failed",
            Self::Io {
                phase: IoPhase::ReadVerificationSlot,
                ..
            } => "maintenance execution verification read failed",
            Self::Io {
                phase: IoPhase::ReadSuperblock,
                ..
            } => "maintenance execution used an invalid superblock phase",
            Self::AuditRecovery(error) | Self::ExecutionRecovery(error) => error.as_str(),
            Self::AuditState(error) => error.as_str(),
            Self::ExecutionState(error) => error.as_str(),
            Self::AuditTransaction(error) => error.as_str(),
            Self::BootstrapSequence { .. } => {
                "first maintenance execution authorization sequence is not one"
            }
            Self::Replay { .. } => "maintenance authorization predates the unfinished audit head",
            Self::CompletedReplay { .. } => {
                "maintenance authorization execution was already completed"
            }
            Self::SequenceGap { .. } => "maintenance authorization skipped an execution sequence",
            Self::IncompletePredecessor { .. } => {
                "maintenance authorization predecessor is not durably completed"
            }
            Self::AuthorizationBindingMismatch => {
                "maintenance resume authorization does not exactly match the unfinished audit head"
            }
            Self::NamespaceMismatch => {
                "maintenance execution belongs to another root, policy, or device namespace"
            }
            Self::LedgerDivergence => {
                "maintenance audit and execution ledgers violate their sequential invariant"
            }
            Self::SequenceExhausted => "maintenance execution sequence is exhausted",
            Self::Encode(error) => error.as_str(),
            Self::VerificationFailed => {
                "maintenance execution completion did not survive flush and readback"
            }
        }
    }
}

#[derive(Clone, Copy, Debug, PartialEq, Eq)]
pub struct MaintenanceExecutionCompletionRequest {
    pub partition_first_lba: u64,
    pub partition_sectors: u64,
    pub expected_format_epoch: FormatEpoch,
    pub binding: MaintenanceExecutionCompletionBinding,
}

#[derive(Clone, Copy, Debug, PartialEq, Eq)]
pub struct MaintenanceExecutionEvidence {
    pub provisioned_before: bool,
    pub previous_sequence: u64,
    pub committed_sequence: u64,
    pub previous_completed_count: u64,
    pub committed_completed_count: u64,
    pub initial_generation: u64,
    pub committed_generation: u64,
    pub initial_slot: u8,
    pub committed_slot: u8,
    pub initial_valid_slots: u8,
    pub initial_rejected_slots: u8,
    pub committed_valid_slots: u8,
    pub committed_rejected_slots: u8,
    pub reads: u8,
    pub writes: u8,
    pub flushes: u8,
    pub previous_chain_sha256: [u8; 32],
    pub committed_chain_sha256: [u8; 32],
    pub audit_chain_sha256: [u8; 32],
    pub binding: MaintenanceExecutionCompletionBinding,
}

/// Both the audit and the execution ledger lie inside the partition.
pub open spec fn audit_and_execution_fit(first: u64, sectors: u64, device_sectors: nat) -> bool {
    &&& ledger_fits(first, sectors, MAINTENANCE_AUDIT_SLOT_RELATIVE_LBAS, device_sectors)
    &&& ledger_fits(first, sectors, MAINTENANCE_EXECUTION_SLOT_RELATIVE_LBAS, device_sectors)
}

/// The decoded head of a ledger, if it holds one.
pub open spec fn decoded_audit(recovered: Option<RecoveredModel>) -> Result<Option<MaintenanceAuditState>, MaintenanceAuditStateError> {
    match recovered {
        Some(record) => match spec_decode_audit(record.payload) {
            Ok(state) => Ok(Some(state)),
            Err(error) => Err(error),
        },
        None => Ok(None),
    }
}

pub open spec fn decoded_execution(recovered: Option<RecoveredModel>) -> Result<Option<MaintenanceExecutionState>, MaintenanceExecutionStateError> {
    match recovered {
        Some(record) => match spec_decode_execution(record.payload) {
            Ok(state) => Ok(Some(state)),
            Err(error) => Err(error),
        },
        None => Ok(None),
    }
}

/// The execution head that seals `binding` after `existing`, while the audit
/// head stands at `audit_sequence`: the first completion carries sequence one,
/// every later one stays in the namespace and carries the next sequence, and
/// the completed sequence must be the audit head's.
pub open spec fn spec_execution_successor(
    existing: Option<MaintenanceExecutionState>,
    binding: MaintenanceExecutionCompletionBinding,
    audit_sequence: u64,
) -> Result<MaintenanceExecutionState, MaintenanceExecutionError> {
    let (previous_sequence, previous_completed, previous_chain) = match existing {
        Some(state) => (state.sequence, state.completed_count, state.chain_sha256),
        None => (0u64, 0u64, digest_at(zeros(32), 0)),
    };
    let checked = match existing {
        None => if binding.sequence != 1 {
            Err(MaintenanceExecutionError::BootstrapSequence { actual: binding.sequence })
        } else {
            Ok(())
        },
        Some(state) => if state.root_sha256 != binding.root_sha256 || state.policy_sha256
            != binding.policy_sha256 || state.device_binding_sha256 != binding.device_binding_sha256 {
            Err(MaintenanceExecutionError::NamespaceMismatch)
        } else if state.sequence == u64::MAX {
            Err(MaintenanceExecutionError::SequenceExhausted)
        } else if binding.sequence <= state.sequence {
            Err(MaintenanceExecutionError::CompletedReplay { actual: binding.sequence, minimum: (state.sequence + 1) as u64 })
        } else if binding.sequence != state.sequence + 1 {
            Err(MaintenanceExecutionError::SequenceGap { actual: binding.sequence, expected: (state.sequence + 1) as u64 })
        } else {
            Ok(())
        },
    };
    if checked is Err {
        Err(checked->Err_0)
    } else if previous_sequence == u64::MAX {
        Err(MaintenanceExecutionError::SequenceExhausted)
    } else if previous_sequence + 1 != audit_sequence {
        Err(MaintenanceExecutionError::LedgerDivergence)
    } else if previous_completed == u64::MAX {
        Err(MaintenanceExecutionError::SequenceExhausted)
    } else {
        Ok(MaintenanceExecutionState {
            sequence: binding.sequence,
            completed_count: (previous_completed + 1) as u64,
            operations: binding.operations,
            max_uses: binding.max_uses,
            uses_consumed: binding.uses_consumed,
            rotations_completed: binding.rotations_completed,
            flags: binding.flags,
            appdata_generation: binding.appdata_generation,
            authorization_sha256: binding.authorization_sha256,
            authorization_id: binding.authorization_id,
            manifest_sha256: binding.manifest_sha256,
            policy_sha256: binding.policy_sha256,
            root_sha256: binding.root_sha256,
            device_binding_sha256: binding.device_binding_sha256,
            previous_chain_sha256: previous_chain,
            chain_sha256: digest_at(sha256_digest(execution_chain_material(previous_chain@, binding)), 0),
            runtime_evidence_sha256: binding.runtime_evidence_sha256,
        })
    }
}

/// The audit head a completion must match: the ledger must hold one, and it
/// must record exactly the completed authorization.
pub open spec fn spec_completion_audit(
    audit0: Seq<u8>,
    audit1: Seq<u8>,
    format_epoch: FormatEpoch,
    binding: MaintenanceExecutionCompletionBinding,
) -> Result<MaintenanceAuditState, MaintenanceExecutionError> {
    match spec_recover_ledger(audit0, audit1, format_epoch) {
        Err(error) => Err(MaintenanceExecutionError::AuditRecovery(error)),
        Ok(None) => Err(MaintenanceExecutionError::LedgerDivergence),
        Ok(Some(record)) => match spec_decode_audit(record.payload) {
            Err(error) => Err(MaintenanceExecutionError::AuditState(error)),
            Ok(audit) => if audit.spec_binding() != binding.spec_authorization_binding() {
                Err(MaintenanceExecutionError::AuthorizationBindingMismatch)
            } else {
                Ok(audit)
            },
        },
    }
}

/// What the execution ledger held, the head appended to it, and the record written.
pub struct CompletionDecision {
    pub audit: MaintenanceAuditState,
    pub recovered: Option<RecoveredModel>,
    pub existing: Option<MaintenanceExecutionState>,
    pub committed_state: MaintenanceExecutionState,
    pub commit: LedgerCommit,
}

/// The completion transaction's decision from the execution ledger's two
/// slots, once the audit head is known.
pub open spec fn spec_completion_decision(
    audit: MaintenanceAuditState,
    slot0: Seq<u8>,
    slot1: Seq<u8>,
    format_epoch: FormatEpoch,
    binding: MaintenanceExecutionCompletionBinding,
) -> Result<CompletionDecision, MaintenanceExecutionError> {
    match spec_recover_ledger(slot0, slot1, format_epoch) {
        Err(error) => Err(MaintenanceExecutionError::ExecutionRecovery(error)),
        Ok(recovered) => match decoded_execution(recovered) {
            Err(error) => Err(MaintenanceExecutionError::ExecutionState(error)),
            Ok(existing) => match spec_execution_successor(existing, binding, audit.sequence) {
                Err(error) => Err(error),
                Ok(committed_state) => if recovered is Some && recovered->Some_0.generation == u64::MAX {
                    Err(MaintenanceExecutionError::ExecutionRecovery(RecoveryError::GenerationExhausted))
                } else {
                    match spec_encode_execution(committed_state) {
                        Err(error) => Err(MaintenanceExecutionError::ExecutionState(error)),
                        Ok(payload) => match spec_next_record(recovered, payload, format_epoch) {
                            Err(Ok(error)) => Err(MaintenanceExecutionError::ExecutionRecovery(error)),
                            Err(Err(error)) => Err(MaintenanceExecutionError::Encode(error)),
                            Ok(commit) => Ok(CompletionDecision { audit, recovered, existing, committed_state, commit }),
                        },
                    }
                },
            },
        },
    }
}

/// The decision of `commit_maintenance_execution_completion`, from the device
/// contents alone.
pub open spec fn spec_completion_plan(disk: Seq<Seq<u8>>, request: MaintenanceExecutionCompletionRequest) -> Result<
    CompletionDecision,
    MaintenanceExecutionError,
> {
    let first = request.partition_first_lba;
    let audit = MAINTENANCE_AUDIT_SLOT_RELATIVE_LBAS;
    let slots = MAINTENANCE_EXECUTION_SLOT_RELATIVE_LBAS;
    if request.binding.spec_validate() is Err {
        Err(MaintenanceExecutionError::ExecutionState(request.binding.spec_validate()->Err_0))
    } else if spec_validate_record_epoch(request.expected_format_epoch) is Err {
        Err(MaintenanceExecutionError::Encode(spec_validate_record_epoch(request.expected_format_epoch)->Err_0))
    } else if !audit_and_execution_fit(first, request.partition_sectors, disk.len()) {
        Err(MaintenanceExecutionError::PartitionBounds)
    } else {
        match spec_completion_audit(disk[first + audit[0]], disk[first + audit[1]], request.expected_format_epoch, request.binding) {
            Err(error) => Err(error),
            Ok(head) => spec_completion_decision(
                head,
                disk[first + slots[0]],
                disk[first + slots[1]],
                request.expected_format_epoch,
                request.binding,
            ),
        }
    }
}

/// The evidence reported for `decision`; the committed slot counts are those
/// of the readback.
pub open spec fn completion_evidence(
    decision: CompletionDecision,
    binding: MaintenanceExecutionCompletionBinding,
    committed_valid_slots: u8,
    committed_rejected_slots: u8,
) -> MaintenanceExecutionEvidence {
    let (previous_sequence, previous_completed_count) = match decision.existing {
        Some(state) => (state.sequence, state.completed_count),
        None => (0u64, 0u64),
    };
    MaintenanceExecutionEvidence {
        provisioned_before: decision.existing is Some,
        previous_sequence,
        committed_sequence: binding.sequence,
        previous_completed_count,
        committed_completed_count: decision.committed_state.completed_count,
        initial_generation: initial_generation_of(decision.recovered),
        committed_generation: decision.commit.committed_generation,
        initial_slot: initial_slot_of(decision.recovered),
        committed_slot: decision.commit.committed_slot as u8,
        initial_valid_slots: initial_valid_of(decision.recovered),
        initial_rejected_slots: initial_rejected_of(decision.recovered),
        committed_valid_slots,
        committed_rejected_slots,
        reads: 6,
        writes: 1,
        flushes: 1,
        previous_chain_sha256: decision.committed_state.previous_chain_sha256,
        committed_chain_sha256: decision.committed_state.chain_sha256,
        audit_chain_sha256: decision.audit.chain_sha256,
        binding,
    }
}

/// A failure of the commit after the reads: an I/O error while writing,
/// flushing or reading back, or a readback that does not show the commit.
pub open spec fn is_execution_commit_failure(error: MaintenanceExecutionError) -> bool {
    match error {
        MaintenanceExecutionError::Io { phase, .. } => is_commit_phase(phase),
        MaintenanceExecutionError::ExecutionRecovery(_) | MaintenanceExecutionError::ExecutionState(_) | MaintenanceExecutionError::VerificationFailed => true,
        _ => false,
    }
}

/// The error a completion commit reports when the execution slots it reads
/// back do not confirm the commit: recovery's error, the decoder's error, or a
/// verification failure.
pub open spec fn completion_readback_error(after0: Seq<u8>, after1: Seq<u8>, epoch: FormatEpoch) -> MaintenanceExecutionError {
    match spec_recover(after0, after1, epoch) {
        Err(error) => MaintenanceExecutionError::ExecutionRecovery(error),
        Ok(record) => match spec_decode_execution(record.payload) {
            Err(error) => MaintenanceExecutionError::ExecutionState(error),
            Ok(_) => MaintenanceExecutionError::VerificationFailed,
        },
    }
}

/// A failure of the reads before any write.
pub open spec fn is_initial_execution_read_error(error: MaintenanceExecutionError) -> bool {
    match error {
        MaintenanceExecutionError::Io { phase, .. } => phase == IoPhase::ReadInitialSlot,
        MaintenanceExecutionError::AuditTransaction(MaintenanceAuditError::Io { phase, .. }) => phase
            == IoPhase::ReadInitialSlot,
        _ => false,
    }
}

/// The head that follows `existing` when `binding` completes under an audit
/// head at `audit_sequence`.
pub fn maintenance_execution_successor(
    existing: Option<MaintenanceExecutionState>,
    binding: MaintenanceExecutionCompletionBinding,
    audit_sequence: u64,
) -> (result: Result<MaintenanceExecutionState, MaintenanceExecutionError>)
    ensures
        result == spec_execution_successor(existing, binding, audit_sequence),
{
    let (previous_sequence, previous_completed_count, previous_chain_sha256) = match existing {
        None => {
            if binding.sequence != 1 {
                return Err(MaintenanceExecutionError::BootstrapSequence { actual: binding.sequence });
            }
            (0u64, 0u64, [0u8; 32])
        },
        Some(state) => {
            if !digest_eq(&state.root_sha256, &binding.root_sha256) || !digest_eq(
                &state.policy_sha256,
                &binding.policy_sha256,
            ) || !digest_eq(&state.device_binding_sha256, &binding.device_binding_sha256) {
                return Err(MaintenanceExecutionError::NamespaceMismatch);
            }
            let expected = match state.sequence.checked_add(1) {
                Some(next) => next,
                None => return Err(MaintenanceExecutionError::SequenceExhausted),
            };
            if binding.sequence <= state.sequence {
                return Err(MaintenanceExecutionError::CompletedReplay { actual: binding.sequence, minimum: expected });
            }
            if binding.sequence != expected {
                return Err(MaintenanceExecutionError::SequenceGap { actual: binding.sequence, expected });
            }
            (state.sequence, state.completed_count, state.chain_sha256)
        },
    };
    proof {
        if existing is None {
            assert(zeros(32).subrange(0, 32) =~= previous_chain_sha256@);
            lemma_digest_at_view(zeros(32), 0, previous_chain_sha256);
        }
    }
    let next_sequence = match previous_sequence.checked_add(1) {
        Some(next) => next,
        None => return Err(MaintenanceExecutionError::SequenceExhausted),
    };
    if next_sequence != audit_sequence {
        return Err(MaintenanceExecutionError::LedgerDivergence);
    }
    let completed_count = match previous_completed_count.checked_add(1) {
        Some(count) => count,
        None => return Err(MaintenanceExecutionError::SequenceExhausted),
    };
    let chain_sha256 = maintenance_execution_chain_sha256(previous_chain_sha256, binding);
    proof {
        let digest = sha256_digest(execution_chain_material(previous_chain_sha256@, binding));
        assert(digest.subrange(0, 32) =~= chain_sha256@);
        lemma_digest_at_view(digest, 0, chain_sha256);
    }
    Ok(MaintenanceExecutionState {
        sequence: binding.sequence,
        completed_count,
        operations: binding.operations,
        max_uses: binding.max_uses,
        uses_consumed: binding.uses_consumed,
        rotations_completed: binding.rotations_completed,
        flags: binding.flags,
        appdata_generation: binding.appdata_generation,
        authorization_sha256: binding.authorization_sha256,
        authorization_id: binding.authorization_id,
        manifest_sha256: binding.manifest_sha256,
        policy_sha256: binding.policy_sha256,
        root_sha256: binding.root_sha256,
        device_binding_sha256: binding.device_binding_sha256,
        previous_chain_sha256,
        chain_sha256,
        runtime_evidence_sha256: binding.runtime_evidence_sha256,
    })
}

/// Recovers and decodes the audit head a completion must match.
fn completion_audit(
    slot0: &Sector,
    slot1: &Sector,
    expected_format_epoch: FormatEpoch,
    binding: MaintenanceExecutionCompletionBinding,
) -> (result: Result<MaintenanceAuditState, MaintenanceExecutionError>)
    ensures
        result == spec_completion_audit(slot0@, slot1@, expected_format_epoch, binding),
{
    let recovered = match recover_ledger([slot0, slot1], expected_format_epoch) {
        Ok(Some(record)) => record,
        Ok(None) => return Err(MaintenanceExecutionError::LedgerDivergence),
        Err(error) => return Err(MaintenanceExecutionError::AuditRecovery(error)),
    };
    let audit = match MaintenanceAuditState::decode(recovered.payload) {
        Ok(state) => state,
        Err(error) => return Err(MaintenanceExecutionError::AuditState(error)),
    };
    if !audit.binding().same_as(&binding.authorization_binding()) {
        return Err(MaintenanceExecutionError::AuthorizationBindingMismatch);
    }
    Ok(audit)
}

/// Reads the execution ledger held in two slots and prepares the record that
/// seals `binding`.
fn prepare_completion<'a>(
    audit: MaintenanceAuditState,
    slot0: &'a Sector,
    slot1: &'a Sector,
    expected_format_epoch: FormatEpoch,
    binding: MaintenanceExecutionCompletionBinding,
) -> (result: Result<
    (Option<RecoveredRecord<'a>>, Option<MaintenanceExecutionState>, MaintenanceExecutionState, PreparedLedgerCommit),
    MaintenanceExecutionError,
>)
    ensures
        match spec_completion_decision(audit, slot0@, slot1@, expected_format_epoch, binding) {
            Err(error) => result is Err && result->Err_0 == error,
            Ok(decision) => {
                let (recovered, existing, committed_state, prepared) = result->Ok_0;
                let c = decision.commit;
                &&& result is Ok
                &&& option_view(recovered) == decision.recovered
                &&& existing == decision.existing
                &&& committed_state == decision.committed_state
                &&& prepared.committed_generation == c.committed_generation
                &&& prepared.committed_slot == c.committed_slot
                &&& prepared.committed_sector@ == c.committed_sector
                &&& c.committed_slot < 2
                &&& spec_encode_record(expected_format_epoch, c.committed_generation, c.committed_payload)
                    == Ok::<Seq<u8>, RecordError>(c.committed_sector)
            },
        },
{
    let recovered = match recover_ledger([slot0, slot1], expected_format_epoch) {
        Ok(recovered) => recovered,
        Err(error) => return Err(MaintenanceExecutionError::ExecutionRecovery(error)),
    };
    proof {
        if recovered is Some {
            lemma_recovered_slot(slot0@, slot1@, expected_format_epoch);
        }
    }
    assert(option_view(recovered) == spec_recover_ledger(slot0@, slot1@, expected_format_epoch)->Ok_0);
    let existing = match recovered {
        Some(record) => match MaintenanceExecutionState::decode(record.payload) {
            Ok(state) => Some(state),
            Err(error) => return Err(MaintenanceExecutionError::ExecutionState(error)),
        },
        None => None,
    };
    let committed_state = maintenance_execution_successor(existing, binding, audit.sequence)?;
    if let Some(record) = recovered {
        if record.generation == u64::MAX {
            return Err(MaintenanceExecutionError::ExecutionRecovery(RecoveryError::GenerationExhausted));
        }
    }
    let committed_payload = match committed_state.encode() {
        Ok(bytes) => bytes,
        Err(error) => return Err(MaintenanceExecutionError::ExecutionState(error)),
    };
    let prepared = match prepare_next_record(&recovered, &committed_payload, expected_format_epoch) {
        Ok(prepared) => prepared,
        Err(Ok(error)) => return Err(MaintenanceExecutionError::ExecutionRecovery(error)),
        Err(Err(error)) => return Err(MaintenanceExecutionError::Encode(error)),
    };
    Ok((recovered, existing, committed_state, prepared))
}

/// Checks that the partition holds both ledgers.
fn check_audit_and_execution_bounds<D: DurableSectorIo>(io: &D, first: u64, sectors: u64) -> (fits: bool)
    ensures
        fits == audit_and_execution_fit(first, sectors, io.sectors().len()),
{
    let device_sectors = io.sector_count();
    match first.checked_add(sectors) {
        None => false,
        Some(end) => end <= device_sectors && MAINTENANCE_AUDIT_SLOT_RELATIVE_LBAS[0] < sectors
            && MAINTENANCE_AUDIT_SLOT_RELATIVE_LBAS[1] < sectors
            && MAINTENANCE_EXECUTION_SLOT_RELATIVE_LBAS[0] < sectors
            && MAINTENANCE_EXECUTION_SLOT_RELATIVE_LBAS[1] < sectors,
    }
}

/// The audit and execution transactions read their ledgers: the binding and
/// format epoch pass their checks and the partition holds both ledgers.
pub open spec fn execution_reads_begin(device_sectors: nat, first: u64, sectors: u64, binding_valid: bool, format_epoch: FormatEpoch) -> bool {
    &&& binding_valid
    &&& spec_validate_record_epoch(format_epoch) is Ok
    &&& audit_and_execution_fit(first, sectors, device_sectors)
}

/// The reads of the audit ledger, then the execution ledger.
pub open spec fn audit_and_execution_reads(first: u64) -> Seq<IoOp> {
    ledger_reads(first, MAINTENANCE_AUDIT_SLOT_RELATIVE_LBAS) + ledger_reads(first, MAINTENANCE_EXECUTION_SLOT_RELATIVE_LBAS)
}

/// The calls a completion commit makes when none of them fails: nothing when
/// it refuses before reading, the audit ledger's reads when the audit head
/// refuses the completion, both ledgers' reads when the execution ledger does,
/// and the commit's calls after them otherwise.
#[verifier::opaque]
pub open spec fn completion_ops(disk: Seq<Seq<u8>>, request: MaintenanceExecutionCompletionRequest) -> Seq<IoOp> {
    let first = request.partition_first_lba;
    let slots = MAINTENANCE_EXECUTION_SLOT_RELATIVE_LBAS;
    let audit = MAINTENANCE_AUDIT_SLOT_RELATIVE_LBAS;
    let plan = spec_completion_plan(disk, request);
    if !execution_reads_begin(
        disk.len(),
        first,
        request.partition_sectors,
        request.binding.spec_validate() is Ok,
        request.expected_format_epoch,
    ) {
        Seq::empty()
    } else if plan is Ok {
        audit_and_execution_reads(first) + commit_ops(
            ledger_commit_lba(first, slots, plan->Ok_0.commit) as u64,
            plan->Ok_0.commit.committed_sector,
            (first + slots[0]) as u64,
            (first + slots[1]) as u64,
        )
    } else if spec_completion_audit(
        disk[first + audit[0]],
        disk[first + audit[1]],
        request.expected_format_epoch,
        request.binding,
    ) is Err {
        ledger_reads(first, audit)
    } else {
        audit_and_execution_reads(first)
    }
}

proof fn lemma_completion_ops(disk: Seq<Seq<u8>>, request: MaintenanceExecutionCompletionRequest)
    ensures
        ({
            let ops = completion_ops(disk, request);
            let first = request.partition_first_lba;
            let slots = MAINTENANCE_EXECUTION_SLOT_RELATIVE_LBAS;
            let plan = spec_completion_plan(disk, request);
            let begin = execution_reads_begin(
                disk.len(),
                first,
                request.partition_sectors,
                request.binding.spec_validate() is Ok,
                request.expected_format_epoch,
            );
            let audit = MAINTENANCE_AUDIT_SLOT_RELATIVE_LBAS;
            let head = spec_completion_audit(
                disk[first + audit[0]],
                disk[first + audit[1]],
                request.expected_format_epoch,
                request.binding,
            );
            &&& !begin ==> ops == Seq::<IoOp>::empty()
            &&& begin ==> ops.len() >= 2 && ops.take(2) == ledger_reads(first, audit)
            &&& begin && head is Ok ==> ops.len() >= 4 && ops.take(4) == audit_and_execution_reads(first)
            &&& begin && plan is Ok ==> ops == audit_and_execution_reads(first) + commit_ops(
                ledger_commit_lba(first, slots, plan->Ok_0.commit) as u64,
                plan->Ok_0.commit.committed_sector,
                (first + slots[0]) as u64,
                (first + slots[1]) as u64,
            )
            &&& begin && head is Err ==> ops == ledger_reads(first, audit)
            &&& begin && head is Ok && plan is Err ==> ops == audit_and_execution_reads(first)
        }),
{
    reveal(completion_ops);
    let ops = completion_ops(disk, request);
    let first = request.partition_first_lba;
    let audit = MAINTENANCE_AUDIT_SLOT_RELATIVE_LBAS;
    assert(ops.take(4) =~= audit_and_execution_reads(first) || !execution_reads_begin(
        disk.len(),
        first,
        request.partition_sectors,
        request.binding.spec_validate() is Ok,
        request.expected_format_epoch,
    ) || spec_completion_audit(
        disk[first + audit[0]],
        disk[first + audit[1]],
        request.expected_format_epoch,
        request.binding,
    ) is Err);
    assert(ops.take(2) =~= ledger_reads(first, MAINTENANCE_AUDIT_SLOT_RELATIVE_LBAS) || !execution_reads_begin(
        disk.len(),
        first,
        request.partition_sectors,
        request.binding.spec_validate() is Ok,
        request.expected_format_epoch,
    ));
    assert(ops.take(2) =~= ledger_reads(first, MAINTENANCE_AUDIT_SLOT_RELATIVE_LBAS) || !execution_reads_begin(
        disk.len(),
        first,
        request.partition_sectors,
        request.binding.spec_validate() is Ok,
        request.expected_format_epoch,
    ));
}

/// The calls an admission makes when none of them fails: nothing when it
/// refuses before reading, the reads of both ledgers, and, when it appends
/// the authorization, the audit transaction's calls.
pub open spec fn admission_ops(disk: Seq<Seq<u8>>, request: MaintenanceAuditRequest) -> Seq<IoOp> {
    let first = request.partition_first_lba;
    if !execution_reads_begin(
        disk.len(),
        first,
        request.partition_sectors,
        request.binding.spec_validate() is Ok,
        request.expected_format_epoch,
    ) {
        Seq::empty()
    } else if spec_admission_plan(disk, request) matches Ok(Admission::Commit(_)) {
        audit_and_execution_reads(first) + audit_ops(disk, request)
    } else {
        audit_and_execution_reads(first)
    }
}

/// Seals one kernel-validated maintenance execution into the inactive
/// execution slot.
///
/// The current audit head must match every authorization field, and the
/// execution head must be its immediate predecessor. Completion is persisted
/// only after callers have supplied the exact bounded use/rotation counts,
/// drain and clean-shutdown flags, app-data generation, and a nonzero digest
/// over the runtime evidence.
#[verifier::rlimit(100)]
#[verifier::spinoff_prover]
pub fn commit_maintenance_execution_completion<D: DurableSectorIo>(
    io: &mut D,
    request: MaintenanceExecutionCompletionRequest,
) -> (result: Result<MaintenanceExecutionEvidence, MaintenanceExecutionError>)
    ensures
        result is Err && is_initial_execution_read_error(result->Err_0) ==> old(io).log().len() < final(io).log().len(),
        log_prefix(old(io).log(), final(io).log(), completion_ops(old(io).sectors(), request)),
        result is Ok || !(result->Err_0 is Io) ==> final(io).log() == old(io).log() + completion_ops(old(io).sectors(), request),
        result is Err && result->Err_0 is Io && result->Err_0->phase == IoPhase::WriteInactiveSlot ==> final(io).log()
            == old(io).log() + completion_ops(old(io).sectors(), request).take(completion_ops(old(io).sectors(), request).len() - 3),
        result is Err && result->Err_0 is Io && result->Err_0->phase == IoPhase::Flush ==> final(io).log()
            == old(io).log() + completion_ops(old(io).sectors(), request).take(completion_ops(old(io).sectors(), request).len() - 2),
        !execution_reads_begin(
            old(io).sectors().len(),
            request.partition_first_lba,
            request.partition_sectors,
            request.binding.spec_validate() is Ok,
            request.expected_format_epoch,
        ) ==> final(io).log() == old(io).log() && result == Err::<MaintenanceExecutionEvidence, MaintenanceExecutionError>(
            spec_completion_plan(old(io).sectors(), request)->Err_0,
        ),
        match spec_completion_plan(old(io).sectors(), request) {
            Err(error) => {
                &&& final(io).sectors() == old(io).sectors()
                &&& (result == Err::<MaintenanceExecutionEvidence, MaintenanceExecutionError>(error) || (
                result is Err && is_initial_execution_read_error(result->Err_0)))
            },
            Ok(decision) => {
                let lba = ledger_commit_lba(
                    request.partition_first_lba,
                    MAINTENANCE_EXECUTION_SLOT_RELATIVE_LBAS,
                    decision.commit,
                );
                &&& unchanged_except(old(io).sectors(), final(io).sectors(), lba)
                &&& result is Err ==> is_initial_execution_read_error(result->Err_0)
                    || is_execution_commit_failure(result->Err_0)
                &&& final(io).sectors()[lba] == decision.commit.committed_sector ==> result is Ok
                    || result->Err_0 is Io
                &&& result is Err && !(result->Err_0 is Io) ==> result->Err_0 == completion_readback_error(
                    final(io).sectors()[request.partition_first_lba + MAINTENANCE_EXECUTION_SLOT_RELATIVE_LBAS[0]],
                    final(io).sectors()[request.partition_first_lba + MAINTENANCE_EXECUTION_SLOT_RELATIVE_LBAS[1]],
                    request.expected_format_epoch,
                )
                &&& result is Ok ==> {
                    let after = final(io).sectors();
                    let slots = MAINTENANCE_EXECUTION_SLOT_RELATIVE_LBAS;
                    let first = request.partition_first_lba;
                    let recovered = spec_recover(after[first + slots[0]], after[first + slots[1]], request.expected_format_epoch);
                    &&& ledger_commit_outcome(
                        old(io).sectors(),
                        after,
                        first,
                        slots,
                        request.expected_format_epoch,
                        decision.commit,
                    )
                    &&& result->Ok_0 == completion_evidence(
                        decision,
                        request.binding,
                        recovered->Ok_0.valid_slots,
                        recovered->Ok_0.rejected_slots,
                    )
                }
            },
        },
{
    proof {
        lemma_completion_ops(io.sectors(), request);
    }
    let binding = request.binding;
    let expected_format_epoch = request.expected_format_epoch;
    let partition_first_lba = request.partition_first_lba;
    if let Err(error) = binding.validate() {
        return Err(MaintenanceExecutionError::ExecutionState(error));
    }
    if let Err(error) = validate_record_epoch(expected_format_epoch) {
        return Err(MaintenanceExecutionError::Encode(error));
    }
    if !check_audit_and_execution_bounds(io, partition_first_lba, request.partition_sectors) {
        return Err(MaintenanceExecutionError::PartitionBounds);
    }
    let ghost start = io.log();
    let ghost ops = completion_ops(io.sectors(), request);
    let ghost a = ledger_reads(partition_first_lba, MAINTENANCE_AUDIT_SLOT_RELATIVE_LBAS);
    let ghost e = ledger_reads(partition_first_lba, MAINTENANCE_EXECUTION_SLOT_RELATIVE_LBAS);
    let loaded = load_ledger_slots(
        io,
        partition_first_lba,
        request.partition_sectors,
        MAINTENANCE_AUDIT_SLOT_RELATIVE_LBAS,
    );
    proof {
        lemma_log_prefix_extend(start, io.log(), a, ops);
    }
    let (audit0, audit1) = match loaded {
        Ok(pair) => pair,
        Err(LoadFailure::Io { phase, error }) => return Err(MaintenanceExecutionError::Io { phase, error }),
        Err(_) => return Err(MaintenanceExecutionError::PartitionBounds),
    };
    let audit = match completion_audit(&audit0, &audit1, expected_format_epoch, binding) {
        Ok(audit) => audit,
        Err(error) => {
            proof {
                assert(ops == a);
                assert(io.log() == start + a);
            }
            return Err(error);
        },
    };
    let slots = MAINTENANCE_EXECUTION_SLOT_RELATIVE_LBAS;
    let ghost mid = io.log();
    let loaded = load_ledger_slots(io, partition_first_lba, request.partition_sectors, slots);
    proof {
        lemma_log_prefix_then(start, mid, io.log(), a, e);
        lemma_log_prefix_extend(start, io.log(), a + e, ops);
    }
    let (slot0, slot1) = match loaded {
        Ok(pair) => pair,
        Err(LoadFailure::Io { phase, error }) => return Err(MaintenanceExecutionError::Io { phase, error }),
        Err(_) => return Err(MaintenanceExecutionError::PartitionBounds),
    };
    let (recovered, existing, committed_state, prepared) = prepare_completion(
        audit,
        &slot0,
        &slot1,
        expected_format_epoch,
        binding,
    )?;
    let ghost decision = spec_completion_decision(audit, slot0@, slot1@, expected_format_epoch, binding)->Ok_0;
    let ghost commit = decision.commit;
    let (previous_sequence, previous_completed_count) = match existing {
        Some(state) => (state.sequence, state.completed_count),
        None => (0u64, 0u64),
    };
    let (initial_generation, initial_slot, initial_valid_slots, initial_rejected_slots) = match recovered {
        Some(record) => (record.generation, record.slot as u8, record.valid_slots, record.rejected_slots),
        None => (0u64, 0xffu8, 0u8, 0u8),
    };
    let first_lba = partition_first_lba + slots[0];
    let second_lba = partition_first_lba + slots[1];
    let committed_lba = if prepared.committed_slot == 0 {
        first_lba
    } else {
        second_lba
    };
    let ghost calls = commit_ops(committed_lba, prepared.committed_sector@, first_lba, second_lba);
    let ghost mid = io.log();
    proof {
        assert(mid =~= start + (a + e));
    }
    let committed_io = commit_and_read_back(
        io,
        committed_lba,
        &prepared.committed_sector,
        first_lba,
        second_lba,
    );
    proof {
        lemma_log_prefix_then(start, mid, io.log(), a + e, calls);
    }
    let (verified0, verified1) = match committed_io {
        Ok(pair) => pair,
        Err((phase, error)) => {
            proof {
                if phase == IoPhase::WriteInactiveSlot {
                    lemma_log_stops_after(start, mid, io.log(), a + e, calls, 1);
                }
                if phase == IoPhase::Flush {
                    lemma_log_stops_after(start, mid, io.log(), a + e, calls, 2);
                }
            }
            return Err(MaintenanceExecutionError::Io { phase, error });
        },
    };
    proof {
        let committed = if commit.committed_slot == 0 { verified0@ } else { verified1@ };
        if committed == commit.committed_sector {
            lemma_kept_commit_is_recovered(
                slot0@,
                slot1@,
                verified0@,
                verified1@,
                expected_format_epoch,
                decision.recovered,
                commit.committed_payload,
            );
            lemma_execution_round_trip(decision.committed_state);
        }
    }
    let verified = match recover([&verified0, &verified1], expected_format_epoch) {
        Ok(record) => record,
        Err(error) => return Err(MaintenanceExecutionError::ExecutionRecovery(error)),
    };
    let verified_state = match MaintenanceExecutionState::decode(verified.payload) {
        Ok(state) => state,
        Err(error) => return Err(MaintenanceExecutionError::ExecutionState(error)),
    };
    if !ledger_readback_ok(
        &verified,
        &verified0,
        &verified1,
        &slot0,
        &slot1,
        &prepared,
        expected_format_epoch,
        Ghost(commit),
    ) || !verified_state.same_as(&committed_state) {
        return Err(MaintenanceExecutionError::VerificationFailed);
    }
    Ok(
        MaintenanceExecutionEvidence {
            provisioned_before: existing.is_some(),
            previous_sequence,
            committed_sequence: binding.sequence,
            previous_completed_count,
            committed_completed_count: committed_state.completed_count,
            initial_generation,
            committed_generation: prepared.committed_generation,
            initial_slot,
            committed_slot: prepared.committed_slot as u8,
            initial_valid_slots,
            initial_rejected_slots,
            committed_valid_slots: verified.valid_slots,
            committed_rejected_slots: verified.rejected_slots,
            reads: 6,
            writes: 1,
            flushes: 1,
            previous_chain_sha256: committed_state.previous_chain_sha256,
            committed_chain_sha256: committed_state.chain_sha256,
            audit_chain_sha256: audit.chain_sha256,
            binding,
        },
    )
}

/// What admission learned of the execution ledger.
#[derive(Clone, Copy, Debug, PartialEq, Eq)]
pub struct ExecutionPreflight {
    pub completed_sequence_before: u64,
    pub initial_generation: u64,
    pub initial_slot: u8,
    pub initial_valid_slots: u8,
    pub initial_rejected_slots: u8,
}

/// Admission either resumes the exact unfinished audit head without writing,
/// or appends the authorization to the audit ledger.
#[derive(Clone, Copy, Debug, PartialEq, Eq)]
pub enum Admission {
    Resume(MaintenanceAuditEvidence),
    Commit(ExecutionPreflight),
}

pub open spec fn execution_preflight(
    recovered: Option<RecoveredModel>,
    existing: Option<MaintenanceExecutionState>,
) -> ExecutionPreflight {
    ExecutionPreflight {
        completed_sequence_before: match existing {
            Some(state) => state.sequence,
            None => 0,
        },
        initial_generation: initial_generation_of(recovered),
        initial_slot: initial_slot_of(recovered),
        initial_valid_slots: initial_valid_of(recovered),
        initial_rejected_slots: initial_rejected_of(recovered),
    }
}

/// The two heads disagree: a completion outside the audit namespace, ahead of
/// the audit head or more than one behind it, or at the audit head for another
/// authorization; or no completion while the audit head is past one.
pub open spec fn ledgers_diverge(audit: MaintenanceAuditState, completion: Option<MaintenanceExecutionState>) -> bool {
    match completion {
        Some(completed) => {
            ||| completed.root_sha256 != audit.root_sha256
            ||| completed.policy_sha256 != audit.policy_sha256
            ||| completed.device_binding_sha256 != audit.device_binding_sha256
            ||| completed.sequence > audit.sequence
            ||| audit.sequence - completed.sequence > 1
            ||| (completed.sequence == audit.sequence
                && completed.spec_completion_binding().spec_authorization_binding() != audit.spec_binding())
        },
        None => audit.sequence != 1,
    }
}

/// The evidence of a resumed, read-only admission.
pub open spec fn resume_evidence(
    audit: MaintenanceAuditState,
    record: RecoveredModel,
    preflight: ExecutionPreflight,
    binding: MaintenanceAuthorizationAuditBinding,
) -> MaintenanceAuditEvidence {
    MaintenanceAuditEvidence {
        provisioned_before: true,
        resumed: true,
        completed_sequence_before: preflight.completed_sequence_before,
        preflight_reads: 4,
        execution_initial_generation: preflight.initial_generation,
        execution_initial_slot: preflight.initial_slot,
        execution_initial_valid_slots: preflight.initial_valid_slots,
        execution_initial_rejected_slots: preflight.initial_rejected_slots,
        step_preflight_reads: 0,
        step_provisioned_before: false,
        step_legacy_anchor: false,
        step_sequence_before: 0,
        step_base_sequence_before: 0,
        step_entry_count_before: 0,
        step_ordinal_before: 0,
        step_initial_generation: 0,
        step_initial_slot: 0xff,
        step_initial_valid_slots: 0,
        step_initial_rejected_slots: 0,
        previous_sequence: audit.sequence,
        committed_sequence: audit.sequence,
        previous_accepted_count: audit.accepted_count,
        committed_accepted_count: audit.accepted_count,
        initial_generation: record.generation,
        committed_generation: record.generation,
        initial_slot: record.slot as u8,
        committed_slot: record.slot as u8,
        initial_valid_slots: record.valid_slots,
        initial_rejected_slots: record.rejected_slots,
        committed_valid_slots: record.valid_slots,
        committed_rejected_slots: record.rejected_slots,
        reads: 0,
        writes: 0,
        flushes: 0,
        previous_chain_sha256: audit.previous_chain_sha256,
        committed_chain_sha256: audit.chain_sha256,
        binding,
    }
}

/// The audit commit's evidence, with what admission learned of the execution
/// ledger.
pub open spec fn admitted_evidence(committed: MaintenanceAuditEvidence, preflight: ExecutionPreflight) -> MaintenanceAuditEvidence {
    MaintenanceAuditEvidence {
        resumed: false,
        completed_sequence_before: preflight.completed_sequence_before,
        preflight_reads: 4,
        execution_initial_generation: preflight.initial_generation,
        execution_initial_slot: preflight.initial_slot,
        execution_initial_valid_slots: preflight.initial_valid_slots,
        execution_initial_rejected_slots: preflight.initial_rejected_slots,
        ..committed
    }
}

/// Admission's decision from the audit and execution ledgers.
pub open spec fn spec_admission_decision(
    audit0: Seq<u8>,
    audit1: Seq<u8>,
    execution0: Seq<u8>,
    execution1: Seq<u8>,
    format_epoch: FormatEpoch,
    binding: MaintenanceAuthorizationAuditBinding,
) -> Result<Admission, MaintenanceExecutionError> {
    let audit_recovered = spec_recover_ledger(audit0, audit1, format_epoch);
    let execution_recovered = spec_recover_ledger(execution0, execution1, format_epoch);
    if audit_recovered is Err {
        Err(MaintenanceExecutionError::AuditRecovery(audit_recovered->Err_0))
    } else if decoded_audit(audit_recovered->Ok_0) is Err {
        Err(MaintenanceExecutionError::AuditState(decoded_audit(audit_recovered->Ok_0)->Err_0))
    } else if execution_recovered is Err {
        Err(MaintenanceExecutionError::ExecutionRecovery(execution_recovered->Err_0))
    } else if decoded_execution(execution_recovered->Ok_0) is Err {
        Err(MaintenanceExecutionError::ExecutionState(decoded_execution(execution_recovered->Ok_0)->Err_0))
    } else {
        let record = audit_recovered->Ok_0;
        let completion = decoded_execution(execution_recovered->Ok_0)->Ok_0;
        let preflight = execution_preflight(execution_recovered->Ok_0, completion);
        let completed = preflight.completed_sequence_before;
        match decoded_audit(record)->Ok_0 {
            None => if completion is Some {
                Err(MaintenanceExecutionError::LedgerDivergence)
            } else if binding.sequence != 1 {
                Err(MaintenanceExecutionError::BootstrapSequence { actual: binding.sequence })
            } else {
                Ok(Admission::Commit(preflight))
            },
            Some(audit) => if audit.root_sha256 != binding.root_sha256 || audit.policy_sha256
                != binding.policy_sha256 || audit.device_binding_sha256 != binding.device_binding_sha256 {
                Err(MaintenanceExecutionError::NamespaceMismatch)
            } else if ledgers_diverge(audit, completion) {
                Err(MaintenanceExecutionError::LedgerDivergence)
            } else if binding.sequence < audit.sequence {
                Err(MaintenanceExecutionError::Replay { actual: binding.sequence, minimum: audit.sequence })
            } else if binding.sequence == audit.sequence {
                if binding != audit.spec_binding() {
                    Err(MaintenanceExecutionError::AuthorizationBindingMismatch)
                } else if completed == audit.sequence {
                    if audit.sequence == u64::MAX {
                        Err(MaintenanceExecutionError::SequenceExhausted)
                    } else {
                        Err(MaintenanceExecutionError::CompletedReplay { actual: binding.sequence, minimum: (audit.sequence + 1) as u64 })
                    }
                } else {
                    Ok(Admission::Resume(resume_evidence(audit, record->Some_0, preflight, binding)))
                }
            } else if audit.sequence == u64::MAX {
                Err(MaintenanceExecutionError::SequenceExhausted)
            } else if binding.sequence != audit.sequence + 1 {
                Err(MaintenanceExecutionError::SequenceGap { actual: binding.sequence, expected: (audit.sequence + 1) as u64 })
            } else if completed != audit.sequence {
                Err(MaintenanceExecutionError::IncompletePredecessor { actual: binding.sequence, unfinished: audit.sequence })
            } else {
                Ok(Admission::Commit(preflight))
            },
        }
    }
}

/// The decision of `admit_maintenance_authorization_with_execution`, from the
/// device contents alone.
pub open spec fn spec_admission_plan(disk: Seq<Seq<u8>>, request: MaintenanceAuditRequest) -> Result<
    Admission,
    MaintenanceExecutionError,
> {
    let first = request.partition_first_lba;
    let audit = MAINTENANCE_AUDIT_SLOT_RELATIVE_LBAS;
    let slots = MAINTENANCE_EXECUTION_SLOT_RELATIVE_LBAS;
    if request.binding.spec_validate() is Err {
        Err(MaintenanceExecutionError::AuditState(request.binding.spec_validate()->Err_0))
    } else if spec_validate_record_epoch(request.expected_format_epoch) is Err {
        Err(MaintenanceExecutionError::Encode(spec_validate_record_epoch(request.expected_format_epoch)->Err_0))
    } else if !audit_and_execution_fit(first, request.partition_sectors, disk.len()) {
        Err(MaintenanceExecutionError::PartitionBounds)
    } else {
        spec_admission_decision(
            disk[first + audit[0]],
            disk[first + audit[1]],
            disk[first + slots[0]],
            disk[first + slots[1]],
            request.expected_format_epoch,
            request.binding,
        )
    }
}

/// Decides admission from the four ledger slots.
fn prepare_admission(
    audit0: &Sector,
    audit1: &Sector,
    execution0: &Sector,
    execution1: &Sector,
    expected_format_epoch: FormatEpoch,
    binding: MaintenanceAuthorizationAuditBinding,
) -> (result: Result<Admission, MaintenanceExecutionError>)
    ensures
        result == spec_admission_decision(audit0@, audit1@, execution0@, execution1@, expected_format_epoch, binding),
{
    let audit_recovered = match recover_ledger([audit0, audit1], expected_format_epoch) {
        Ok(recovered) => recovered,
        Err(error) => return Err(MaintenanceExecutionError::AuditRecovery(error)),
    };
    let audit_state = match audit_recovered {
        Some(record) => match MaintenanceAuditState::decode(record.payload) {
            Ok(state) => Some(state),
            Err(error) => return Err(MaintenanceExecutionError::AuditState(error)),
        },
        None => None,
    };
    let execution_recovered = match recover_ledger([execution0, execution1], expected_format_epoch) {
        Ok(recovered) => recovered,
        Err(error) => return Err(MaintenanceExecutionError::ExecutionRecovery(error)),
    };
    proof {
        if audit_recovered is Some {
            lemma_recovered_slot(audit0@, audit1@, expected_format_epoch);
        }
        if execution_recovered is Some {
            lemma_recovered_slot(execution0@, execution1@, expected_format_epoch);
        }
    }
    assert(option_view(audit_recovered) == spec_recover_ledger(audit0@, audit1@, expected_format_epoch)->Ok_0);
    assert(option_view(execution_recovered) == spec_recover_ledger(execution0@, execution1@, expected_format_epoch)->Ok_0);
    let completion = match execution_recovered {
        Some(record) => match MaintenanceExecutionState::decode(record.payload) {
            Ok(state) => Some(state),
            Err(error) => return Err(MaintenanceExecutionError::ExecutionState(error)),
        },
        None => None,
    };
    let completed_sequence_before = match completion {
        Some(state) => state.sequence,
        None => 0,
    };
    let preflight = match execution_recovered {
        Some(record) => ExecutionPreflight {
            completed_sequence_before,
            initial_generation: record.generation,
            initial_slot: record.slot as u8,
            initial_valid_slots: record.valid_slots,
            initial_rejected_slots: record.rejected_slots,
        },
        None => ExecutionPreflight {
            completed_sequence_before,
            initial_generation: 0,
            initial_slot: 0xff,
            initial_valid_slots: 0,
            initial_rejected_slots: 0,
        },
    };
    let (record, audit) = match (audit_recovered, audit_state) {
        (Some(record), Some(audit)) => (record, audit),
        _ => {
            if completion.is_some() {
                return Err(MaintenanceExecutionError::LedgerDivergence);
            }
            if binding.sequence != 1 {
                return Err(MaintenanceExecutionError::BootstrapSequence { actual: binding.sequence });
            }
            return Ok(Admission::Commit(preflight));
        },
    };
    if !digest_eq(&audit.root_sha256, &binding.root_sha256) || !digest_eq(
        &audit.policy_sha256,
        &binding.policy_sha256,
    ) || !digest_eq(&audit.device_binding_sha256, &binding.device_binding_sha256) {
        return Err(MaintenanceExecutionError::NamespaceMismatch);
    }
    let audit_binding = audit.binding();
    match completion {
        Some(completed) => {
            if !digest_eq(&completed.root_sha256, &audit.root_sha256) || !digest_eq(
                &completed.policy_sha256,
                &audit.policy_sha256,
            ) || !digest_eq(&completed.device_binding_sha256, &audit.device_binding_sha256)
                || completed.sequence > audit.sequence || audit.sequence - completed.sequence > 1
                || (completed.sequence == audit.sequence
                && !completed.completion_binding().authorization_binding().same_as(&audit_binding)) {
                return Err(MaintenanceExecutionError::LedgerDivergence);
            }
        },
        None => {
            if audit.sequence != 1 {
                return Err(MaintenanceExecutionError::LedgerDivergence);
            }
        },
    }
    if binding.sequence < audit.sequence {
        return Err(MaintenanceExecutionError::Replay { actual: binding.sequence, minimum: audit.sequence });
    }
    if binding.sequence == audit.sequence {
        if !binding.same_as(&audit_binding) {
            return Err(MaintenanceExecutionError::AuthorizationBindingMismatch);
        }
        if completed_sequence_before == audit.sequence {
            let minimum = match audit.sequence.checked_add(1) {
                Some(next) => next,
                None => return Err(MaintenanceExecutionError::SequenceExhausted),
            };
            return Err(MaintenanceExecutionError::CompletedReplay { actual: binding.sequence, minimum });
        }
        return Ok(
            Admission::Resume(
                MaintenanceAuditEvidence {
                    provisioned_before: true,
                    resumed: true,
                    completed_sequence_before,
                    preflight_reads: 4,
                    execution_initial_generation: preflight.initial_generation,
                    execution_initial_slot: preflight.initial_slot,
                    execution_initial_valid_slots: preflight.initial_valid_slots,
                    execution_initial_rejected_slots: preflight.initial_rejected_slots,
                    step_preflight_reads: 0,
                    step_provisioned_before: false,
                    step_legacy_anchor: false,
                    step_sequence_before: 0,
                    step_base_sequence_before: 0,
                    step_entry_count_before: 0,
                    step_ordinal_before: 0,
                    step_initial_generation: 0,
                    step_initial_slot: 0xff,
                    step_initial_valid_slots: 0,
                    step_initial_rejected_slots: 0,
                    previous_sequence: audit.sequence,
                    committed_sequence: audit.sequence,
                    previous_accepted_count: audit.accepted_count,
                    committed_accepted_count: audit.accepted_count,
                    initial_generation: record.generation,
                    committed_generation: record.generation,
                    initial_slot: record.slot as u8,
                    committed_slot: record.slot as u8,
                    initial_valid_slots: record.valid_slots,
                    initial_rejected_slots: record.rejected_slots,
                    committed_valid_slots: record.valid_slots,
                    committed_rejected_slots: record.rejected_slots,
                    reads: 0,
                    writes: 0,
                    flushes: 0,
                    previous_chain_sha256: audit.previous_chain_sha256,
                    committed_chain_sha256: audit.chain_sha256,
                    binding,
                },
            ),
        );
    }
    let expected = match audit.sequence.checked_add(1) {
        Some(next) => next,
        None => return Err(MaintenanceExecutionError::SequenceExhausted),
    };
    if binding.sequence != expected {
        return Err(MaintenanceExecutionError::SequenceGap { actual: binding.sequence, expected });
    }
    if completed_sequence_before != audit.sequence {
        return Err(
            MaintenanceExecutionError::IncompletePredecessor { actual: binding.sequence, unfinished: audit.sequence },
        );
    }
    Ok(Admission::Commit(preflight))
}

/// Admits a verified authorization against both the authorization and
/// execution heads.
///
/// A new authorization may advance the audit ledger only after its immediate
/// predecessor has an execution-completion record. If the audit head is one
/// sequence ahead of the completion head, only the exact same authorization
/// may resume, and that path is read-only for the audit ledger. Once both
/// heads match, the same sequence is a completed replay.
#[verifier::rlimit(80)]
#[verifier::spinoff_prover]
pub fn admit_maintenance_authorization_with_execution<D: DurableSectorIo>(
    io: &mut D,
    request: MaintenanceAuditRequest,
) -> (result: Result<MaintenanceAuditEvidence, MaintenanceExecutionError>)
    ensures
        result is Err && is_initial_execution_read_error(result->Err_0) ==> old(io).log().len() < final(io).log().len(),
        log_prefix(old(io).log(), final(io).log(), admission_ops(old(io).sectors(), request)),
        result is Ok || !(result->Err_0 is Io || (result->Err_0 matches MaintenanceExecutionError::AuditTransaction(
            inner,
        ) && inner is Io)) ==> final(io).log() == old(io).log() + admission_ops(old(io).sectors(), request),
        !execution_reads_begin(
            old(io).sectors().len(),
            request.partition_first_lba,
            request.partition_sectors,
            request.binding.spec_validate() is Ok,
            request.expected_format_epoch,
        ) ==> final(io).log() == old(io).log() && result == Err::<MaintenanceAuditEvidence, MaintenanceExecutionError>(
            spec_admission_plan(old(io).sectors(), request)->Err_0,
        ),
        match spec_admission_plan(old(io).sectors(), request) {
            Err(error) => {
                &&& final(io).sectors() == old(io).sectors()
                &&& (result == Err::<MaintenanceAuditEvidence, MaintenanceExecutionError>(error) || (
                result is Err && is_initial_execution_read_error(result->Err_0)))
            },
            Ok(Admission::Resume(evidence)) => {
                &&& final(io).sectors() == old(io).sectors()
                &&& (result == Ok::<MaintenanceAuditEvidence, MaintenanceExecutionError>(evidence) || (
                result is Err && is_initial_execution_read_error(result->Err_0)))
            },
            Ok(Admission::Commit(preflight)) => match spec_audit_plan(old(io).sectors(), request) {
                Err(error) => {
                    &&& final(io).sectors() == old(io).sectors()
                    &&& (result == Err::<MaintenanceAuditEvidence, MaintenanceExecutionError>(
                        MaintenanceExecutionError::AuditTransaction(error),
                    ) || (result is Err && is_initial_execution_read_error(result->Err_0)))
                },
                Ok(decision) => {
                    let lba = ledger_commit_lba(
                        request.partition_first_lba,
                        MAINTENANCE_AUDIT_SLOT_RELATIVE_LBAS,
                        decision.commit,
                    );
                    &&& unchanged_except(old(io).sectors(), final(io).sectors(), lba)
                    &&& result is Err ==> is_initial_execution_read_error(result->Err_0)
                        || (result->Err_0 matches MaintenanceExecutionError::AuditTransaction(inner) && is_audit_commit_failure(inner))
                    &&& final(io).sectors()[lba] == decision.commit.committed_sector ==> result is Ok
                        || result->Err_0 is Io
                        || (result->Err_0 matches MaintenanceExecutionError::AuditTransaction(inner) && inner is Io)
                    &&& result is Ok ==> {
                        let after = final(io).sectors();
                        let slots = MAINTENANCE_AUDIT_SLOT_RELATIVE_LBAS;
                        let first = request.partition_first_lba;
                        let recovered = spec_recover(after[first + slots[0]], after[first + slots[1]], request.expected_format_epoch);
                        &&& ledger_commit_outcome(
                            old(io).sectors(),
                            after,
                            first,
                            slots,
                            request.expected_format_epoch,
                            decision.commit,
                        )
                        &&& result->Ok_0 == admitted_evidence(
                            audit_evidence(
                                decision,
                                request.binding,
                                recovered->Ok_0.valid_slots,
                                recovered->Ok_0.rejected_slots,
                            ),
                            preflight,
                        )
                    }
                },
            },
        },
{
    let binding = request.binding;
    let expected_format_epoch = request.expected_format_epoch;
    let partition_first_lba = request.partition_first_lba;
    if let Err(error) = binding.validate() {
        return Err(MaintenanceExecutionError::AuditState(error));
    }
    if let Err(error) = validate_record_epoch(expected_format_epoch) {
        return Err(MaintenanceExecutionError::Encode(error));
    }
    if !check_audit_and_execution_bounds(io, partition_first_lba, request.partition_sectors) {
        return Err(MaintenanceExecutionError::PartitionBounds);
    }
    let ghost start = io.log();
    let ghost ops = admission_ops(io.sectors(), request);
    let ghost a = ledger_reads(partition_first_lba, MAINTENANCE_AUDIT_SLOT_RELATIVE_LBAS);
    let ghost e = ledger_reads(partition_first_lba, MAINTENANCE_EXECUTION_SLOT_RELATIVE_LBAS);
    proof {
        assert(ops.take(2) =~= a);
        assert(ops.take(4) =~= a + e);
    }
    let loaded = load_ledger_slots(
        io,
        partition_first_lba,
        request.partition_sectors,
        MAINTENANCE_AUDIT_SLOT_RELATIVE_LBAS,
    );
    proof {
        lemma_log_prefix_extend(start, io.log(), a, ops);
    }
    let (audit0, audit1) = match loaded {
        Ok(pair) => pair,
        Err(LoadFailure::Io { phase, error }) => return Err(MaintenanceExecutionError::Io { phase, error }),
        Err(_) => return Err(MaintenanceExecutionError::PartitionBounds),
    };
    let ghost mid = io.log();
    let loaded = load_ledger_slots(
        io,
        partition_first_lba,
        request.partition_sectors,
        MAINTENANCE_EXECUTION_SLOT_RELATIVE_LBAS,
    );
    proof {
        lemma_log_prefix_then(start, mid, io.log(), a, e);
        lemma_log_prefix_extend(start, io.log(), a + e, ops);
    }
    let (execution0, execution1) = match loaded {
        Ok(pair) => pair,
        Err(LoadFailure::Io { phase, error }) => return Err(MaintenanceExecutionError::Io { phase, error }),
        Err(_) => return Err(MaintenanceExecutionError::PartitionBounds),
    };
    let ghost mid = io.log();
    proof {
        assert(mid =~= start + (a + e));
    }
    let preflight = match prepare_admission(
        &audit0,
        &audit1,
        &execution0,
        &execution1,
        expected_format_epoch,
        binding,
    )? {
        Admission::Resume(evidence) => return Ok(evidence),
        Admission::Commit(preflight) => preflight,
    };
    let committed = commit_maintenance_authorization(io, request);
    proof {
        lemma_log_prefix_then(start, mid, io.log(), a + e, audit_ops(old(io).sectors(), request));
    }
    let committed = match committed {
        Ok(evidence) => evidence,
        Err(error) => return Err(MaintenanceExecutionError::AuditTransaction(error)),
    };
    Ok(
        MaintenanceAuditEvidence {
            resumed: false,
            completed_sequence_before: preflight.completed_sequence_before,
            preflight_reads: 4,
            execution_initial_generation: preflight.initial_generation,
            execution_initial_slot: preflight.initial_slot,
            execution_initial_valid_slots: preflight.initial_valid_slots,
            execution_initial_rejected_slots: preflight.initial_rejected_slots,
            ..committed
        },
    )
}

/// After a successful completion commit, recovering the execution ledger
/// yields exactly the sealed head: the requested completion of the
/// authorization at the audit head, at the next sequence, with its completed
/// count equal to that sequence, chained to the previous head.
pub proof fn lemma_completion_commit_recovers_successor(
    before: Seq<Seq<u8>>,
    after: Seq<Seq<u8>>,
    request: MaintenanceExecutionCompletionRequest,
)
    requires
        spec_completion_plan(before, request) is Ok,
        ledger_commit_outcome(
            before,
            after,
            request.partition_first_lba,
            MAINTENANCE_EXECUTION_SLOT_RELATIVE_LBAS,
            request.expected_format_epoch,
            spec_completion_plan(before, request)->Ok_0.commit,
        ),
    ensures
        ({
            let decision = spec_completion_plan(before, request)->Ok_0;
            let first = request.partition_first_lba;
            let slots = MAINTENANCE_EXECUTION_SLOT_RELATIVE_LBAS;
            let recovered = spec_recover(after[first + slots[0]], after[first + slots[1]], request.expected_format_epoch);
            let head = decision.committed_state;
            &&& spec_decode_execution(recovered->Ok_0.payload) == Ok::<
                MaintenanceExecutionState,
                MaintenanceExecutionStateError,
            >(head)
            &&& head.spec_completion_binding() == request.binding
            &&& head.spec_completion_binding().spec_authorization_binding() == decision.audit.spec_binding()
            &&& head.completed_count == head.sequence
            &&& match decision.existing {
                Some(previous) => head.sequence == previous.sequence + 1
                    && head.previous_chain_sha256 == previous.chain_sha256,
                None => head.sequence == 1 && all_zero(head.previous_chain_sha256@),
            }
        }),
{
    let decision = spec_completion_plan(before, request)->Ok_0;
    lemma_execution_round_trip(decision.committed_state);
    if decision.existing is Some {
        lemma_decoded_execution_is_valid(decision.recovered->Some_0.payload);
    } else {
        lemma_digest_at(zeros(32), 0);
    }
}

/// Once both ledgers decode, the audit head `A` shares the authorization's
/// namespace and the execution head agrees with it, admission reads the
/// sequence `s` against `A`'s sequence `a` and the completed sequence `c`: a
/// sequence below `a` is a replay; `a` itself with another binding is a
/// binding mismatch, and with `a` already completed a completed replay; a
/// sequence past `a + 1` is a gap; and `a + 1` while `a` is unfinished is an
/// incomplete predecessor.
pub proof fn lemma_admission_refusals(
    audit0: Seq<u8>,
    audit1: Seq<u8>,
    execution0: Seq<u8>,
    execution1: Seq<u8>,
    format_epoch: FormatEpoch,
    binding: MaintenanceAuthorizationAuditBinding,
)
    requires
        spec_recover_ledger(audit0, audit1, format_epoch) is Ok,
        decoded_audit(spec_recover_ledger(audit0, audit1, format_epoch)->Ok_0) matches Ok(Some(_)),
        spec_recover_ledger(execution0, execution1, format_epoch) is Ok,
        decoded_execution(spec_recover_ledger(execution0, execution1, format_epoch)->Ok_0) is Ok,
        ({
            let head = decoded_audit(spec_recover_ledger(audit0, audit1, format_epoch)->Ok_0)->Ok_0->Some_0;
            let completion = decoded_execution(spec_recover_ledger(execution0, execution1, format_epoch)->Ok_0)->Ok_0;
            &&& head.root_sha256 == binding.root_sha256
            &&& head.policy_sha256 == binding.policy_sha256
            &&& head.device_binding_sha256 == binding.device_binding_sha256
            &&& !ledgers_diverge(head, completion)
        }),
    ensures
        ({
            let head = decoded_audit(spec_recover_ledger(audit0, audit1, format_epoch)->Ok_0)->Ok_0->Some_0;
            let execution = spec_recover_ledger(execution0, execution1, format_epoch)->Ok_0;
            let completion = decoded_execution(execution)->Ok_0;
            let a = head.sequence;
            let c = execution_preflight(execution, completion).completed_sequence_before;
            let s = binding.sequence;
            let result = spec_admission_decision(audit0, audit1, execution0, execution1, format_epoch, binding);
            &&& s < a ==> result == Err::<Admission, MaintenanceExecutionError>(
                MaintenanceExecutionError::Replay { actual: s, minimum: a },
            )
            &&& s == a && binding != head.spec_binding() ==> result == Err::<Admission, MaintenanceExecutionError>(
                MaintenanceExecutionError::AuthorizationBindingMismatch,
            )
            &&& s == a && binding == head.spec_binding() && c == a && a < u64::MAX ==> result == Err::<
                Admission,
                MaintenanceExecutionError,
            >(MaintenanceExecutionError::CompletedReplay { actual: a, minimum: (a + 1) as u64 })
            &&& a < u64::MAX && s > a + 1 ==> result == Err::<Admission, MaintenanceExecutionError>(
                MaintenanceExecutionError::SequenceGap { actual: s, expected: (a + 1) as u64 },
            )
            &&& a < u64::MAX && s == a + 1 && c != a ==> result == Err::<Admission, MaintenanceExecutionError>(
                MaintenanceExecutionError::IncompletePredecessor { actual: s, unfinished: a },
            )
            &&& a < u64::MAX && s == a + 1 && c == a ==> result matches Ok(Admission::Commit(_))
        }),
{
}

} // verus!

//! Accepting one maintenance authorization into the crash-recoverable audit
//! ledger.
use vstd::prelude::*;
use crate::codec::{all_zero, digest_at, digest_eq, lemma_digest_at, lemma_digest_at_view, zeros};
use crate::digest::sha256_digest;
use crate::io::{commit_ops, ledger_reads, lemma_log_prefix_extend, lemma_log_prefix_then, log_prefix, slot_reads, is_commit_phase, unchanged_except, IoOp, DurableSectorIo, IoPhase, PersistIoError};
use crate::layout::{FormatEpoch, Sector, MAINTENANCE_AUDIT_SLOT_RELATIVE_LBAS};
use crate::ledger::{commit_and_read_back, ledger_fits, load_ledger_slots, LoadFailure};
use crate::maintenance_audit::{
    audit_chain_material, lemma_audit_round_trip, lemma_decoded_audit_is_valid,
    maintenance_audit_chain_sha256, spec_decode_audit, spec_encode_audit,
    MaintenanceAuditState, MaintenanceAuditStateError, MaintenanceAuthorizationAuditBinding,
};
use crate::manifest_tx::{
    ledger_ops,     lemma_kept_commit_is_recovered, ledger_commit_lba, initial_generation_of, initial_rejected_of, initial_slot_of, initial_valid_of,
    ledger_commit_outcome, ledger_readback_ok, option_view, prepare_next_record, spec_next_record,
    LedgerCommit, PreparedLedgerCommit,
};
use crate::record::{
    lemma_recovered_slot, recover, recover_ledger, spec_recover, spec_recover_ledger,
    spec_encode_record, spec_validate_record_epoch, validate_record_epoch, RecordError, RecoveredModel,
    RecoveredRecord, RecoveryError,
};

verus! {

broadcast use vstd::array::group_array_axioms;

#[derive(Clone, Copy, Debug, PartialEq, Eq, Structural)]
pub enum MaintenanceAuditError {
    PartitionBounds,
    Io { phase: IoPhase, error: PersistIoError },
    Recovery(RecoveryError),
    State(MaintenanceAuditStateError),
    BootstrapSequence { actual: u64 },
    Replay { actual: u64, minimum: u64 },
    SequenceGap { actual: u64, expected: u64 },
    NamespaceMismatch,
    SequenceExhausted,
    Encode(RecordError),
    VerificationFailed,
}

impl MaintenanceAuditError {
    /// The fixed text that describes this error.
    pub open spec fn message(self) -> Seq<char> {
        match self {
            Self::PartitionBounds => "maintenance audit slots are outside the data partition"@,
            Self::Io {
                phase: IoPhase::ReadInitialSlot | IoPhase::ReadVerificationSlot,
                error: PersistIoError::RequiresReset,
            } => "maintenance audit read requires a device reset"@,
            Self::Io {
                phase: IoPhase::WriteInactiveSlot,
                error: PersistIoError::OutcomeUnknown,
            } => "maintenance audit write outcome is unknown and requires reset"@,
            Self::Io {
                phase: IoPhase::Flush,
                error: PersistIoError::OutcomeUnknown,
            } => "maintenance audit flush outcome is unknown and requires reset"@,
            Self::Io {
                phase: IoPhase::ReadInitialSlot,
                ..
            } => "maintenance audit initial record read failed"@,
            Self::Io {
                phase: IoPhase::WriteInactiveSlot,
                ..
            } => "maintenance audit inactive-slot write failed"@,
            Self::Io {
                phase: IoPhase::Flush,
                ..
            } => "maintenance audit cache flush failed"@,
            Self::Io {
                phase: IoPhase::ReadVerificationSlot,
                ..
            } => "maintenance audit verification read failed"@,
            Self::Io {
                phase: IoPhase::ReadSuperblock,
                ..
            } => "maintenance audit used an invalid superblock phase"@,
            Self::Recovery(error) => error.message(),
            Self::State(error) => error.message(),
            Self::BootstrapSequence { .. } => "first maintenance authorization sequence is not one"@,
            Self::Replay { .. } => "maintenance authorization sequence was already consumed"@,
            Self::SequenceGap { .. } => "maintenance authorization skipped a sequence"@,
            Self::NamespaceMismatch => {
                "maintenance audit belongs to another root, policy, or device namespace"@
            }
            Self::SequenceExhausted => "maintenance authorization sequence is exhausted"@,
            Self::Encode(error) => error.message(),
            Self::VerificationFailed => {
                "maintenance audit write did not survive flush and readback"@
            }
        }
    }

    pub fn as_str(self) -> (text: &'static str)
        ensures
            text@ == self.message(),
    {
        match self {
            Self::PartitionBounds => "maintenance audit slots are outside the data partition",
            Self::Io {
                phase: IoPhase::ReadInitialSlot | IoPhase::ReadVerificationSlot,
                error: PersistIoError::RequiresReset,
            } => "maintenance audit read requires a device reset",
            Self::Io {
                phase: IoPhase::WriteInactiveSlot,
                error: PersistIoError::OutcomeUnknown,
            } => "maintenance audit write outcome is unknown and requires reset",
            Self::Io {
                phase: IoPhase::Flush,
                error: PersistIoError::OutcomeUnknown,
            } => "maintenance audit flush outcome is unknown and requires reset",
            Self::Io {
                phase: IoPhase::ReadInitialSlot,
                ..
            } => "maintenance audit initial record read failed",
            Self::Io {
                phase: IoPhase::WriteInactiveSlot,
                ..
            } => "maintenance audit inactive-slot write failed",
            Self::Io {
                phase: IoPhase::Flush,
                ..
            } => "maintenance audit cache flush failed",
            Self::Io {
                phase: IoPhase::ReadVerificationSlot,
                ..
            } => "maintenance audit verification read failed",
            Self::Io {
                phase: IoPhase::ReadSuperblock,
                ..
            } => "maintenance audit used an invalid superblock phase",
            Self::Recovery(error) => error.as_str(),
            Self::State(error) => error.as_str(),
            Self::BootstrapSequence { .. } => "first maintenance authorization sequence is not one",
            Self::Replay { .. } => "maintenance authorization sequence was already consumed",
            Self::SequenceGap { .. } => "maintenance authorization skipped a sequence",
            Self::NamespaceMismatch => {
                "maintenance audit belongs to another root, policy, or device namespace"
            }
            Self::SequenceExhausted => "maintenance authorization sequence is exhausted",
            Self::Encode(error) => error.as_str(),
            Self::VerificationFailed => {
                "maintenance audit write did not survive flush and readback"
            }
        }
    }
}

#[derive(Clone, Copy, Debug, PartialEq, Eq)]
pub struct MaintenanceAuditEvidence {
    pub provisioned_before: bool,
    /// True only when the exact unfinished audit head was admitted without
    /// mutating the audit ledger.
    pub resumed: bool,
    /// Durable execution head observed before admission (zero if absent).
    pub completed_sequence_before: u64,
    /// Cross-ledger admission reads performed before the audit result.
    pub preflight_reads: u8,
    pub execution_initial_generation: u64,
    pub execution_initial_slot: u8,
    pub execution_initial_valid_slots: u8,
    pub execution_initial_rejected_slots: u8,
    /// Read-only step validation performed before the audit may change.
    pub step_preflight_reads: u8,
    pub step_provisioned_before: bool,
    pub step_legacy_anchor: bool,
    pub step_sequence_before: u64,
    pub step_base_sequence_before: u64,
    pub step_entry_count_before: u64,
    pub step_ordinal_before: u32,
    pub step_initial_generation: u64,
    pub step_initial_slot: u8,
    pub step_initial_valid_slots: u8,
    pub step_initial_rejected_slots: u8,
    pub previous_sequence: u64,
    pub committed_sequence: u64,
    pub previous_accepted_count: u64,
    pub committed_accepted_count: u64,
    pub initial_generation: u64,
    pub committed_generation: u64,
    pub initial_slot: u8,
    pub committed_slot: u8,
    pub initial_valid_slots: u8,
    pub initial_rejected_slots: u8,
    pub committed_valid_slots: u8,
    pub committed_rejected_slots: u8,
    pub reads: u8,
    pub writes: u8,
    pub flushes: u8,
    pub previous_chain_sha256: [u8; 32],
    pub committed_chain_sha256: [u8; 32],
    pub binding: MaintenanceAuthorizationAuditBinding,
}

#[derive(Clone, Copy, Debug, PartialEq, Eq)]
pub struct MaintenanceAuditRequest {
    pub partition_first_lba: u64,
    pub partition_sectors: u64,
    pub expected_format_epoch: FormatEpoch,
    pub binding: MaintenanceAuthorizationAuditBinding,
}

/// The audit head to append after `existing`, or why `binding` may not follow
/// it: the first authorization must carry sequence one, and every later one
/// must stay in the same root, policy and device namespace and carry exactly
/// the next sequence.
pub open spec fn spec_audit_successor(
    existing: Option<MaintenanceAuditState>,
    binding: MaintenanceAuthorizationAuditBinding,
) -> Result<MaintenanceAuditState, MaintenanceAuditError> {
    let (previous_accepted, previous_chain) = match existing {
        Some(state) => (state.accepted_count, state.chain_sha256),
        None => (0u64, digest_at(zeros(32), 0)),
    };
    let checked = match existing {
        None => if binding.sequence != 1 {
            Err(MaintenanceAuditError::BootstrapSequence { actual: binding.sequence })
        } else {
            Ok(())
        },
        Some(state) => if state.root_sha256 != binding.root_sha256 || state.policy_sha256
            != binding.policy_sha256 || state.device_binding_sha256 != binding.device_binding_sha256 {
            Err(MaintenanceAuditError::NamespaceMismatch)
        } else if state.sequence == u64::MAX {
            Err(MaintenanceAuditError::SequenceExhausted)
        } else if binding.sequence <= state.sequence {
            Err(MaintenanceAuditError::Replay { actual: binding.sequence, minimum: (state.sequence + 1) as u64 })
        } else if binding.sequence != state.sequence + 1 {
            Err(MaintenanceAuditError::SequenceGap { actual: binding.sequence, expected: (state.sequence + 1) as u64 })
        } else {
            Ok(())
        },
    };
    if checked is Err {
        Err(checked->Err_0)
    } else if previous_accepted == u64::MAX {
        Err(MaintenanceAuditError::SequenceExhausted)
    } else {
        Ok(MaintenanceAuditState {
            sequence: binding.sequence,
            accepted_count: (previous_accepted + 1) as u64,
            operations: binding.operations,
            max_uses: binding.max_uses,
            authorization_sha256: binding.authorization_sha256,
            authorization_id: binding.authorization_id,
            manifest_sha256: binding.manifest_sha256,
            policy_sha256: binding.policy_sha256,
            root_sha256: binding.root_sha256,
            device_binding_sha256: binding.device_binding_sha256,
            previous_chain_sha256: previous_chain,
            chain_sha256: digest_at(sha256_digest(audit_chain_material(previous_chain@, binding)), 0),
        })
    }
}

/// What the audit ledger held, the head appended to it, and the record written.
pub struct AuditDecision {
    pub recovered: Option<RecoveredModel>,
    pub existing: Option<MaintenanceAuditState>,
    pub committed_state: MaintenanceAuditState,
    pub commit: LedgerCommit,
}

/// The audit transaction's decision from the two ledger slots.
pub open spec fn spec_audit_decision(
    slot0: Seq<u8>,
    slot1: Seq<u8>,
    format_epoch: FormatEpoch,
    binding: MaintenanceAuthorizationAuditBinding,
) -> Result<AuditDecision, MaintenanceAuditError> {
    match spec_recover_ledger(slot0, slot1, format_epoch) {
        Err(error) => Err(MaintenanceAuditError::Recovery(error)),
        Ok(recovered) => {
            let existing = match recovered {
                Some(record) => match spec_decode_audit(record.payload) {
                    Ok(state) => Ok(Some(state)),
                    Err(error) => Err(error),
                },
                None => Ok(None),
            };
            match existing {
                Err(error) => Err(MaintenanceAuditError::State(error)),
                Ok(existing) => match spec_audit_successor(existing, binding) {
                    Err(error) => Err(error),
                    Ok(committed_state) => if recovered is Some && recovered->Some_0.generation == u64::MAX {
                        Err(MaintenanceAuditError::Recovery(RecoveryError::GenerationExhausted))
                    } else {
                        match spec_encode_audit(committed_state) {
                            Err(error) => Err(MaintenanceAuditError::State(error)),
                            Ok(payload) => match spec_next_record(recovered, payload, format_epoch) {
                                Err(Ok(error)) => Err(MaintenanceAuditError::Recovery(error)),
                                Err(Err(error)) => Err(MaintenanceAuditError::Encode(error)),
                                Ok(commit) => Ok(AuditDecision { recovered, existing, committed_state, commit }),
                            },
                        }
                    },
                },
            }
        },
    }
}

/// The checks made before any device access.
pub open spec fn spec_audit_precheck(request: MaintenanceAuditRequest) -> Result<(), MaintenanceAuditError> {
    if request.binding.spec_validate() is Err {
        Err(MaintenanceAuditError::State(request.binding.spec_validate()->Err_0))
    } else if spec_validate_record_epoch(request.expected_format_epoch) is Err {
        Err(MaintenanceAuditError::Encode(spec_validate_record_epoch(request.expected_format_epoch)->Err_0))
    } else {
        Ok(())
    }
}

/// The decision of `commit_maintenance_authorization`, from the device
/// contents alone.
pub open spec fn spec_audit_plan(disk: Seq<Seq<u8>>, request: MaintenanceAuditRequest) -> Result<
    AuditDecision,
    MaintenanceAuditError,
> {
    let slots = MAINTENANCE_AUDIT_SLOT_RELATIVE_LBAS;
    let first = request.partition_first_lba;
    if spec_audit_precheck(request) is Err {
        Err(spec_audit_precheck(request)->Err_0)
    } else if !ledger_fits(first, request.partition_sectors, slots, disk.len()) {
        Err(MaintenanceAuditError::PartitionBounds)
    } else {
        spec_audit_decision(disk[first + slots[0]], disk[first + slots[1]], request.expected_format_epoch, request.binding)
    }
}

/// The evidence reported for `decision`; the committed slot counts are those
/// of the readback.
pub open spec fn audit_evidence(
    decision: AuditDecision,
    binding: MaintenanceAuthorizationAuditBinding,
    committed_valid_slots: u8,
    committed_rejected_slots: u8,
) -> MaintenanceAuditEvidence {
    let (previous_sequence, previous_accepted_count) = match decision.existing {
        Some(state) => (state.sequence, state.accepted_count),
        None => (0u64, 0u64),
    };
    MaintenanceAuditEvidence {
        provisioned_before: decision.existing is Some,
        resumed: false,
        completed_sequence_before: 0,
        preflight_reads: 0,
        execution_initial_generation: 0,
        execution_initial_slot: 0xff,
        execution_initial_valid_slots: 0,
        execution_initial_rejected_slots: 0,
        step_preflight_reads: 0,
        step_provisioned_before: false,
        step_legacy_anchor: false,
        step_sequence_before: 0,
        step_base_sequence_before: 0,
        step_entry_count_before: 0,
        step_ordinal_before: 0,
        step_initial_generation: 0,
        step_initial_slot: 0xff,
        step_initial_valid_slots: 0,
        step_initial_rejected_slots: 0,
        previous_sequence,
        committed_sequence: binding.sequence,
        previous_accepted_count,
        committed_accepted_count: decision.committed_state.accepted_count,
        initial_generation: initial_generation_of(decision.recovered),
        committed_generation: decision.commit.committed_generation,
        initial_slot: initial_slot_of(decision.recovered),
        committed_slot: decision.commit.committed_slot as u8,
        initial_valid_slots: initial_valid_of(decision.recovered),
        initial_rejected_slots: initial_rejected_of(decision.recovered),
        committed_valid_slots,
        committed_rejected_slots,
        reads: 4,
        writes: 1,
        flushes: 1,
        previous_chain_sha256: decision.committed_state.previous_chain_sha256,
        committed_chain_sha256: decision.committed_state.chain_sha256,
        binding,
    }
}

/// A failure of the commit after the reads: an I/O error while writing,
/// flushing or reading back, or a readback that does not show the commit.
pub open spec fn is_audit_commit_failure(error: MaintenanceAuditError) -> bool {
    match error {
        MaintenanceAuditError::Io { phase, .. } => is_commit_phase(phase),
        MaintenanceAuditError::Recovery(_) | MaintenanceAuditError::State(_) | MaintenanceAuditError::VerificationFailed => true,
        _ => false,
    }
}

/// A failure of the reads before any write.
pub open spec fn is_initial_audit_read_error(error: MaintenanceAuditError) -> bool {
    match error {
        MaintenanceAuditError::Io { phase, .. } => phase == IoPhase::ReadInitialSlot,
        _ => false,
    }
}

/// The head that follows `existing` when `binding` is accepted.
pub fn maintenance_audit_successor(
    existing: Option<MaintenanceAuditState>,
    binding: MaintenanceAuthorizationAuditBinding,
) -> (result: Result<MaintenanceAuditState, MaintenanceAuditError>)
    ensures
        result == spec_audit_successor(existing, binding),
{
    let (previous_accepted_count, previous_chain_sha256) = match existing {
        None => {
            if binding.sequence != 1 {
                return Err(MaintenanceAuditError::BootstrapSequence { actual: binding.sequence });
            }
            (0u64, [0u8; 32])
        },
        Some(state) => {
            if !digest_eq(&state.root_sha256, &binding.root_sha256) || !digest_eq(
                &state.policy_sha256,
                &binding.policy_sha256,
            ) || !digest_eq(&state.device_binding_sha256, &binding.device_binding_sha256) {
                return Err(MaintenanceAuditError::NamespaceMismatch);
            }
            let expected = match state.sequence.checked_add(1) {
                Some(next) => next,
                None => return Err(MaintenanceAuditError::SequenceExhausted),
            };
            if binding.sequence <= state.sequence {
                return Err(MaintenanceAuditError::Replay { actual: binding.sequence, minimum: expected });
            }
            if binding.sequence != expected {
                return Err(MaintenanceAuditError::SequenceGap { actual: binding.sequence, expected });
            }
            (state.accepted_count, state.chain_sha256)
        },
    };
    proof {
        if existing is None {
            assert(zeros(32).subrange(0, 32) =~= previous_chain_sha256@);
            lemma_digest_at_view(zeros(32), 0, previous_chain_sha256);
        }
    }
    let accepted_count = match previous_accepted_count.checked_add(1) {
        Some(count) => count,
        None => return Err(MaintenanceAuditError::SequenceExhausted),
    };
    let chain_sha256 = maintenance_audit_chain_sha256(previous_chain_sha256, binding);
    proof {
        let digest = sha256_digest(audit_chain_material(previous_chain_sha256@, binding));
        assert(digest.subrange(0, 32) =~= chain_sha256@);
        lemma_digest_at_view(digest, 0, chain_sha256);
    }
    Ok(MaintenanceAuditState {
        sequence: binding.sequence,
        accepted_count,
        operations: binding.operations,
        max_uses: binding.max_uses,
        authorization_sha256: binding.authorization_sha256,
        authorization_id: binding.authorization_id,
        manifest_sha256: binding.manifest_sha256,
        policy_sha256: binding.policy_sha256,
        root_sha256: binding.root_sha256,
        device_binding_sha256: binding.device_binding_sha256,
        previous_chain_sha256,
        chain_sha256,
    })
}

/// Reads the audit ledger held in two slots and prepares the record that
/// appends `binding`.
fn prepare_audit<'a>(
    slot0: &'a Sector,
    slot1: &'a Sector,
    expected_format_epoch: FormatEpoch,
    binding: MaintenanceAuthorizationAuditBinding,
) -> (result: Result<
    (Option<RecoveredRecord<'a>>, Option<MaintenanceAuditState>, MaintenanceAuditState, PreparedLedgerCommit),
    MaintenanceAuditError,
>)
    ensures
        match spec_audit_decision(slot0@, slot1@, expected_format_epoch, binding) {
            Err(error) => result is Err && result->Err_0 == error,
            Ok(decision) => {
                let (recovered, existing, committed_state, prepared) = result->Ok_0;
                let c = decision.commit;
                &&& result is Ok
                &&& option_view(recovered) == decision.recovered
                &&& existing == decision.existing
                &&& committed_state == decision.committed_state
                &&& prepared.committed_generation == c.committed_generation
                &&& prepared.committed_slot == c.committed_slot
                &&& prepared.committed_sector@ == c.committed_sector
                &&& c.committed_slot < 2
                &&& spec_encode_record(expected_format_epoch, c.committed_generation, c.committed_payload)
                    == Ok::<Seq<u8>, RecordError>(c.committed_sector)
                &&& c.committed_payload == spec_encode_audit(committed_state)->Ok_0
                &&& spec_encode_audit(committed_state) is Ok
            },
        },
{
    let recovered = match recover_ledger([slot0, slot1], expected_format_epoch) {
        Ok(recovered) => recovered,
        Err(error) => return Err(MaintenanceAuditError::Recovery(error)),
    };
    proof {
        if recovered is Some {
            lemma_recovered_slot(slot0@, slot1@, expected_format_epoch);
        }
    }
    assert(option_view(recovered) == spec_recover_ledger(slot0@, slot1@, expected_format_epoch)->Ok_0);
    let existing = match recovered {
        Some(record) => match MaintenanceAuditState::decode(record.payload) {
            Ok(state) => Some(state),
            Err(error) => return Err(MaintenanceAuditError::State(error)),
        },
        None => None,
    };
    let committed_state = maintenance_audit_successor(existing, binding)?;
    if let Some(record) = recovered {
        if record.generation == u64::MAX {
            return Err(MaintenanceAuditError::Recovery(RecoveryError::GenerationExhausted));
        }
    }
    let committed_payload = match committed_state.encode() {
        Ok(bytes) => bytes,
        Err(error) => return Err(MaintenanceAuditError::State(error)),
    };
    let prepared = match prepare_next_record(&recovered, &committed_payload, expected_format_epoch) {
        Ok(prepared) => prepared,
        Err(Ok(error)) => return Err(MaintenanceAuditError::Recovery(error)),
        Err(Err(error)) => return Err(MaintenanceAuditError::Encode(error)),
    };
    Ok((recovered, existing, committed_state, prepared))
}

/// The transaction reads its ledger: its inputs pass the checks made before
/// any device access and the ledger lies on the device.
pub open spec fn audit_reads_begin(device_sectors: nat, request: MaintenanceAuditRequest) -> bool {
    &&& spec_audit_precheck(request) is Ok
    &&& ledger_fits(request.partition_first_lba, request.partition_sectors, MAINTENANCE_AUDIT_SLOT_RELATIVE_LBAS, device_sectors)
}

/// The calls the transaction makes when none of them fails.
pub open spec fn audit_ops(disk: Seq<Seq<u8>>, request: MaintenanceAuditRequest) -> Seq<IoOp> {
    let plan = spec_audit_plan(disk, request);
    ledger_ops(
        audit_reads_begin(disk.len(), request),
        request.partition_first_lba,
        MAINTENANCE_AUDIT_SLOT_RELATIVE_LBAS,
        if plan is Ok { Some(plan->Ok_0.commit) } else { None },
    )
}

/// Commits one verified authorization to the crash-recoverable audit ledger.
///
/// The first authorization must be sequence one; every later authorization
/// must stay in the same root, policy and device namespace and carry exactly
/// the prior value plus one. Replays, gaps, namespace substitutions, and
/// malformed state are rejected before any write. A successful commit
/// replaces only the inactive audit slot, flushes, reads both slots back, and
/// verifies both the selected state and byte-for-byte preservation of the old
/// slot.
#[verifier::spinoff_prover]
#[verifier::rlimit(80)]
pub fn commit_maintenance_authorization<D: DurableSectorIo>(
    io: &mut D,
    request: MaintenanceAuditRequest,
) -> (result: Result<MaintenanceAuditEvidence, MaintenanceAuditError>)
    ensures
        result is Err && is_initial_audit_read_error(result->Err_0) ==> old(io).log().len() < final(io).log().len(),
        ({
            let ops = audit_ops(old(io).sectors(), request);
            &&& log_prefix(old(io).log(), final(io).log(), ops)
            &&& result is Ok || !(result->Err_0 is Io) ==> final(io).log() == old(io).log() + ops
            &&& result is Err && result->Err_0 is Io && result->Err_0->phase == IoPhase::WriteInactiveSlot
                ==> final(io).log() == old(io).log() + ops.take(ops.len() - 3)
            &&& result is Err && result->Err_0 is Io && result->Err_0->phase == IoPhase::Flush
                ==> final(io).log() == old(io).log() + ops.take(ops.len() - 2)
        }),
        match spec_audit_plan(old(io).sectors(), request) {
            Err(error) => {
                &&& final(io).sectors() == old(io).sectors()
                &&& (result == Err::<MaintenanceAuditEvidence, MaintenanceAuditError>(error) || (
                result is Err && is_initial_audit_read_error(result->Err_0)))
                &&& !audit_reads_begin(old(io).sectors().len(), request) ==> result == Err::<
                    MaintenanceAuditEvidence,
                    MaintenanceAuditError,
                >(error)
            },
            Ok(decision) => {
                let lba = ledger_commit_lba(
                    request.partition_first_lba,
                    MAINTENANCE_AUDIT_SLOT_RELATIVE_LBAS,
                    decision.commit,
                );
                &&& unchanged_except(old(io).sectors(), final(io).sectors(), lba)
                &&& result is Err ==> is_initial_audit_read_error(result->Err_0)
                    || is_audit_commit_failure(result->Err_0)
                &&& final(io).sectors()[lba] == decision.commit.committed_sector ==> result is Ok
                    || result->Err_0 is Io
                &&& result is Err && !(result->Err_0 is Io) && !is_initial_audit_read_error(result->Err_0) ==> result->Err_0 == audit_readback_error(
                    final(io).sectors()[request.partition_first_lba + MAINTENANCE_AUDIT_SLOT_RELATIVE_LBAS[0]],
                    final(io).sectors()[request.partition_first_lba + MAINTENANCE_AUDIT_SLOT_RELATIVE_LBAS[1]],
                    request.expected_format_epoch,
                )
                &&& result is Ok ==> {
                    let after = final(io).sectors();
                    let slots = MAINTENANCE_AUDIT_SLOT_RELATIVE_LBAS;
                    let first = request.partition_first_lba;
                    let recovered = spec_recover(after[first + slots[0]], after[first + slots[1]], request.expected_format_epoch);
                    &&& ledger_commit_outcome(
                        old(io).sectors(),
                        after,
                        first,
                        slots,
                        request.expected_format_epoch,
                        decision.commit,
                    )
                    &&& result->Ok_0 == audit_evidence(
                        decision,
                        request.binding,
                        recovered->Ok_0.valid_slots,
                        recovered->Ok_0.rejected_slots,
                    )
                }
            },
        },
{
    let binding = request.binding;
    let expected_format_epoch = request.expected_format_epoch;
    let partition_first_lba = request.partition_first_lba;
    if let Err(error) = binding.validate() {
        return Err(MaintenanceAuditError::State(error));
    }
    if let Err(error) = validate_record_epoch(expected_format_epoch) {
        return Err(MaintenanceAuditError::Encode(error));
    }
    let slots = MAINTENANCE_AUDIT_SLOT_RELATIVE_LBAS;
    let ghost start = io.log();
    let ghost ops = audit_ops(io.sectors(), request);
    let loaded = load_ledger_slots(io, partition_first_lba, request.partition_sectors, slots);
    proof {
        let r = ledger_reads(partition_first_lba, slots);
        if audit_reads_begin(io.sectors().len(), request) {
            assert(ops.take(2) =~= r);
            lemma_log_prefix_extend(start, io.log(), r, ops);
        }
    }
    let (slot0, slot1) = match loaded {
        Ok(pair) => pair,
        Err(LoadFailure::Io { phase, error }) => return Err(MaintenanceAuditError::Io { phase, error }),
        Err(_) => return Err(MaintenanceAuditError::PartitionBounds),
    };
    let (recovered, existing, committed_state, prepared) = prepare_audit(
        &slot0,
        &slot1,
        expected_format_epoch,
        binding,
    )?;
    let ghost decision = spec_audit_decision(slot0@, slot1@, expected_format_epoch, binding)->Ok_0;
    let ghost commit = decision.commit;
    let (previous_sequence, previous_accepted_count) = match existing {
        Some(state) => (state.sequence, state.accepted_count),
        None => (0u64, 0u64),
    };
    let (initial_generation, initial_slot, initial_valid_slots, initial_rejected_slots) = match recovered {
        Some(record) => (record.generation, record.slot as u8, record.valid_slots, record.rejected_slots),
        None => (0u64, 0xffu8, 0u8, 0u8),
    };
    let first_lba = partition_first_lba + slots[0];
    let second_lba = partition_first_lba + slots[1];
    let committed_lba = if prepared.committed_slot == 0 {
        first_lba
    } else {
        second_lba
    };
    let ghost reads = slot_reads(first_lba, second_lba);
    let ghost calls = commit_ops(committed_lba, prepared.committed_sector@, first_lba, second_lba);
    proof {
        assert(start + reads + calls.take(1) =~= start + (reads + calls).take(3));
        assert(start + reads + calls.take(2) =~= start + (reads + calls).take(4));
        assert(start + reads + calls =~= start + (reads + calls));
    }
    let ghost mid = io.log();
    let committed_io = commit_and_read_back(
        io,
        committed_lba,
        &prepared.committed_sector,
        first_lba,
        second_lba,
    );
    proof {
        lemma_log_prefix_then(start, mid, io.log(), reads, calls);
    }
    let (verified0, verified1) = match committed_io {
        Ok(pair) => pair,
        Err((phase, error)) => return Err(MaintenanceAuditError::Io { phase, error }),
    };
    proof {
        let committed = if commit.committed_slot == 0 { verified0@ } else { verified1@ };
        if committed == commit.committed_sector {
            lemma_kept_commit_is_recovered(
                slot0@,
                slot1@,
                verified0@,
                verified1@,
                expected_format_epoch,
                decision.recovered,
                commit.committed_payload,
            );
            lemma_audit_round_trip(decision.committed_state);
        }
    }
    let verified = match recover([&verified0, &verified1], expected_format_epoch) {
        Ok(record) => record,
        Err(error) => return Err(MaintenanceAuditError::Recovery(error)),
    };
    let verified_state = match MaintenanceAuditState::decode(verified.payload) {
        Ok(state) => state,
        Err(error) => return Err(MaintenanceAuditError::State(error)),
    };
    if !ledger_readback_ok(
        &verified,
        &verified0,
        &verified1,
        &slot0,
        &slot1,
        &prepared,
        expected_format_epoch,
        Ghost(commit),
    ) || !verified_state.same_as(&committed_state) {
        return Err(MaintenanceAuditError::VerificationFailed);
    }
    Ok(
        MaintenanceAuditEvidence {
            provisioned_before: existing.is_some(),
            resumed: false,
            completed_sequence_before: 0,
            preflight_reads: 0,
            execution_initial_generation: 0,
            execution_initial_slot: 0xff,
            execution_initial_valid_slots: 0,
            execution_initial_rejected_slots: 0,
            step_preflight_reads: 0,
            step_provisioned_before: false,
            step_legacy_anchor: false,
            step_sequence_before: 0,
            step_base_sequence_before: 0,
            step_entry_count_before: 0,
            step_ordinal_before: 0,
            step_initial_generation: 0,
            step_initial_slot: 0xff,
            step_initial_valid_slots: 0,
            step_initial_rejected_slots: 0,
            previous_sequence,
            committed_sequence: binding.sequence,
            previous_accepted_count,
            committed_accepted_count: committed_state.accepted_count,
            initial_generation,
            committed_generation: prepared.committed_generation,
            initial_slot,
            committed_slot: prepared.committed_slot as u8,
            initial_valid_slots,
            initial_rejected_slots,
            committed_valid_slots: verified.valid_slots,
            committed_rejected_slots: verified.rejected_slots,
            reads: 4,
            writes: 1,
            flushes: 1,
            previous_chain_sha256: committed_state.previous_chain_sha256,
            committed_chain_sha256: committed_state.chain_sha256,
            binding,
        },
    )
}

/// After a successful audit commit, recovering the audit ledger yields exactly
/// the appended head: the requested authorization at the next sequence, with
/// its accepted count equal to that sequence, chained to the previous head.
pub proof fn lemma_audit_commit_recovers_successor(
    before: Seq<Seq<u8>>,
    after: Seq<Seq<u8>>,
    request: MaintenanceAuditRequest,
)
    requires
        spec_audit_plan(before, request) is Ok,
        ledger_commit_outcome(
            before,
            after,
            request.partition_first_lba,
            MAINTENANCE_AUDIT_SLOT_RELATIVE_LBAS,
            request.expected_format_epoch,
            spec_audit_plan(before, request)->Ok_0.commit,
        ),
    ensures
        ({
            let decision = spec_audit_plan(before, request)->Ok_0;
            let first = request.partition_first_lba;
            let slots = MAINTENANCE_AUDIT_SLOT_RELATIVE_LBAS;
            let recovered = spec_recover(after[first + slots[0]], after[first + slots[1]], request.expected_format_epoch);
            let head = decision.committed_state;
            &&& spec_decode_audit(recovered->Ok_0.payload) == Ok::<MaintenanceAuditState, MaintenanceAuditStateError>(head)
            &&& head.spec_binding() == request.binding
            &&& head.accepted_count == head.sequence
            &&& match decision.existing {
                Some(previous) => head.sequence == previous.sequence + 1
                    && head.previous_chain_sha256 == previous.chain_sha256,
                None => head.sequence == 1 && all_zero(head.previous_chain_sha256@),
            }
        }),
{
    let decision = spec_audit_plan(before, request)->Ok_0;
    let first = request.partition_first_lba;
    let slots = MAINTENANCE_AUDIT_SLOT_RELATIVE_LBAS;
    let head = decision.committed_state;
    lemma_audit_round_trip(head);
    if decision.existing is Some {
        lemma_decoded_audit_is_valid(decision.recovered->Some_0.payload);
    } else {
        lemma_digest_at(zeros(32), 0);
    }
}

/// The error an authorization commit reports when the audit slots it reads back do not
/// confirm the commit: recovery's error, the decoder's error, or a
/// verification failure.
pub open spec fn audit_readback_error(after0: Seq<u8>, after1: Seq<u8>, epoch: FormatEpoch) -> MaintenanceAuditError {
    match spec_recover(after0, after1, epoch) {
        Err(error) => MaintenanceAuditError::Recovery(error),
        Ok(record) => match spec_decode_audit(record.payload) {
            Err(error) => MaintenanceAuditError::State(error),
            Ok(_) => MaintenanceAuditError::VerificationFailed,
        },
    }
}

} // verus!

//! Crash-recoverable manifest rollback floor and key-policy transactions.
use vstd::prelude::*;
use crate::codec::sector_eq;
use crate::io::{commit_ops, is_commit_phase, slot_reads, unchanged_except, DurableSectorIo, IoOp, IoPhase, PersistIoError};
use crate::layout::{FormatEpoch, Sector, MANIFEST_ROLLBACK_SLOT_RELATIVE_LBAS};
use crate::ledger::{commit_and_read_back, ledger_fits, load_ledger_slots, LoadFailure};
use crate::manifest_state::{
    lemma_rollback_round_trip, spec_decode_rollback, spec_encode_rollback, ManifestRollbackBinding, ManifestRollbackState,
    ManifestRollbackStateError,
};
use crate::record::{
    lemma_recover_after_commit, lemma_recover_first_commit, lemma_record_round_trip, lemma_recovered_slot, recover, recover_ledger,
    spec_encode_record, spec_recover, spec_recover_ledger, spec_validate_record_epoch,
    validate_record_epoch, DataRecord, RecordError, RecoveredModel, RecoveredRecord, RecoveryError,
};
use crate::boot_tx::lemma_slot_flip;

verus! {

#[derive(Clone, Copy, Debug, PartialEq, Eq, Structural)]
pub enum ManifestRollbackError {
    PartitionBounds,
    ZeroBootstrapFloor,
    ZeroArtifactIndex,
    Io { phase: IoPhase, error: PersistIoError },
    Recovery(RecoveryError),
    State(ManifestRollbackStateError),
    BindingMismatch,
    Rollback { actual: u32, minimum: u32 },
    Encode(RecordError),
    VerificationFailed,
}

impl ManifestRollbackError {
    /// The fixed text that describes this error.
    pub open spec fn message(self) -> Seq<char> {
        match self {
            Self::PartitionBounds => {
                "persistent manifest rollback slots are outside the data partition"@
            }
            Self::ZeroBootstrapFloor => "manifest rollback bootstrap floor is zero"@,
            Self::ZeroArtifactIndex => "manifest rollback artifact index is zero"@,
            Self::Io {
                phase: IoPhase::ReadInitialSlot | IoPhase::ReadVerificationSlot,
                error: PersistIoError::RequiresReset,
            } => "persistent manifest rollback read requires a device reset"@,
            Self::Io {
                phase: IoPhase::WriteInactiveSlot,
                error: PersistIoError::OutcomeUnknown,
            } => "persistent manifest rollback write outcome is unknown and requires reset"@,
            Self::Io {
                phase: IoPhase::Flush,
                error: PersistIoError::OutcomeUnknown,
            } => "persistent manifest rollback flush outcome is unknown and requires reset"@,
            Self::Io {
                phase: IoPhase::ReadInitialSlot,
                ..
            } => "persistent manifest rollback initial record read failed"@,
            Self::Io {
                phase: IoPhase::WriteInactiveSlot,
                ..
            } => "persistent manifest rollback inactive-slot write failed"@,
            Self::Io {
                phase: IoPhase::Flush,
                ..
            } => "persistent manifest rollback cache flush failed"@,
            Self::Io {
                phase: IoPhase::ReadVerificationSlot,
                ..
            } => "persistent manifest rollback verification read failed"@,
            Self::Io {
                phase: IoPhase::ReadSuperblock,
                ..
            } => "persistent manifest rollback used an invalid superblock phase"@,
            Self::Recovery(error) => error.message(),
            Self::State(error) => error.message(),
            Self::BindingMismatch => {
                "persistent manifest rollback record belongs to another trust anchor"@
            }
            Self::Rollback { .. } => "signed manifest is below the persistent rollback floor"@,
            Self::Encode(error) => error.message(),
            Self::VerificationFailed => {
                "persistent manifest rollback write did not survive flush and readback"@
            }
        }
    }

    pub fn as_str(self) -> (text: &'static str)
        ensures
            text@ == self.message(),
    {
        match self {
            Self::PartitionBounds => {
                "persistent manifest rollback slots are outside the data partition"
            }
            Self::ZeroBootstrapFloor => "manifest rollback bootstrap floor is zero",
            Self::ZeroArtifactIndex => "manifest rollback artifact index is zero",
            Self::Io {
                phase: IoPhase::ReadInitialSlot | IoPhase::ReadVerificationSlot,
                error: PersistIoError::RequiresReset,
            } => "persistent manifest rollback read requires a device reset",
            Self::Io {
                phase: IoPhase::WriteInactiveSlot,
                error: PersistIoError::OutcomeUnknown,
            } => "persistent manifest rollback write outcome is unknown and requires reset",
            Self::Io {
                phase: IoPhase::Flush,
                error: PersistIoError::OutcomeUnknown,
            } => "persistent manifest rollback flush outcome is unknown and requires reset",
            Self::Io {
                phase: IoPhase::ReadInitialSlot,
                ..
            } => "persistent manifest rollback initial record read failed",
            Self::Io {
                phase: IoPhase::WriteInactiveSlot,
                ..
            } => "persistent manifest rollback inactive-slot write failed",
            Self::Io {
                phase: IoPhase::Flush,
                ..
            } => "persistent manifest rollback cache flush failed",
            Self::Io {
                phase: IoPhase::ReadVerificationSlot,
                ..
            } => "persistent manifest rollback verification read failed",
            Self::Io {
                phase: IoPhase::ReadSuperblock,
                ..
            } => "persistent manifest rollback used an invalid superblock phase",
            Self::Recovery(error) => error.as_str(),
            Self::State(error) => error.as_str(),
            Self::BindingMismatch => {
                "persistent manifest rollback record belongs to another trust anchor"
            }
            Self::Rollback { .. } => "signed manifest is below the persistent rollback floor",
            Self::Encode(error) => error.as_str(),
            Self::VerificationFailed => {
                "persistent manifest rollback write did not survive flush and readback"
            }
        }
    }
}

#[derive(Clone, Copy, Debug, PartialEq, Eq)]
pub struct ManifestRollbackEvidence {
    pub provisioned_before: bool,
    pub bootstrap_floor: u32,
    pub persisted_floor_before: u32,
    pub effective_floor: u32,
    pub artifact_index: u32,
    pub committed_floor: u32,
    pub initial_generation: u64,
    pub committed_generation: u64,
    pub initial_slot: u8,
    pub committed_slot: u8,
    pub initial_valid_slots: u8,
    pub initial_rejected_slots: u8,
    pub committed_valid_slots: u8,
    pub committed_rejected_slots: u8,
    pub floor_advanced: bool,
    pub record_written: bool,
    pub redundancy_repaired: bool,
    pub reads: u8,
    pub writes: u8,
    pub flushes: u8,
    pub binding: ManifestRollbackBinding,
}

/// One record to write into the inactive slot of a two-slot ledger.
pub struct LedgerCommit {
    pub committed_generation: u64,
    pub committed_slot: usize,
    pub committed_payload: Seq<u8>,
    pub committed_sector: Seq<u8>,
}

/// The sector a ledger commit writes: the slot it commits to.
pub open spec fn ledger_commit_lba(first: u64, slots: [u64; 2], commit: LedgerCommit) -> int {
    if commit.committed_slot == 0 {
        first + slots[0]
    } else {
        first + slots[1]
    }
}

/// A ledger commit that the device kept is what recovery selects afterwards:
/// when the committed slot holds the planned sector and the other slot kept
/// its bytes, recovery selects the planned payload at the planned generation
/// in the planned slot.
pub proof fn lemma_kept_commit_is_recovered(
    before0: Seq<u8>,
    before1: Seq<u8>,
    after0: Seq<u8>,
    after1: Seq<u8>,
    format_epoch: FormatEpoch,
    recovered: Option<RecoveredModel>,
    payload: Seq<u8>,
)
    requires
        spec_recover_ledger(before0, before1, format_epoch) == Ok::<
            Option<RecoveredModel>,
            RecoveryError,
        >(recovered),
        spec_next_record(recovered, payload, format_epoch) is Ok,
        ({
            let commit = spec_next_record(recovered, payload, format_epoch)->Ok_0;
            &&& commit.committed_slot == 0 ==> after0 == commit.committed_sector && after1 == before1
            &&& commit.committed_slot == 1 ==> after1 == commit.committed_sector && after0 == before0
        }),
    ensures
        ({
            let commit = spec_next_record(recovered, payload, format_epoch)->Ok_0;
            let model = spec_recover(after0, after1, format_epoch);
            &&& model is Ok
            &&& model->Ok_0.slot == commit.committed_slot
            &&& model->Ok_0.generation == commit.committed_generation
            &&& model->Ok_0.format_epoch == format_epoch
            &&& model->Ok_0.payload == payload
        }),
{
    match recovered {
        Some(record) => {
            lemma_recovered_slot(before0, before1, format_epoch);
            lemma_slot_flip(record.slot);
            lemma_recover_after_commit(before0, before1, after0, after1, format_epoch, payload);
        },
        None => {
            lemma_recover_first_commit(after0, after1, format_epoch, payload);
        },
    }
}

/// Whatever a ledger commit returns, the slot it does not commit to is
/// byte-for-byte intact: the commit writes one slot only, and the next record
/// of a provisioned ledger goes to the slot that recovery did not select.
pub proof fn lemma_ledger_commit_spares_other_slot(
    before: Seq<Seq<u8>>,
    after: Seq<Seq<u8>>,
    first: u64,
    slots: [u64; 2],
    recovered: Option<RecoveredModel>,
    payload: Seq<u8>,
    format_epoch: FormatEpoch,
)
    requires
        slots[0] != slots[1],
        first + slots[0] < before.len(),
        first + slots[1] < before.len(),
        recovered is Some ==> recovered->Some_0.slot < 2,
        spec_next_record(recovered, payload, format_epoch) is Ok,
        unchanged_except(
            before,
            after,
            ledger_commit_lba(first, slots, spec_next_record(recovered, payload, format_epoch)->Ok_0),
        ),
    ensures
        ({
            let commit = spec_next_record(recovered, payload, format_epoch)->Ok_0;
            let other = if commit.committed_slot == 0 {
                first + slots[1]
            } else {
                first + slots[0]
            };
            &&& after[other] == before[other]
            &&& recovered is Some ==> commit.committed_slot != recovered->Some_0.slot
        }),
{
    if recovered is Some {
        lemma_slot_flip(recovered->Some_0.slot);
    }
}

/// After a successful ledger commit, the inactive slot holds exactly the
/// planned sector, every other sector (the other slot among them) is
/// byte-for-byte unchanged, and recovery selects the planned payload at the
/// planned generation.
pub open spec fn ledger_commit_outcome(
    before: Seq<Seq<u8>>,
    after: Seq<Seq<u8>>,
    first: u64,
    slots: [u64; 2],
    format_epoch: FormatEpoch,
    commit: LedgerCommit,
) -> bool {
    let lba0 = first + slots[0];
    let lba1 = first + slots[1];
    let committed = if commit.committed_slot == 0 { lba0 } else { lba1 };
    let preserved = if commit.committed_slot == 0 { lba1 } else { lba0 };
    let recovered = spec_recover(after[lba0], after[lba1], format_epoch);
    &&& lba0 < after.len()
    &&& lba1 < after.len()
    &&& after[committed] == commit.committed_sector
    &&& after[preserved] == before[preserved]
    &&& unchanged_except(before, after, ledger_commit_lba(first, slots, commit))
    &&& recovered is Ok
    &&& recovered->Ok_0.slot == commit.committed_slot
    &&& recovered->Ok_0.generation == commit.committed_generation
    &&& recovered->Ok_0.payload == commit.committed_payload
}

/// The record to commit after `recovered`: the next generation in the
/// inactive slot, or generation one in slot zero of an empty ledger.
pub open spec fn spec_next_record(
    recovered: Option<RecoveredModel>,
    payload: Seq<u8>,
    format_epoch: FormatEpoch,
) -> Result<LedgerCommit, Result<RecoveryError, RecordError>> {
    let next = match recovered {
        Some(record) => if record.generation == u64::MAX {
            Err(RecoveryError::GenerationExhausted)
        } else {
            Ok(((record.generation + 1) as u64, record.slot ^ 1usize))
        },
        None => Ok((1u64, 0usize)),
    };
    match next {
        Err(error) => Err(Ok(error)),
        Ok((generation, slot)) => match spec_encode_record(format_epoch, generation, payload) {
            Err(error) => Err(Err(error)),
            Ok(sector) => Ok(
                LedgerCommit {
                    committed_generation: generation,
                    committed_slot: slot,
                    committed_payload: payload,
                    committed_sector: sector,
                },
            ),
        },
    }
}

/// The floor a ledger carried before this boot, or zero when unprovisioned.
pub open spec fn persisted_floor(persisted: Option<ManifestRollbackState>) -> u32 {
    match persisted {
        Some(state) => state.floor,
        None => 0,
    }
}

pub open spec fn max_u32(a: u32, b: u32) -> u32 {
    if a >= b { a } else { b }
}

/// What the rollback ledger held, and what the transaction writes, if anything.
pub struct RollbackDecision {
    pub recovered: Option<RecoveredModel>,
    pub persisted: Option<ManifestRollbackState>,
    pub commit: Option<LedgerCommit>,
}

pub open spec fn initial_generation_of(recovered: Option<RecoveredModel>) -> u64 {
    match recovered { Some(r) => r.generation, None => 0 }
}

pub open spec fn initial_slot_of(recovered: Option<RecoveredModel>) -> u8 {
    match recovered { Some(r) => r.slot as u8, None => 0xff }
}

pub open spec fn initial_valid_of(recovered: Option<RecoveredModel>) -> u8 {
    match recovered { Some(r) => r.valid_slots, None => 0 }
}

pub open spec fn initial_rejected_of(recovered: Option<RecoveredModel>) -> u8 {
    match recovered { Some(r) => r.rejected_slots, None => 0 }
}

/// The rollback transaction's decision from the two ledger slots.
pub open spec fn spec_rollback_decision(
    slot0: Seq<u8>,
    slot1: Seq<u8>,
    format_epoch: FormatEpoch,
    bootstrap_floor: u32,
    artifact_index: u32,
    binding: ManifestRollbackBinding,
) -> Result<RollbackDecision, ManifestRollbackError> {
    match spec_recover_ledger(slot0, slot1, format_epoch) {
        Err(error) => Err(ManifestRollbackError::Recovery(error)),
        Ok(recovered) => {
            let persisted = match recovered {
                Some(record) => match spec_decode_rollback(record.payload) {
                    Ok(state) => Ok(Some(state)),
                    Err(error) => Err(error),
                },
                None => Ok(None),
            };
            match persisted {
                Err(error) => Err(ManifestRollbackError::State(error)),
                Ok(persisted) => {
                    let floor_before = persisted_floor(persisted);
                    let effective = max_u32(bootstrap_floor, floor_before);
                    let rejected = initial_rejected_of(recovered);
                    let written = persisted is None || artifact_index > floor_before || rejected > 0;
                    if persisted is Some && persisted->Some_0.binding != binding {
                        Err(ManifestRollbackError::BindingMismatch)
                    } else if artifact_index < effective {
                        Err(ManifestRollbackError::Rollback { actual: artifact_index, minimum: effective })
                    } else if !written {
                        Ok(RollbackDecision { recovered, persisted, commit: None })
                    } else {
                        let payload = spec_encode_rollback(
                            ManifestRollbackState { floor: artifact_index, binding },
                        );
                        match payload {
                            Err(error) => Err(ManifestRollbackError::State(error)),
                            Ok(payload) => match spec_next_record(recovered, payload, format_epoch) {
                                Err(Ok(error)) => Err(ManifestRollbackError::Recovery(error)),
                                Err(Err(error)) => Err(ManifestRollbackError::Encode(error)),
                                Ok(commit) => Ok(RollbackDecision { recovered, persisted, commit: Some(commit) }),
                            },
                        }
                    }
                },
            }
        },
    }
}

/// The checks made before any device access.
pub open spec fn spec_rollback_precheck(
    format_epoch: FormatEpoch,
    bootstrap_floor: u32,
    artifact_index: u32,
    binding: ManifestRollbackBinding,
) -> Result<(), ManifestRollbackError> {
    if bootstrap_floor == 0 {
        Err(ManifestRollbackError::ZeroBootstrapFloor)
    } else if artifact_index == 0 {
        Err(ManifestRollbackError::ZeroArtifactIndex)
    } else if binding.spec_validate() is Err {
        Err(ManifestRollbackError::State(binding.spec_validate()->Err_0))
    } else if spec_validate_record_epoch(format_epoch) is Err {
        Err(ManifestRollbackError::Encode(spec_validate_record_epoch(format_epoch)->Err_0))
    } else {
        Ok(())
    }
}

/// The decision of `enforce_and_advance_manifest_rollback`, from the device
/// contents alone.
pub open spec fn spec_rollback_plan(
    disk: Seq<Seq<u8>>,
    first: u64,
    sectors: u64,
    format_epoch: FormatEpoch,
    bootstrap_floor: u32,
    artifact_index: u32,
    binding: ManifestRollbackBinding,
) -> Result<RollbackDecision, ManifestRollbackError> {
    let slots = MANIFEST_ROLLBACK_SLOT_RELATIVE_LBAS;
    if spec_rollback_precheck(format_epoch, bootstrap_floor, artifact_index, binding) is Err {
        Err(spec_rollback_precheck(format_epoch, bootstrap_floor, artifact_index, binding)->Err_0)
    } else if !ledger_fits(first, sectors, slots, disk.len()) {
        Err(ManifestRollbackError::PartitionBounds)
    } else {
        spec_rollback_decision(
            disk[first + slots[0]],
            disk[first + slots[1]],
            format_epoch,
            bootstrap_floor,
            artifact_index,
            binding,
        )
    }
}

/// The evidence reported for `decision`; the committed slot counts are those
/// of the readback.
pub open spec fn rollback_evidence(
    decision: RollbackDecision,
    bootstrap_floor: u32,
    artifact_index: u32,
    binding: ManifestRollbackBinding,
    committed_valid_slots: u8,
    committed_rejected_slots: u8,
) -> ManifestRollbackEvidence {
    let floor_before = persisted_floor(decision.persisted);
    let effective = max_u32(bootstrap_floor, floor_before);
    let provisioned = decision.persisted is Some;
    let rejected = initial_rejected_of(decision.recovered);
    let written = decision.commit is Some;
    ManifestRollbackEvidence {
        provisioned_before: provisioned,
        bootstrap_floor,
        persisted_floor_before: floor_before,
        effective_floor: effective,
        artifact_index,
        committed_floor: if written { artifact_index } else { floor_before },
        initial_generation: initial_generation_of(decision.recovered),
        committed_generation: if written {
            decision.commit->Some_0.committed_generation
        } else {
            initial_generation_of(decision.recovered)
        },
        initial_slot: initial_slot_of(decision.recovered),
        committed_slot: if written {
            decision.commit->Some_0.committed_slot as u8
        } else {
            initial_slot_of(decision.recovered)
        },
        initial_valid_slots: initial_valid_of(decision.recovered),
        initial_rejected_slots: rejected,
        committed_valid_slots: if written { committed_valid_slots } else { initial_valid_of(decision.recovered) },
        committed_rejected_slots: if written { committed_rejected_slots } else { rejected },
        floor_advanced: artifact_index > effective,
        record_written: written,
        redundancy_repaired: provisioned && artifact_index == floor_before && rejected > 0,
        reads: if written { 4 } else { 2 },
        writes: if written { 1 } else { 0 },
        flushes: if written { 1 } else { 0 },
        binding,
    }
}

/// A failure of the commit after the reads: an I/O error while writing,
/// flushing or reading back, or a readback that does not show the commit.
pub open spec fn is_rollback_commit_failure(error: ManifestRollbackError) -> bool {
    match error {
        ManifestRollbackError::Io { phase, .. } => is_commit_phase(phase),
        ManifestRollbackError::Recovery(_) | ManifestRollbackError::State(_) | ManifestRollbackError::VerificationFailed => true,
        _ => false,
    }
}

/// A failure of the reads before any write.
pub open spec fn is_initial_rollback_read_error(error: ManifestRollbackError) -> bool {
    match error {
        ManifestRollbackError::Io { phase, .. } => phase == IoPhase::ReadInitialSlot,
        _ => false,
    }
}

/// The calls a single-ledger transaction makes when none of them fails: none
/// when it refuses before reading, the reads of both slots, and, when it
/// commits, the write of the committed slot, the flush and the readback.
pub open spec fn ledger_ops(reads_begin: bool, first: u64, slots: [u64; 2], commit: Option<LedgerCommit>) -> Seq<IoOp> {
    let a = (first + slots[0]) as u64;
    let b = (first + slots[1]) as u64;
    if !reads_begin {
        Seq::empty()
    } else {
        match commit {
            None => slot_reads(a, b),
            Some(c) => slot_reads(a, b) + commit_ops(ledger_commit_lba(first, slots, c) as u64, c.committed_sector, a, b),
        }
    }
}

/// The rollback transaction reads the ledger: its inputs pass the checks made
/// before any device access and the ledger lies on the device.
pub open spec fn rollback_reads_begin(
    device_sectors: nat,
    first: u64,
    sectors: u64,
    format_epoch: FormatEpoch,
    bootstrap_floor: u32,
    artifact_index: u32,
    binding: ManifestRollbackBinding,
) -> bool {
    &&& spec_rollback_precheck(format_epoch, bootstrap_floor, artifact_index, binding) is Ok
    &&& ledger_fits(first, sectors, MANIFEST_ROLLBACK_SLOT_RELATIVE_LBAS, device_sectors)
}

/// The calls the rollback transaction makes when none of them fails.
pub open spec fn rollback_ops(
    disk: Seq<Seq<u8>>,
    first: u64,
    sectors: u64,
    format_epoch: FormatEpoch,
    bootstrap_floor: u32,
    artifact_index: u32,
    binding: ManifestRollbackBinding,
) -> Seq<IoOp> {
    let plan = spec_rollback_plan(disk, first, sectors, format_epoch, bootstrap_floor, artifact_index, binding);
    ledger_ops(
        rollback_reads_begin(disk.len(), first, sectors, format_epoch, bootstrap_floor, artifact_index, binding),
        first,
        MANIFEST_ROLLBACK_SLOT_RELATIVE_LBAS,
        if plan is Ok { plan->Ok_0.commit } else { None },
    )
}

/// The decided next record of a ledger, with its sector encoded.
pub struct PreparedLedgerCommit {
    pub committed_generation: u64,
    pub committed_slot: usize,
    pub committed_sector: Sector,
}

pub(crate) fn prepare_next_record(
    recovered: &Option<RecoveredRecord>,
    payload: &[u8],
    expected_format_epoch: FormatEpoch,
) -> (result: Result<PreparedLedgerCommit, Result<RecoveryError, RecordError>>)
    requires
        match recovered {
            Some(record) => record.slot < 2,
            None => true,
        },
    ensures
        ({
            let model = match recovered {
                Some(record) => Some(record@),
                None => None,
            };
            match spec_next_record(model, payload@, expected_format_epoch) {
                Err(error) => result is Err && result->Err_0 == error,
                Ok(commit) => {
                    &&& result is Ok
                    &&& result->Ok_0.committed_generation == commit.committed_generation
                    &&& result->Ok_0.committed_slot == commit.committed_slot
                    &&& result->Ok_0.committed_sector@ == commit.committed_sector
                    &&& commit.committed_slot < 2
                    &&& spec_encode_record(expected_format_epoch, commit.committed_generation, payload@)
                        == Ok::<Seq<u8>, RecordError>(commit.committed_sector)
                },
            }
        }),
{
    let (committed_generation, committed_slot) = match recovered {
        Some(record) => {
            proof {
                lemma_slot_flip(record.slot);
            }
            match record.next_generation() {
                Ok(generation) => (generation, record.inactive_slot()),
                Err(error) => return Err(Ok(error)),
            }
        },
        None => (1u64, 0usize),
    };
    match DataRecord::encode(expected_format_epoch, committed_generation, payload) {
        Ok(committed_sector) => Ok(PreparedLedgerCommit { committed_generation, committed_slot, committed_sector }),
        Err(error) => Err(Err(error)),
    }
}



/// Whether the readback of both ledger slots shows exactly `commit`.
pub(crate) fn ledger_readback_ok(
    verified: &RecoveredRecord,
    verified0: &Sector,
    verified1: &Sector,
    slot0: &Sector,
    slot1: &Sector,
    prepared: &PreparedLedgerCommit,
    expected_format_epoch: FormatEpoch,
    Ghost(commit): Ghost<LedgerCommit>,
) -> (ok: bool)
    requires
        spec_recover(verified0@, verified1@, expected_format_epoch) == Ok::<RecoveredModel, RecoveryError>(verified@),
        prepared.committed_generation == commit.committed_generation,
        prepared.committed_slot == commit.committed_slot,
        prepared.committed_sector@ == commit.committed_sector,
        commit.committed_slot < 2,
        spec_encode_record(expected_format_epoch, commit.committed_generation, commit.committed_payload)
            == Ok::<Seq<u8>, RecordError>(commit.committed_sector),
    ensures
        ({
            let committed = if commit.committed_slot == 0 { verified0@ } else { verified1@ };
            let preserved_after = if commit.committed_slot == 0 { verified1@ } else { verified0@ };
            let preserved_before = if commit.committed_slot == 0 { slot1@ } else { slot0@ };
            &&& ok == (committed == commit.committed_sector && preserved_after == preserved_before
                && verified.slot == commit.committed_slot && verified.generation
                == commit.committed_generation)
            &&& ok ==> verified.payload@ == commit.committed_payload
        }),
{
    proof {
        lemma_recovered_slot(verified0@, verified1@, expected_format_epoch);
        lemma_record_round_trip(expected_format_epoch, commit.committed_generation, commit.committed_payload);
        if verified0@ == prepared.committed_sector@ {
            assert(*verified0 =~= prepared.committed_sector);
        }
        if verified1@ == prepared.committed_sector@ {
            assert(*verified1 =~= prepared.committed_sector);
        }
        if verified0@ == slot0@ {
            assert(*verified0 =~= *slot0);
        }
        if verified1@ == slot1@ {
            assert(*verified1 =~= *slot1);
        }
    }
    let committed_same = if prepared.committed_slot == 0 {
        sector_eq(verified0, &prepared.committed_sector)
    } else {
        sector_eq(verified1, &prepared.committed_sector)
    };
    let preserved_same = if prepared.committed_slot == 0 {
        sector_eq(verified1, slot1)
    } else {
        sector_eq(verified0, slot0)
    };
    verified.slot == prepared.committed_slot && verified.generation == prepared.committed_generation
        && committed_same && preserved_same
}

pub open spec fn option_view(recovered: Option<RecoveredRecord>) -> Option<RecoveredModel> {
    match recovered {
        Some(record) => Some(record@),
        None => None,
    }
}

fn prepare_rollback<'a>(
    slot0: &'a Sector,
    slot1: &'a Sector,
    expected_format_epoch: FormatEpoch,
    bootstrap_floor: u32,
    artifact_index: u32,
    binding: ManifestRollbackBinding,
) -> (result: Result<
    (Option<RecoveredRecord<'a>>, Option<ManifestRollbackState>, Option<PreparedLedgerCommit>),
    ManifestRollbackError,
>)
    ensures
        match spec_rollback_decision(
            slot0@,
            slot1@,
            expected_format_epoch,
            bootstrap_floor,
            artifact_index,
            binding,
        ) {
            Err(error) => result is Err && result->Err_0 == error,
            Ok(decision) => {
                let (recovered, persisted, prepared) = result->Ok_0;
                &&& result is Ok
                &&& option_view(recovered) == decision.recovered
                &&& persisted == decision.persisted
                &&& (prepared is Some <==> decision.commit is Some)
                &&& (prepared is Some ==> {
                    let p = prepared->Some_0;
                    let c = decision.commit->Some_0;
                    &&& p.committed_generation == c.committed_generation
                    &&& p.committed_slot == c.committed_slot
                    &&& p.committed_sector@ == c.committed_sector
                    &&& c.committed_slot < 2
                    &&& spec_encode_record(expected_format_epoch, c.committed_generation, c.committed_payload)
                        == Ok::<Seq<u8>, RecordError>(c.committed_sector)
                    &&& c.committed_payload == spec_encode_rollback(
                        ManifestRollbackState { floor: artifact_index, binding },
                    )->Ok_0
                })
            },
        },
{
    let recovered = match recover_ledger([slot0, slot1], expected_format_epoch) {
        Ok(recovered) => recovered,
        Err(error) => return Err(ManifestRollbackError::Recovery(error)),
    };
    proof {
        if recovered is Some {
            lemma_recovered_slot(slot0@, slot1@, expected_format_epoch);
        }
    }
    assert(option_view(recovered) == spec_recover_ledger(slot0@, slot1@, expected_format_epoch)->Ok_0);
    let persisted = match recovered {
        Some(record) => match ManifestRollbackState::decode(record.payload) {
            Ok(state) => Some(state),
            Err(error) => return Err(ManifestRollbackError::State(error)),
        },
        None => None,
    };
    if let Some(state) = persisted {
        if !state.binding.same_as(&binding) {
            return Err(ManifestRollbackError::BindingMismatch);
        }
    }
    let persisted_floor_before = match persisted {
        Some(state) => state.floor,
        None => 0,
    };
    let effective_floor = if bootstrap_floor >= persisted_floor_before {
        bootstrap_floor
    } else {
        persisted_floor_before
    };
    if artifact_index < effective_floor {
        return Err(ManifestRollbackError::Rollback { actual: artifact_index, minimum: effective_floor });
    }
    let initial_rejected_slots = match recovered {
        Some(record) => record.rejected_slots,
        None => 0,
    };
    let record_written = persisted.is_none() || artifact_index > persisted_floor_before
        || initial_rejected_slots > 0;
    if !record_written {
        return Ok((recovered, persisted, None));
    }
    let committed_state = ManifestRollbackState { floor: artifact_index, binding };
    let committed_payload = match committed_state.encode() {
        Ok(bytes) => bytes,
        Err(error) => return Err(ManifestRollbackError::State(error)),
    };
    let prepared = match prepare_next_record(&recovered, &committed_payload, expected_format_epoch) {
        Ok(prepared) => prepared,
        Err(Ok(error)) => return Err(ManifestRollbackError::Recovery(error)),
        Err(Err(error)) => return Err(ManifestRollbackError::Encode(error)),
    };
    Ok((recovered, persisted, Some(prepared)))
}

/// Enforces and, when necessary, advances the crash-recoverable manifest floor.
///
/// The caller must cryptographically verify the complete signed manifest
/// before entering this transaction. The two fixed slots are outside the
/// legacy boot/device-health slots but remain inside kernel-only
/// `BNDROID_DATA`. A mutation always writes the inactive slot, flushes, reads
/// both slots back, and proves that recovery selects the new record while the
/// previously selected sector remains byte-for-byte unchanged.
///
/// This protects against ordinary guest-visible downgrade and torn/corrupted
/// inactive records. The CRC-backed QEMU disk record is not RPMB/eFuse and
/// cannot resist a privileged host rolling the whole disk back or erasing it.
#[verifier::rlimit(80)]
#[verifier::spinoff_prover]
pub fn enforce_and_advance_manifest_rollback<D: DurableSectorIo>(
    io: &mut D,
    partition_first_lba: u64,
    partition_sectors: u64,
    expected_format_epoch: FormatEpoch,
    bootstrap_floor: u32,
    artifact_index: u32,
    binding: ManifestRollbackBinding,
) -> (result: Result<ManifestRollbackEvidence, ManifestRollbackError>)
    ensures
        result is Err && is_initial_rollback_read_error(result->Err_0) ==> old(io).log().len() < final(io).log().len(),
        ({
            let ops = rollback_ops(
                old(io).sectors(),
                partition_first_lba,
                partition_sectors,
                expected_format_epoch,
                bootstrap_floor,
                artifact_index,
                binding,
            );
            &&& result is Ok || !(result->Err_0 is Io) ==> final(io).log() == old(io).log() + ops
            &&& result is Err && result->Err_0 is Io && result->Err_0->phase == IoPhase::WriteInactiveSlot ==> final(io).log() == old(io).log() + ops.take(ops.len() - 3)
            &&& result is Err && result->Err_0 is Io && result->Err_0->phase == IoPhase::Flush ==> final(io).log() == old(io).log() + ops.take(ops.len() - 2)
        }),
        match spec_rollback_plan(
            old(io).sectors(),
            partition_first_lba,
            partition_sectors,
            expected_format_epoch,
            bootstrap_floor,
            artifact_index,
            binding,
        ) {
            Err(error) => {
                &&& final(io).sectors() == old(io).sectors()
                &&& (result == Err::<ManifestRollbackEvidence, ManifestRollbackError>(error) || (
                result is Err && is_initial_rollback_read_error(result->Err_0)))
                &&& !rollback_reads_begin(
                    old(io).sectors().len(),
                    partition_first_lba,
                    partition_sectors,
                    expected_format_epoch,
                    bootstrap_floor,
                    artifact_index,
                    binding,
                ) ==> result == Err::<ManifestRollbackEvidence, ManifestRollbackError>(error)
            },
            Ok(decision) => match decision.commit {
                None => {
                    &&& final(io).sectors() == old(io).sectors()
                    &&& result is Ok ==> result->Ok_0 == rollback_evidence(
                        decision,
                        bootstrap_floor,
                        artifact_index,
                        binding,
                        0,
                        0,
                    )
                    &&& result is Err ==> is_initial_rollback_read_error(result->Err_0)
                },
                Some(commit) => {
                    let lba = ledger_commit_lba(partition_first_lba, MANIFEST_ROLLBACK_SLOT_RELATIVE_LBAS, commit);
                    &&& unchanged_except(old(io).sectors(), final(io).sectors(), lba)
                    &&& result is Err ==> is_initial_rollback_read_error(result->Err_0)
                        || is_rollback_commit_failure(result->Err_0)
                    &&& final(io).sectors()[lba] == commit.committed_sector ==> result is Ok || result->Err_0 is Io
                    &&& result is Err && !(result->Err_0 is Io) && !is_initial_rollback_read_error(result->Err_0) ==> result->Err_0 == rollback_readback_error(
                        final(io).sectors()[partition_first_lba + MANIFEST_ROLLBACK_SLOT_RELATIVE_LBAS[0]],
                        final(io).sectors()[partition_first_lba + MANIFEST_ROLLBACK_SLOT_RELATIVE_LBAS[1]],
                        expected_format_epoch,
                    )
                    &&& result is Ok ==> {
                        let after = final(io).sectors();
                        let slots = MANIFEST_ROLLBACK_SLOT_RELATIVE_LBAS;
                        let recovered = spec_recover(
                            after[partition_first_lba + slots[0]],
                            after[partition_first_lba + slots[1]],
                            expected_format_epoch,
                        );
                        &&& ledger_commit_outcome(
                            old(io).sectors(),
                            after,
                            partition_first_lba,
                            slots,
                            expected_format_epoch,
                            commit,
                        )
                        &&& result->Ok_0 == rollback_evidence(
                            decision,
                            bootstrap_floor,
                            artifact_index,
                            binding,
                            recovered->Ok_0.valid_slots,
                            recovered->Ok_0.rejected_slots,
                        )
                    }
                },
            },
        },
{
    if bootstrap_floor == 0 {
        return Err(ManifestRollbackError::ZeroBootstrapFloor);
    }
    if artifact_index == 0 {
        return Err(ManifestRollbackError::ZeroArtifactIndex);
    }
    if let Err(error) = binding.validate() {
        return Err(ManifestRollbackError::State(error));
    }
    if let Err(error) = validate_record_epoch(expected_format_epoch) {
        return Err(ManifestRollbackError::Encode(error));
    }
    let slots = MANIFEST_ROLLBACK_SLOT_RELATIVE_LBAS;
    let ghost start = io.log();
    let (slot0, slot1) = match load_ledger_slots(io, partition_first_lba, partition_sectors, slots) {
        Ok(pair) => pair,
        Err(LoadFailure::Io { phase, error }) => return Err(ManifestRollbackError::Io { phase, error }),
        Err(_) => return Err(ManifestRollbackError::PartitionBounds),
    };
    let (recovered, persisted, prepared) = prepare_rollback(
        &slot0,
        &slot1,
        expected_format_epoch,
        bootstrap_floor,
        artifact_index,
        binding,
    )?;
    let ghost decision = spec_rollback_decision(
        slot0@,
        slot1@,
        expected_format_epoch,
        bootstrap_floor,
        artifact_index,
        binding,
    )->Ok_0;
    let provisioned_before = persisted.is_some();
    let persisted_floor_before = match persisted {
        Some(state) => state.floor,
        None => 0,
    };
    let effective_floor = if bootstrap_floor >= persisted_floor_before {
        bootstrap_floor
    } else {
        persisted_floor_before
    };
    let (initial_generation, initial_slot, initial_valid_slots, initial_rejected_slots) = match recovered {
        Some(record) => (record.generation, record.slot as u8, record.valid_slots, record.rejected_slots),
        None => (0u64, 0xffu8, 0u8, 0u8),
    };
    let floor_advanced = artifact_index > effective_floor;
    let redundancy_repaired = provisioned_before && artifact_index == persisted_floor_before
        && initial_rejected_slots > 0;
    let prepared = match prepared {
        None => {
            return Ok(
                ManifestRollbackEvidence {
                    provisioned_before,
                    bootstrap_floor,
                    persisted_floor_before,
                    effective_floor,
                    artifact_index,
                    committed_floor: persisted_floor_before,
                    initial_generation,
                    committed_generation: initial_generation,
                    initial_slot,
                    committed_slot: initial_slot,
                    initial_valid_slots,
                    initial_rejected_slots,
                    committed_valid_slots: initial_valid_slots,
                    committed_rejected_slots: initial_rejected_slots,
                    floor_advanced,
                    record_written: false,
                    redundancy_repaired,
                    reads: 2,
                    writes: 0,
                    flushes: 0,
                    binding,
                },
            );
        },
        Some(prepared) => prepared,
    };
    let ghost commit = decision.commit->Some_0;
    let first_lba = partition_first_lba + slots[0];
    let second_lba = partition_first_lba + slots[1];
    let committed_lba = if prepared.committed_slot == 0 {
        first_lba
    } else {
        second_lba
    };
    let ghost reads = slot_reads(first_lba, second_lba);
    let ghost calls = commit_ops(committed_lba, prepared.committed_sector@, first_lba, second_lba);
    proof {
        assert(start + reads + calls.take(1) =~= start + (reads + calls).take(3));
        assert(start + reads + calls.take(2) =~= start + (reads + calls).take(4));
        assert(start + reads + calls =~= start + (reads + calls));
    }
    let (verified0, verified1) = match commit_and_read_back(
        io,
        committed_lba,
        &prepared.committed_sector,
        first_lba,
        second_lba,
    ) {
        Ok(pair) => pair,
        Err((phase, error)) => return Err(ManifestRollbackError::Io { phase, error }),
    };
    proof {
        let committed = if commit.committed_slot == 0 { verified0@ } else { verified1@ };
        if committed == commit.committed_sector {
            lemma_kept_commit_is_recovered(
                slot0@,
                slot1@,
                verified0@,
                verified1@,
                expected_format_epoch,
                decision.recovered,
                commit.committed_payload,
            );
            lemma_rollback_round_trip(ManifestRollbackState { floor: artifact_index, binding });
        }
    }
    let verified = match recover([&verified0, &verified1], expected_format_epoch) {
        Ok(record) => record,
        Err(error) => return Err(ManifestRollbackError::Recovery(error)),
    };
    let verified_state = match ManifestRollbackState::decode(verified.payload) {
        Ok(state) => state,
        Err(error) => return Err(ManifestRollbackError::State(error)),
    };
    let committed_state = ManifestRollbackState { floor: artifact_index, binding };
    if !ledger_readback_ok(
        &verified,
        &verified0,
        &verified1,
        &slot0,
        &slot1,
        &prepared,
        expected_format_epoch,
        Ghost(commit),
    ) || !verified_state.same_as(&committed_state) {
        return Err(ManifestRollbackError::VerificationFailed);
    }
    Ok(
        ManifestRollbackEvidence {
            provisioned_before,
            bootstrap_floor,
            persisted_floor_before,
            effective_floor,
            artifact_index,
            committed_floor: artifact_index,
            initial_generation,
            committed_generation: prepared.committed_generation,
            initial_slot,
            committed_slot: prepared.committed_slot as u8,
            initial_valid_slots,
            initial_rejected_slots,
            committed_valid_slots: verified.valid_slots,
            committed_rejected_slots: verified.rejected_slots,
            floor_advanced,
            record_written: true,
            redundancy_repaired,
            reads: 4,
            writes: 1,
            flushes: 1,
            binding,
        },
    )
}

/// The anti-rollback floor never moves backwards. When enforcement decides to
/// go ahead, the artifact index is at least the bootstrap floor and the floor
/// the ledger held, and afterwards the ledger holds the artifact index as its
/// floor under the same binding: in the record it writes, or, when it writes
/// nothing, in the state it already held.
pub proof fn lemma_rollback_floor_never_decreases(
    slot0: Seq<u8>,
    slot1: Seq<u8>,
    format_epoch: FormatEpoch,
    bootstrap_floor: u32,
    artifact_index: u32,
    binding: ManifestRollbackBinding,
)
    requires
        spec_rollback_decision(slot0, slot1, format_epoch, bootstrap_floor, artifact_index, binding)
            is Ok,
    ensures
        ({
            let decision = spec_rollback_decision(
                slot0,
                slot1,
                format_epoch,
                bootstrap_floor,
                artifact_index,
                binding,
            )->Ok_0;
            let held = ManifestRollbackState { floor: artifact_index, binding };
            &&& artifact_index >= bootstrap_floor
            &&& artifact_index >= persisted_floor(decision.persisted)
            &&& match decision.commit {
                Some(commit) => spec_decode_rollback(commit.committed_payload) == Ok::<
                    ManifestRollbackState,
                    ManifestRollbackStateError,
                >(held),
                None => decision.persisted == Some(held),
            }
        }),
{
    let decision = spec_rollback_decision(
        slot0,
        slot1,
        format_epoch,
        bootstrap_floor,
        artifact_index,
        binding,
    )->Ok_0;
    if decision.commit is Some {
        lemma_rollback_round_trip(ManifestRollbackState { floor: artifact_index, binding });
    }
}

/// Once the ledger holds a floor, an older artifact under the same binding is
/// refused as a rollback, whatever bootstrap floor is supplied.
pub proof fn lemma_older_artifact_is_refused(
    slot0: Seq<u8>,
    slot1: Seq<u8>,
    format_epoch: FormatEpoch,
    held: ManifestRollbackState,
    bootstrap_floor: u32,
    artifact_index: u32,
)
    requires
        spec_recover_ledger(slot0, slot1, format_epoch) is Ok,
        spec_recover_ledger(slot0, slot1, format_epoch)->Ok_0 is Some,
        spec_decode_rollback(spec_recover_ledger(slot0, slot1, format_epoch)->Ok_0->Some_0.payload)
            == Ok::<ManifestRollbackState, ManifestRollbackStateError>(held),
        artifact_index < held.floor,
    ensures
        spec_rollback_decision(slot0, slot1, format_epoch, bootstrap_floor, artifact_index, held.binding)
            == Err::<RollbackDecision, ManifestRollbackError>(
            ManifestRollbackError::Rollback {
                actual: artifact_index,
                minimum: max_u32(bootstrap_floor, held.floor),
            },
        ),
{
}

/// The error a rollback commit reports when the rollback slots it reads back do not
/// confirm the commit: recovery's error, the decoder's error, or a
/// verification failure.
pub open spec fn rollback_readback_error(after0: Seq<u8>, after1: Seq<u8>, epoch: FormatEpoch) -> ManifestRollbackError {
    match spec_recover(after0, after1, epoch) {
        Err(error) => ManifestRollbackError::Recovery(error),
        Ok(record) => match spec_decode_rollback(record.payload) {
            Err(error) => ManifestRollbackError::State(error),
            Ok(_) => ManifestRollbackError::VerificationFailed,
        },
    }
}

} // verus!

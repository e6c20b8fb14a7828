//! Boot-counter and device-health transactions on the fixed boot slots.
use vstd::prelude::*;
use crate::boot_state::{
    device_health_bytes, lemma_boot_state_round_trip, lemma_device_health_round_trip,
    spec_decode_boot_state, spec_decode_device_health, spec_encode_boot_state,
    spec_encode_device_health, BootState, BootStateError, DeviceHealthContract, DeviceHealthState,
    DeviceHealthStateError,
};
use crate::codec::{all_zero, epoch_eq, sector_eq};
use crate::io::{commit_ops, is_commit_phase, unchanged_except, DurableSectorIo, IoOp, IoPhase, PersistIoError};
use crate::layout::{FormatEpoch, Sector, BOOT_STATE_BYTES};
use crate::ledger::{boot_partition_fits, boot_reads, commit_and_read_back, load_boot_slots, spec_boot_load, LoadFailure};
use crate::record::{
    lemma_recover_after_commit, lemma_record_round_trip, lemma_recovered_slot, recover, RecoveredRecord, spec_encode_record, spec_recover, DataRecord, RecordError,
    RecoveredModel, RecoveryError,
};
use crate::superblock::SuperblockError;

verus! {

#[derive(Clone, Copy, Debug, PartialEq, Eq, Structural)]
pub enum AdvanceError {
    PartitionBounds,
    Io { phase: IoPhase, error: PersistIoError },
    Superblock(SuperblockError),
    Recovery(RecoveryError),
    BootState(BootStateError),
    DeviceHealthState(DeviceHealthStateError),
    StateGenerationMismatch,
    Encode(RecordError),
    VerificationFailed,
}

impl AdvanceError {
    /// The fixed text that describes this error.
    pub open spec fn message(self) -> Seq<char> {
        match self {
            Self::PartitionBounds => "persistent-data partition is outside the block device"@,
            Self::Io {
                phase: IoPhase::ReadSuperblock,
                error: PersistIoError::RequiresReset,
            }
            | Self::Io {
                phase: IoPhase::ReadInitialSlot | IoPhase::ReadVerificationSlot,
                error: PersistIoError::RequiresReset,
            } => "persistent-data read requires a device reset"@,
            Self::Io {
                phase: IoPhase::WriteInactiveSlot,
                error: PersistIoError::OutcomeUnknown,
            } => "persistent-data record write outcome is unknown and requires reset"@,
            Self::Io {
                phase: IoPhase::Flush,
                error: PersistIoError::OutcomeUnknown,
            } => "persistent-data flush outcome is unknown and requires reset"@,
            Self::Io {
                phase: IoPhase::ReadSuperblock,
                ..
            } => "persistent-data superblock read failed"@,
            Self::Io {
                phase: IoPhase::ReadInitialSlot,
                ..
            } => "persistent-data initial record read failed"@,
            Self::Io {
                phase: IoPhase::WriteInactiveSlot,
                ..
            } => "persistent-data inactive-slot write failed"@,
            Self::Io {
                phase: IoPhase::Flush,
                ..
            } => "persistent-data cache flush failed"@,
            Self::Io {
                phase: IoPhase::ReadVerificationSlot,
                ..
            } => "persistent-data verification read failed"@,
            Self::Superblock(error) => error.message(),
            Self::Recovery(error) => error.message(),
            Self::BootState(BootStateError::WrongSize) => {
                "persistent boot-state payload has the wrong size"@
            }
            Self::BootState(BootStateError::BadMagic) => "persistent boot-state magic is invalid"@,
            Self::BootState(BootStateError::UnsupportedVersion) => {
                "persistent boot-state version is unsupported"@
            }
            Self::BootState(BootStateError::NonZeroReserved) => {
                "persistent boot-state reserved bytes are nonzero"@
            }
            Self::BootState(BootStateError::WitnessMismatch) => {
                "persistent boot-state witness is invalid"@
            }
            Self::DeviceHealthState(error) => error.message(),
            Self::StateGenerationMismatch => {
                "persistent boot count does not match its record generation"@
            }
            Self::Encode(error) => error.message(),
            Self::VerificationFailed => {
                "persistent-data write did not survive flush and readback verification"@
            }
        }
    }

    pub fn as_str(self) -> (text: &'static str)
        ensures
            text@ == self.message(),
    {
        match self {
            Self::PartitionBounds => "persistent-data partition is outside the block device",
            Self::Io {
                phase: IoPhase::ReadSuperblock,
                error: PersistIoError::RequiresReset,
            }
            | Self::Io {
                phase: IoPhase::ReadInitialSlot | IoPhase::ReadVerificationSlot,
                error: PersistIoError::RequiresReset,
            } => "persistent-data read requires a device reset",
            Self::Io {
                phase: IoPhase::WriteInactiveSlot,
                error: PersistIoError::OutcomeUnknown,
            } => "persistent-data record write outcome is unknown and requires reset",
            Self::Io {
                phase: IoPhase::Flush,
                error: PersistIoError::OutcomeUnknown,
            } => "persistent-data flush outcome is unknown and requires reset",
            Self::Io {
                phase: IoPhase::ReadSuperblock,
                ..
            } => "persistent-data superblock read failed",
            Self::Io {
                phase: IoPhase::ReadInitialSlot,
                ..
            } => "persistent-data initial record read failed",
            Self::Io {
                phase: IoPhase::WriteInactiveSlot,
                ..
            } => "persistent-data inactive-slot write failed",
            Self::Io {
                phase: IoPhase::Flush,
                ..
            } => "persistent-data cache flush failed",
            Self::Io {
                phase: IoPhase::ReadVerificationSlot,
                ..
            } => "persistent-data verification read failed",
            Self::Superblock(error) => error.as_str(),
            Self::Recovery(error) => error.as_str(),
            Self::BootState(BootStateError::WrongSize) => {
                "persistent boot-state payload has the wrong size"
            }
            Self::BootState(BootStateError::BadMagic) => "persistent boot-state magic is invalid",
            Self::BootState(BootStateError::UnsupportedVersion) => {
                "persistent boot-state version is unsupported"
            }
            Self::BootState(BootStateError::NonZeroReserved) => {
                "persistent boot-state reserved bytes are nonzero"
            }
            Self::BootState(BootStateError::WitnessMismatch) => {
                "persistent boot-state witness is invalid"
            }
            Self::DeviceHealthState(error) => error.as_str(),
            Self::StateGenerationMismatch => {
                "persistent boot count does not match its record generation"
            }
            Self::Encode(error) => error.as_str(),
            Self::VerificationFailed => {
                "persistent-data write did not survive flush and readback verification"
            }
        }
    }
}

#[derive(Clone, Copy, Debug, PartialEq, Eq, Structural)]
pub struct AdvanceEvidence {
    pub initial_generation: u64,
    pub committed_generation: u64,
    pub initial_slot: u8,
    pub committed_slot: u8,
    pub initial_valid_slots: u8,
    pub initial_rejected_slots: u8,
    pub reads: u8,
    pub writes: u8,
    pub flushes: u8,
}

/// What one boot-slot transaction will write, decided by the slots read first.
pub struct BootCommitPlan {
    pub initial: RecoveredModel,
    pub committed_generation: u64,
    pub committed_payload: Seq<u8>,
    pub committed_sector: Seq<u8>,
    /// The payload is a device-health state rather than a bare boot count.
    pub health: bool,
}

/// Flipping the low bit of a slot index names the other slot.
pub proof fn lemma_slot_flip(slot: usize)
    requires
        slot < 2,
    ensures
        slot ^ 1usize < 2,
        slot ^ 1usize != slot,
        slot == 0 ==> slot ^ 1usize == 1,
        slot == 1 ==> slot ^ 1usize == 0,
{
    assert(slot < 2 ==> slot ^ 1usize < 2 && slot ^ 1usize != slot && (slot == 0 ==> slot ^ 1usize
        == 1) && (slot == 1 ==> slot ^ 1usize == 0)) by (bit_vector);
}

/// A boot transaction reads the device: the format epoch is nonzero, the
/// partition lies on the device, and `checks_pass` holds for the checks made
/// before any device access.
pub open spec fn boot_reads_begin(device_sectors: nat, first: u64, sectors: u64, format_epoch: FormatEpoch, checks_pass: bool) -> bool {
    &&& checks_pass
    &&& !all_zero(format_epoch@)
    &&& boot_partition_fits(first, sectors, device_sectors)
}

/// The calls a boot transaction makes when none of them fails: none when it
/// refuses before reading, the superblock read alone when the superblock is
/// refused, the superblock and both slots, and, for a commit, its calls.
pub open spec fn boot_ops(
    disk: Seq<Seq<u8>>,
    first: u64,
    sectors: u64,
    format_epoch: FormatEpoch,
    checks_pass: bool,
    plan: Option<BootCommitPlan>,
) -> Seq<IoOp> {
    if !boot_reads_begin(disk.len(), first, sectors, format_epoch, checks_pass) {
        Seq::empty()
    } else if spec_boot_load(disk, first, sectors, format_epoch) is Err {
        boot_reads(first).take(1)
    } else {
        match plan {
            None => boot_reads(first),
            Some(plan) => boot_reads(first) + commit_ops(
                boot_commit_lba(first, plan) as u64,
                plan.committed_sector,
                (first + 1) as u64,
                (first + 2) as u64,
            ),
        }
    }
}

/// The sector a boot-slot commit of `plan` writes: the inactive slot.
pub open spec fn boot_commit_lba(first: u64, plan: BootCommitPlan) -> int {
    first + 1 + (plan.initial.slot ^ 1usize)
}

/// The evidence a successful boot-slot commit of `plan` reports.
pub open spec fn committed_evidence(plan: BootCommitPlan) -> AdvanceEvidence {
    AdvanceEvidence {
        initial_generation: plan.initial.generation,
        committed_generation: plan.committed_generation,
        initial_slot: plan.initial.slot as u8,
        committed_slot: (plan.initial.slot ^ 1usize) as u8,
        initial_valid_slots: plan.initial.valid_slots,
        initial_rejected_slots: plan.initial.rejected_slots,
        reads: 5,
        writes: 1,
        flushes: 1,
    }
}

/// After a successful commit, the inactive slot holds exactly the planned
/// sector, every other sector (the previously selected slot among them) is
/// byte-for-byte unchanged, and recovery selects the planned payload at the
/// next generation.
pub open spec fn boot_commit_outcome(
    before: Seq<Seq<u8>>,
    after: Seq<Seq<u8>>,
    first: u64,
    format_epoch: FormatEpoch,
    plan: BootCommitPlan,
) -> bool {
    let selected = first + 1 + plan.initial.slot;
    let committed = first + 1 + (plan.initial.slot ^ 1usize);
    let recovered = spec_recover(after[first + 1], after[first + 2], format_epoch);
    &&& first + 2 < after.len()
    &&& after[committed] == plan.committed_sector
    &&& after[selected] == before[selected]
    &&& unchanged_except(before, after, committed)
    &&& recovered is Ok
    &&& recovered->Ok_0.slot == plan.initial.slot ^ 1usize
    &&& recovered->Ok_0.generation == plan.committed_generation
    &&& recovered->Ok_0.payload == plan.committed_payload
}

pub open spec fn load_failure_as_advance(failure: LoadFailure) -> AdvanceError {
    match failure {
        LoadFailure::PartitionBounds => AdvanceError::PartitionBounds,
        LoadFailure::Io { phase, error } => AdvanceError::Io { phase, error },
        LoadFailure::Superblock(error) => AdvanceError::Superblock(error),
    }
}

fn map_load_failure(failure: LoadFailure) -> (error: AdvanceError)
    ensures
        error == load_failure_as_advance(failure),
{
    match failure {
        LoadFailure::PartitionBounds => AdvanceError::PartitionBounds,
        LoadFailure::Io { phase, error } => AdvanceError::Io { phase, error },
        LoadFailure::Superblock(error) => AdvanceError::Superblock(error),
    }
}

/// The boot counter carried by the selected payload: a legacy boot-state
/// payload or a device-health payload, told apart by length.
pub open spec fn spec_boot_payload(payload: Seq<u8>) -> Result<
    (u64, Option<DeviceHealthState>),
    AdvanceError,
> {
    if payload.len() == 32 {
        match spec_decode_boot_state(payload) {
            Ok(state) => Ok((state.boot_count, None)),
            Err(error) => Err(AdvanceError::BootState(error)),
        }
    } else {
        match spec_decode_device_health(payload) {
            Ok(state) => Ok((state.boot_count, Some(state))),
            Err(error) => Err(AdvanceError::DeviceHealthState(error)),
        }
    }
}

/// The payload that records `generation` in the same form as before.
pub open spec fn spec_advanced_payload(generation: u64, health: Option<DeviceHealthState>) -> Result<
    Seq<u8>,
    AdvanceError,
> {
    match health {
        Some(state) => match spec_encode_device_health(
            DeviceHealthState {
                boot_count: generation,
                boot_open: state.boot_open,
                contract: state.contract,
            },
        ) {
            Ok(bytes) => Ok(bytes),
            Err(error) => Err(AdvanceError::DeviceHealthState(error)),
        },
        None => Ok(spec_encode_boot_state(BootState { boot_count: generation })),
    }
}

/// What `advance_boot_state` writes, decided by the two slots it read.
pub open spec fn spec_boot_decision(slot0: Seq<u8>, slot1: Seq<u8>, format_epoch: FormatEpoch) -> Result<
    BootCommitPlan,
    AdvanceError,
> {
    match spec_recover(slot0, slot1, format_epoch) {
        Err(error) => Err(AdvanceError::Recovery(error)),
        Ok(initial) => match spec_boot_payload(initial.payload) {
            Err(error) => Err(error),
            Ok((boot_count, health)) => if boot_count != initial.generation {
                Err(AdvanceError::StateGenerationMismatch)
            } else if initial.generation == u64::MAX {
                Err(AdvanceError::Recovery(RecoveryError::GenerationExhausted))
            } else {
                let generation = (initial.generation + 1) as u64;
                match spec_advanced_payload(generation, health) {
                    Err(error) => Err(error),
                    Ok(payload) => match spec_encode_record(format_epoch, generation, payload) {
                        Err(error) => Err(AdvanceError::Encode(error)),
                        Ok(sector) => Ok(
                            BootCommitPlan {
                                initial,
                                committed_generation: generation,
                                committed_payload: payload,
                                committed_sector: sector,
                                health: health is Some,
                            },
                        ),
                    },
                }
            },
        },
    }
}

/// The decision of `advance_boot_state`, from the device contents alone.
pub open spec fn spec_boot_advance_plan(
    disk: Seq<Seq<u8>>,
    first: u64,
    sectors: u64,
    format_epoch: FormatEpoch,
) -> Result<BootCommitPlan, AdvanceError> {
    match spec_boot_load(disk, first, sectors, format_epoch) {
        Err(failure) => Err(load_failure_as_advance(failure)),
        Ok(()) => spec_boot_decision(disk[first + 1], disk[first + 2], format_epoch),
    }
}

/// The readback of both slots shows exactly the planned commit.
pub open spec fn readback_matches(
    before0: Seq<u8>,
    before1: Seq<u8>,
    after0: Seq<u8>,
    after1: Seq<u8>,
    format_epoch: FormatEpoch,
    plan: BootCommitPlan,
) -> bool {
    let committed = if plan.initial.slot == 0 { after1 } else { after0 };
    let preserved_before = if plan.initial.slot == 0 { before0 } else { before1 };
    let preserved_after = if plan.initial.slot == 0 { after0 } else { after1 };
    let recovered = spec_recover(after0, after1, format_epoch);
    &&& committed == plan.committed_sector
    &&& preserved_after == preserved_before
    &&& recovered is Ok
    &&& recovered->Ok_0.slot == plan.initial.slot ^ 1usize
    &&& recovered->Ok_0.generation == plan.committed_generation
    &&& recovered->Ok_0.payload == plan.committed_payload
}

/// The decided commit, with the selected record still borrowing its slot.
/// `expected` is the committed device-health state, or `None` when a legacy
/// boot-state payload is committed.
struct PreparedBootCommit<'a> {
    initial: RecoveredRecord<'a>,
    committed_generation: u64,
    committed_sector: Sector,
    expected: Option<DeviceHealthState>,
}

/// Why the readback of a boot-slot commit was rejected.
#[derive(Clone, Copy, Debug, PartialEq, Eq, Structural)]
enum ReadbackFailure {
    Recovery(RecoveryError),
    BootState(BootStateError),
    DeviceHealthState(DeviceHealthStateError),
    Mismatch,
}

fn prepare_boot_advance<'a>(
    slot0: &'a Sector,
    slot1: &'a Sector,
    expected_format_epoch: FormatEpoch,
) -> (result: Result<PreparedBootCommit<'a>, AdvanceError>)
    ensures
        match spec_boot_decision(slot0@, slot1@, expected_format_epoch) {
            Err(error) => result == Err::<PreparedBootCommit<'a>, AdvanceError>(error),
            Ok(plan) => {
                &&& result is Ok
                &&& result->Ok_0.initial@ == plan.initial
                &&& result->Ok_0.committed_generation == plan.committed_generation
                &&& result->Ok_0.committed_sector@ == plan.committed_sector
                &&& plan.initial.slot < 2
                &&& spec_encode_record(expected_format_epoch, plan.committed_generation, plan.committed_payload)
                    == Ok::<Seq<u8>, RecordError>(plan.committed_sector)
                &&& expected_matches(result->Ok_0.expected, plan)
            },
        },
{
    let initial = match recover([slot0, slot1], expected_format_epoch) {
        Ok(record) => record,
        Err(error) => return Err(AdvanceError::Recovery(error)),
    };
    proof {
        lemma_recovered_slot(slot0@, slot1@, expected_format_epoch);
    }
    let (initial_boot_count, initial_health) = if initial.payload.len() == BOOT_STATE_BYTES {
        match BootState::decode(initial.payload) {
            Ok(state) => (state.boot_count, None),
            Err(error) => return Err(AdvanceError::BootState(error)),
        }
    } else {
        match DeviceHealthState::decode(initial.payload) {
            Ok(state) => (state.boot_count, Some(state)),
            Err(error) => return Err(AdvanceError::DeviceHealthState(error)),
        }
    };
    if initial_boot_count != initial.generation {
        return Err(AdvanceError::StateGenerationMismatch);
    }
    let committed_generation = match initial.next_generation() {
        Ok(generation) => generation,
        Err(error) => return Err(AdvanceError::Recovery(error)),
    };
    let committed_sector = match initial_health {
        Some(state) => {
            let committed_state = match (DeviceHealthState {
                boot_count: committed_generation,
                boot_open: state.boot_open,
                contract: state.contract,
            }).encode() {
                Ok(bytes) => bytes,
                Err(error) => return Err(AdvanceError::DeviceHealthState(error)),
            };
            match DataRecord::encode(
                expected_format_epoch,
                committed_generation,
                &committed_state,
            ) {
                Ok(sector) => sector,
                Err(error) => return Err(AdvanceError::Encode(error)),
            }
        },
        None => {
            let committed_state = BootState { boot_count: committed_generation }.encode();
            match DataRecord::encode(
                expected_format_epoch,
                committed_generation,
                &committed_state,
            ) {
                Ok(sector) => sector,
                Err(error) => return Err(AdvanceError::Encode(error)),
            }
        },
    };
    let expected = match initial_health {
        Some(state) => Some(
            DeviceHealthState {
                boot_count: committed_generation,
                boot_open: state.boot_open,
                contract: state.contract,
            },
        ),
        None => None,
    };
    Ok(PreparedBootCommit { initial, committed_generation, committed_sector, expected })
}

/// The committed payload is the encoding of `expected`, or of the boot
/// counter alone when there is no expected device-health state.
pub open spec fn expected_matches(expected: Option<DeviceHealthState>, plan: BootCommitPlan) -> bool {
    match expected {
        Some(state) => plan.health && state.boot_count == plan.committed_generation && spec_encode_device_health(
            state,
        ) == Ok::<Seq<u8>, DeviceHealthStateError>(plan.committed_payload),
        None => !plan.health && plan.committed_payload == spec_encode_boot_state(
            BootState { boot_count: plan.committed_generation },
        ),
    }
}

/// Why the readback of both boot slots fails to confirm a commit: recovery's
/// error, the decoder's error for the payload kind written, or a mismatch.
spec fn boot_readback_failure(after0: Seq<u8>, after1: Seq<u8>, epoch: FormatEpoch, health: bool) -> ReadbackFailure {
    match spec_recover(after0, after1, epoch) {
        Err(error) => ReadbackFailure::Recovery(error),
        Ok(record) => if health {
            match spec_decode_device_health(record.payload) {
                Err(error) => ReadbackFailure::DeviceHealthState(error),
                Ok(_) => ReadbackFailure::Mismatch,
            }
        } else {
            match spec_decode_boot_state(record.payload) {
                Err(error) => ReadbackFailure::BootState(error),
                Ok(_) => ReadbackFailure::Mismatch,
            }
        },
    }
}

/// The error a boot advance reports when the boot slots it reads back do not
/// confirm the commit.
pub open spec fn advance_readback_error(after0: Seq<u8>, after1: Seq<u8>, epoch: FormatEpoch, health: bool) -> AdvanceError {
    match spec_recover(after0, after1, epoch) {
        Err(error) => AdvanceError::Recovery(error),
        Ok(record) => if health {
            match spec_decode_device_health(record.payload) {
                Err(error) => AdvanceError::DeviceHealthState(error),
                Ok(_) => AdvanceError::VerificationFailed,
            }
        } else {
            match spec_decode_boot_state(record.payload) {
                Err(error) => AdvanceError::BootState(error),
                Ok(_) => AdvanceError::VerificationFailed,
            }
        },
    }
}

/// The error a device-health advance reports when the boot slots it reads
/// back do not confirm the commit.
pub open spec fn health_readback_error(after0: Seq<u8>, after1: Seq<u8>, epoch: FormatEpoch) -> DeviceHealthAdvanceError {
    match spec_recover(after0, after1, epoch) {
        Err(error) => DeviceHealthAdvanceError::Recovery(error),
        Ok(record) => match spec_decode_device_health(record.payload) {
            Err(error) => DeviceHealthAdvanceError::DeviceHealthState(error),
            Ok(_) => DeviceHealthAdvanceError::VerificationFailed,
        },
    }
}

/// The error a clean-shutdown close reports when the boot slots it reads back
/// do not confirm the commit.
pub open spec fn close_readback_error(after0: Seq<u8>, after1: Seq<u8>, epoch: FormatEpoch) -> DeviceHealthCloseError {
    match spec_recover(after0, after1, epoch) {
        Err(error) => DeviceHealthCloseError::Recovery(error),
        Ok(record) => match spec_decode_device_health(record.payload) {
            Err(error) => DeviceHealthCloseError::DeviceHealthState(error),
            Ok(_) => DeviceHealthCloseError::VerificationFailed,
        },
    }
}

/// Checks the readback of both slots against the planned commit.
fn check_boot_readback(
    prepared: &PreparedBootCommit,
    slot0: &Sector,
    slot1: &Sector,
    verified0: &Sector,
    verified1: &Sector,
    expected_format_epoch: FormatEpoch,
    Ghost(plan): Ghost<BootCommitPlan>,
) -> (result: Result<(), ReadbackFailure>)
    requires
        prepared.initial@ == plan.initial,
        plan.initial.slot < 2,
        prepared.committed_generation == plan.committed_generation,
        prepared.committed_sector@ == plan.committed_sector,
        spec_encode_record(expected_format_epoch, plan.committed_generation, plan.committed_payload)
            == Ok::<Seq<u8>, RecordError>(plan.committed_sector),
        spec_recover(slot0@, slot1@, expected_format_epoch) == Ok::<RecoveredModel, RecoveryError>(
            plan.initial,
        ),
        plan.initial.generation < u64::MAX,
        plan.committed_generation == plan.initial.generation + 1,
        expected_matches(prepared.expected, plan),
    ensures
        result is Ok ==> readback_matches(
            slot0@,
            slot1@,
            verified0@,
            verified1@,
            expected_format_epoch,
            plan,
        ),
        result is Err ==> result->Err_0 == boot_readback_failure(verified0@, verified1@, expected_format_epoch, plan.health),
        ({
            let committed = if plan.initial.slot == 0 { verified1@ } else { verified0@ };
            let preserved_after = if plan.initial.slot == 0 { verified0@ } else { verified1@ };
            let preserved_before = if plan.initial.slot == 0 { slot0@ } else { slot1@ };
            committed == plan.committed_sector && preserved_after == preserved_before ==> result is Ok
        }),
{
    let committed_slot = prepared.initial.inactive_slot();
    proof {
        lemma_slot_flip(prepared.initial.slot);
        lemma_record_round_trip(expected_format_epoch, plan.committed_generation, plan.committed_payload);
        let committed = if plan.initial.slot == 0 { verified1@ } else { verified0@ };
        let preserved_after = if plan.initial.slot == 0 { verified0@ } else { verified1@ };
        let preserved_before = if plan.initial.slot == 0 { slot0@ } else { slot1@ };
        if committed == plan.committed_sector && preserved_after == preserved_before {
            lemma_recover_after_commit(
                slot0@,
                slot1@,
                verified0@,
                verified1@,
                expected_format_epoch,
                plan.committed_payload,
            );
            match prepared.expected {
                Some(state) => lemma_device_health_round_trip(state),
                None => lemma_boot_state_round_trip(BootState { boot_count: plan.committed_generation }),
            }
        }
    }
    let verified = match recover([verified0, verified1], expected_format_epoch) {
        Ok(record) => record,
        Err(error) => return Err(ReadbackFailure::Recovery(error)),
    };
    proof {
        lemma_recovered_slot(verified0@, verified1@, expected_format_epoch);
    }
    let verified_boot_count = match prepared.expected {
        Some(expected_state) => {
            let verified_state = match DeviceHealthState::decode(verified.payload) {
                Ok(state) => state,
                Err(error) => return Err(ReadbackFailure::DeviceHealthState(error)),
            };
            if verified_state != expected_state {
                return Err(ReadbackFailure::Mismatch);
            }
            verified_state.boot_count
        },
        None => match BootState::decode(verified.payload) {
            Ok(state) => state.boot_count,
            Err(error) => return Err(ReadbackFailure::BootState(error)),
        },
    };
    let preserved_same = if prepared.initial.slot == 0 {
        sector_eq(verified0, slot0)
    } else {
        sector_eq(verified1, slot1)
    };
    let committed_same = if committed_slot == 0 {
        sector_eq(verified0, &prepared.committed_sector)
    } else {
        sector_eq(verified1, &prepared.committed_sector)
    };
    proof {
        let committed = if plan.initial.slot == 0 { verified1@ } else { verified0@ };
        let preserved_after = if plan.initial.slot == 0 { verified0@ } else { verified1@ };
        let preserved_before = if plan.initial.slot == 0 { slot0@ } else { slot1@ };
        if committed == plan.committed_sector && preserved_after == preserved_before {
            if plan.initial.slot == 0 {
                assert(*verified0 =~= *slot0);
                assert(*verified1 =~= prepared.committed_sector);
            } else {
                assert(*verified1 =~= *slot1);
                assert(*verified0 =~= prepared.committed_sector);
            }
        }
    }
    if verified.slot != committed_slot || verified.generation != prepared.committed_generation
        || !epoch_eq(&verified.format_epoch, &expected_format_epoch) || verified_boot_count
        != prepared.committed_generation || !preserved_same || !committed_same {
        return Err(ReadbackFailure::Mismatch);
    }
    Ok(())
}

/// Writes the prepared sector to the inactive slot, flushes, and checks the
/// readback of both slots.
fn commit_boot_slot<D: DurableSectorIo>(
    io: &mut D,
    partition_first_lba: u64,
    prepared: &PreparedBootCommit,
    slot0: &Sector,
    slot1: &Sector,
    expected_format_epoch: FormatEpoch,
    Ghost(plan): Ghost<BootCommitPlan>,
) -> (result: Result<(), BootCommitFailure>)
    requires
        partition_first_lba + 2 <= u64::MAX,
        prepared.initial@ == plan.initial,
        plan.initial.slot < 2,
        prepared.committed_generation == plan.committed_generation,
        prepared.committed_sector@ == plan.committed_sector,
        spec_encode_record(expected_format_epoch, plan.committed_generation, plan.committed_payload)
            == Ok::<Seq<u8>, RecordError>(plan.committed_sector),
        slot0@ == old(io).sectors()[partition_first_lba + 1],
        slot1@ == old(io).sectors()[partition_first_lba + 2],
        spec_recover(slot0@, slot1@, expected_format_epoch) == Ok::<RecoveredModel, RecoveryError>(
            plan.initial,
        ),
        plan.initial.generation < u64::MAX,
        plan.committed_generation == plan.initial.generation + 1,
        expected_matches(prepared.expected, plan),
    ensures
        unchanged_except(old(io).sectors(), final(io).sectors(), boot_commit_lba(partition_first_lba, plan)),
        result matches Err(BootCommitFailure::Io { phase, .. }) ==> is_commit_phase(phase),
        ({
            let ops = commit_ops(
                boot_commit_lba(partition_first_lba, plan) as u64,
                plan.committed_sector,
                (partition_first_lba + 1) as u64,
                (partition_first_lba + 2) as u64,
            );
            &&& result is Ok || result->Err_0 is Readback ==> final(io).log() == old(io).log() + ops
            &&& result is Err && result->Err_0 is Io && result->Err_0->phase == IoPhase::WriteInactiveSlot
                ==> final(io).log() == old(io).log() + ops.take(1)
            &&& result is Err && result->Err_0 is Io && result->Err_0->phase == IoPhase::Flush
                ==> final(io).log() == old(io).log() + ops.take(2)
        }),
        final(io).sectors()[boot_commit_lba(partition_first_lba, plan)] == plan.committed_sector ==> (
        result is Ok || result is Err && result->Err_0 is Io),
        result matches Err(BootCommitFailure::Readback(failure)) ==> failure == boot_readback_failure(
            final(io).sectors()[partition_first_lba + 1],
            final(io).sectors()[partition_first_lba + 2],
            expected_format_epoch,
            plan.health,
        ),
        result is Ok ==> boot_commit_outcome(
            old(io).sectors(),
            final(io).sectors(),
            partition_first_lba,
            expected_format_epoch,
            plan,
        ),
{
    proof {
        lemma_slot_flip(prepared.initial.slot);
    }
    let committed_slot = prepared.initial.inactive_slot();
    let first_lba = partition_first_lba + 1;
    let second_lba = partition_first_lba + 2;
    let committed_lba = if committed_slot == 0 {
        first_lba
    } else {
        second_lba
    };
    let (verified0, verified1) = match commit_and_read_back(
        io,
        committed_lba,
        &prepared.committed_sector,
        first_lba,
        second_lba,
    ) {
        Ok(slots) => slots,
        Err((phase, error)) => return Err(BootCommitFailure::Io { phase, error }),
    };
    match check_boot_readback(
        prepared,
        slot0,
        slot1,
        &verified0,
        &verified1,
        expected_format_epoch,
        Ghost(plan),
    ) {
        Ok(()) => Ok(()),
        Err(failure) => Err(BootCommitFailure::Readback(failure)),
    }
}

/// Whatever a boot-slot commit returns, the slot that recovery selected before
/// it is byte-for-byte intact: the commit writes the inactive slot only.
pub proof fn lemma_boot_commit_spares_selected_slot(
    before: Seq<Seq<u8>>,
    after: Seq<Seq<u8>>,
    first: u64,
    plan: BootCommitPlan,
)
    requires
        plan.initial.slot < 2,
        first + 2 < before.len(),
        unchanged_except(before, after, boot_commit_lba(first, plan)),
    ensures
        after[first + 1 + plan.initial.slot] == before[first + 1 + plan.initial.slot],
{
    lemma_slot_flip(plan.initial.slot);
}

/// A boot advance counts exactly one boot: the payload it commits (the one
/// recovery selects afterwards) reads back in the same form as the payload it
/// replaced, its counter is one past the replaced generation and equals the
/// committed record generation, and a device-health payload keeps its open
/// flag and device contract.
pub proof fn lemma_boot_advance_counts_one_boot(
    slot0: Seq<u8>,
    slot1: Seq<u8>,
    format_epoch: FormatEpoch,
)
    requires
        spec_boot_decision(slot0, slot1, format_epoch) is Ok,
    ensures
        ({
            let plan = spec_boot_decision(slot0, slot1, format_epoch)->Ok_0;
            let before = spec_boot_payload(plan.initial.payload);
            let after = spec_boot_payload(plan.committed_payload);
            &&& plan.committed_generation == plan.initial.generation + 1
            &&& before is Ok
            &&& after is Ok
            &&& after->Ok_0.0 == plan.committed_generation
            &&& match (before->Ok_0.1, after->Ok_0.1) {
                (None, None) => true,
                (Some(previous), Some(next)) => next.boot_open == previous.boot_open
                    && next.contract == previous.contract,
                _ => false,
            }
        }),
{
    let initial = spec_recover(slot0, slot1, format_epoch)->Ok_0;
    let generation = (initial.generation + 1) as u64;
    match spec_boot_payload(initial.payload)->Ok_0.1 {
        None => {
            lemma_boot_state_round_trip(BootState { boot_count: generation });
        },
        Some(state) => {
            reveal(spec_decode_device_health);
            let next = DeviceHealthState {
                boot_count: generation,
                boot_open: state.boot_open,
                contract: state.contract,
            };
            lemma_device_health_round_trip(next);
            assert(device_health_bytes(next).len() != 32);
        },
    }
}

/// Why a boot-slot commit did not complete.
#[derive(Clone, Copy, Debug, PartialEq, Eq, Structural)]
enum BootCommitFailure {
    Io { phase: IoPhase, error: PersistIoError },
    Readback(ReadbackFailure),
}

/// A failure of the commit after the reads: an I/O error while writing,
/// flushing or reading back, or a readback that does not show the commit.
pub open spec fn is_boot_commit_failure(error: AdvanceError) -> bool {
    match error {
        AdvanceError::Io { phase, .. } => is_commit_phase(phase),
        AdvanceError::Recovery(_) | AdvanceError::BootState(_) | AdvanceError::DeviceHealthState(_)
        | AdvanceError::VerificationFailed => true,
        _ => false,
    }
}

/// A failure of one of the reads before any write.
pub open spec fn is_initial_read_error(error: AdvanceError) -> bool {
    match error {
        AdvanceError::Io { phase, .. } => phase == IoPhase::ReadSuperblock || phase
            == IoPhase::ReadInitialSlot,
        _ => false,
    }
}

/// Advances the durable boot counter using the inactive record slot.
///
/// The old selected sector is kept byte-for-byte intact. A successful return
/// therefore proves the strict sequence WRITE completion -> FLUSH completion
/// -> readback and that recovery selects the new generation. It does not claim
/// general filesystem crash consistency or exactly-once behavior after an
/// indeterminate device timeout.
#[verifier::spinoff_prover]
#[verifier::rlimit(80)]
pub fn advance_boot_state<D: DurableSectorIo>(
    io: &mut D,
    partition_first_lba: u64,
    partition_sectors: u64,
    expected_format_epoch: FormatEpoch,
) -> (result: Result<AdvanceEvidence, AdvanceError>)
    ensures
        result is Err && is_initial_read_error(result->Err_0) ==> old(io).log().len() < final(io).log().len(),
        ({
            let plan = spec_boot_advance_plan(
                old(io).sectors(),
                partition_first_lba,
                partition_sectors,
                expected_format_epoch,
            );
            let ops = boot_ops(
                old(io).sectors(),
                partition_first_lba,
                partition_sectors,
                expected_format_epoch,
                true,
                if plan is Ok { Some(plan->Ok_0) } else { None },
            );
            &&& result is Ok || !(result->Err_0 is Io) ==> final(io).log() == old(io).log() + ops
            &&& result is Err && result->Err_0 is Io && result->Err_0->phase == IoPhase::WriteInactiveSlot
                ==> final(io).log() == old(io).log() + ops.take(ops.len() - 3)
            &&& result is Err && result->Err_0 is Io && result->Err_0->phase == IoPhase::Flush
                ==> final(io).log() == old(io).log() + ops.take(ops.len() - 2)
        }),
        match spec_boot_advance_plan(
            old(io).sectors(),
            partition_first_lba,
            partition_sectors,
            expected_format_epoch,
        ) {
            Err(error) => {
                &&& final(io).sectors() == old(io).sectors()
                &&& (result == Err::<AdvanceEvidence, AdvanceError>(error) || (result is Err
                    && is_initial_read_error(result->Err_0)))
                &&& !boot_reads_begin(
                    old(io).sectors().len(),
                    partition_first_lba,
                    partition_sectors,
                    expected_format_epoch,
                    true,
                ) ==> result == Err::<AdvanceEvidence, AdvanceError>(error)
            },
            Ok(plan) => match result {
                Ok(evidence) => {
                    &&& evidence == committed_evidence(plan)
                    &&& boot_commit_outcome(
                        old(io).sectors(),
                        final(io).sectors(),
                        partition_first_lba,
                        expected_format_epoch,
                        plan,
                    )
                },
                Err(error) => unchanged_except(
                    old(io).sectors(),
                    final(io).sectors(),
                    boot_commit_lba(partition_first_lba, plan),
                ) && (is_initial_read_error(error) || is_boot_commit_failure(error)) && (final(io).sectors()[boot_commit_lba(
                    partition_first_lba,
                    plan,
                )] == plan.committed_sector ==> error is Io) && (!(error is Io) && !is_initial_read_error(error) ==> error
                    == advance_readback_error(
                    final(io).sectors()[partition_first_lba + 1],
                    final(io).sectors()[partition_first_lba + 2],
                    expected_format_epoch, plan.health,
                )),
            },
        },
{
    let ghost disk = io.sectors();
    let ghost start = io.log();
    let (slot0, slot1) = match load_boot_slots(
        io,
        partition_first_lba,
        partition_sectors,
        expected_format_epoch,
    ) {
        Ok(slots) => slots,
        Err(failure) => return Err(map_load_failure(failure)),
    };
    let prepared = prepare_boot_advance(&slot0, &slot1, expected_format_epoch)?;
    let ghost plan = spec_boot_decision(slot0@, slot1@, expected_format_epoch)->Ok_0;
    proof {
        lemma_slot_flip(prepared.initial.slot);
    }
    proof {
        let reads = boot_reads(partition_first_lba);
        let calls = commit_ops(
            boot_commit_lba(partition_first_lba, plan) as u64,
            plan.committed_sector,
            (partition_first_lba + 1) as u64,
            (partition_first_lba + 2) as u64,
        );
        assert(start + reads + calls.take(1) =~= start + (reads + calls).take(4));
        assert(start + reads + calls.take(2) =~= start + (reads + calls).take(5));
        assert(start + reads + calls =~= start + (reads + calls));
    }
    match commit_boot_slot(
        io,
        partition_first_lba,
        &prepared,
        &slot0,
        &slot1,
        expected_format_epoch,
        Ghost(plan),
    ) {
        Ok(()) => {},
        Err(BootCommitFailure::Io { phase, error }) => return Err(AdvanceError::Io { phase, error }),
        Err(BootCommitFailure::Readback(failure)) => return Err(
            match failure {
                ReadbackFailure::Recovery(error) => AdvanceError::Recovery(error),
                ReadbackFailure::BootState(error) => AdvanceError::BootState(error),
                ReadbackFailure::DeviceHealthState(error) => AdvanceError::DeviceHealthState(error),
                ReadbackFailure::Mismatch => AdvanceError::VerificationFailed,
            },
        ),
    }
    Ok(
        AdvanceEvidence {
            initial_generation: prepared.initial.generation,
            committed_generation: prepared.committed_generation,
            initial_slot: prepared.initial.slot as u8,
            committed_slot: prepared.initial.inactive_slot() as u8,
            initial_valid_slots: prepared.initial.valid_slots,
            initial_rejected_slots: prepared.initial.rejected_slots,
            reads: 5,
            writes: 1,
            flushes: 1,
        },
    )
}

#[derive(Clone, Copy, Debug, PartialEq, Eq, Structural)]
pub enum DeviceHealthAdvanceError {
    PartitionBounds,
    Io { phase: IoPhase, error: PersistIoError },
    Superblock(SuperblockError),
    Recovery(RecoveryError),
    LegacyBootState(BootStateError),
    DeviceHealthState(DeviceHealthStateError),
    StateGenerationMismatch,
    Encode(RecordError),
    VerificationFailed,
}

impl DeviceHealthAdvanceError {
    /// The fixed text that describes this error.
    pub open spec fn message(self) -> Seq<char> {
        match self {
            Self::PartitionBounds => {
                "persistent device-health partition is outside the block device"@
            }
            Self::Io {
                phase: IoPhase::ReadSuperblock,
                error: PersistIoError::RequiresReset,
            }
            | Self::Io {
                phase: IoPhase::ReadInitialSlot | IoPhase::ReadVerificationSlot,
                error: PersistIoError::RequiresReset,
            } => "persistent device-health read requires a device reset"@,
            Self::Io {
                phase: IoPhase::WriteInactiveSlot,
                error: PersistIoError::OutcomeUnknown,
            } => "persistent device-health write outcome is unknown and requires reset"@,
            Self::Io {
                phase: IoPhase::Flush,
                error: PersistIoError::OutcomeUnknown,
            } => "persistent device-health flush outcome is unknown and requires reset"@,
            Self::Io {
                phase: IoPhase::ReadSuperblock,
                ..
            } => "persistent device-health superblock read failed"@,
            Self::Io {
                phase: IoPhase::ReadInitialSlot,
                ..
            } => "persistent device-health initial record read failed"@,
            Self::Io {
                phase: IoPhase::WriteInactiveSlot,
                ..
            } => "persistent device-health inactive-slot write failed"@,
            Self::Io {
                phase: IoPhase::Flush,
                ..
            } => "persistent device-health cache flush failed"@,
            Self::Io {
                phase: IoPhase::ReadVerificationSlot,
                ..
            } => "persistent device-health verification read failed"@,
            Self::Superblock(error) => error.message(),
            Self::Recovery(error) => error.message(),
            Self::LegacyBootState(BootStateError::WrongSize) => {
                "legacy persistent boot-state has the wrong size"@
            }
            Self::LegacyBootState(BootStateError::BadMagic) => {
                "legacy persistent boot-state magic is invalid"@
            }
            Self::LegacyBootState(BootStateError::UnsupportedVersion) => {
                "legacy persistent boot-state version is unsupported"@
            }
            Self::LegacyBootState(BootStateError::NonZeroReserved) => {
                "legacy persistent boot-state reserved bytes are nonzero"@
            }
            Self::LegacyBootState(BootStateError::WitnessMismatch) => {
                "legacy persistent boot-state witness is invalid"@
            }
            Self::DeviceHealthState(error) => error.message(),
            Self::StateGenerationMismatch => {
                "persistent device-health boot count does not match its record generation"@
            }
            Self::Encode(error) => error.message(),
            Self::VerificationFailed => {
                "persistent device-health write did not survive flush and readback verification"@
            }
        }
    }

    pub fn as_str(self) -> (text: &'static str)
        ensures
            text@ == self.message(),
    {
        match self {
            Self::PartitionBounds => {
                "persistent device-health partition is outside the block device"
            }
            Self::Io {
                phase: IoPhase::ReadSuperblock,
                error: PersistIoError::RequiresReset,
            }
            | Self::Io {
                phase: IoPhase::ReadInitialSlot | IoPhase::ReadVerificationSlot,
                error: PersistIoError::RequiresReset,
            } => "persistent device-health read requires a device reset",
            Self::Io {
                phase: IoPhase::WriteInactiveSlot,
                error: PersistIoError::OutcomeUnknown,
            } => "persistent device-health write outcome is unknown and requires reset",
            Self::Io {
                phase: IoPhase::Flush,
                error: PersistIoError::OutcomeUnknown,
            } => "persistent device-health flush outcome is unknown and requires reset",
            Self::Io {
                phase: IoPhase::ReadSuperblock,
                ..
            } => "persistent device-health superblock read failed",
            Self::Io {
                phase: IoPhase::ReadInitialSlot,
                ..
            } => "persistent device-health initial record read failed",
            Self::Io {
                phase: IoPhase::WriteInactiveSlot,
                ..
            } => "persistent device-health inactive-slot write failed",
            Self::Io {
                phase: IoPhase::Flush,
                ..
            } => "persistent device-health cache flush failed",
            Self::Io {
                phase: IoPhase::ReadVerificationSlot,
                ..
            } => "persistent device-health verification read failed",
            Self::Superblock(error) => error.as_str(),
            Self::Recovery(error) => error.as_str(),
            Self::LegacyBootState(BootStateError::WrongSize) => {
                "legacy persistent boot-state has the wrong size"
            }
            Self::LegacyBootState(BootStateError::BadMagic) => {
                "legacy persistent boot-state magic is invalid"
            }
            Self::LegacyBootState(BootStateError::UnsupportedVersion) => {
                "legacy persistent boot-state version is unsupported"
            }
            Self::LegacyBootState(BootStateError::NonZeroReserved) => {
                "legacy persistent boot-state reserved bytes are nonzero"
            }
            Self::LegacyBootState(BootStateError::WitnessMismatch) => {
                "legacy persistent boot-state witness is invalid"
            }
            Self::DeviceHealthState(error) => error.as_str(),
            Self::StateGenerationMismatch => {
                "persistent device-health boot count does not match its record generation"
            }
            Self::Encode(error) => error.as_str(),
            Self::VerificationFailed => {
                "persistent device-health write did not survive flush and readback verification"
            }
        }
    }
}

#[derive(Clone, Copy, Debug, PartialEq, Eq, Structural)]
pub struct DeviceHealthAdvanceEvidence {
    pub persistence: AdvanceEvidence,
    pub legacy_upgrade: bool,
    pub persisted_contract_present: bool,
    pub prior_boot_open: bool,
    pub contract_changed: bool,
    pub reprobe_required: bool,
    pub reprobe_verified: bool,
    pub current_boot_open: bool,
    pub offline_persisted: bool,
    pub offline_from_record: bool,
    pub current_contract: DeviceHealthContract,
}

/// The hints a previous boot's record contributes: legacy upgrade, contract
/// present, previous boot left open, contract changed.
pub struct HealthHints {
    pub legacy_upgrade: bool,
    pub persisted_contract_present: bool,
    pub prior_boot_open: bool,
    pub contract_changed: bool,
}

/// The boot counter and hints carried by the selected payload.
pub open spec fn spec_health_payload(payload: Seq<u8>, current: DeviceHealthContract) -> Result<
    (u64, HealthHints),
    DeviceHealthAdvanceError,
> {
    if payload.len() == 32 {
        match spec_decode_boot_state(payload) {
            Ok(legacy) => Ok(
                (
                    legacy.boot_count,
                    HealthHints {
                        legacy_upgrade: true,
                        persisted_contract_present: false,
                        prior_boot_open: false,
                        contract_changed: false,
                    },
                ),
            ),
            Err(error) => Err(DeviceHealthAdvanceError::LegacyBootState(error)),
        }
    } else {
        match spec_decode_device_health(payload) {
            Ok(state) => Ok(
                (
                    state.boot_count,
                    HealthHints {
                        legacy_upgrade: false,
                        persisted_contract_present: true,
                        prior_boot_open: state.boot_open,
                        contract_changed: state.contract != current,
                    },
                ),
            ),
            Err(error) => Err(DeviceHealthAdvanceError::DeviceHealthState(error)),
        }
    }
}

/// The sector a device-health commit writes for `state` at its generation.
pub open spec fn spec_health_commit(
    initial: RecoveredModel,
    state: DeviceHealthState,
    format_epoch: FormatEpoch,
) -> Result<BootCommitPlan, Result<DeviceHealthStateError, RecordError>> {
    match spec_encode_device_health(state) {
        Err(error) => Err(Ok(error)),
        Ok(payload) => match spec_encode_record(format_epoch, state.boot_count, payload) {
            Err(error) => Err(Err(error)),
            Ok(sector) => Ok(
                BootCommitPlan {
                    initial,
                    committed_generation: state.boot_count,
                    committed_payload: payload,
                    committed_sector: sector,
                    health: true,
                },
            ),
        },
    }
}

/// What `advance_device_health_after_reprobe` writes, decided by the two slots.
pub open spec fn spec_health_advance_decision(
    slot0: Seq<u8>,
    slot1: Seq<u8>,
    format_epoch: FormatEpoch,
    current: DeviceHealthContract,
) -> Result<(BootCommitPlan, HealthHints), DeviceHealthAdvanceError> {
    match spec_recover(slot0, slot1, format_epoch) {
        Err(error) => Err(DeviceHealthAdvanceError::Recovery(error)),
        Ok(initial) => match spec_health_payload(initial.payload, current) {
            Err(error) => Err(error),
            Ok((boot_count, hints)) => if boot_count != initial.generation {
                Err(DeviceHealthAdvanceError::StateGenerationMismatch)
            } else if initial.generation == u64::MAX {
                Err(DeviceHealthAdvanceError::Recovery(RecoveryError::GenerationExhausted))
            } else {
                let state = DeviceHealthState {
                    boot_count: (initial.generation + 1) as u64,
                    boot_open: true,
                    contract: current,
                };
                match spec_health_commit(initial, state, format_epoch) {
                    Err(Ok(error)) => Err(DeviceHealthAdvanceError::DeviceHealthState(error)),
                    Err(Err(error)) => Err(DeviceHealthAdvanceError::Encode(error)),
                    Ok(plan) => Ok((plan, hints)),
                }
            },
        },
    }
}

pub open spec fn load_failure_as_health_advance(failure: LoadFailure) -> DeviceHealthAdvanceError {
    match failure {
        LoadFailure::PartitionBounds => DeviceHealthAdvanceError::PartitionBounds,
        LoadFailure::Io { phase, error } => DeviceHealthAdvanceError::Io { phase, error },
        LoadFailure::Superblock(error) => DeviceHealthAdvanceError::Superblock(error),
    }
}

/// The decision of `advance_device_health_after_reprobe`, from the device
/// contents alone.
pub open spec fn spec_health_advance_plan(
    disk: Seq<Seq<u8>>,
    first: u64,
    sectors: u64,
    format_epoch: FormatEpoch,
    current: DeviceHealthContract,
) -> Result<(BootCommitPlan, HealthHints), DeviceHealthAdvanceError> {
    if current.spec_validate() is Err {
        Err(DeviceHealthAdvanceError::DeviceHealthState(DeviceHealthStateError::InvalidContract))
    } else {
        match spec_boot_load(disk, first, sectors, format_epoch) {
            Err(failure) => Err(load_failure_as_health_advance(failure)),
            Ok(()) => spec_health_advance_decision(
                disk[first + 1],
                disk[first + 2],
                format_epoch,
                current,
            ),
        }
    }
}

pub open spec fn health_advance_evidence(
    plan: BootCommitPlan,
    hints: HealthHints,
    current: DeviceHealthContract,
) -> DeviceHealthAdvanceEvidence {
    DeviceHealthAdvanceEvidence {
        persistence: committed_evidence(plan),
        legacy_upgrade: hints.legacy_upgrade,
        persisted_contract_present: hints.persisted_contract_present,
        prior_boot_open: hints.prior_boot_open,
        contract_changed: hints.contract_changed,
        reprobe_required: hints.prior_boot_open || hints.contract_changed,
        reprobe_verified: true,
        current_boot_open: true,
        offline_persisted: false,
        offline_from_record: false,
        current_contract: current,
    }
}

/// Prepares the commit of a device-health state from a verified record.
fn prepare_health_commit<'a>(
    initial: RecoveredRecord<'a>,
    state: DeviceHealthState,
    expected_format_epoch: FormatEpoch,
) -> (result: Result<PreparedBootCommit<'a>, Result<DeviceHealthStateError, RecordError>>)
    ensures
        match spec_health_commit(initial@, state, expected_format_epoch) {
            Err(error) => result is Err && result->Err_0 == error,
            Ok(plan) => {
                &&& result is Ok
                &&& result->Ok_0.initial@ == plan.initial
                &&& result->Ok_0.initial == initial
                &&& result->Ok_0.committed_generation == plan.committed_generation
                &&& result->Ok_0.committed_sector@ == plan.committed_sector
                &&& spec_encode_record(expected_format_epoch, plan.committed_generation, plan.committed_payload)
                    == Ok::<Seq<u8>, RecordError>(plan.committed_sector)
                &&& expected_matches(result->Ok_0.expected, plan)
            },
        },
{
    let payload = match state.encode() {
        Ok(bytes) => bytes,
        Err(error) => return Err(Ok(error)),
    };
    let committed_sector = match DataRecord::encode(expected_format_epoch, state.boot_count, &payload) {
        Ok(sector) => sector,
        Err(error) => return Err(Err(error)),
    };
    Ok(
        PreparedBootCommit {
            initial,
            committed_generation: state.boot_count,
            committed_sector,
            expected: Some(state),
        },
    )
}

fn prepare_health_advance<'a>(
    slot0: &'a Sector,
    slot1: &'a Sector,
    expected_format_epoch: FormatEpoch,
    current_contract: DeviceHealthContract,
) -> (result: Result<(PreparedBootCommit<'a>, bool, bool, bool, bool), DeviceHealthAdvanceError>)
    ensures
        match spec_health_advance_decision(slot0@, slot1@, expected_format_epoch, current_contract) {
            Err(error) => result == Err::<(PreparedBootCommit<'a>, bool, bool, bool, bool), DeviceHealthAdvanceError>(error),
            Ok((plan, hints)) => {
                let (prepared, legacy, present, open, changed) = result->Ok_0;
                &&& result is Ok
                &&& prepared.initial@ == plan.initial
                &&& prepared.committed_generation == plan.committed_generation
                &&& prepared.committed_sector@ == plan.committed_sector
                &&& plan.initial.slot < 2
                &&& spec_encode_record(expected_format_epoch, plan.committed_generation, plan.committed_payload)
                    == Ok::<Seq<u8>, RecordError>(plan.committed_sector)
                &&& expected_matches(prepared.expected, plan)
                &&& legacy == hints.legacy_upgrade
                &&& present == hints.persisted_contract_present
                &&& open == hints.prior_boot_open
                &&& changed == hints.contract_changed
            },
        },
{
    let initial = match recover([slot0, slot1], expected_format_epoch) {
        Ok(record) => record,
        Err(error) => return Err(DeviceHealthAdvanceError::Recovery(error)),
    };
    proof {
        lemma_recovered_slot(slot0@, slot1@, expected_format_epoch);
    }
    let (initial_boot_count, legacy_upgrade, persisted_contract_present, prior_boot_open, contract_changed) =
        if initial.payload.len() == BOOT_STATE_BYTES {
        match BootState::decode(initial.payload) {
            Ok(legacy) => (legacy.boot_count, true, false, false, false),
            Err(error) => return Err(DeviceHealthAdvanceError::LegacyBootState(error)),
        }
    } else {
        match DeviceHealthState::decode(initial.payload) {
            Ok(state) => (state.boot_count, false, true, state.boot_open, state.contract != current_contract),
            Err(error) => return Err(DeviceHealthAdvanceError::DeviceHealthState(error)),
        }
    };
    if initial_boot_count != initial.generation {
        return Err(DeviceHealthAdvanceError::StateGenerationMismatch);
    }
    let committed_generation = match initial.next_generation() {
        Ok(generation) => generation,
        Err(error) => return Err(DeviceHealthAdvanceError::Recovery(error)),
    };
    let state = DeviceHealthState {
        boot_count: committed_generation,
        boot_open: true,
        contract: current_contract,
    };
    let prepared = match prepare_health_commit(initial, state, expected_format_epoch) {
        Ok(prepared) => prepared,
        Err(Ok(error)) => return Err(DeviceHealthAdvanceError::DeviceHealthState(error)),
        Err(Err(error)) => return Err(DeviceHealthAdvanceError::Encode(error)),
    };
    Ok((prepared, legacy_upgrade, persisted_contract_present, prior_boot_open, contract_changed))
}

/// A failure of the commit after the reads: an I/O error while writing,
/// flushing or reading back, or a readback that does not show the commit.
pub open spec fn is_health_commit_failure(error: DeviceHealthAdvanceError) -> bool {
    match error {
        DeviceHealthAdvanceError::Io { phase, .. } => is_commit_phase(phase),
        DeviceHealthAdvanceError::Recovery(_) | DeviceHealthAdvanceError::LegacyBootState(_)
        | DeviceHealthAdvanceError::DeviceHealthState(_) | DeviceHealthAdvanceError::VerificationFailed => true,
        _ => false,
    }
}

/// A failure of one of the reads before any write.
pub open spec fn is_initial_health_read_error(error: DeviceHealthAdvanceError) -> bool {
    match error {
        DeviceHealthAdvanceError::Io { phase, .. } => phase == IoPhase::ReadSuperblock || phase
            == IoPhase::ReadInitialSlot,
        _ => false,
    }
}

/// Upgrades or advances the durable boot record after a fresh kernel probe.
///
/// Legacy boot-count payloads are accepted and upgraded in the inactive slot.
/// A device-health payload from a previous boot contributes only two hints: whether that
/// boot remained open and whether its recorded device contract differs from
/// the freshly probed contract. Either hint requires reprobe evidence, but the
/// caller must already have established that evidence before entering this
/// transaction. No persisted value can publish the boot-local broker Offline
/// state, clear a recovery latch, or bypass the current boot probe.
#[verifier::spinoff_prover]
#[verifier::rlimit(80)]
pub fn advance_device_health_after_reprobe<D: DurableSectorIo>(
    io: &mut D,
    partition_first_lba: u64,
    partition_sectors: u64,
    expected_format_epoch: FormatEpoch,
    current_contract: DeviceHealthContract,
) -> (result: Result<DeviceHealthAdvanceEvidence, DeviceHealthAdvanceError>)
    ensures
        result is Err && is_initial_health_read_error(result->Err_0) ==> old(io).log().len() < final(io).log().len(),
        ({
            let plan = spec_health_advance_plan(
                old(io).sectors(),
                partition_first_lba,
                partition_sectors,
                expected_format_epoch,
                current_contract,
            );
            let ops = boot_ops(
                old(io).sectors(),
                partition_first_lba,
                partition_sectors,
                expected_format_epoch,
                current_contract.spec_validate() is Ok,
                if plan is Ok { Some(plan->Ok_0.0) } else { None },
            );
            &&& result is Ok || !(result->Err_0 is Io) ==> final(io).log() == old(io).log() + ops
            &&& result is Err && result->Err_0 is Io && result->Err_0->phase == IoPhase::WriteInactiveSlot
                ==> final(io).log() == old(io).log() + ops.take(ops.len() - 3)
            &&& result is Err && result->Err_0 is Io && result->Err_0->phase == IoPhase::Flush
                ==> final(io).log() == old(io).log() + ops.take(ops.len() - 2)
        }),
        match spec_health_advance_plan(
            old(io).sectors(),
            partition_first_lba,
            partition_sectors,
            expected_format_epoch,
            current_contract,
        ) {
            Err(error) => {
                &&& final(io).sectors() == old(io).sectors()
                &&& (result == Err::<DeviceHealthAdvanceEvidence, DeviceHealthAdvanceError>(error)
                    || (result is Err && is_initial_health_read_error(result->Err_0)))
                &&& !boot_reads_begin(
                    old(io).sectors().len(),
                    partition_first_lba,
                    partition_sectors,
                    expected_format_epoch,
                    current_contract.spec_validate() is Ok,
                ) ==> result == Err::<DeviceHealthAdvanceEvidence, DeviceHealthAdvanceError>(error)
            },
            Ok((plan, hints)) => match result {
                Ok(evidence) => {
                    &&& evidence == health_advance_evidence(plan, hints, current_contract)
                    &&& boot_commit_outcome(
                        old(io).sectors(),
                        final(io).sectors(),
                        partition_first_lba,
                        expected_format_epoch,
                        plan,
                    )
                },
                Err(error) => unchanged_except(
                    old(io).sectors(),
                    final(io).sectors(),
                    boot_commit_lba(partition_first_lba, plan),
                ) && (is_initial_health_read_error(error) || is_health_commit_failure(error)) && (final(io).sectors()[boot_commit_lba(
                    partition_first_lba,
                    plan,
                )] == plan.committed_sector ==> error is Io) && (!(error is Io) && !is_initial_health_read_error(error) ==> error
                    == health_readback_error(
                    final(io).sectors()[partition_first_lba + 1],
                    final(io).sectors()[partition_first_lba + 2],
                    expected_format_epoch,
                )),
            },
        },
{
    if let Err(error) = current_contract.validate() {
        return Err(DeviceHealthAdvanceError::DeviceHealthState(error));
    }
    let ghost start = io.log();
    let (slot0, slot1) = match load_boot_slots(
        io,
        partition_first_lba,
        partition_sectors,
        expected_format_epoch,
    ) {
        Ok(slots) => slots,
        Err(LoadFailure::PartitionBounds) => return Err(DeviceHealthAdvanceError::PartitionBounds),
        Err(LoadFailure::Io { phase, error }) => return Err(DeviceHealthAdvanceError::Io { phase, error }),
        Err(LoadFailure::Superblock(error)) => return Err(DeviceHealthAdvanceError::Superblock(error)),
    };
    let (prepared, legacy_upgrade, persisted_contract_present, prior_boot_open, contract_changed) =
        prepare_health_advance(&slot0, &slot1, expected_format_epoch, current_contract)?;
    let ghost plan = spec_health_advance_decision(slot0@, slot1@, expected_format_epoch, current_contract)->Ok_0.0;
    proof {
        lemma_slot_flip(prepared.initial.slot);
    }
    proof {
        let reads = boot_reads(partition_first_lba);
        let calls = commit_ops(
            boot_commit_lba(partition_first_lba, plan) as u64,
            plan.committed_sector,
            (partition_first_lba + 1) as u64,
            (partition_first_lba + 2) as u64,
        );
        assert(start + reads + calls.take(1) =~= start + (reads + calls).take(4));
        assert(start + reads + calls.take(2) =~= start + (reads + calls).take(5));
        assert(start + reads + calls =~= start + (reads + calls));
    }
    match commit_boot_slot(
        io,
        partition_first_lba,
        &prepared,
        &slot0,
        &slot1,
        expected_format_epoch,
        Ghost(plan),
    ) {
        Ok(()) => {},
        Err(BootCommitFailure::Io { phase, error }) => return Err(DeviceHealthAdvanceError::Io { phase, error }),
        Err(BootCommitFailure::Readback(failure)) => return Err(
            match failure {
                ReadbackFailure::Recovery(error) => DeviceHealthAdvanceError::Recovery(error),
                ReadbackFailure::BootState(error) => DeviceHealthAdvanceError::LegacyBootState(error),
                ReadbackFailure::DeviceHealthState(error) => DeviceHealthAdvanceError::DeviceHealthState(error),
                ReadbackFailure::Mismatch => DeviceHealthAdvanceError::VerificationFailed,
            },
        ),
    }
    Ok(
        DeviceHealthAdvanceEvidence {
            persistence: AdvanceEvidence {
                initial_generation: prepared.initial.generation,
                committed_generation: prepared.committed_generation,
                initial_slot: prepared.initial.slot as u8,
                committed_slot: prepared.initial.inactive_slot() as u8,
                initial_valid_slots: prepared.initial.valid_slots,
                initial_rejected_slots: prepared.initial.rejected_slots,
                reads: 5,
                writes: 1,
                flushes: 1,
            },
            legacy_upgrade,
            persisted_contract_present,
            prior_boot_open,
            contract_changed,
            reprobe_required: prior_boot_open || contract_changed,
            reprobe_verified: true,
            current_boot_open: true,
            offline_persisted: false,
            offline_from_record: false,
            current_contract,
        },
    )
}

#[derive(Clone, Copy, Debug, PartialEq, Eq, Structural)]
pub enum DeviceHealthCloseError {
    PartitionBounds,
    Io { phase: IoPhase, error: PersistIoError },
    Superblock(SuperblockError),
    Recovery(RecoveryError),
    DeviceHealthState(DeviceHealthStateError),
    StateGenerationMismatch,
    SessionGenerationMismatch,
    SessionAlreadyClosed,
    ContractMismatch,
    Encode(RecordError),
    VerificationFailed,
}

impl DeviceHealthCloseError {
    /// The fixed text that describes this error.
    pub open spec fn message(self) -> Seq<char> {
        match self {
            Self::PartitionBounds => {
                "persistent clean-shutdown partition is outside the block device"@
            }
            Self::Io {
                phase: IoPhase::ReadSuperblock,
                error: PersistIoError::RequiresReset,
            }
            | Self::Io {
                phase: IoPhase::ReadInitialSlot | IoPhase::ReadVerificationSlot,
                error: PersistIoError::RequiresReset,
            } => "persistent clean-shutdown read requires a device reset"@,
            Self::Io {
                phase: IoPhase::WriteInactiveSlot,
                error: PersistIoError::OutcomeUnknown,
            } => "persistent clean-shutdown write outcome is unknown and requires reset"@,
            Self::Io {
                phase: IoPhase::Flush,
                error: PersistIoError::OutcomeUnknown,
            } => "persistent clean-shutdown flush outcome is unknown and requires reset"@,
            Self::Io {
                phase: IoPhase::ReadSuperblock,
                ..
            } => "persistent clean-shutdown superblock read failed"@,
            Self::Io {
                phase: IoPhase::ReadInitialSlot,
                ..
            } => "persistent clean-shutdown initial record read failed"@,
            Self::Io {
                phase: IoPhase::WriteInactiveSlot,
                ..
            } => "persistent clean-shutdown inactive-slot write failed"@,
            Self::Io {
                phase: IoPhase::Flush,
                ..
            } => "persistent clean-shutdown cache flush failed"@,
            Self::Io {
                phase: IoPhase::ReadVerificationSlot,
                ..
            } => "persistent clean-shutdown verification read failed"@,
            Self::Superblock(error) => error.message(),
            Self::Recovery(error) => error.message(),
            Self::DeviceHealthState(error) => error.message(),
            Self::StateGenerationMismatch => {
                "persistent clean-shutdown state generation does not match its record"@
            }
            Self::SessionGenerationMismatch => {
                "persistent clean-shutdown record is not the current kernel boot session"@
            }
            Self::SessionAlreadyClosed => {
                "persistent clean-shutdown boot session is already closed"@
            }
            Self::ContractMismatch => {
                "persistent clean-shutdown device contract changed after the boot probe"@
            }
            Self::Encode(error) => error.message(),
            Self::VerificationFailed => {
                "persistent clean-shutdown write did not survive flush and readback verification"@
            }
        }
    }

    pub fn as_str(self) -> (text: &'static str)
        ensures
            text@ == self.message(),
    {
        match self {
            Self::PartitionBounds => {
                "persistent clean-shutdown partition is outside the block device"
            }
            Self::Io {
                phase: IoPhase::ReadSuperblock,
                error: PersistIoError::RequiresReset,
            }
            | Self::Io {
                phase: IoPhase::ReadInitialSlot | IoPhase::ReadVerificationSlot,
                error: PersistIoError::RequiresReset,
            } => "persistent clean-shutdown read requires a device reset",
            Self::Io {
                phase: IoPhase::WriteInactiveSlot,
                error: PersistIoError::OutcomeUnknown,
            } => "persistent clean-shutdown write outcome is unknown and requires reset",
            Self::Io {
                phase: IoPhase::Flush,
                error: PersistIoError::OutcomeUnknown,
            } => "persistent clean-shutdown flush outcome is unknown and requires reset",
            Self::Io {
                phase: IoPhase::ReadSuperblock,
                ..
            } => "persistent clean-shutdown superblock read failed",
            Self::Io {
                phase: IoPhase::ReadInitialSlot,
                ..
            } => "persistent clean-shutdown initial record read failed",
            Self::Io {
                phase: IoPhase::WriteInactiveSlot,
                ..
            } => "persistent clean-shutdown inactive-slot write failed",
            Self::Io {
                phase: IoPhase::Flush,
                ..
            } => "persistent clean-shutdown cache flush failed",
            Self::Io {
                phase: IoPhase::ReadVerificationSlot,
                ..
            } => "persistent clean-shutdown verification read failed",
            Self::Superblock(error) => error.as_str(),
            Self::Recovery(error) => error.as_str(),
            Self::DeviceHealthState(error) => error.as_str(),
            Self::StateGenerationMismatch => {
                "persistent clean-shutdown state generation does not match its record"
            }
            Self::SessionGenerationMismatch => {
                "persistent clean-shutdown record is not the current kernel boot session"
            }
            Self::SessionAlreadyClosed => {
                "persistent clean-shutdown boot session is already closed"
            }
            Self::ContractMismatch => {
                "persistent clean-shutdown device contract changed after the boot probe"
            }
            Self::Encode(error) => error.as_str(),
            Self::VerificationFailed => {
                "persistent clean-shutdown write did not survive flush and readback verification"
            }
        }
    }
}

#[derive(Clone, Copy, Debug, PartialEq, Eq, Structural)]
pub struct DeviceHealthCloseEvidence {
    pub persistence: AdvanceEvidence,
    pub open_generation: u64,
    pub prior_boot_open: bool,
    pub contract_matched: bool,
    pub current_boot_open: bool,
    pub offline_persisted: bool,
    pub offline_from_record: bool,
    pub current_contract: DeviceHealthContract,
}

/// What `close_device_health_for_clean_shutdown` writes, decided by the two slots.
pub open spec fn spec_health_close_decision(
    slot0: Seq<u8>,
    slot1: Seq<u8>,
    format_epoch: FormatEpoch,
    expected_open_generation: u64,
    current: DeviceHealthContract,
) -> Result<BootCommitPlan, DeviceHealthCloseError> {
    match spec_recover(slot0, slot1, format_epoch) {
        Err(error) => Err(DeviceHealthCloseError::Recovery(error)),
        Ok(initial) => match spec_decode_device_health(initial.payload) {
            Err(error) => Err(DeviceHealthCloseError::DeviceHealthState(error)),
            Ok(state) => if state.boot_count != initial.generation {
                Err(DeviceHealthCloseError::StateGenerationMismatch)
            } else if initial.generation != expected_open_generation {
                Err(DeviceHealthCloseError::SessionGenerationMismatch)
            } else if !state.boot_open {
                Err(DeviceHealthCloseError::SessionAlreadyClosed)
            } else if state.contract != current {
                Err(DeviceHealthCloseError::ContractMismatch)
            } else if initial.generation == u64::MAX {
                Err(DeviceHealthCloseError::Recovery(RecoveryError::GenerationExhausted))
            } else {
                let closed = DeviceHealthState {
                    boot_count: (initial.generation + 1) as u64,
                    boot_open: false,
                    contract: current,
                };
                match spec_health_commit(initial, closed, format_epoch) {
                    Err(Ok(error)) => Err(DeviceHealthCloseError::DeviceHealthState(error)),
                    Err(Err(error)) => Err(DeviceHealthCloseError::Encode(error)),
                    Ok(plan) => Ok(plan),
                }
            },
        },
    }
}

pub open spec fn load_failure_as_health_close(failure: LoadFailure) -> DeviceHealthCloseError {
    match failure {
        LoadFailure::PartitionBounds => DeviceHealthCloseError::PartitionBounds,
        LoadFailure::Io { phase, error } => DeviceHealthCloseError::Io { phase, error },
        LoadFailure::Superblock(error) => DeviceHealthCloseError::Superblock(error),
    }
}

/// The decision of `close_device_health_for_clean_shutdown`, from the device
/// contents alone.
pub open spec fn spec_health_close_plan(
    disk: Seq<Seq<u8>>,
    first: u64,
    sectors: u64,
    format_epoch: FormatEpoch,
    expected_open_generation: u64,
    current: DeviceHealthContract,
) -> Result<BootCommitPlan, DeviceHealthCloseError> {
    if current.spec_validate() is Err {
        Err(DeviceHealthCloseError::DeviceHealthState(DeviceHealthStateError::InvalidContract))
    } else {
        match spec_boot_load(disk, first, sectors, format_epoch) {
            Err(failure) => Err(load_failure_as_health_close(failure)),
            Ok(()) => spec_health_close_decision(
                disk[first + 1],
                disk[first + 2],
                format_epoch,
                expected_open_generation,
                current,
            ),
        }
    }
}

pub open spec fn health_close_evidence(
    plan: BootCommitPlan,
    expected_open_generation: u64,
    current: DeviceHealthContract,
) -> DeviceHealthCloseEvidence {
    DeviceHealthCloseEvidence {
        persistence: committed_evidence(plan),
        open_generation: expected_open_generation,
        prior_boot_open: true,
        contract_matched: true,
        current_boot_open: false,
        offline_persisted: false,
        offline_from_record: false,
        current_contract: current,
    }
}

fn prepare_health_close<'a>(
    slot0: &'a Sector,
    slot1: &'a Sector,
    expected_format_epoch: FormatEpoch,
    expected_open_generation: u64,
    current_contract: DeviceHealthContract,
) -> (result: Result<PreparedBootCommit<'a>, DeviceHealthCloseError>)
    ensures
        match spec_health_close_decision(
            slot0@,
            slot1@,
            expected_format_epoch,
            expected_open_generation,
            current_contract,
        ) {
            Err(error) => result == Err::<PreparedBootCommit<'a>, DeviceHealthCloseError>(error),
            Ok(plan) => {
                &&& result is Ok
                &&& result->Ok_0.initial@ == plan.initial
                &&& result->Ok_0.committed_generation == plan.committed_generation
                &&& result->Ok_0.committed_sector@ == plan.committed_sector
                &&& plan.initial.slot < 2
                &&& spec_encode_record(expected_format_epoch, plan.committed_generation, plan.committed_payload)
                    == Ok::<Seq<u8>, RecordError>(plan.committed_sector)
                &&& expected_matches(result->Ok_0.expected, plan)
            },
        },
{
    let initial = match recover([slot0, slot1], expected_format_epoch) {
        Ok(record) => record,
        Err(error) => return Err(DeviceHealthCloseError::Recovery(error)),
    };
    proof {
        lemma_recovered_slot(slot0@, slot1@, expected_format_epoch);
    }
    let initial_state = match DeviceHealthState::decode(initial.payload) {
        Ok(state) => state,
        Err(error) => return Err(DeviceHealthCloseError::DeviceHealthState(error)),
    };
    if initial_state.boot_count != initial.generation {
        return Err(DeviceHealthCloseError::StateGenerationMismatch);
    }
    if initial.generation != expected_open_generation {
        return Err(DeviceHealthCloseError::SessionGenerationMismatch);
    }
    if !initial_state.boot_open {
        return Err(DeviceHealthCloseError::SessionAlreadyClosed);
    }
    if initial_state.contract != current_contract {
        return Err(DeviceHealthCloseError::ContractMismatch);
    }
    let committed_generation = match initial.next_generation() {
        Ok(generation) => generation,
        Err(error) => return Err(DeviceHealthCloseError::Recovery(error)),
    };
    let closed = DeviceHealthState {
        boot_count: committed_generation,
        boot_open: false,
        contract: current_contract,
    };
    match prepare_health_commit(initial, closed, expected_format_epoch) {
        Ok(prepared) => Ok(prepared),
        Err(Ok(error)) => Err(DeviceHealthCloseError::DeviceHealthState(error)),
        Err(Err(error)) => Err(DeviceHealthCloseError::Encode(error)),
    }
}

/// A failure of the commit after the reads: an I/O error while writing,
/// flushing or reading back, or a readback that does not show the commit.
pub open spec fn is_close_commit_failure(error: DeviceHealthCloseError) -> bool {
    match error {
        DeviceHealthCloseError::Io { phase, .. } => is_commit_phase(phase),
        DeviceHealthCloseError::Recovery(_) | DeviceHealthCloseError::DeviceHealthState(_)
        | DeviceHealthCloseError::VerificationFailed => true,
        _ => false,
    }
}

/// A failure of one of the reads before any write.
pub open spec fn is_initial_close_read_error(error: DeviceHealthCloseError) -> bool {
    match error {
        DeviceHealthCloseError::Io { phase, .. } => phase == IoPhase::ReadSuperblock || phase
            == IoPhase::ReadInitialSlot,
        _ => false,
    }
}

/// Durably closes the exact boot session opened by the current kernel.
///
/// The caller supplies the in-memory generation returned by
/// [`advance_device_health_after_reprobe`] and the still-live probed device
/// contract. A stale generation, an already-closed session, or any contract
/// change is rejected before mutation. The transaction records only a clean
/// session boundary; it never persists or reconstructs the broker's
/// boot-local Offline state.
#[verifier::spinoff_prover]
#[verifier::rlimit(80)]
pub fn close_device_health_for_clean_shutdown<D: DurableSectorIo>(
    io: &mut D,
    partition_first_lba: u64,
    partition_sectors: u64,
    expected_format_epoch: FormatEpoch,
    expected_open_generation: u64,
    current_contract: DeviceHealthContract,
) -> (result: Result<DeviceHealthCloseEvidence, DeviceHealthCloseError>)
    ensures
        result is Err && is_initial_close_read_error(result->Err_0) ==> old(io).log().len() < final(io).log().len(),
        ({
            let plan = spec_health_close_plan(
                old(io).sectors(),
                partition_first_lba,
                partition_sectors,
                expected_format_epoch,
                expected_open_generation,
                current_contract,
            );
            let ops = boot_ops(
                old(io).sectors(),
                partition_first_lba,
                partition_sectors,
                expected_format_epoch,
                current_contract.spec_validate() is Ok,
                if plan is Ok { Some(plan->Ok_0) } else { None },
            );
            &&& result is Ok || !(result->Err_0 is Io) ==> final(io).log() == old(io).log() + ops
            &&& result is Err && result->Err_0 is Io && result->Err_0->phase == IoPhase::WriteInactiveSlot
                ==> final(io).log() == old(io).log() + ops.take(ops.len() - 3)
            &&& result is Err && result->Err_0 is Io && result->Err_0->phase == IoPhase::Flush
                ==> final(io).log() == old(io).log() + ops.take(ops.len() - 2)
        }),
        match spec_health_close_plan(
            old(io).sectors(),
            partition_first_lba,
            partition_sectors,
            expected_format_epoch,
            expected_open_generation,
            current_contract,
        ) {
            Err(error) => {
                &&& final(io).sectors() == old(io).sectors()
                &&& (result == Err::<DeviceHealthCloseEvidence, DeviceHealthCloseError>(error)
                    || (result is Err && is_initial_close_read_error(result->Err_0)))
                &&& !boot_reads_begin(
                    old(io).sectors().len(),
                    partition_first_lba,
                    partition_sectors,
                    expected_format_epoch,
                    current_contract.spec_validate() is Ok,
                ) ==> result == Err::<DeviceHealthCloseEvidence, DeviceHealthCloseError>(error)
            },
            Ok(plan) => match result {
                Ok(evidence) => {
                    &&& evidence == health_close_evidence(plan, expected_open_generation, current_contract)
                    &&& boot_commit_outcome(
                        old(io).sectors(),
                        final(io).sectors(),
                        partition_first_lba,
                        expected_format_epoch,
                        plan,
                    )
                },
                Err(error) => unchanged_except(
                    old(io).sectors(),
                    final(io).sectors(),
                    boot_commit_lba(partition_first_lba, plan),
                ) && (is_initial_close_read_error(error) || is_close_commit_failure(error)) && (final(io).sectors()[boot_commit_lba(
                    partition_first_lba,
                    plan,
                )] == plan.committed_sector ==> error is Io) && (!(error is Io) && !is_initial_close_read_error(error) ==> error
                    == close_readback_error(
                    final(io).sectors()[partition_first_lba + 1],
                    final(io).sectors()[partition_first_lba + 2],
                    expected_format_epoch,
                )),
            },
        },
{
    if let Err(error) = current_contract.validate() {
        return Err(DeviceHealthCloseError::DeviceHealthState(error));
    }
    let ghost start = io.log();
    let (slot0, slot1) = match load_boot_slots(
        io,
        partition_first_lba,
        partition_sectors,
        expected_format_epoch,
    ) {
        Ok(slots) => slots,
        Err(LoadFailure::PartitionBounds) => return Err(DeviceHealthCloseError::PartitionBounds),
        Err(LoadFailure::Io { phase, error }) => return Err(DeviceHealthCloseError::Io { phase, error }),
        Err(LoadFailure::Superblock(error)) => return Err(DeviceHealthCloseError::Superblock(error)),
    };
    let prepared = prepare_health_close(
        &slot0,
        &slot1,
        expected_format_epoch,
        expected_open_generation,
        current_contract,
    )?;
    let ghost plan = spec_health_close_decision(
        slot0@,
        slot1@,
        expected_format_epoch,
        expected_open_generation,
        current_contract,
    )->Ok_0;
    proof {
        lemma_slot_flip(prepared.initial.slot);
    }
    proof {
        let reads = boot_reads(partition_first_lba);
        let calls = commit_ops(
            boot_commit_lba(partition_first_lba, plan) as u64,
            plan.committed_sector,
            (partition_first_lba + 1) as u64,
            (partition_first_lba + 2) as u64,
        );
        assert(start + reads + calls.take(1) =~= start + (reads + calls).take(4));
        assert(start + reads + calls.take(2) =~= start + (reads + calls).take(5));
        assert(start + reads + calls =~= start + (reads + calls));
    }
    match commit_boot_slot(
        io,
        partition_first_lba,
        &prepared,
        &slot0,
        &slot1,
        expected_format_epoch,
        Ghost(plan),
    ) {
        Ok(()) => {},
        Err(BootCommitFailure::Io { phase, error }) => return Err(DeviceHealthCloseError::Io { phase, error }),
        Err(BootCommitFailure::Readback(failure)) => return Err(
            match failure {
                ReadbackFailure::Recovery(error) => DeviceHealthCloseError::Recovery(error),
                ReadbackFailure::BootState(_) => DeviceHealthCloseError::VerificationFailed,
                ReadbackFailure::DeviceHealthState(error) => DeviceHealthCloseError::DeviceHealthState(error),
                ReadbackFailure::Mismatch => DeviceHealthCloseError::VerificationFailed,
            },
        ),
    }
    Ok(
        DeviceHealthCloseEvidence {
            persistence: AdvanceEvidence {
                initial_generation: prepared.initial.generation,
                committed_generation: prepared.committed_generation,
                initial_slot: prepared.initial.slot as u8,
                committed_slot: prepared.initial.inactive_slot() as u8,
                initial_valid_slots: prepared.initial.valid_slots,
                initial_rejected_slots: prepared.initial.rejected_slots,
                reads: 5,
                writes: 1,
                flushes: 1,
            },
            open_generation: expected_open_generation,
            prior_boot_open: true,
            contract_matched: true,
            current_boot_open: false,
            offline_persisted: false,
            offline_from_record: false,
            current_contract,
        },
    )
}

/// The session that a reprobe advance opens can be closed: on any slots whose
/// recovery now selects the committed payload at the committed generation, a
/// clean-shutdown close by that generation and the same device contract is
/// refused for none of the session reasons (stale generation, other session,
/// already closed, contract changed).
pub proof fn lemma_reprobe_opens_closable_session(
    slot0: Seq<u8>,
    slot1: Seq<u8>,
    after0: Seq<u8>,
    after1: Seq<u8>,
    format_epoch: FormatEpoch,
    current: DeviceHealthContract,
)
    requires
        current.spec_validate() is Ok,
        spec_health_advance_decision(slot0, slot1, format_epoch, current) is Ok,
        spec_recover(after0, after1, format_epoch) is Ok,
        spec_recover(after0, after1, format_epoch)->Ok_0.payload
            == spec_health_advance_decision(slot0, slot1, format_epoch, current)->Ok_0.0.committed_payload,
        spec_recover(after0, after1, format_epoch)->Ok_0.generation
            == spec_health_advance_decision(slot0, slot1, format_epoch, current)->Ok_0.0.committed_generation,
    ensures
        ({
            let plan = spec_health_advance_decision(slot0, slot1, format_epoch, current)->Ok_0.0;
            let close = spec_health_close_decision(
                after0,
                after1,
                format_epoch,
                plan.committed_generation,
                current,
            );
            &&& spec_decode_device_health(plan.committed_payload) == Ok::<
                DeviceHealthState,
                DeviceHealthStateError,
            >(
                DeviceHealthState {
                    boot_count: plan.committed_generation,
                    boot_open: true,
                    contract: current,
                },
            )
            &&& close != Err::<BootCommitPlan, DeviceHealthCloseError>(
                DeviceHealthCloseError::StateGenerationMismatch,
            )
            &&& close != Err::<BootCommitPlan, DeviceHealthCloseError>(
                DeviceHealthCloseError::SessionGenerationMismatch,
            )
            &&& close != Err::<BootCommitPlan, DeviceHealthCloseError>(
                DeviceHealthCloseError::SessionAlreadyClosed,
            )
            &&& close != Err::<BootCommitPlan, DeviceHealthCloseError>(
                DeviceHealthCloseError::ContractMismatch,
            )
        }),
{
    let initial = spec_recover(slot0, slot1, format_epoch)->Ok_0;
    let opened = DeviceHealthState {
        boot_count: (initial.generation + 1) as u64,
        boot_open: true,
        contract: current,
    };
    lemma_device_health_round_trip(opened);
}

/// A clean-shutdown close records the session as closed, one generation on,
/// with the same contract, and a second close of the same session is refused
/// as already closed: on any slots whose recovery selects the committed
/// payload at the committed generation, closing by that generation fails with
/// `SessionAlreadyClosed`.
pub proof fn lemma_close_is_not_repeatable(
    slot0: Seq<u8>,
    slot1: Seq<u8>,
    after0: Seq<u8>,
    after1: Seq<u8>,
    format_epoch: FormatEpoch,
    expected_open_generation: u64,
    current: DeviceHealthContract,
)
    requires
        current.spec_validate() is Ok,
        spec_health_close_decision(slot0, slot1, format_epoch, expected_open_generation, current) is Ok,
        spec_recover(after0, after1, format_epoch) is Ok,
        spec_recover(after0, after1, format_epoch)->Ok_0.payload == spec_health_close_decision(
            slot0,
            slot1,
            format_epoch,
            expected_open_generation,
            current,
        )->Ok_0.committed_payload,
        spec_recover(after0, after1, format_epoch)->Ok_0.generation == spec_health_close_decision(
            slot0,
            slot1,
            format_epoch,
            expected_open_generation,
            current,
        )->Ok_0.committed_generation,
    ensures
        ({
            let plan = spec_health_close_decision(
                slot0,
                slot1,
                format_epoch,
                expected_open_generation,
                current,
            )->Ok_0;
            &&& plan.committed_generation == expected_open_generation + 1
            &&& spec_decode_device_health(plan.committed_payload) == Ok::<
                DeviceHealthState,
                DeviceHealthStateError,
            >(
                DeviceHealthState {
                    boot_count: plan.committed_generation,
                    boot_open: false,
                    contract: current,
                },
            )
            &&& spec_health_close_decision(
                after0,
                after1,
                format_epoch,
                plan.committed_generation,
                current,
            ) == Err::<BootCommitPlan, DeviceHealthCloseError>(
                DeviceHealthCloseError::SessionAlreadyClosed,
            )
        }),
{
    let initial = spec_recover(slot0, slot1, format_epoch)->Ok_0;
    let closed = DeviceHealthState {
        boot_count: (initial.generation + 1) as u64,
        boot_open: false,
        contract: current,
    };
    lemma_device_health_round_trip(closed);
}

} // verus!

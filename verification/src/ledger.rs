//! Shared steps of every two-slot transaction: loading the selected slots and
//! committing one sector to the inactive slot with readback.
use vstd::prelude::*;
use crate::codec::all_zero;
use crate::io::{commit_ops, ledger_reads, log_prefix, is_commit_phase, read_one, read_slot_pair, slot_reads, unchanged_except, IoOp, DurableSectorIo, IoPhase, PersistIoError};
use crate::layout::{FormatEpoch, Sector};
use crate::superblock::{
    spec_decode_superblock, spec_validate_superblock_epoch, validate_superblock_epoch,
    DataSuperblock, SuperblockError,
};

verus! {

/// Why the superblock-described slots of a partition could not be loaded.
#[derive(Clone, Copy, Debug, PartialEq, Eq, Structural)]
pub enum LoadFailure {
    PartitionBounds,
    Io { phase: IoPhase, error: PersistIoError },
    Superblock(SuperblockError),
}

/// The partition lies on the device and can hold the superblock and both slots.
pub open spec fn boot_partition_fits(first: u64, sectors: u64, device_sectors: nat) -> bool {
    first + sectors <= u64::MAX && sectors >= 3 && first + sectors <= device_sectors
}

/// The superblock-checked load of a boot partition's two slots, as decided
/// by the device contents alone.
pub open spec fn spec_boot_load(
    disk: Seq<Seq<u8>>,
    first: u64,
    sectors: u64,
    format_epoch: FormatEpoch,
) -> Result<(), LoadFailure> {
    if all_zero(format_epoch@) {
        Err(LoadFailure::Superblock(SuperblockError::ZeroFormatEpoch))
    } else if !boot_partition_fits(first, sectors, disk.len()) {
        Err(LoadFailure::PartitionBounds)
    } else if spec_decode_superblock(disk[first as int], sectors, format_epoch) is Err {
        Err(LoadFailure::Superblock(spec_decode_superblock(disk[first as int], sectors, format_epoch)->Err_0))
    } else {
        Ok(())
    }
}

/// An I/O failure of one of the reads that precede any mutation.
pub open spec fn is_initial_read_failure(failure: LoadFailure) -> bool {
    match failure {
        LoadFailure::Io { phase, .. } => phase == IoPhase::ReadSuperblock || phase
            == IoPhase::ReadInitialSlot,
        _ => false,
    }
}

/// Reads and checks the superblock, then reads both record slots it names.
/// The reads of a boot load: the superblock, then both boot slots.
pub open spec fn boot_reads(first: u64) -> Seq<IoOp> {
    seq![IoOp::Read(first), IoOp::Read((first + 1) as u64), IoOp::Read((first + 2) as u64)]
}

pub fn load_boot_slots<D: DurableSectorIo>(
    io: &mut D,
    first: u64,
    sectors: u64,
    format_epoch: FormatEpoch,
) -> (result: Result<(Sector, Sector), LoadFailure>)
    ensures
        result matches Err(LoadFailure::Io { .. }) ==> old(io).log().len() < final(io).log().len(),
        final(io).sectors() == old(io).sectors(),
        all_zero(format_epoch@) || !boot_partition_fits(first, sectors, old(io).sectors().len())
            ==> final(io).log() == old(io).log(),
        result is Ok ==> final(io).log() == old(io).log() + boot_reads(first),
        result matches Err(LoadFailure::Superblock(_)) && !all_zero(format_epoch@) ==> final(io).log()
            == old(io).log() + boot_reads(first).take(1),
        result is Err ==> final(io).log() == old(io).log() || final(io).log() == old(io).log()
            + boot_reads(first).take(1) || final(io).log() == old(io).log() + boot_reads(first).take(2)
            || final(io).log() == old(io).log() + boot_reads(first),
        match result {
            Ok((slot0, slot1)) => {
                let disk = old(io).sectors();
                &&& spec_boot_load(disk, first, sectors, format_epoch) is Ok
                &&& slot0@ == disk[first + 1]
                &&& slot1@ == disk[first + 2]
            },
            Err(failure) => if is_initial_read_failure(failure) {
                spec_boot_load(old(io).sectors(), first, sectors, format_epoch) is Ok || (
                failure->phase == IoPhase::ReadSuperblock && !all_zero(format_epoch@)
                    && boot_partition_fits(first, sectors, old(io).sectors().len()))
            } else {
                spec_boot_load(old(io).sectors(), first, sectors, format_epoch) == Err::<
                    (),
                    LoadFailure,
                >(failure)
            },
        },
{
    if let Err(error) = validate_superblock_epoch(format_epoch) {
        return Err(LoadFailure::Superblock(error));
    }
    let device_sectors = io.sector_count();
    let partition_end = match first.checked_add(sectors) {
        Some(end) => end,
        None => return Err(LoadFailure::PartitionBounds),
    };
    if sectors < 3 || partition_end > device_sectors {
        return Err(LoadFailure::PartitionBounds);
    }
    let ghost start = io.log();
    let superblock_sector = match read_one(io, first) {
        Ok(sector) => sector,
        Err(error) => return Err(LoadFailure::Io { phase: IoPhase::ReadSuperblock, error }),
    };
    let superblock = match DataSuperblock::decode(&superblock_sector, sectors, format_epoch) {
        Ok(superblock) => superblock,
        Err(error) => return Err(LoadFailure::Superblock(error)),
    };
    let first_lba = first + superblock.slot_relative_lbas[0];
    let second_lba = first + superblock.slot_relative_lbas[1];
    assert(first_lba == first + 1 && second_lba == first + 2);
    proof {
        assert(start.push(IoOp::Read(first)) =~= start + boot_reads(first).take(1));
        assert(start + boot_reads(first).take(1) + slot_reads(first_lba, second_lba) =~= start + boot_reads(first));
        assert((start + boot_reads(first).take(1)).push(IoOp::Read(first_lba)) =~= start + boot_reads(first).take(2));
    }
    match read_slot_pair(io, first_lba, second_lba) {
        Ok(slots) => Ok(slots),
        Err(error) => Err(LoadFailure::Io { phase: IoPhase::ReadInitialSlot, error }),
    }
}

/// Writes `sector` at `committed_lba`, flushes, and reads both slots back.
pub fn commit_and_read_back<D: DurableSectorIo>(
    io: &mut D,
    committed_lba: u64,
    sector: &Sector,
    first_lba: u64,
    second_lba: u64,
) -> (result: Result<(Sector, Sector), (IoPhase, PersistIoError)>)
    ensures
        unchanged_except(old(io).sectors(), final(io).sectors(), committed_lba as int),
        ({
            let ops = commit_ops(committed_lba, sector@, first_lba, second_lba);
            &&& log_prefix(old(io).log(), final(io).log(), ops)
            &&& match result {
                Ok(_) => final(io).log() == old(io).log() + ops,
                Err((phase, _)) => {
                    &&& phase == IoPhase::WriteInactiveSlot ==> final(io).log() == old(io).log() + ops.take(1)
                    &&& phase == IoPhase::Flush ==> final(io).log() == old(io).log() + ops.take(2)
                    &&& phase == IoPhase::ReadVerificationSlot ==> (final(io).log() == old(io).log()
                        + ops.take(3) || final(io).log() == old(io).log() + ops)
                },
            }
        }),
        match result {
            Ok((slot0, slot1)) => {
                let disk = final(io).sectors();
                &&& first_lba < disk.len()
                &&& second_lba < disk.len()
                &&& slot0@ == disk[first_lba as int]
                &&& slot1@ == disk[second_lba as int]
            },
            Err((phase, _)) => is_commit_phase(phase),
        },
{
    let ghost start = io.log();
    let ghost ops = commit_ops(committed_lba, sector@, first_lba, second_lba);
    let written = io.write_sector(committed_lba, sector);
    proof {
        assert(io.log() =~= start + ops.take(1));
    }
    if let Err(error) = written {
        return Err((IoPhase::WriteInactiveSlot, error));
    }
    let flushed = io.flush();
    proof {
        assert(io.log() =~= start + ops.take(2));
    }
    if let Err(error) = flushed {
        return Err((IoPhase::Flush, error));
    }
    proof {
        assert(start + ops.take(2) + slot_reads(first_lba, second_lba) =~= start + ops);
        assert((start + ops.take(2)).push(IoOp::Read(first_lba)) =~= start + ops.take(3));
        assert(start + ops =~= start + ops.take(4));
    }
    match read_slot_pair(io, first_lba, second_lba) {
        Ok(slots) => Ok(slots),
        Err(error) => Err((IoPhase::ReadVerificationSlot, error)),
    }
}

/// The partition lies on the device and contains both fixed slots.
pub open spec fn ledger_fits(first: u64, sectors: u64, slots: [u64; 2], device_sectors: nat) -> bool {
    &&& first + sectors <= u64::MAX
    &&& first + sectors <= device_sectors
    &&& slots[0] < sectors
    &&& slots[1] < sectors
}

/// Checks the partition bounds, then reads the two fixed slots of a ledger.
pub fn load_ledger_slots<D: DurableSectorIo>(
    io: &mut D,
    first: u64,
    sectors: u64,
    slots: [u64; 2],
) -> (result: Result<(Sector, Sector), LoadFailure>)
    ensures
        result matches Err(LoadFailure::Io { .. }) ==> old(io).log().len() < final(io).log().len(),
        final(io).sectors() == old(io).sectors(),
        !ledger_fits(first, sectors, slots, old(io).sectors().len()) ==> final(io).log() == old(io).log(),
        log_prefix(old(io).log(), final(io).log(), ledger_reads(first, slots)),
        result is Ok ==> final(io).log() == old(io).log() + slot_reads(
            (first + slots[0]) as u64,
            (first + slots[1]) as u64,
        ),
        result is Err ==> final(io).log() == old(io).log() || final(io).log() == old(io).log().push(
            IoOp::Read((first + slots[0]) as u64),
        ) || final(io).log() == old(io).log() + slot_reads((first + slots[0]) as u64, (first + slots[1]) as u64),
        match result {
            Ok((slot0, slot1)) => {
                let disk = old(io).sectors();
                &&& ledger_fits(first, sectors, slots, disk.len())
                &&& slot0@ == disk[first + slots[0]]
                &&& slot1@ == disk[first + slots[1]]
            },
            Err(LoadFailure::Io { phase, .. }) => phase == IoPhase::ReadInitialSlot
                && ledger_fits(first, sectors, slots, old(io).sectors().len()),
            Err(failure) => failure == LoadFailure::PartitionBounds && !ledger_fits(
                first,
                sectors,
                slots,
                old(io).sectors().len(),
            ),
        },
{
    let device_sectors = io.sector_count();
    proof {
        assert(io.log() =~= io.log() + ledger_reads(first, slots).take(0));
    }
    let partition_end = match first.checked_add(sectors) {
        Some(end) => end,
        None => return Err(LoadFailure::PartitionBounds),
    };
    if partition_end > device_sectors || slots[0] >= sectors || slots[1] >= sectors {
        return Err(LoadFailure::PartitionBounds);
    }
    let ghost start = io.log();
    let read = read_slot_pair(io, first + slots[0], first + slots[1]);
    proof {
        let r = ledger_reads(first, slots);
        assert(start.push(IoOp::Read((first + slots[0]) as u64)) =~= start + r.take(1));
        assert(start + r =~= start + r.take(2));
    }
    match read {
        Ok(pair) => Ok(pair),
        Err(error) => Err(LoadFailure::Io { phase: IoPhase::ReadInitialSlot, error }),
    }
}

} // verus!

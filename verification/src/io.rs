//! The synchronous sector boundary used by every crash-recovery transaction.
use vstd::prelude::*;
use crate::layout::Sector;

verus! {

#[derive(Clone, Copy, Debug, PartialEq, Eq, Structural)]
pub enum PersistIoError {
    OutOfBounds,
    RequiresReset,
    OutcomeUnknown,
    Device,
}

impl PersistIoError {
    /// The fixed text that describes this error.
    pub open spec fn message(self) -> Seq<char> {
        match self {
            Self::OutOfBounds => "persistent-data I/O is outside the block device"@,
            Self::RequiresReset => "persistent-data device requires reset before more I/O"@,
            Self::OutcomeUnknown => "persistent-data mutation outcome is unknown"@,
            Self::Device => "persistent-data block I/O failed"@,
        }
    }

    pub fn as_str(self) -> (text: &'static str)
        ensures
            text@ == self.message(),
    {
        match self {
            Self::OutOfBounds => "persistent-data I/O is outside the block device",
            Self::RequiresReset => "persistent-data device requires reset before more I/O",
            Self::OutcomeUnknown => "persistent-data mutation outcome is unknown",
            Self::Device => "persistent-data block I/O failed",
        }
    }
}

/// Small synchronous boundary used by the crash-recovery transaction.
///
/// Implementations must not report `flush` success until all earlier completed
/// writes are stable. The transaction never issues a write while another
/// operation is outstanding.
///
/// The transactions rely on reads and on the reach of each operation: a read
/// that succeeds returns the sector the device holds at that LBA, and no read
/// or flush changes what reads return; a write, whether it reports success or
/// not, changes at most the sector at its own LBA. Nothing is assumed of what
/// a write leaves there: every mutation is checked by reading it back.
///
/// Each read, write and flush issued is appended to the device's log, whatever
/// it reports, a write with the bytes handed to the device, so contracts can
/// say which calls a transaction makes and what it asks the device to store.
pub trait DurableSectorIo {
    /// The sectors that reads currently return, indexed by LBA.
    spec fn sectors(&self) -> Seq<Seq<u8>>;

    /// Every read, write and flush issued to the device so far, in order.
    spec fn log(&self) -> Seq<IoOp>;

    fn sector_count(&self) -> (count: u64)
        ensures
            count == self.sectors().len(),
    ;

    fn read_sector(&mut self, lba: u64, output: &mut Sector) -> (result: Result<(), PersistIoError>)
        ensures
            final(self).sectors() == old(self).sectors(),
            final(self).log() == old(self).log().push(IoOp::Read(lba)),
            result is Ok ==> lba < old(self).sectors().len() && final(output)@ == old(self).sectors()[lba as int],
    ;

    fn write_sector(&mut self, lba: u64, input: &Sector) -> (result: Result<(), PersistIoError>)
        ensures
            unchanged_except(old(self).sectors(), final(self).sectors(), lba as int),
            final(self).log() == old(self).log().push(IoOp::Write(lba, input@)),
    ;

    fn flush(&mut self) -> (result: Result<(), PersistIoError>)
        ensures
            final(self).sectors() == old(self).sectors(),
            final(self).log() == old(self).log().push(IoOp::Flush),
    ;
}

/// One call issued to a sector device; a write carries the LBA and the bytes
/// handed to the device.
pub enum IoOp {
    Read(u64),
    Write(u64, Seq<u8>),
    Flush,
}

/// The reads of both slots of a ledger, in slot order.
pub open spec fn slot_reads(first_lba: u64, second_lba: u64) -> Seq<IoOp> {
    seq![IoOp::Read(first_lba), IoOp::Read(second_lba)]
}

/// `after` is `before` followed by a prefix of `ops`: the calls made when the
/// calls of `ops` are issued in order and one of them may fail and end them.
pub open spec fn log_prefix(before: Seq<IoOp>, after: Seq<IoOp>, ops: Seq<IoOp>) -> bool {
    &&& before.len() <= after.len() <= before.len() + ops.len()
    &&& after == before + ops.take(after.len() - before.len())
}

/// A prefix of `more` issued after all of `done` is a prefix of both.
pub proof fn lemma_log_prefix_then(
    start: Seq<IoOp>,
    mid: Seq<IoOp>,
    after: Seq<IoOp>,
    done: Seq<IoOp>,
    more: Seq<IoOp>,
)
    requires
        mid == start + done,
        log_prefix(mid, after, more),
    ensures
        log_prefix(start, after, done + more),
{
    assert(after =~= start + (done + more).take(after.len() - start.len()));
}

/// A prefix of some calls is a prefix of those calls followed by more.
pub proof fn lemma_log_prefix_widen(start: Seq<IoOp>, after: Seq<IoOp>, ops: Seq<IoOp>, more: Seq<IoOp>)
    requires
        log_prefix(start, after, ops),
    ensures
        log_prefix(start, after, ops + more),
{
    assert(after =~= start + (ops + more).take(after.len() - start.len()));
}

/// Calls that stop after `k` of `more`, issued after all of `done`, are the
/// first `done.len() + k` of all of them.
pub proof fn lemma_log_stops_after(start: Seq<IoOp>, mid: Seq<IoOp>, after: Seq<IoOp>, done: Seq<IoOp>, more: Seq<IoOp>, k: int)
    requires
        mid == start + done,
        0 <= k <= more.len(),
        after == mid + more.take(k),
    ensures
        after == start + (done + more).take(done.len() + k),
{
    assert((done + more).take(done.len() + k) =~= done + more.take(k));
    assert(after =~= start + (done + more).take(done.len() + k));
}

/// A prefix of some calls is a prefix of any calls that begin with them.
pub proof fn lemma_log_prefix_extend(start: Seq<IoOp>, after: Seq<IoOp>, ops: Seq<IoOp>, longer: Seq<IoOp>)
    requires
        log_prefix(start, after, ops),
        ops.len() <= longer.len(),
        longer.take(ops.len() as int) == ops,
    ensures
        log_prefix(start, after, longer),
{
    let k = after.len() - start.len();
    assert(longer.take(k) =~= ops.take(k));
}

/// The reads of both slots of the ledger at `slots` in the partition at `first`.
pub open spec fn ledger_reads(first: u64, slots: [u64; 2]) -> Seq<IoOp> {
    slot_reads((first + slots[0]) as u64, (first + slots[1]) as u64)
}

/// A commit's calls: the write of `sector` to the committed slot, the flush,
/// and the readback of both slots.
pub open spec fn commit_ops(committed_lba: u64, sector: Seq<u8>, first_lba: u64, second_lba: u64) -> Seq<IoOp> {
    seq![IoOp::Write(committed_lba, sector), IoOp::Flush, IoOp::Read(first_lba), IoOp::Read(second_lba)]
}

/// `after` holds the same number of sectors as `before`, and the same bytes in
/// every sector but the one at `lba`.
pub open spec fn unchanged_except(before: Seq<Seq<u8>>, after: Seq<Seq<u8>>, lba: int) -> bool {
    &&& after.len() == before.len()
    &&& forall|i: int| 0 <= i < before.len() && i != lba ==> #[trigger] after[i] == before[i]
}

#[derive(Clone, Copy, Debug, PartialEq, Eq, Structural)]
pub enum IoPhase {
    ReadSuperblock,
    ReadInitialSlot,
    WriteInactiveSlot,
    Flush,
    ReadVerificationSlot,
}

/// The phases of a commit after its first reads: the write, the flush and the
/// readback.
pub open spec fn is_commit_phase(phase: IoPhase) -> bool {
    phase == IoPhase::WriteInactiveSlot || phase == IoPhase::Flush || phase
        == IoPhase::ReadVerificationSlot
}

/// Reads one sector.
pub fn read_one<D: DurableSectorIo>(io: &mut D, lba: u64) -> (result: Result<Sector, PersistIoError>)
    ensures
        final(io).sectors() == old(io).sectors(),
        final(io).log() == old(io).log().push(IoOp::Read(lba)),
        match result {
            Ok(sector) => lba < old(io).sectors().len() && sector@ == old(io).sectors()[lba as int],
            Err(_) => true,
        },
{
    let mut sector = [0u8; 512];
    io.read_sector(lba, &mut sector)?;
    Ok(sector)
}

/// Reads the two record slots of one ledger, in slot order.
pub fn read_slot_pair<D: DurableSectorIo>(io: &mut D, first_lba: u64, second_lba: u64) -> (result:
    Result<(Sector, Sector), PersistIoError>)
    ensures
        final(io).sectors() == old(io).sectors(),
        result is Ok ==> final(io).log() == old(io).log() + slot_reads(first_lba, second_lba),
        result is Err ==> final(io).log() == old(io).log().push(IoOp::Read(first_lba))
            || final(io).log() == old(io).log() + slot_reads(first_lba, second_lba),
        match result {
            Ok((first, second)) => {
                let disk = old(io).sectors();
                &&& first_lba < disk.len()
                &&& second_lba < disk.len()
                &&& first@ == disk[first_lba as int]
                &&& second@ == disk[second_lba as int]
            },
            Err(_) => true,
        },
{
    let ghost start = io.log();
    let first = read_one(io, first_lba)?;
    let second = read_one(io, second_lba);
    proof {
        assert(io.log() =~= start + slot_reads(first_lba, second_lba));
    }
    let second = second?;
    Ok((first, second))
}

} // verus!

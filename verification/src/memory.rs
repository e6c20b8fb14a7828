//! A sector device held in memory, with a log of the operations it served and
//! two faults it can inject: a torn write and a failed flush.
use vstd::prelude::*;
use crate::io::{DurableSectorIo, IoOp, PersistIoError};
use crate::layout::Sector;

verus! {

/// One operation served by a [`MemoryIo`], in the order it was issued.
#[derive(Clone, Copy, Debug, PartialEq, Eq, Structural)]
pub enum Operation {
    Read(u64),
    Write(u64),
    Flush,
}

/// An in-memory device. A torn write stores the sector with bit 0 of byte 100
/// flipped; a failed flush is logged and then reported as a device error.
pub struct MemoryIo {
    pub sectors: Vec<Sector>,
    pub operations: Vec<Operation>,
    pub fail_flush: bool,
    pub tear_write: bool,
    /// Every call issued, served or not.
    pub issued: Ghost<Seq<IoOp>>,
}

/// The byte whose low bit a torn write flips.
pub const TORN_BYTE: usize = 100;

impl MemoryIo {
    pub fn new(sectors: Vec<Sector>) -> (device: Self)
        ensures
            device.sectors@ == sectors@,
            device.operations@.len() == 0,
            !device.fail_flush,
            !device.tear_write,
            device.log().len() == 0,
    {
        MemoryIo {
            sectors,
            operations: Vec::new(),
            fail_flush: false,
            tear_write: false,
            issued: Ghost(Seq::empty()),
        }
    }

    /// The sector a write of `input` leaves behind.
    pub open spec fn written(self, input: Sector) -> Seq<u8> {
        if self.tear_write {
            input@.update(TORN_BYTE as int, input@[TORN_BYTE as int] ^ 1)
        } else {
            input@
        }
    }
}

impl DurableSectorIo for MemoryIo {
    open spec fn sectors(&self) -> Seq<Seq<u8>> {
        Seq::new(self.sectors@.len(), |i: int| self.sectors@[i]@)
    }

    open spec fn log(&self) -> Seq<IoOp> {
        self.issued@
    }

    fn sector_count(&self) -> (count: u64) {
        self.sectors.len() as u64
    }

    fn read_sector(&mut self, lba: u64, output: &mut Sector) -> (result: Result<(), PersistIoError>)
        ensures
            final(self).sectors@ == old(self).sectors@,
            final(self).fail_flush == old(self).fail_flush,
            final(self).tear_write == old(self).tear_write,
            result is Ok <==> lba < old(self).sectors@.len(),
            result is Ok ==> final(self).operations@ == old(self).operations@.push(Operation::Read(lba)),
            result is Err ==> result == Err::<(), PersistIoError>(PersistIoError::OutOfBounds)
                && final(self).operations@ == old(self).operations@ && *final(output) == *old(output),
    {
        self.issued = Ghost(self.issued@.push(IoOp::Read(lba)));
        if lba >= self.sectors.len() as u64 {
            return Err(PersistIoError::OutOfBounds);
        }
        *output = self.sectors[lba as usize];
        self.operations.push(Operation::Read(lba));
        proof {
            assert(self.sectors() =~= old(self).sectors());
        }
        Ok(())
    }

    fn write_sector(&mut self, lba: u64, input: &Sector) -> (result: Result<(), PersistIoError>)
        ensures
            result is Ok <==> lba < old(self).sectors@.len(),
            result is Ok ==> final(self).sectors() == old(self).sectors().update(lba as int, old(self).written(*input)),
            result is Err ==> final(self).sectors@ == old(self).sectors@,
    {
        self.issued = Ghost(self.issued@.push(IoOp::Write(lba, input@)));
        if lba >= self.sectors.len() as u64 {
            proof {
                assert(self.sectors() =~= old(self).sectors());
            }
            return Err(PersistIoError::OutOfBounds);
        }
        let mut stored = *input;
        if self.tear_write {
            stored[TORN_BYTE] = stored[TORN_BYTE] ^ 1;
        }
        self.sectors.set(lba as usize, stored);
        self.operations.push(Operation::Write(lba));
        proof {
            assert(stored@ == old(self).written(*input));
            assert(self.sectors() =~= old(self).sectors().update(lba as int, old(self).written(*input)));
        }
        Ok(())
    }

    fn flush(&mut self) -> (result: Result<(), PersistIoError>)
        ensures
            final(self).sectors@ == old(self).sectors@,
            result is Ok <==> !old(self).fail_flush,
    {
        self.issued = Ghost(self.issued@.push(IoOp::Flush));
        self.operations.push(Operation::Flush);
        proof {
            assert(self.sectors() =~= old(self).sectors());
        }
        if self.fail_flush {
            Err(PersistIoError::Device)
        } else {
            Ok(())
        }
    }
}

} // verus!

//! The immutable superblock that names the two record slots of the partition.
use vstd::prelude::*;
use crate::checksum::{crc32, lemma_crc32_detects_one_byte_change, spec_crc32};
use crate::codec::{
    all_zero, bytes_eq, epoch_at, epoch_eq, into_array, is_zero, is_zero_range, le_u32, le_u64,
    lemma_epoch_at_view, lemma_le_u32_at, lemma_le_u32_distinct, lemma_le_u64_at, lemma_u32_bytes, push_bytes,
    push_u32, push_u64, push_zeros, read_epoch, spec_le_u32, spec_le_u64, u32_bytes, u64_bytes,
    zeros,
};
use crate::layout::{
    FormatEpoch, Sector, DATA_FORMAT_VERSION, DATA_RECORD_CRC_OFFSET, DATA_SLOT_COUNT,
    DATA_SLOT_RELATIVE_LBAS, DATA_SUPERBLOCK_MAGIC, DATA_SUPERBLOCK_RELATIVE_LBA, SECTOR_SIZE,
};

verus! {

broadcast use vstd::array::group_array_axioms;

#[derive(Clone, Copy, Debug, PartialEq, Eq, Structural)]
pub enum SuperblockError {
    BadMagic,
    UnsupportedVersion,
    BadSectorSize,
    BadSlotCount,
    BadRecordSize,
    BadSlotLayout,
    BadPartitionSize,
    ZeroFormatEpoch,
    FormatEpochMismatch,
    NonZeroReserved,
    CrcMismatch,
}

impl SuperblockError {
    /// The fixed text that describes this error.
    pub open spec fn message(self) -> Seq<char> {
        match self {
            Self::BadMagic => "persistent-data superblock magic is invalid"@,
            Self::UnsupportedVersion => "persistent-data format version is unsupported"@,
            Self::BadSectorSize => "persistent-data sector size is invalid"@,
            Self::BadSlotCount => "persistent-data slot count is invalid"@,
            Self::BadRecordSize => "persistent-data record size is invalid"@,
            Self::BadSlotLayout => "persistent-data record slots are invalid"@,
            Self::BadPartitionSize => "persistent-data partition size is invalid"@,
            Self::ZeroFormatEpoch => "persistent-data format epoch is zero"@,
            Self::FormatEpochMismatch => "persistent-data superblock format epoch is foreign"@,
            Self::NonZeroReserved => "persistent-data superblock reserved bytes are nonzero"@,
            Self::CrcMismatch => "persistent-data superblock CRC32 is invalid"@,
        }
    }

    pub fn as_str(self) -> (text: &'static str)
        ensures
            text@ == self.message(),
    {
        match self {
            Self::BadMagic => "persistent-data superblock magic is invalid",
            Self::UnsupportedVersion => "persistent-data format version is unsupported",
            Self::BadSectorSize => "persistent-data sector size is invalid",
            Self::BadSlotCount => "persistent-data slot count is invalid",
            Self::BadRecordSize => "persistent-data record size is invalid",
            Self::BadSlotLayout => "persistent-data record slots are invalid",
            Self::BadPartitionSize => "persistent-data partition size is invalid",
            Self::ZeroFormatEpoch => "persistent-data format epoch is zero",
            Self::FormatEpochMismatch => "persistent-data superblock format epoch is foreign",
            Self::NonZeroReserved => "persistent-data superblock reserved bytes are nonzero",
            Self::CrcMismatch => "persistent-data superblock CRC32 is invalid",
        }
    }
}

#[derive(Clone, Copy, Debug, PartialEq, Eq)]
pub struct DataSuperblock {
    pub partition_sectors: u64,
    pub slot_relative_lbas: [u64; 2],
    pub format_epoch: FormatEpoch,
}

/// `body` followed by the little-endian CRC-32 of `body`.
pub open spec fn sealed(body: Seq<u8>) -> Seq<u8> {
    body + u32_bytes(spec_crc32(body))
}

/// The CRC stored in the last four bytes covers the bytes before them.
pub open spec fn spec_sector_crc_is_valid(sector: Seq<u8>) -> bool {
    spec_crc32(sector.subrange(0, 508)) == spec_le_u32(sector, 508)
}

pub open spec fn spec_validate_superblock_epoch(format_epoch: FormatEpoch) -> Result<
    (),
    SuperblockError,
> {
    if all_zero(format_epoch@) {
        Err(SuperblockError::ZeroFormatEpoch)
    } else {
        Ok(())
    }
}

pub open spec fn spec_validate_slot_layout(partition_sectors: u64, slots: [u64; 2]) -> Result<
    (),
    SuperblockError,
> {
    if partition_sectors < 3 {
        Err(SuperblockError::BadPartitionSize)
    } else if slots[0] != 1 || slots[1] != 2 || slots[0] == DATA_SUPERBLOCK_RELATIVE_LBA
        || slots[0] == slots[1] || slots[0] >= partition_sectors || slots[1]
        >= partition_sectors {
        Err(SuperblockError::BadSlotLayout)
    } else {
        Ok(())
    }
}

/// The first 508 bytes of an encoded superblock, before its CRC.
pub open spec fn superblock_body(partition_sectors: u64, format_epoch: FormatEpoch) -> Seq<u8> {
    DATA_SUPERBLOCK_MAGIC@ + u32_bytes(DATA_FORMAT_VERSION) + u32_bytes(512) + u32_bytes(2)
        + u32_bytes(512) + u64_bytes(1) + u64_bytes(2) + u64_bytes(partition_sectors)
        + format_epoch@ + zeros(444)
}

pub open spec fn spec_encode_superblock(partition_sectors: u64, format_epoch: FormatEpoch) -> Result<
    Seq<u8>,
    SuperblockError,
> {
    if spec_validate_superblock_epoch(format_epoch) is Err {
        Err(SuperblockError::ZeroFormatEpoch)
    } else if spec_validate_slot_layout(partition_sectors, [1u64, 2u64]) is Err {
        Err(spec_validate_slot_layout(partition_sectors, [1u64, 2u64])->Err_0)
    } else {
        Ok(sealed(superblock_body(partition_sectors, format_epoch)))
    }
}

#[verifier::opaque]
pub open spec fn spec_decode_superblock(
    sector: Seq<u8>,
    expected_partition_sectors: u64,
    expected_format_epoch: FormatEpoch,
) -> Result<DataSuperblock, SuperblockError> {
    let slots = [spec_le_u64(sector, 24), spec_le_u64(sector, 32)];
    let partition_sectors = spec_le_u64(sector, 40);
    let format_epoch = epoch_at(sector, 48);
    if all_zero(expected_format_epoch@) {
        Err(SuperblockError::ZeroFormatEpoch)
    } else if sector.subrange(0, 8) != DATA_SUPERBLOCK_MAGIC@ {
        Err(SuperblockError::BadMagic)
    } else if spec_le_u32(sector, 8) != DATA_FORMAT_VERSION {
        Err(SuperblockError::UnsupportedVersion)
    } else if spec_le_u32(sector, 12) != 512 {
        Err(SuperblockError::BadSectorSize)
    } else if spec_le_u32(sector, 16) != 2 {
        Err(SuperblockError::BadSlotCount)
    } else if spec_le_u32(sector, 20) != 512 {
        Err(SuperblockError::BadRecordSize)
    } else if partition_sectors != expected_partition_sectors {
        Err(SuperblockError::BadPartitionSize)
    } else if spec_validate_slot_layout(partition_sectors, slots) is Err {
        Err(spec_validate_slot_layout(partition_sectors, slots)->Err_0)
    } else if all_zero(format_epoch@) {
        Err(SuperblockError::ZeroFormatEpoch)
    } else if format_epoch != expected_format_epoch {
        Err(SuperblockError::FormatEpochMismatch)
    } else if !all_zero(sector.subrange(64, 508)) {
        Err(SuperblockError::NonZeroReserved)
    } else if !spec_sector_crc_is_valid(sector) {
        Err(SuperblockError::CrcMismatch)
    } else {
        Ok(DataSuperblock { partition_sectors, slot_relative_lbas: slots, format_epoch })
    }
}

pub fn validate_superblock_epoch(format_epoch: FormatEpoch) -> (result: Result<
    (),
    SuperblockError,
>)
    ensures
        result == spec_validate_superblock_epoch(format_epoch),
{
    if is_zero(&format_epoch) {
        Err(SuperblockError::ZeroFormatEpoch)
    } else {
        Ok(())
    }
}

pub fn validate_slot_layout(partition_sectors: u64, slots: [u64; 2]) -> (result: Result<
    (),
    SuperblockError,
>)
    ensures
        result == spec_validate_slot_layout(partition_sectors, slots),
{
    if partition_sectors < 3 {
        return Err(SuperblockError::BadPartitionSize);
    }
    if slots[0] != DATA_SLOT_RELATIVE_LBAS[0] || slots[1] != DATA_SLOT_RELATIVE_LBAS[1]
        || slots[0] == DATA_SUPERBLOCK_RELATIVE_LBA || slots[0] == slots[1] || slots[0]
        >= partition_sectors || slots[1] >= partition_sectors {
        return Err(SuperblockError::BadSlotLayout);
    }
    Ok(())
}

/// Writes the CRC-32 of the first 508 bytes into the last four bytes.
pub fn seal_sector(sector: &mut Sector)
    ensures
        final(sector)@ == sealed(old(sector)@.subrange(0, 508)),
{
    let crc = crc32(&sector.as_slice()[0..508]);
    sector[508] = (crc & 0xff) as u8;
    sector[509] = ((crc >> 8u32) & 0xff) as u8;
    sector[510] = ((crc >> 16u32) & 0xff) as u8;
    sector[511] = ((crc >> 24u32) & 0xff) as u8;
    assert(sector@ =~= sealed(old(sector)@.subrange(0, 508)));
}

pub fn sector_crc_is_valid(sector: &Sector) -> (valid: bool)
    ensures
        valid == spec_sector_crc_is_valid(sector@),
{
    crc32(&sector.as_slice()[0..508]) == le_u32(sector, 508)
}

/// Builds a 508-byte body and appends its CRC-32.
pub fn seal_into_sector(body: &Vec<u8>) -> (sector: Sector)
    requires
        body@.len() == 508,
    ensures
        sector@ == sealed(body@),
{
    let mut out = body.clone();
    assert(out@ == body@);
    let crc = crc32(body.as_slice());
    push_u32(&mut out, crc);
    into_array(&out)
}

/// A sealed sector keeps its body and carries a valid CRC over it.
pub proof fn lemma_sealed_crc_is_valid(body: Seq<u8>)
    requires
        body.len() == 508,
    ensures
        sealed(body).len() == 512,
        sealed(body).subrange(0, 508) == body,
        spec_sector_crc_is_valid(sealed(body)),
{
    let s = sealed(body);
    lemma_u32_bytes(spec_crc32(body));
    assert(s.subrange(0, 508) =~= body);
    assert(s.subrange(508, 512) =~= u32_bytes(spec_crc32(body)));
    lemma_le_u32_at(s, 508, spec_crc32(body));
}

impl DataSuperblock {
    pub fn encode(partition_sectors: u64, format_epoch: FormatEpoch) -> (result: Result<
        Sector,
        SuperblockError,
    >)
        ensures
            match result {
                Ok(sector) => spec_encode_superblock(partition_sectors, format_epoch) == Ok::<
                    Seq<u8>,
                    SuperblockError,
                >(sector@),
                Err(error) => spec_encode_superblock(partition_sectors, format_epoch) == Err::<
                    Seq<u8>,
                    SuperblockError,
                >(error),
            },
    {
        validate_superblock_epoch(format_epoch)?;
        validate_slot_layout(partition_sectors, DATA_SLOT_RELATIVE_LBAS)?;
        let mut body: Vec<u8> = Vec::new();
        push_bytes(&mut body, &DATA_SUPERBLOCK_MAGIC);
        push_u32(&mut body, DATA_FORMAT_VERSION);
        push_u32(&mut body, SECTOR_SIZE as u32);
        push_u32(&mut body, DATA_SLOT_COUNT as u32);
        push_u32(&mut body, SECTOR_SIZE as u32);
        push_u64(&mut body, DATA_SLOT_RELATIVE_LBAS[0]);
        push_u64(&mut body, DATA_SLOT_RELATIVE_LBAS[1]);
        push_u64(&mut body, partition_sectors);
        push_bytes(&mut body, &format_epoch);
        push_zeros(&mut body, 444);
        assert(body@ =~= superblock_body(partition_sectors, format_epoch));
        Ok(seal_into_sector(&body))
    }

    pub fn decode(
        sector: &Sector,
        expected_partition_sectors: u64,
        expected_format_epoch: FormatEpoch,
    ) -> (result: Result<Self, SuperblockError>)
        ensures
            result == spec_decode_superblock(
                sector@,
                expected_partition_sectors,
                expected_format_epoch,
            ),
            result is Ok ==> result->Ok_0.slot_relative_lbas[0] == 1
                && result->Ok_0.slot_relative_lbas[1] == 2 && result->Ok_0.partition_sectors
                == expected_partition_sectors,
    {
        reveal(spec_decode_superblock);
        validate_superblock_epoch(expected_format_epoch)?;
        if !bytes_eq(&sector.as_slice()[0..8], &DATA_SUPERBLOCK_MAGIC) {
            return Err(SuperblockError::BadMagic);
        }
        if le_u32(sector, 8) != DATA_FORMAT_VERSION {
            return Err(SuperblockError::UnsupportedVersion);
        }
        if le_u32(sector, 12) != SECTOR_SIZE as u32 {
            return Err(SuperblockError::BadSectorSize);
        }
        if le_u32(sector, 16) != DATA_SLOT_COUNT as u32 {
            return Err(SuperblockError::BadSlotCount);
        }
        if le_u32(sector, 20) != SECTOR_SIZE as u32 {
            return Err(SuperblockError::BadRecordSize);
        }
        let slot_relative_lbas = [le_u64(sector, 24), le_u64(sector, 32)];
        let partition_sectors = le_u64(sector, 40);
        if partition_sectors != expected_partition_sectors {
            return Err(SuperblockError::BadPartitionSize);
        }
        validate_slot_layout(partition_sectors, slot_relative_lbas)?;
        let format_epoch = read_epoch(sector, 48);
        validate_superblock_epoch(format_epoch)?;
        if !epoch_eq(&format_epoch, &expected_format_epoch) {
            return Err(SuperblockError::FormatEpochMismatch);
        }
        if !is_zero_range(sector, 64, DATA_RECORD_CRC_OFFSET) {
            return Err(SuperblockError::NonZeroReserved);
        }
        if !sector_crc_is_valid(sector) {
            return Err(SuperblockError::CrcMismatch);
        }
        Ok(Self { partition_sectors, slot_relative_lbas, format_epoch })
    }
}

/// A superblock decodes to the geometry and epoch it was encoded with.
pub proof fn lemma_superblock_round_trip(partition_sectors: u64, format_epoch: FormatEpoch)
    requires
        spec_encode_superblock(partition_sectors, format_epoch) is Ok,
    ensures
        spec_decode_superblock(
            spec_encode_superblock(partition_sectors, format_epoch)->Ok_0,
            partition_sectors,
            format_epoch,
        ) == Ok::<DataSuperblock, SuperblockError>(
            DataSuperblock {
                partition_sectors,
                slot_relative_lbas: [1u64, 2u64],
                format_epoch,
            },
        ),
{
    reveal(spec_decode_superblock);
    let body = superblock_body(partition_sectors, format_epoch);
    let s = sealed(body);
    lemma_sealed_crc_is_valid(body);
    assert(s.subrange(0, 8) =~= DATA_SUPERBLOCK_MAGIC@);
    assert(s.subrange(8, 12) =~= u32_bytes(DATA_FORMAT_VERSION));
    assert(s.subrange(12, 16) =~= u32_bytes(512));
    assert(s.subrange(16, 20) =~= u32_bytes(2));
    assert(s.subrange(20, 24) =~= u32_bytes(512));
    assert(s.subrange(24, 32) =~= u64_bytes(1));
    assert(s.subrange(32, 40) =~= u64_bytes(2));
    assert(s.subrange(40, 48) =~= u64_bytes(partition_sectors));
    assert(s.subrange(48, 64) =~= format_epoch@);
    assert(s.subrange(64, 508) =~= zeros(444));
    lemma_le_u32_at(s, 8, DATA_FORMAT_VERSION);
    lemma_le_u32_at(s, 12, 512);
    lemma_le_u32_at(s, 16, 2);
    lemma_le_u32_at(s, 20, 512);
    lemma_le_u64_at(s, 24, 1);
    lemma_le_u64_at(s, 32, 2);
    lemma_le_u64_at(s, 40, partition_sectors);
    lemma_epoch_at_view(s, 48, format_epoch);
    let slots = [spec_le_u64(s, 24), spec_le_u64(s, 32)];
    assert(slots =~= [1u64, 2u64]);
}

/// A sector whose CRC is valid has an invalid CRC after any one byte changes:
/// either the CRC over the first 508 bytes changes, or the stored CRC does.
pub proof fn lemma_sector_crc_rejects_one_byte_change(sector: Seq<u8>, position: int, byte: u8)
    requires
        sector.len() == 512,
        0 <= position < 512,
        byte != sector[position],
        spec_sector_crc_is_valid(sector),
    ensures
        !spec_sector_crc_is_valid(sector.update(position, byte)),
{
    let changed = sector.update(position, byte);
    if position < 508 {
        assert(changed.subrange(0, 508) =~= sector.subrange(0, 508).update(position, byte));
        lemma_crc32_detects_one_byte_change(sector.subrange(0, 508), position, byte);
        assert(spec_le_u32(changed, 508) == spec_le_u32(sector, 508));
    } else {
        assert(changed.subrange(0, 508) =~= sector.subrange(0, 508));
        lemma_le_u32_distinct(changed, sector, 508, position);
    }
}

/// Changing any one byte of a sector that decodes as a superblock makes it
/// fail to decode.
pub proof fn lemma_superblock_rejects_one_byte_change(
    sector: Seq<u8>,
    position: int,
    byte: u8,
    expected_partition_sectors: u64,
    expected_format_epoch: FormatEpoch,
)
    requires
        sector.len() == 512,
        0 <= position < 512,
        byte != sector[position],
        spec_decode_superblock(sector, expected_partition_sectors, expected_format_epoch) is Ok,
    ensures
        spec_decode_superblock(sector.update(position, byte), expected_partition_sectors, expected_format_epoch)
            is Err,
{
    reveal(spec_decode_superblock);
    lemma_sector_crc_rejects_one_byte_change(sector, position, byte);
}

} // verus!

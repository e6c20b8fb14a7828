//! Committed data records and the two-slot recovery rule.
use vstd::prelude::*;
use crate::checksum::{crc32, fnv1a64, spec_crc32, spec_fnv1a64};
use crate::codec::{
    all_zero, bytes_eq, epoch_at, epoch_eq, is_zero, is_zero_range, le_u32, le_u64,
    lemma_epoch_at_view, lemma_le_u32_at, lemma_le_u64_at, push_bytes, push_u32, push_u64,
    push_zeros, read_epoch, spec_le_u32, spec_le_u64, u32_bytes, u64_bytes, zeros,
};
use crate::layout::{
    FormatEpoch, Sector, DATA_FORMAT_VERSION, DATA_RECORD_CRC_OFFSET, DATA_RECORD_HEADER_BYTES,
    DATA_RECORD_MAGIC, DATA_RECORD_MAX_PAYLOAD, RECORD_COMMITTED, RECORD_COMMIT_COOKIE,
};
use crate::superblock::{
    lemma_sector_crc_rejects_one_byte_change,
    lemma_sealed_crc_is_valid, seal_into_sector, sealed, sector_crc_is_valid,
    spec_sector_crc_is_valid,
};

verus! {

broadcast use vstd::array::group_array_axioms;

#[derive(Clone, Copy, Debug, PartialEq, Eq, Structural)]
pub enum RecordError {
    Empty,
    BadMagic,
    UnsupportedVersion,
    BadHeaderSize,
    BadFlags,
    BadCommitCookie,
    GenerationMismatch,
    ZeroFormatEpoch,
    FormatEpochMismatch,
    PayloadTooLarge,
    PayloadCrcMismatch,
    PayloadDigestMismatch,
    NonZeroPadding,
    RecordCrcMismatch,
}

impl RecordError {
    /// The fixed text that describes this error.
    pub open spec fn message(self) -> Seq<char> {
        match self {
            Self::Empty => "persistent-data record slot is empty"@,
            Self::BadMagic => "persistent-data record magic is invalid"@,
            Self::UnsupportedVersion => "persistent-data record version is unsupported"@,
            Self::BadHeaderSize => "persistent-data record header size is invalid"@,
            Self::BadFlags => "persistent-data record commit flags are invalid"@,
            Self::BadCommitCookie => "persistent-data record commit cookie is invalid"@,
            Self::GenerationMismatch => "persistent-data record generation witness is invalid"@,
            Self::ZeroFormatEpoch => "persistent-data record format epoch is zero"@,
            Self::FormatEpochMismatch => "persistent-data record format epoch is foreign"@,
            Self::PayloadTooLarge => "persistent-data record payload is too large"@,
            Self::PayloadCrcMismatch => "persistent-data payload CRC32 is invalid"@,
            Self::PayloadDigestMismatch => "persistent-data payload digest is invalid"@,
            Self::NonZeroPadding => "persistent-data record padding is nonzero"@,
            Self::RecordCrcMismatch => "persistent-data record CRC32 is invalid"@,
        }
    }

    pub fn as_str(self) -> (text: &'static str)
        ensures
            text@ == self.message(),
    {
        match self {
            Self::Empty => "persistent-data record slot is empty",
            Self::BadMagic => "persistent-data record magic is invalid",
            Self::UnsupportedVersion => "persistent-data record version is unsupported",
            Self::BadHeaderSize => "persistent-data record header size is invalid",
            Self::BadFlags => "persistent-data record commit flags are invalid",
            Self::BadCommitCookie => "persistent-data record commit cookie is invalid",
            Self::GenerationMismatch => "persistent-data record generation witness is invalid",
            Self::ZeroFormatEpoch => "persistent-data record format epoch is zero",
            Self::FormatEpochMismatch => "persistent-data record format epoch is foreign",
            Self::PayloadTooLarge => "persistent-data record payload is too large",
            Self::PayloadCrcMismatch => "persistent-data payload CRC32 is invalid",
            Self::PayloadDigestMismatch => "persistent-data payload digest is invalid",
            Self::NonZeroPadding => "persistent-data record padding is nonzero",
            Self::RecordCrcMismatch => "persistent-data record CRC32 is invalid",
        }
    }
}

/// A committed record decoded from one slot; the payload borrows the sector.
#[derive(Clone, Copy, Debug, PartialEq, Eq)]
pub struct DataRecord<'a> {
    pub generation: u64,
    pub format_epoch: FormatEpoch,
    pub payload: &'a [u8],
}

/// The values a record carries, with its payload as a byte sequence.
pub struct RecordModel {
    pub generation: u64,
    pub format_epoch: FormatEpoch,
    pub payload: Seq<u8>,
}

impl<'a> View for DataRecord<'a> {
    type V = RecordModel;

    open spec fn view(&self) -> RecordModel {
        RecordModel {
            generation: self.generation,
            format_epoch: self.format_epoch,
            payload: self.payload@,
        }
    }
}

pub open spec fn spec_validate_record_epoch(format_epoch: FormatEpoch) -> Result<(), RecordError> {
    if all_zero(format_epoch@) {
        Err(RecordError::ZeroFormatEpoch)
    } else {
        Ok(())
    }
}

/// The 80-byte header of a committed record.
pub open spec fn record_header(format_epoch: FormatEpoch, generation: u64, payload: Seq<u8>) -> Seq<
    u8,
> {
    DATA_RECORD_MAGIC@ + u32_bytes(DATA_FORMAT_VERSION) + u32_bytes(80) + u64_bytes(generation)
        + u32_bytes(payload.len() as u32) + u32_bytes(RECORD_COMMITTED) + u32_bytes(
        spec_crc32(payload),
    ) + zeros(4) + u64_bytes(spec_fnv1a64(payload)) + u64_bytes(!generation) + u64_bytes(
        RECORD_COMMIT_COOKIE,
    ) + format_epoch@
}

/// The first 508 bytes of a committed record, before the sector CRC.
pub open spec fn record_body(format_epoch: FormatEpoch, generation: u64, payload: Seq<u8>) -> Seq<
    u8,
> {
    record_header(format_epoch, generation, payload) + payload + zeros((428 - payload.len()) as nat)
}

pub open spec fn spec_encode_record(format_epoch: FormatEpoch, generation: u64, payload: Seq<u8>) -> Result<
    Seq<u8>,
    RecordError,
> {
    if all_zero(format_epoch@) {
        Err(RecordError::ZeroFormatEpoch)
    } else if payload.len() > 428 {
        Err(RecordError::PayloadTooLarge)
    } else {
        Ok(sealed(record_body(format_epoch, generation, payload)))
    }
}

#[verifier::opaque]
pub open spec fn spec_decode_record(sector: Seq<u8>, expected_format_epoch: FormatEpoch) -> Result<
    RecordModel,
    RecordError,
> {
    let generation = spec_le_u64(sector, 16);
    let payload_len = spec_le_u32(sector, 24) as int;
    let format_epoch = epoch_at(sector, 64);
    let payload = sector.subrange(80, 80 + payload_len);
    if all_zero(expected_format_epoch@) {
        Err(RecordError::ZeroFormatEpoch)
    } else if all_zero(sector) {
        Err(RecordError::Empty)
    } else if sector.subrange(0, 8) != DATA_RECORD_MAGIC@ {
        Err(RecordError::BadMagic)
    } else if spec_le_u32(sector, 8) != DATA_FORMAT_VERSION {
        Err(RecordError::UnsupportedVersion)
    } else if spec_le_u32(sector, 12) != 80 {
        Err(RecordError::BadHeaderSize)
    } else if payload_len > 428 {
        Err(RecordError::PayloadTooLarge)
    } else if spec_le_u32(sector, 28) != RECORD_COMMITTED {
        Err(RecordError::BadFlags)
    } else if spec_le_u64(sector, 48) != !generation {
        Err(RecordError::GenerationMismatch)
    } else if spec_le_u64(sector, 56) != RECORD_COMMIT_COOKIE {
        Err(RecordError::BadCommitCookie)
    } else if !all_zero(sector.subrange(36, 40)) {
        Err(RecordError::NonZeroPadding)
    } else if all_zero(format_epoch@) {
        Err(RecordError::ZeroFormatEpoch)
    } else if format_epoch != expected_format_epoch {
        Err(RecordError::FormatEpochMismatch)
    } else if spec_crc32(payload) != spec_le_u32(sector, 32) {
        Err(RecordError::PayloadCrcMismatch)
    } else if spec_fnv1a64(payload) != spec_le_u64(sector, 40) {
        Err(RecordError::PayloadDigestMismatch)
    } else if !all_zero(sector.subrange(80 + payload_len, 508)) {
        Err(RecordError::NonZeroPadding)
    } else if !spec_sector_crc_is_valid(sector) {
        Err(RecordError::RecordCrcMismatch)
    } else {
        Ok(RecordModel { generation, format_epoch, payload })
    }
}

pub fn validate_record_epoch(format_epoch: FormatEpoch) -> (result: Result<(), RecordError>)
    ensures
        result == spec_validate_record_epoch(format_epoch),
{
    if is_zero(&format_epoch) {
        Err(RecordError::ZeroFormatEpoch)
    } else {
        Ok(())
    }
}

impl<'a> DataRecord<'a> {
    pub fn decode(sector: &'a Sector, expected_format_epoch: FormatEpoch) -> (result: Result<
        Self,
        RecordError,
    >)
        ensures
            match result {
                Ok(record) => spec_decode_record(sector@, expected_format_epoch) == Ok::<
                    RecordModel,
                    RecordError,
                >(record@),
                Err(error) => spec_decode_record(sector@, expected_format_epoch) == Err::<
                    RecordModel,
                    RecordError,
                >(error),
            },
    {
        reveal(spec_decode_record);
        validate_record_epoch(expected_format_epoch)?;
        let bytes: &'a [u8] = sector.as_slice();
        if is_zero(bytes) {
            return Err(RecordError::Empty);
        }
        if !bytes_eq(&bytes[0..8], &DATA_RECORD_MAGIC) {
            return Err(RecordError::BadMagic);
        }
        if le_u32(bytes, 8) != DATA_FORMAT_VERSION {
            return Err(RecordError::UnsupportedVersion);
        }
        if le_u32(bytes, 12) != DATA_RECORD_HEADER_BYTES as u32 {
            return Err(RecordError::BadHeaderSize);
        }
        let generation = le_u64(bytes, 16);
        let payload_len = le_u32(bytes, 24) as usize;
        if payload_len > DATA_RECORD_MAX_PAYLOAD {
            return Err(RecordError::PayloadTooLarge);
        }
        if le_u32(bytes, 28) != RECORD_COMMITTED {
            return Err(RecordError::BadFlags);
        }
        if le_u64(bytes, 48) != !generation {
            return Err(RecordError::GenerationMismatch);
        }
        if le_u64(bytes, 56) != RECORD_COMMIT_COOKIE {
            return Err(RecordError::BadCommitCookie);
        }
        if !is_zero_range(bytes, 36, 40) {
            return Err(RecordError::NonZeroPadding);
        }
        let format_epoch = read_epoch(bytes, 64);
        validate_record_epoch(format_epoch)?;
        if !epoch_eq(&format_epoch, &expected_format_epoch) {
            return Err(RecordError::FormatEpochMismatch);
        }
        let payload_end = DATA_RECORD_HEADER_BYTES + payload_len;
        let payload: &'a [u8] = &bytes[DATA_RECORD_HEADER_BYTES..payload_end];
        if crc32(payload) != le_u32(bytes, 32) {
            return Err(RecordError::PayloadCrcMismatch);
        }
        if fnv1a64(payload) != le_u64(bytes, 40) {
            return Err(RecordError::PayloadDigestMismatch);
        }
        if !is_zero_range(bytes, payload_end, DATA_RECORD_CRC_OFFSET) {
            return Err(RecordError::NonZeroPadding);
        }
        if !sector_crc_is_valid(sector) {
            return Err(RecordError::RecordCrcMismatch);
        }
        Ok(Self { generation, format_epoch, payload })
    }

    pub fn encode(format_epoch: FormatEpoch, generation: u64, payload: &[u8]) -> (result: Result<
        Sector,
        RecordError,
    >)
        ensures
            match result {
                Ok(sector) => spec_encode_record(format_epoch, generation, payload@) == Ok::<
                    Seq<u8>,
                    RecordError,
                >(sector@),
                Err(error) => spec_encode_record(format_epoch, generation, payload@) == Err::<
                    Seq<u8>,
                    RecordError,
                >(error),
            },
    {
        validate_record_epoch(format_epoch)?;
        if payload.len() > DATA_RECORD_MAX_PAYLOAD {
            return Err(RecordError::PayloadTooLarge);
        }
        let mut body: Vec<u8> = Vec::new();
        push_bytes(&mut body, &DATA_RECORD_MAGIC);
        push_u32(&mut body, DATA_FORMAT_VERSION);
        push_u32(&mut body, DATA_RECORD_HEADER_BYTES as u32);
        push_u64(&mut body, generation);
        push_u32(&mut body, payload.len() as u32);
        push_u32(&mut body, RECORD_COMMITTED);
        push_u32(&mut body, crc32(payload));
        push_zeros(&mut body, 4);
        push_u64(&mut body, fnv1a64(payload));
        push_u64(&mut body, !generation);
        push_u64(&mut body, RECORD_COMMIT_COOKIE);
        push_bytes(&mut body, &format_epoch);
        assert(body@ =~= record_header(format_epoch, generation, payload@));
        push_bytes(&mut body, payload);
        push_zeros(&mut body, DATA_RECORD_MAX_PAYLOAD - payload.len());
        assert(body@ =~= record_body(format_epoch, generation, payload@));
        Ok(seal_into_sector(&body))
    }
}

proof fn lemma_record_header(format_epoch: FormatEpoch, generation: u64, payload: Seq<u8>)
    requires
        payload.len() <= 428,
    ensures
        ({
            let h = record_header(format_epoch, generation, payload);
            &&& h.len() == 80
            &&& h.subrange(0, 8) == DATA_RECORD_MAGIC@
            &&& spec_le_u32(h, 8) == DATA_FORMAT_VERSION
            &&& spec_le_u32(h, 12) == 80
            &&& spec_le_u64(h, 16) == generation
            &&& spec_le_u32(h, 24) == payload.len()
            &&& spec_le_u32(h, 28) == RECORD_COMMITTED
            &&& spec_le_u32(h, 32) == spec_crc32(payload)
            &&& all_zero(h.subrange(36, 40))
            &&& spec_le_u64(h, 40) == spec_fnv1a64(payload)
            &&& spec_le_u64(h, 48) == !generation
            &&& spec_le_u64(h, 56) == RECORD_COMMIT_COOKIE
            &&& epoch_at(h, 64) == format_epoch
            &&& h[0] == 0x42
        }),
{
    let h = record_header(format_epoch, generation, payload);
    let n = payload.len() as int;
    assert(h.subrange(0, 8) =~= DATA_RECORD_MAGIC@);
    assert(h.subrange(8, 12) =~= u32_bytes(DATA_FORMAT_VERSION));
    assert(h.subrange(12, 16) =~= u32_bytes(80));
    assert(h.subrange(16, 24) =~= u64_bytes(generation));
    assert(h.subrange(24, 28) =~= u32_bytes(n as u32));
    assert(h.subrange(28, 32) =~= u32_bytes(RECORD_COMMITTED));
    assert(h.subrange(32, 36) =~= u32_bytes(spec_crc32(payload)));
    assert(h.subrange(36, 40) =~= zeros(4));
    assert(h.subrange(40, 48) =~= u64_bytes(spec_fnv1a64(payload)));
    assert(h.subrange(48, 56) =~= u64_bytes(!generation));
    assert(h.subrange(56, 64) =~= u64_bytes(RECORD_COMMIT_COOKIE));
    assert(h.subrange(64, 80) =~= format_epoch@);
    lemma_le_u32_at(h, 8, DATA_FORMAT_VERSION);
    lemma_le_u32_at(h, 12, 80);
    lemma_le_u64_at(h, 16, generation);
    lemma_le_u32_at(h, 24, n as u32);
    lemma_le_u32_at(h, 28, RECORD_COMMITTED);
    lemma_le_u32_at(h, 32, spec_crc32(payload));
    lemma_le_u64_at(h, 40, spec_fnv1a64(payload));
    lemma_le_u64_at(h, 48, !generation);
    lemma_le_u64_at(h, 56, RECORD_COMMIT_COOKIE);
    lemma_epoch_at_view(h, 64, format_epoch);
}

/// A committed record decodes to the generation, epoch and payload it was
/// encoded with.
#[verifier::spinoff_prover]
#[verifier::rlimit(40)]
pub proof fn lemma_record_round_trip(format_epoch: FormatEpoch, generation: u64, payload: Seq<u8>)
    requires
        spec_encode_record(format_epoch, generation, payload) is Ok,
    ensures
        spec_decode_record(spec_encode_record(format_epoch, generation, payload)->Ok_0, format_epoch)
            == Ok::<RecordModel, RecordError>(RecordModel { generation, format_epoch, payload }),
{
    reveal(spec_decode_record);
    let h = record_header(format_epoch, generation, payload);
    let body = record_body(format_epoch, generation, payload);
    let s = sealed(body);
    let n = payload.len() as int;
    lemma_record_header(format_epoch, generation, payload);
    lemma_sealed_crc_is_valid(body);
    assert(s.subrange(0, 80) =~= h);
    assert forall|i: int| 0 <= i < 80 implies s[i] == h[i] by {
        assert(s.subrange(0, 80)[i] == s[i]);
    }
    assert(s.subrange(0, 8) =~= h.subrange(0, 8));
    assert(s.subrange(36, 40) =~= h.subrange(36, 40));
    assert(epoch_at(s, 64) =~= epoch_at(h, 64));
    assert(s.subrange(80, 80 + n) =~= payload);
    assert(s.subrange(80 + n, 508) =~= zeros((428 - n) as nat));
}

#[derive(Clone, Copy, Debug, PartialEq, Eq, Structural)]
pub enum RecoveryError {
    ZeroFormatEpoch,
    NoValidRecord,
    AmbiguousGeneration,
    GenerationGap,
    GenerationExhausted,
}

impl RecoveryError {
    /// The fixed text that describes this error.
    pub open spec fn message(self) -> Seq<char> {
        match self {
            Self::ZeroFormatEpoch => "persistent-data recovery format epoch is zero"@,
            Self::NoValidRecord => "both persistent-data record slots are invalid"@,
            Self::AmbiguousGeneration => "persistent-data record slots have the same generation"@,
            Self::GenerationGap => "persistent-data record generations are not adjacent"@,
            Self::GenerationExhausted => "persistent-data generation counter is exhausted"@,
        }
    }

    pub fn as_str(self) -> (text: &'static str)
        ensures
            text@ == self.message(),
    {
        match self {
            Self::ZeroFormatEpoch => "persistent-data recovery format epoch is zero",
            Self::NoValidRecord => "both persistent-data record slots are invalid",
            Self::AmbiguousGeneration => "persistent-data record slots have the same generation",
            Self::GenerationGap => "persistent-data record generations are not adjacent",
            Self::GenerationExhausted => "persistent-data generation counter is exhausted",
        }
    }
}

/// The record selected by recovery, with the slot it came from.
#[derive(Clone, Copy, Debug, PartialEq, Eq)]
pub struct RecoveredRecord<'a> {
    pub slot: usize,
    pub generation: u64,
    pub format_epoch: FormatEpoch,
    pub payload: &'a [u8],
    pub valid_slots: u8,
    pub rejected_slots: u8,
}

/// The values a recovered record carries, with its payload as a byte sequence.
pub struct RecoveredModel {
    pub slot: usize,
    pub generation: u64,
    pub format_epoch: FormatEpoch,
    pub payload: Seq<u8>,
    pub valid_slots: u8,
    pub rejected_slots: u8,
}

impl<'a> View for RecoveredRecord<'a> {
    type V = RecoveredModel;

    open spec fn view(&self) -> RecoveredModel {
        RecoveredModel {
            slot: self.slot,
            generation: self.generation,
            format_epoch: self.format_epoch,
            payload: self.payload@,
            valid_slots: self.valid_slots,
            rejected_slots: self.rejected_slots,
        }
    }
}

pub open spec fn recovered_from(slot: usize, record: RecordModel, valid: u8, rejected: u8) -> RecoveredModel {
    RecoveredModel {
        slot,
        generation: record.generation,
        format_epoch: record.format_epoch,
        payload: record.payload,
        valid_slots: valid,
        rejected_slots: rejected,
    }
}

/// Selects the newest valid record of the two slots. Two valid records must
/// carry adjacent, distinct generations.
#[verifier::opaque]
pub open spec fn spec_recover(first: Seq<u8>, second: Seq<u8>, expected_format_epoch: FormatEpoch) -> Result<
    RecoveredModel,
    RecoveryError,
> {
    let d0 = spec_decode_record(first, expected_format_epoch);
    let d1 = spec_decode_record(second, expected_format_epoch);
    let valid = ((if d0 is Ok { 1int } else { 0int }) + (if d1 is Ok { 1int } else { 0int })) as u8;
    let rejected = (2 - valid) as u8;
    if all_zero(expected_format_epoch@) {
        Err(RecoveryError::ZeroFormatEpoch)
    } else if d0 is Ok && d1 is Ok {
        let a = d0->Ok_0;
        let b = d1->Ok_0;
        if a.generation == b.generation {
            Err(RecoveryError::AmbiguousGeneration)
        } else if a.generation + 1 != b.generation && b.generation + 1 != a.generation {
            Err(RecoveryError::GenerationGap)
        } else if a.generation > b.generation {
            Ok(recovered_from(0, a, valid, rejected))
        } else {
            Ok(recovered_from(1, b, valid, rejected))
        }
    } else if d0 is Ok {
        Ok(recovered_from(0, d0->Ok_0, valid, rejected))
    } else if d1 is Ok {
        Ok(recovered_from(1, d1->Ok_0, valid, rejected))
    } else {
        Err(RecoveryError::NoValidRecord)
    }
}

impl<'a> RecoveredRecord<'a> {
    pub fn inactive_slot(self) -> (slot: usize)
        ensures
            slot == self.slot ^ 1,
    {
        self.slot ^ 1
    }

    pub fn next_generation(self) -> (result: Result<u64, RecoveryError>)
        ensures
            match result {
                Ok(next) => self.generation < u64::MAX && next == self.generation + 1,
                Err(error) => self.generation == u64::MAX && error
                    == RecoveryError::GenerationExhausted,
            },
    {
        match self.generation.checked_add(1) {
            Some(next) => Ok(next),
            None => Err(RecoveryError::GenerationExhausted),
        }
    }
}

pub fn recover<'a>(slots: [&'a Sector; 2], expected_format_epoch: FormatEpoch) -> (result: Result<
    RecoveredRecord<'a>,
    RecoveryError,
>)
    ensures
        match result {
            Ok(record) => spec_recover(slots[0]@, slots[1]@, expected_format_epoch) == Ok::<
                RecoveredModel,
                RecoveryError,
            >(record@),
            Err(error) => spec_recover(slots[0]@, slots[1]@, expected_format_epoch) == Err::<
                RecoveredModel,
                RecoveryError,
            >(error),
        },
{
    reveal(spec_recover);
    if is_zero(&expected_format_epoch) {
        return Err(RecoveryError::ZeroFormatEpoch);
    }
    let first_sector: &'a Sector = slots[0];
    let second_sector: &'a Sector = slots[1];
    let first = DataRecord::decode(first_sector, expected_format_epoch);
    let second = DataRecord::decode(second_sector, expected_format_epoch);
    let valid_slots: u8 = (if first.is_ok() { 1u8 } else { 0u8 }) + (if second.is_ok() { 1u8 } else { 0u8 });
    let rejected_slots: u8 = 2 - valid_slots;
    match (first, second) {
        (Ok(first), Ok(second)) => {
            if first.generation == second.generation {
                return Err(RecoveryError::AmbiguousGeneration);
            }
            let first_then_second = first.generation < u64::MAX && first.generation + 1
                == second.generation;
            let second_then_first = second.generation < u64::MAX && second.generation + 1
                == first.generation;
            if !first_then_second && !second_then_first {
                return Err(RecoveryError::GenerationGap);
            }
            let (slot, record) = if first.generation > second.generation {
                (0usize, first)
            } else {
                (1usize, second)
            };
            Ok(
                RecoveredRecord {
                    slot,
                    generation: record.generation,
                    format_epoch: record.format_epoch,
                    payload: record.payload,
                    valid_slots,
                    rejected_slots,
                },
            )
        },
        (Ok(record), Err(_)) => Ok(
            RecoveredRecord {
                slot: 0,
                generation: record.generation,
                format_epoch: record.format_epoch,
                payload: record.payload,
                valid_slots,
                rejected_slots,
            },
        ),
        (Err(_), Ok(record)) => Ok(
            RecoveredRecord {
                slot: 1,
                generation: record.generation,
                format_epoch: record.format_epoch,
                payload: record.payload,
                valid_slots,
                rejected_slots,
            },
        ),
        (Err(_), Err(_)) => Err(RecoveryError::NoValidRecord),
    }
}

/// When one slot holds generation `g` and the other a freshly committed
/// generation `g + 1`, recovery selects the fresh record.
pub proof fn lemma_recover_selects_successor(
    format_epoch: FormatEpoch,
    generation: u64,
    old_payload: Seq<u8>,
    new_payload: Seq<u8>,
    new_slot: usize,
)
    requires
        generation < u64::MAX,
        new_slot < 2,
        spec_encode_record(format_epoch, generation, old_payload) is Ok,
        spec_encode_record(format_epoch, (generation + 1) as u64, new_payload) is Ok,
    ensures
        ({
            let old_sector = spec_encode_record(format_epoch, generation, old_payload)->Ok_0;
            let new_sector = spec_encode_record(format_epoch, (generation + 1) as u64, new_payload)->Ok_0;
            let recovered = if new_slot == 0 {
                spec_recover(new_sector, old_sector, format_epoch)
            } else {
                spec_recover(old_sector, new_sector, format_epoch)
            };
            recovered == Ok::<RecoveredModel, RecoveryError>(
                RecoveredModel {
                    slot: new_slot,
                    generation: (generation + 1) as u64,
                    format_epoch,
                    payload: new_payload,
                    valid_slots: 2,
                    rejected_slots: 0,
                },
            )
        }),
{
    reveal(spec_recover);
    lemma_record_round_trip(format_epoch, generation, old_payload);
    lemma_record_round_trip(format_epoch, (generation + 1) as u64, new_payload);
}

/// A record that decodes carries the format epoch it was decoded against.
proof fn lemma_decoded_epoch(sector: Seq<u8>, format_epoch: FormatEpoch)
    requires
        spec_decode_record(sector, format_epoch) is Ok,
    ensures
        spec_decode_record(sector, format_epoch)->Ok_0.format_epoch == format_epoch,
        !all_zero(format_epoch@),
{
    reveal(spec_decode_record);
}

/// Writing the record of the next generation into the slot that recovery did
/// not select, while the selected slot keeps its bytes, makes recovery select
/// the new record.
pub proof fn lemma_recover_after_commit(
    before0: Seq<u8>,
    before1: Seq<u8>,
    after0: Seq<u8>,
    after1: Seq<u8>,
    format_epoch: FormatEpoch,
    payload: Seq<u8>,
)
    requires
        spec_recover(before0, before1, format_epoch) is Ok,
        spec_recover(before0, before1, format_epoch)->Ok_0.generation < u64::MAX,
        spec_encode_record(
            format_epoch,
            (spec_recover(before0, before1, format_epoch)->Ok_0.generation + 1) as u64,
            payload,
        ) is Ok,
        ({
            let r = spec_recover(before0, before1, format_epoch)->Ok_0;
            let sector = spec_encode_record(format_epoch, (r.generation + 1) as u64, payload)->Ok_0;
            &&& r.slot == 0 ==> after0 == before0 && after1 == sector
            &&& r.slot == 1 ==> after1 == before1 && after0 == sector
        }),
    ensures
        ({
            let r = spec_recover(before0, before1, format_epoch)->Ok_0;
            spec_recover(after0, after1, format_epoch) == Ok::<RecoveredModel, RecoveryError>(
                RecoveredModel {
                    slot: r.slot ^ 1usize,
                    generation: (r.generation + 1) as u64,
                    format_epoch,
                    payload,
                    valid_slots: 2,
                    rejected_slots: 0,
                },
            )
        }),
{
    let r = spec_recover(before0, before1, format_epoch)->Ok_0;
    lemma_recovered_slot(before0, before1, format_epoch);
    let kept = if r.slot == 0 { before0 } else { before1 };
    lemma_decoded_epoch(kept, format_epoch);
    lemma_record_round_trip(format_epoch, (r.generation + 1) as u64, payload);
    let slot = r.slot;
    assert((slot == 0 ==> slot ^ 1usize == 1) && (slot == 1 ==> slot ^ 1usize == 0)) by (bit_vector);
    reveal(spec_recover);
}

/// Writing generation one into the first slot of a ledger whose second slot
/// is unwritten makes recovery select it.
pub proof fn lemma_recover_first_commit(after0: Seq<u8>, after1: Seq<u8>, format_epoch: FormatEpoch, payload: Seq<u8>)
    requires
        all_zero(after1),
        spec_encode_record(format_epoch, 1, payload) == Ok::<Seq<u8>, RecordError>(after0),
    ensures
        spec_recover(after0, after1, format_epoch) == Ok::<RecoveredModel, RecoveryError>(
            RecoveredModel {
                slot: 0,
                generation: 1,
                format_epoch,
                payload,
                valid_slots: 1,
                rejected_slots: 1,
            },
        ),
{
    lemma_record_round_trip(format_epoch, 1, payload);
    reveal(spec_decode_record);
    reveal(spec_recover);
}

/// The record recovery selects is the record decoded from its slot.
pub proof fn lemma_recovered_slot(first: Seq<u8>, second: Seq<u8>, format_epoch: FormatEpoch)
    requires
        spec_recover(first, second, format_epoch) is Ok,
    ensures
        ({
            let r = spec_recover(first, second, format_epoch)->Ok_0;
            let sector = if r.slot == 0 { first } else { second };
            &&& r.slot < 2
            &&& spec_decode_record(sector, format_epoch) == Ok::<RecordModel, RecordError>(
                RecordModel { generation: r.generation, format_epoch: r.format_epoch, payload: r.payload },
            )
        }),
{
    reveal(spec_recover);
}

/// Recovery of a ledger that may not be provisioned yet: two all-zero slots
/// hold no record at all.
pub open spec fn spec_recover_ledger(first: Seq<u8>, second: Seq<u8>, expected_format_epoch: FormatEpoch) -> Result<
    Option<RecoveredModel>,
    RecoveryError,
> {
    if all_zero(first) && all_zero(second) {
        Ok(None)
    } else {
        match spec_recover(first, second, expected_format_epoch) {
            Ok(record) => Ok(Some(record)),
            Err(error) => Err(error),
        }
    }
}

/// Recovers a ledger whose slots may both still be unwritten.
pub fn recover_ledger<'a>(slots: [&'a Sector; 2], expected_format_epoch: FormatEpoch) -> (result: Result<
    Option<RecoveredRecord<'a>>,
    RecoveryError,
>)
    ensures
        match spec_recover_ledger(slots[0]@, slots[1]@, expected_format_epoch) {
            Ok(None) => result == Ok::<Option<RecoveredRecord<'a>>, RecoveryError>(None),
            Ok(Some(model)) => result is Ok && result->Ok_0 is Some && result->Ok_0->Some_0@ == model,
            Err(error) => result == Err::<Option<RecoveredRecord<'a>>, RecoveryError>(error),
        },
{
    let first: &'a Sector = slots[0];
    let second: &'a Sector = slots[1];
    if is_zero(first) && is_zero(second) {
        return Ok(None);
    }
    match recover(slots, expected_format_epoch) {
        Ok(record) => Ok(Some(record)),
        Err(error) => Err(error),
    }
}

/// Changing any one byte of a sector that decodes as a record makes it fail
/// to decode: the sector-wide CRC no longer matches the CRC field, or the CRC
/// field no longer matches the bytes it covers.
pub proof fn lemma_record_rejects_one_byte_change(
    sector: Seq<u8>,
    position: int,
    byte: u8,
    expected_format_epoch: FormatEpoch,
)
    requires
        sector.len() == 512,
        0 <= position < 512,
        byte != sector[position],
        spec_decode_record(sector, expected_format_epoch) is Ok,
    ensures
        spec_decode_record(sector.update(position, byte), expected_format_epoch) is Err,
{
    reveal(spec_decode_record);
    lemma_sector_crc_rejects_one_byte_change(sector, position, byte);
}

} // verus!

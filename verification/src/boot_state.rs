//! The boot counter payload and its device-health successor.
use vstd::prelude::*;
use crate::checksum::{fnv1a64, spec_fnv1a64};
use crate::codec::{
    bytes_eq, into_array, le_u32, le_u64, lemma_le_u32_at, lemma_u32_bytes_zero, lemma_le_u64_at, push_bytes, push_u32,
    push_u64, push_zeros, spec_le_u32, spec_le_u64, u32_bytes, u64_bytes, zeros,
};
use crate::layout::{
    BOOT_STATE_BYTES, BOOT_STATE_MAGIC, BOOT_STATE_WITNESS, DATA_FORMAT_VERSION,
    DEVICE_HEALTH_BOOT_OPEN, DEVICE_HEALTH_FLUSH_SUPPORTED, DEVICE_HEALTH_MODE_FLAGS,
    DEVICE_HEALTH_READ_ONLY, DEVICE_HEALTH_STATE_BYTES, DEVICE_HEALTH_STATE_MAGIC,
    DEVICE_HEALTH_STATE_VERSION, DEVICE_HEALTH_WITNESS,
};

verus! {

#[derive(Clone, Copy, Debug, PartialEq, Eq, Structural)]
pub enum BootStateError {
    WrongSize,
    BadMagic,
    UnsupportedVersion,
    NonZeroReserved,
    WitnessMismatch,
}

#[derive(Clone, Copy, Debug, PartialEq, Eq, Structural)]
pub struct BootState {
    pub boot_count: u64,
}

pub open spec fn spec_encode_boot_state(state: BootState) -> Seq<u8> {
    BOOT_STATE_MAGIC@ + u32_bytes(DATA_FORMAT_VERSION) + zeros(4) + u64_bytes(state.boot_count)
        + u64_bytes(state.boot_count ^ BOOT_STATE_WITNESS)
}

pub open spec fn spec_decode_boot_state(bytes: Seq<u8>) -> Result<BootState, BootStateError> {
    let boot_count = spec_le_u64(bytes, 16);
    if bytes.len() != 32 {
        Err(BootStateError::WrongSize)
    } else if bytes.subrange(0, 8) != BOOT_STATE_MAGIC@ {
        Err(BootStateError::BadMagic)
    } else if spec_le_u32(bytes, 8) != DATA_FORMAT_VERSION {
        Err(BootStateError::UnsupportedVersion)
    } else if spec_le_u32(bytes, 12) != 0 {
        Err(BootStateError::NonZeroReserved)
    } else if spec_le_u64(bytes, 24) != boot_count ^ BOOT_STATE_WITNESS {
        Err(BootStateError::WitnessMismatch)
    } else {
        Ok(BootState { boot_count })
    }
}

impl BootState {
    pub fn encode(self) -> (bytes: [u8; 32])
        ensures
            bytes@ == spec_encode_boot_state(self),
    {
        let mut out: Vec<u8> = Vec::new();
        push_bytes(&mut out, &BOOT_STATE_MAGIC);
        push_u32(&mut out, DATA_FORMAT_VERSION);
        push_zeros(&mut out, 4);
        push_u64(&mut out, self.boot_count);
        push_u64(&mut out, self.boot_count ^ BOOT_STATE_WITNESS);
        assert(out@ =~= spec_encode_boot_state(self));
        into_array(&out)
    }

    pub fn decode(bytes: &[u8]) -> (result: Result<Self, BootStateError>)
        ensures
            result == spec_decode_boot_state(bytes@),
    {
        if bytes.len() != BOOT_STATE_BYTES {
            return Err(BootStateError::WrongSize);
        }
        if !bytes_eq(&bytes[0..8], &BOOT_STATE_MAGIC) {
            return Err(BootStateError::BadMagic);
        }
        if le_u32(bytes, 8) != DATA_FORMAT_VERSION {
            return Err(BootStateError::UnsupportedVersion);
        }
        if le_u32(bytes, 12) != 0 {
            return Err(BootStateError::NonZeroReserved);
        }
        let boot_count = le_u64(bytes, 16);
        if le_u64(bytes, 24) != boot_count ^ BOOT_STATE_WITNESS {
            return Err(BootStateError::WitnessMismatch);
        }
        Ok(Self { boot_count })
    }
}

/// A boot-state payload decodes to the counter it was encoded with.
pub proof fn lemma_boot_state_round_trip(state: BootState)
    ensures
        spec_decode_boot_state(spec_encode_boot_state(state)) == Ok::<BootState, BootStateError>(
            state,
        ),
{
    let s = spec_encode_boot_state(state);
    assert(s.subrange(0, 8) =~= BOOT_STATE_MAGIC@);
    assert(s.subrange(8, 12) =~= u32_bytes(DATA_FORMAT_VERSION));
    lemma_u32_bytes_zero();
    assert(s.subrange(12, 16) =~= u32_bytes(0));
    assert(s.subrange(16, 24) =~= u64_bytes(state.boot_count));
    assert(s.subrange(24, 32) =~= u64_bytes(state.boot_count ^ BOOT_STATE_WITNESS));
    lemma_le_u32_at(s, 8, DATA_FORMAT_VERSION);
    lemma_le_u32_at(s, 12, 0);
    lemma_le_u64_at(s, 16, state.boot_count);
    lemma_le_u64_at(s, 24, state.boot_count ^ BOOT_STATE_WITNESS);
}

/// Stable, non-secret device contract recorded after a fresh kernel probe.
///
/// This is deliberately a contract fingerprint rather than a hardware
/// identity. A later mismatch requests another full boot probe; it is never
/// sufficient by itself to publish `Offline` or grant a userspace control.
#[derive(Clone, Copy, Debug, PartialEq, Eq, Structural)]
pub struct DeviceHealthContract {
    pub capacity_sectors: u64,
    pub selected_features: u64,
    pub transport_base: u64,
    pub irq_id: u16,
    pub sector_bytes: u32,
    pub queue_size: u32,
    pub device_read_only: bool,
    pub flush_supported: bool,
}

#[derive(Clone, Copy, Debug, PartialEq, Eq, Structural)]
pub enum DeviceHealthStateError {
    WrongSize,
    BadMagic,
    UnsupportedVersion,
    BadFlags,
    InvalidContract,
    ContractDigestMismatch,
    StateWitnessMismatch,
}

impl DeviceHealthStateError {
    /// The fixed text that describes this error.
    pub open spec fn message(self) -> Seq<char> {
        match self {
            Self::WrongSize => "persistent device-health state has the wrong size"@,
            Self::BadMagic => "persistent device-health state magic is invalid"@,
            Self::UnsupportedVersion => "persistent device-health state version is unsupported"@,
            Self::BadFlags => "persistent device-health state flags are invalid"@,
            Self::InvalidContract => "persistent device-health contract is invalid"@,
            Self::ContractDigestMismatch => "persistent device-health contract digest is invalid"@,
            Self::StateWitnessMismatch => "persistent device-health generation witness is invalid"@,
        }
    }

    pub fn as_str(self) -> (text: &'static str)
        ensures
            text@ == self.message(),
    {
        match self {
            Self::WrongSize => "persistent device-health state has the wrong size",
            Self::BadMagic => "persistent device-health state magic is invalid",
            Self::UnsupportedVersion => "persistent device-health state version is unsupported",
            Self::BadFlags => "persistent device-health state flags are invalid",
            Self::InvalidContract => "persistent device-health contract is invalid",
            Self::ContractDigestMismatch => "persistent device-health contract digest is invalid",
            Self::StateWitnessMismatch => "persistent device-health generation witness is invalid",
        }
    }
}

impl DeviceHealthContract {
    pub open spec fn spec_validate(self) -> Result<(), DeviceHealthStateError> {
        if self.capacity_sectors == 0 || self.selected_features == 0 || self.transport_base == 0
            || self.irq_id == 0 || self.sector_bytes == 0 || self.queue_size == 0 {
            Err(DeviceHealthStateError::InvalidContract)
        } else {
            Ok(())
        }
    }

    pub open spec fn spec_mode_flags(self) -> u32 {
        (if self.device_read_only {
            DEVICE_HEALTH_READ_ONLY
        } else {
            0
        }) | (if self.flush_supported {
            DEVICE_HEALTH_FLUSH_SUPPORTED
        } else {
            0
        })
    }

    pub fn validate(self) -> (result: Result<(), DeviceHealthStateError>)
        ensures
            result == self.spec_validate(),
    {
        if self.capacity_sectors == 0 || self.selected_features == 0 || self.transport_base == 0
            || self.irq_id == 0 || self.sector_bytes == 0 || self.queue_size == 0 {
            return Err(DeviceHealthStateError::InvalidContract);
        }
        Ok(())
    }

    pub fn mode_flags(self) -> (flags: u32)
        ensures
            flags == self.spec_mode_flags(),
    {
        let read_only = if self.device_read_only {
            DEVICE_HEALTH_READ_ONLY
        } else {
            0
        };
        let flush_supported = if self.flush_supported {
            DEVICE_HEALTH_FLUSH_SUPPORTED
        } else {
            0
        };
        read_only | flush_supported
    }
}

/// The durable unclosed-boot hint.
///
/// `boot_open` means only that the previous kernel did not durably publish a
/// clean shutdown. It is not a persistent hardware-failure or Offline bit.
#[derive(Clone, Copy, Debug, PartialEq, Eq, Structural)]
pub struct DeviceHealthState {
    pub boot_count: u64,
    pub boot_open: bool,
    pub contract: DeviceHealthContract,
}

/// Bytes 24..64 of an encoded device-health state: the contract fields that
/// the contract digest covers.
pub open spec fn contract_bytes(contract: DeviceHealthContract) -> Seq<u8> {
    u64_bytes(contract.capacity_sectors) + u64_bytes(contract.selected_features) + u64_bytes(
        contract.transport_base,
    ) + u32_bytes(contract.irq_id as u32) + u32_bytes(contract.sector_bytes) + u32_bytes(
        contract.queue_size,
    ) + u32_bytes(contract.spec_mode_flags())
}

pub open spec fn device_health_bytes(state: DeviceHealthState) -> Seq<u8> {
    let digest = spec_fnv1a64(contract_bytes(state.contract));
    DEVICE_HEALTH_STATE_MAGIC@ + u32_bytes(DEVICE_HEALTH_STATE_VERSION) + u32_bytes(
        if state.boot_open {
            DEVICE_HEALTH_BOOT_OPEN
        } else {
            0
        },
    ) + u64_bytes(state.boot_count) + contract_bytes(state.contract) + u64_bytes(digest)
        + u64_bytes(state.boot_count ^ digest ^ DEVICE_HEALTH_WITNESS)
}

pub open spec fn spec_encode_device_health(state: DeviceHealthState) -> Result<
    Seq<u8>,
    DeviceHealthStateError,
> {
    if state.contract.spec_validate() is Err {
        Err(DeviceHealthStateError::InvalidContract)
    } else {
        Ok(device_health_bytes(state))
    }
}

#[verifier::opaque]
pub open spec fn spec_decode_device_health(bytes: Seq<u8>) -> Result<
    DeviceHealthState,
    DeviceHealthStateError,
> {
    let flags = spec_le_u32(bytes, 12);
    let irq = spec_le_u32(bytes, 48);
    let mode_flags = spec_le_u32(bytes, 60);
    let contract = DeviceHealthContract {
        capacity_sectors: spec_le_u64(bytes, 24),
        selected_features: spec_le_u64(bytes, 32),
        transport_base: spec_le_u64(bytes, 40),
        irq_id: irq as u16,
        sector_bytes: spec_le_u32(bytes, 52),
        queue_size: spec_le_u32(bytes, 56),
        device_read_only: mode_flags & DEVICE_HEALTH_READ_ONLY != 0,
        flush_supported: mode_flags & DEVICE_HEALTH_FLUSH_SUPPORTED != 0,
    };
    let digest = spec_le_u64(bytes, 64);
    let boot_count = spec_le_u64(bytes, 16);
    if bytes.len() != 80 {
        Err(DeviceHealthStateError::WrongSize)
    } else if bytes.subrange(0, 8) != DEVICE_HEALTH_STATE_MAGIC@ {
        Err(DeviceHealthStateError::BadMagic)
    } else if spec_le_u32(bytes, 8) != DEVICE_HEALTH_STATE_VERSION {
        Err(DeviceHealthStateError::UnsupportedVersion)
    } else if flags & !DEVICE_HEALTH_BOOT_OPEN != 0 {
        Err(DeviceHealthStateError::BadFlags)
    } else if irq > 0xffff {
        Err(DeviceHealthStateError::InvalidContract)
    } else if mode_flags & !DEVICE_HEALTH_MODE_FLAGS != 0 {
        Err(DeviceHealthStateError::BadFlags)
    } else if contract.spec_validate() is Err {
        Err(DeviceHealthStateError::InvalidContract)
    } else if digest != spec_fnv1a64(bytes.subrange(24, 64)) {
        Err(DeviceHealthStateError::ContractDigestMismatch)
    } else if spec_le_u64(bytes, 72) != boot_count ^ digest ^ DEVICE_HEALTH_WITNESS {
        Err(DeviceHealthStateError::StateWitnessMismatch)
    } else {
        Ok(
            DeviceHealthState {
                boot_count,
                boot_open: flags & DEVICE_HEALTH_BOOT_OPEN != 0,
                contract,
            },
        )
    }
}

impl DeviceHealthState {
    pub fn encode(self) -> (result: Result<[u8; 80], DeviceHealthStateError>)
        ensures
            match result {
                Ok(bytes) => spec_encode_device_health(self) == Ok::<
                    Seq<u8>,
                    DeviceHealthStateError,
                >(bytes@),
                Err(error) => spec_encode_device_health(self) == Err::<
                    Seq<u8>,
                    DeviceHealthStateError,
                >(error),
            },
    {
        self.contract.validate()?;
        let mut contract: Vec<u8> = Vec::new();
        push_u64(&mut contract, self.contract.capacity_sectors);
        push_u64(&mut contract, self.contract.selected_features);
        push_u64(&mut contract, self.contract.transport_base);
        push_u32(&mut contract, self.contract.irq_id as u32);
        push_u32(&mut contract, self.contract.sector_bytes);
        push_u32(&mut contract, self.contract.queue_size);
        push_u32(&mut contract, self.contract.mode_flags());
        assert(contract@ =~= contract_bytes(self.contract));
        let contract_digest = fnv1a64(contract.as_slice());
        let mut out: Vec<u8> = Vec::new();
        push_bytes(&mut out, &DEVICE_HEALTH_STATE_MAGIC);
        push_u32(&mut out, DEVICE_HEALTH_STATE_VERSION);
        push_u32(
            &mut out,
            if self.boot_open {
                DEVICE_HEALTH_BOOT_OPEN
            } else {
                0
            },
        );
        push_u64(&mut out, self.boot_count);
        push_bytes(&mut out, contract.as_slice());
        push_u64(&mut out, contract_digest);
        push_u64(&mut out, self.boot_count ^ contract_digest ^ DEVICE_HEALTH_WITNESS);
        assert(out@ =~= device_health_bytes(self));
        Ok(into_array(&out))
    }

    pub fn decode(bytes: &[u8]) -> (result: Result<Self, DeviceHealthStateError>)
        ensures
            result == spec_decode_device_health(bytes@),
    {
        reveal(spec_decode_device_health);
        if bytes.len() != DEVICE_HEALTH_STATE_BYTES {
            return Err(DeviceHealthStateError::WrongSize);
        }
        if !bytes_eq(&bytes[0..8], &DEVICE_HEALTH_STATE_MAGIC) {
            return Err(DeviceHealthStateError::BadMagic);
        }
        if le_u32(bytes, 8) != DEVICE_HEALTH_STATE_VERSION {
            return Err(DeviceHealthStateError::UnsupportedVersion);
        }
        let flags = le_u32(bytes, 12);
        if flags & !DEVICE_HEALTH_BOOT_OPEN != 0 {
            return Err(DeviceHealthStateError::BadFlags);
        }
        let irq = le_u32(bytes, 48);
        if irq > 0xffff {
            return Err(DeviceHealthStateError::InvalidContract);
        }
        let irq_id = irq as u16;
        let mode_flags = le_u32(bytes, 60);
        if mode_flags & !DEVICE_HEALTH_MODE_FLAGS != 0 {
            return Err(DeviceHealthStateError::BadFlags);
        }
        let contract = DeviceHealthContract {
            capacity_sectors: le_u64(bytes, 24),
            selected_features: le_u64(bytes, 32),
            transport_base: le_u64(bytes, 40),
            irq_id,
            sector_bytes: le_u32(bytes, 52),
            queue_size: le_u32(bytes, 56),
            device_read_only: mode_flags & DEVICE_HEALTH_READ_ONLY != 0,
            flush_supported: mode_flags & DEVICE_HEALTH_FLUSH_SUPPORTED != 0,
        };
        contract.validate()?;
        let contract_digest = le_u64(bytes, 64);
        if contract_digest != fnv1a64(&bytes[24..64]) {
            return Err(DeviceHealthStateError::ContractDigestMismatch);
        }
        let boot_count = le_u64(bytes, 16);
        if le_u64(bytes, 72) != boot_count ^ contract_digest ^ DEVICE_HEALTH_WITNESS {
            return Err(DeviceHealthStateError::StateWitnessMismatch);
        }
        Ok(Self { boot_count, boot_open: flags & DEVICE_HEALTH_BOOT_OPEN != 0, contract })
    }
}

proof fn lemma_device_health_fields(state: DeviceHealthState)
    ensures
        ({
            let c = state.contract;
            let s = device_health_bytes(state);
            let digest = spec_fnv1a64(contract_bytes(c));
            &&& s.len() == 80
            &&& s.subrange(0, 8) == DEVICE_HEALTH_STATE_MAGIC@
            &&& spec_le_u32(s, 8) == DEVICE_HEALTH_STATE_VERSION
            &&& spec_le_u32(s, 12) == (if state.boot_open { 1u32 } else { 0u32 })
            &&& spec_le_u64(s, 16) == state.boot_count
            &&& spec_le_u64(s, 24) == c.capacity_sectors
            &&& spec_le_u64(s, 32) == c.selected_features
            &&& spec_le_u64(s, 40) == c.transport_base
            &&& spec_le_u32(s, 48) == c.irq_id as u32
            &&& spec_le_u32(s, 52) == c.sector_bytes
            &&& spec_le_u32(s, 56) == c.queue_size
            &&& spec_le_u32(s, 60) == c.spec_mode_flags()
            &&& s.subrange(24, 64) == contract_bytes(c)
            &&& spec_le_u64(s, 64) == digest
            &&& spec_le_u64(s, 72) == state.boot_count ^ digest ^ DEVICE_HEALTH_WITNESS
        }),
{
    let c = state.contract;
    let s = device_health_bytes(state);
    let flags: u32 = if state.boot_open { 1 } else { 0 };
    let mode = c.spec_mode_flags();
    let digest = spec_fnv1a64(contract_bytes(c));
    assert(s.subrange(0, 8) =~= DEVICE_HEALTH_STATE_MAGIC@);
    assert(s.subrange(8, 12) =~= u32_bytes(DEVICE_HEALTH_STATE_VERSION));
    assert(s.subrange(12, 16) =~= u32_bytes(flags));
    assert(s.subrange(16, 24) =~= u64_bytes(state.boot_count));
    assert(s.subrange(24, 64) =~= contract_bytes(c));
    assert(s.subrange(64, 72) =~= u64_bytes(digest));
    assert(s.subrange(72, 80) =~= u64_bytes(state.boot_count ^ digest ^ DEVICE_HEALTH_WITNESS));
    lemma_contract_fields(c, s);
    lemma_le_u32_at(s, 8, DEVICE_HEALTH_STATE_VERSION);
    lemma_le_u32_at(s, 12, flags);
    lemma_le_u64_at(s, 16, state.boot_count);
    lemma_le_u64_at(s, 64, digest);
    lemma_le_u64_at(s, 72, state.boot_count ^ digest ^ DEVICE_HEALTH_WITNESS);
}

proof fn lemma_contract_fields(c: DeviceHealthContract, s: Seq<u8>)
    requires
        s.len() == 80,
        s.subrange(24, 64) == contract_bytes(c),
    ensures
        spec_le_u64(s, 24) == c.capacity_sectors,
        spec_le_u64(s, 32) == c.selected_features,
        spec_le_u64(s, 40) == c.transport_base,
        spec_le_u32(s, 48) == c.irq_id as u32,
        spec_le_u32(s, 52) == c.sector_bytes,
        spec_le_u32(s, 56) == c.queue_size,
        spec_le_u32(s, 60) == c.spec_mode_flags(),
{
    let b = contract_bytes(c);
    assert forall|i: int| 24 <= i < 64 implies s[i] == b[i - 24] by {
        assert(s.subrange(24, 64)[i - 24] == s[i]);
    }
    assert(s.subrange(24, 32) =~= u64_bytes(c.capacity_sectors));
    assert(s.subrange(32, 40) =~= u64_bytes(c.selected_features));
    assert(s.subrange(40, 48) =~= u64_bytes(c.transport_base));
    assert(s.subrange(48, 52) =~= u32_bytes(c.irq_id as u32));
    assert(s.subrange(52, 56) =~= u32_bytes(c.sector_bytes));
    assert(s.subrange(56, 60) =~= u32_bytes(c.queue_size));
    assert(s.subrange(60, 64) =~= u32_bytes(c.spec_mode_flags()));
    lemma_le_u64_at(s, 24, c.capacity_sectors);
    lemma_le_u64_at(s, 32, c.selected_features);
    lemma_le_u64_at(s, 40, c.transport_base);
    lemma_le_u32_at(s, 48, c.irq_id as u32);
    lemma_le_u32_at(s, 52, c.sector_bytes);
    lemma_le_u32_at(s, 56, c.queue_size);
    lemma_le_u32_at(s, 60, c.spec_mode_flags());
}

/// A device-health payload decodes to the state it was encoded with.
pub proof fn lemma_device_health_round_trip(state: DeviceHealthState)
    requires
        state.contract.spec_validate() is Ok,
    ensures
        device_health_bytes(state).len() == 80,
        spec_decode_device_health(device_health_bytes(state)) == Ok::<
            DeviceHealthState,
            DeviceHealthStateError,
        >(state),
{
    reveal(spec_decode_device_health);
    let c = state.contract;
    let flags: u32 = if state.boot_open { 1 } else { 0 };
    let mode = c.spec_mode_flags();
    lemma_device_health_fields(state);
    let ro = c.device_read_only;
    let fl = c.flush_supported;
    assert(mode & !3u32 == 0 && ((mode & 1u32 != 0) == ro) && ((mode & 2u32 != 0) == fl))
        by (bit_vector)
        requires
            mode == ((if ro { 1u32 } else { 0u32 }) | (if fl { 2u32 } else { 0u32 })),
    ;
    let open = state.boot_open;
    assert(flags & !1u32 == 0 && ((flags & 1u32 != 0) == open)) by (bit_vector)
        requires
            flags == (if open { 1u32 } else { 0u32 }),
    ;
}

} // verus!

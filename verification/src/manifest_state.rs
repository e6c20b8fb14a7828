//! Manifest rollback floor and ordered key-policy payloads.
use vstd::prelude::*;
use crate::checksum::{fnv1a64, spec_fnv1a64};
use crate::codec::{
    all_zero, bytes_eq, digest_at, digest_eq, into_array, is_zero, is_zero_range, le_u32, le_u64,
    lemma_digest_at_view, lemma_le_u32_at, lemma_le_u64_at, lemma_u32_bytes_zero, push_bytes,
    push_u32, push_u64, push_zeros, read_digest, spec_le_u32, spec_le_u64, u32_bytes, u64_bytes,
    zeros,
};
use crate::layout::{
    MANIFEST_KEY_POLICY_STATE_BYTES, MANIFEST_KEY_POLICY_STATE_MAGIC,
    MANIFEST_KEY_POLICY_STATE_VERSION, MANIFEST_KEY_POLICY_WITNESS, MANIFEST_ROLLBACK_STATE_BYTES,
    MANIFEST_ROLLBACK_STATE_MAGIC, MANIFEST_ROLLBACK_STATE_VERSION, MANIFEST_ROLLBACK_WITNESS,
};

verus! {

broadcast use vstd::array::group_array_axioms;

/// Public-key namespace bound to one persistent manifest rollback ledger.
///
/// The digest is the SHA-256 of the pinned RSA modulus. It is not secret and
/// does not authenticate writable storage; it only prevents a record from one
/// compiled trust-anchor namespace being silently reused by another.
#[derive(Clone, Copy, Debug, PartialEq, Eq)]
pub struct ManifestRollbackBinding {
    pub key_id: u8,
    pub trust_anchor_sha256: [u8; 32],
}

#[derive(Clone, Copy, Debug, PartialEq, Eq, Structural)]
pub enum ManifestRollbackStateError {
    WrongSize,
    BadMagic,
    UnsupportedVersion,
    ZeroFloor,
    InvalidKeyId,
    ZeroTrustAnchor,
    NonZeroReserved,
    WitnessMismatch,
}

impl ManifestRollbackStateError {
    /// The fixed text that describes this error.
    pub open spec fn message(self) -> Seq<char> {
        match self {
            Self::WrongSize => "persistent manifest rollback state has the wrong size"@,
            Self::BadMagic => "persistent manifest rollback state magic is invalid"@,
            Self::UnsupportedVersion => "persistent manifest rollback state version is unsupported"@,
            Self::ZeroFloor => "persistent manifest rollback floor is zero"@,
            Self::InvalidKeyId => "persistent manifest rollback key id is invalid"@,
            Self::ZeroTrustAnchor => "persistent manifest rollback trust anchor is zero"@,
            Self::NonZeroReserved => "persistent manifest rollback reserved bytes are nonzero"@,
            Self::WitnessMismatch => "persistent manifest rollback witness is invalid"@,
        }
    }

    pub fn as_str(self) -> (text: &'static str)
        ensures
            text@ == self.message(),
    {
        match self {
            Self::WrongSize => "persistent manifest rollback state has the wrong size",
            Self::BadMagic => "persistent manifest rollback state magic is invalid",
            Self::UnsupportedVersion => "persistent manifest rollback state version is unsupported",
            Self::ZeroFloor => "persistent manifest rollback floor is zero",
            Self::InvalidKeyId => "persistent manifest rollback key id is invalid",
            Self::ZeroTrustAnchor => "persistent manifest rollback trust anchor is zero",
            Self::NonZeroReserved => "persistent manifest rollback reserved bytes are nonzero",
            Self::WitnessMismatch => "persistent manifest rollback witness is invalid",
        }
    }
}

impl ManifestRollbackBinding {
    pub open spec fn spec_validate(self) -> Result<(), ManifestRollbackStateError> {
        if self.key_id == 0 {
            Err(ManifestRollbackStateError::InvalidKeyId)
        } else if all_zero(self.trust_anchor_sha256@) {
            Err(ManifestRollbackStateError::ZeroTrustAnchor)
        } else {
            Ok(())
        }
    }

    pub fn validate(self) -> (result: Result<(), ManifestRollbackStateError>)
        ensures
            result == self.spec_validate(),
    {
        if self.key_id == 0 {
            return Err(ManifestRollbackStateError::InvalidKeyId);
        }
        if is_zero(&self.trust_anchor_sha256) {
            return Err(ManifestRollbackStateError::ZeroTrustAnchor);
        }
        Ok(())
    }

    /// Field-by-field equality.
    pub fn same_as(&self, other: &Self) -> (equal: bool)
        ensures
            equal == (*self == *other),
    {
        self.key_id == other.key_id && digest_eq(&self.trust_anchor_sha256, &other.trust_anchor_sha256)
    }
}

#[derive(Clone, Copy, Debug, PartialEq, Eq)]
pub struct ManifestRollbackState {
    pub floor: u32,
    pub binding: ManifestRollbackBinding,
}

/// Bytes 12..56 of an encoded rollback state: the fields its witness covers.
pub open spec fn rollback_fields(state: ManifestRollbackState) -> Seq<u8> {
    u32_bytes(state.floor) + u32_bytes(state.binding.key_id as u32) + zeros(4)
        + state.binding.trust_anchor_sha256@
}

pub open spec fn rollback_bytes(state: ManifestRollbackState) -> Seq<u8> {
    MANIFEST_ROLLBACK_STATE_MAGIC@ + u32_bytes(MANIFEST_ROLLBACK_STATE_VERSION) + rollback_fields(
        state,
    ) + u64_bytes(spec_fnv1a64(rollback_fields(state)) ^ MANIFEST_ROLLBACK_WITNESS)
}

pub open spec fn spec_encode_rollback(state: ManifestRollbackState) -> Result<
    Seq<u8>,
    ManifestRollbackStateError,
> {
    if state.floor == 0 {
        Err(ManifestRollbackStateError::ZeroFloor)
    } else if state.binding.spec_validate() is Err {
        Err(state.binding.spec_validate()->Err_0)
    } else {
        Ok(rollback_bytes(state))
    }
}

#[verifier::opaque]
pub open spec fn spec_decode_rollback(bytes: Seq<u8>) -> Result<
    ManifestRollbackState,
    ManifestRollbackStateError,
> {
    let floor = spec_le_u32(bytes, 12);
    let key = spec_le_u32(bytes, 16);
    let binding = ManifestRollbackBinding {
        key_id: key as u8,
        trust_anchor_sha256: digest_at(bytes, 24),
    };
    if bytes.len() != 64 {
        Err(ManifestRollbackStateError::WrongSize)
    } else if bytes.subrange(0, 8) != MANIFEST_ROLLBACK_STATE_MAGIC@ {
        Err(ManifestRollbackStateError::BadMagic)
    } else if spec_le_u32(bytes, 8) != MANIFEST_ROLLBACK_STATE_VERSION {
        Err(ManifestRollbackStateError::UnsupportedVersion)
    } else if floor == 0 {
        Err(ManifestRollbackStateError::ZeroFloor)
    } else if key > 0xff {
        Err(ManifestRollbackStateError::InvalidKeyId)
    } else if !all_zero(bytes.subrange(20, 24)) {
        Err(ManifestRollbackStateError::NonZeroReserved)
    } else if binding.spec_validate() is Err {
        Err(binding.spec_validate()->Err_0)
    } else if spec_le_u64(bytes, 56) != spec_fnv1a64(bytes.subrange(12, 56))
        ^ MANIFEST_ROLLBACK_WITNESS {
        Err(ManifestRollbackStateError::WitnessMismatch)
    } else {
        Ok(ManifestRollbackState { floor, binding })
    }
}

impl ManifestRollbackState {
    pub fn encode(self) -> (result: Result<[u8; 64], ManifestRollbackStateError>)
        ensures
            match result {
                Ok(bytes) => spec_encode_rollback(self) == Ok::<
                    Seq<u8>,
                    ManifestRollbackStateError,
                >(bytes@),
                Err(error) => spec_encode_rollback(self) == Err::<
                    Seq<u8>,
                    ManifestRollbackStateError,
                >(error),
            },
    {
        if self.floor == 0 {
            return Err(ManifestRollbackStateError::ZeroFloor);
        }
        self.binding.validate()?;
        let mut fields: Vec<u8> = Vec::new();
        push_u32(&mut fields, self.floor);
        push_u32(&mut fields, self.binding.key_id as u32);
        push_zeros(&mut fields, 4);
        push_bytes(&mut fields, &self.binding.trust_anchor_sha256);
        assert(fields@ =~= rollback_fields(self));
        let witness = fnv1a64(fields.as_slice()) ^ MANIFEST_ROLLBACK_WITNESS;
        let mut out: Vec<u8> = Vec::new();
        push_bytes(&mut out, &MANIFEST_ROLLBACK_STATE_MAGIC);
        push_u32(&mut out, MANIFEST_ROLLBACK_STATE_VERSION);
        push_bytes(&mut out, fields.as_slice());
        push_u64(&mut out, witness);
        assert(out@ =~= rollback_bytes(self));
        Ok(into_array(&out))
    }

    pub fn decode(bytes: &[u8]) -> (result: Result<Self, ManifestRollbackStateError>)
        ensures
            result == spec_decode_rollback(bytes@),
    {
        reveal(spec_decode_rollback);
        if bytes.len() != MANIFEST_ROLLBACK_STATE_BYTES {
            return Err(ManifestRollbackStateError::WrongSize);
        }
        if !bytes_eq(&bytes[0..8], &MANIFEST_ROLLBACK_STATE_MAGIC) {
            return Err(ManifestRollbackStateError::BadMagic);
        }
        if le_u32(bytes, 8) != MANIFEST_ROLLBACK_STATE_VERSION {
            return Err(ManifestRollbackStateError::UnsupportedVersion);
        }
        let floor = le_u32(bytes, 12);
        if floor == 0 {
            return Err(ManifestRollbackStateError::ZeroFloor);
        }
        let key = le_u32(bytes, 16);
        if key > 0xff {
            return Err(ManifestRollbackStateError::InvalidKeyId);
        }
        if !is_zero_range(bytes, 20, 24) {
            return Err(ManifestRollbackStateError::NonZeroReserved);
        }
        let binding = ManifestRollbackBinding {
            key_id: key as u8,
            trust_anchor_sha256: read_digest(bytes, 24),
        };
        binding.validate()?;
        if le_u64(bytes, 56) != fnv1a64(&bytes[12..56]) ^ MANIFEST_ROLLBACK_WITNESS {
            return Err(ManifestRollbackStateError::WitnessMismatch);
        }
        Ok(Self { floor, binding })
    }

    /// Field-by-field equality.
    pub fn same_as(&self, other: &Self) -> (equal: bool)
        ensures
            equal == (*self == *other),
    {
        self.floor == other.floor && self.binding.same_as(&other.binding)
    }
}

/// A rollback payload decodes to the floor and binding it was encoded with.
pub proof fn lemma_rollback_round_trip(state: ManifestRollbackState)
    requires
        spec_encode_rollback(state) is Ok,
    ensures
        spec_decode_rollback(spec_encode_rollback(state)->Ok_0) == Ok::<
            ManifestRollbackState,
            ManifestRollbackStateError,
        >(state),
{
    reveal(spec_decode_rollback);
    let s = rollback_bytes(state);
    let fields = rollback_fields(state);
    let key = state.binding.key_id as u32;
    let witness = spec_fnv1a64(fields) ^ MANIFEST_ROLLBACK_WITNESS;
    assert(s.subrange(0, 8) =~= MANIFEST_ROLLBACK_STATE_MAGIC@);
    assert(s.subrange(8, 12) =~= u32_bytes(MANIFEST_ROLLBACK_STATE_VERSION));
    assert(s.subrange(12, 16) =~= u32_bytes(state.floor));
    assert(s.subrange(16, 20) =~= u32_bytes(key));
    assert(s.subrange(20, 24) =~= zeros(4));
    assert(s.subrange(24, 56) =~= state.binding.trust_anchor_sha256@);
    assert(s.subrange(12, 56) =~= fields);
    assert(s.subrange(56, 64) =~= u64_bytes(witness));
    lemma_le_u32_at(s, 8, MANIFEST_ROLLBACK_STATE_VERSION);
    lemma_le_u32_at(s, 12, state.floor);
    lemma_le_u32_at(s, 16, key);
    lemma_le_u64_at(s, 56, witness);
    lemma_digest_at_view(s, 24, state.binding.trust_anchor_sha256);
}

/// Active public-key epoch and compiled keyring namespace, persisted.
///
/// Public-key material is not secret. The two digests bind writable state to
/// one reviewed keyring order and one active trust anchor, while `key_epoch`
/// makes reverse transitions fail closed independently of manifest version.
#[derive(Clone, Copy, Debug, PartialEq, Eq)]
pub struct ManifestKeyPolicyBinding {
    pub key_id: u8,
    pub key_epoch: u32,
    pub trust_anchor_sha256: [u8; 32],
    pub policy_sha256: [u8; 32],
}

#[derive(Clone, Copy, Debug, PartialEq, Eq, Structural)]
pub enum ManifestKeyPolicyStateError {
    WrongSize,
    BadMagic,
    UnsupportedVersion,
    ZeroFloor,
    InvalidKeyId,
    ZeroKeyEpoch,
    ZeroTrustAnchor,
    ZeroPolicyDigest,
    NonZeroReserved,
    WitnessMismatch,
}

impl ManifestKeyPolicyStateError {
    /// The fixed text that describes this error.
    pub open spec fn message(self) -> Seq<char> {
        match self {
            Self::WrongSize => "persistent manifest key-policy state has the wrong size"@,
            Self::BadMagic => "persistent manifest key-policy magic is invalid"@,
            Self::UnsupportedVersion => "persistent manifest key-policy version is unsupported"@,
            Self::ZeroFloor => "persistent manifest key-policy floor is zero"@,
            Self::InvalidKeyId => "persistent manifest key-policy key id is invalid"@,
            Self::ZeroKeyEpoch => "persistent manifest key-policy epoch is zero"@,
            Self::ZeroTrustAnchor => "persistent manifest key-policy trust anchor is zero"@,
            Self::ZeroPolicyDigest => "persistent manifest keyring digest is zero"@,
            Self::NonZeroReserved => "persistent manifest key-policy reserved bytes are nonzero"@,
            Self::WitnessMismatch => "persistent manifest key-policy witness is invalid"@,
        }
    }

    pub fn as_str(self) -> (text: &'static str)
        ensures
            text@ == self.message(),
    {
        match self {
            Self::WrongSize => "persistent manifest key-policy state has the wrong size",
            Self::BadMagic => "persistent manifest key-policy magic is invalid",
            Self::UnsupportedVersion => "persistent manifest key-policy version is unsupported",
            Self::ZeroFloor => "persistent manifest key-policy floor is zero",
            Self::InvalidKeyId => "persistent manifest key-policy key id is invalid",
            Self::ZeroKeyEpoch => "persistent manifest key-policy epoch is zero",
            Self::ZeroTrustAnchor => "persistent manifest key-policy trust anchor is zero",
            Self::ZeroPolicyDigest => "persistent manifest keyring digest is zero",
            Self::NonZeroReserved => "persistent manifest key-policy reserved bytes are nonzero",
            Self::WitnessMismatch => "persistent manifest key-policy witness is invalid",
        }
    }
}

impl ManifestKeyPolicyBinding {
    pub open spec fn spec_validate(self) -> Result<(), ManifestKeyPolicyStateError> {
        if self.key_id == 0 {
            Err(ManifestKeyPolicyStateError::InvalidKeyId)
        } else if self.key_epoch == 0 {
            Err(ManifestKeyPolicyStateError::ZeroKeyEpoch)
        } else if all_zero(self.trust_anchor_sha256@) {
            Err(ManifestKeyPolicyStateError::ZeroTrustAnchor)
        } else if all_zero(self.policy_sha256@) {
            Err(ManifestKeyPolicyStateError::ZeroPolicyDigest)
        } else {
            Ok(())
        }
    }

    pub fn validate(self) -> (result: Result<(), ManifestKeyPolicyStateError>)
        ensures
            result == self.spec_validate(),
    {
        if self.key_id == 0 {
            return Err(ManifestKeyPolicyStateError::InvalidKeyId);
        }
        if self.key_epoch == 0 {
            return Err(ManifestKeyPolicyStateError::ZeroKeyEpoch);
        }
        if is_zero(&self.trust_anchor_sha256) {
            return Err(ManifestKeyPolicyStateError::ZeroTrustAnchor);
        }
        if is_zero(&self.policy_sha256) {
            return Err(ManifestKeyPolicyStateError::ZeroPolicyDigest);
        }
        Ok(())
    }

    /// Field-by-field equality.
    pub fn same_as(&self, other: &Self) -> (equal: bool)
        ensures
            equal == (*self == *other),
    {
        self.key_id == other.key_id && self.key_epoch == other.key_epoch && digest_eq(
            &self.trust_anchor_sha256,
            &other.trust_anchor_sha256,
        ) && digest_eq(&self.policy_sha256, &other.policy_sha256)
    }
}

#[derive(Clone, Copy, Debug, PartialEq, Eq)]
pub struct ManifestKeyPolicyState {
    pub floor: u32,
    pub binding: ManifestKeyPolicyBinding,
}

/// Bytes 12..88 of an encoded key-policy state: the fields its witness covers.
pub open spec fn key_policy_fields(state: ManifestKeyPolicyState) -> Seq<u8> {
    u32_bytes(state.floor) + u32_bytes(state.binding.key_epoch) + u32_bytes(
        state.binding.key_id as u32,
    ) + state.binding.trust_anchor_sha256@ + state.binding.policy_sha256@
}

pub open spec fn key_policy_bytes(state: ManifestKeyPolicyState) -> Seq<u8> {
    MANIFEST_KEY_POLICY_STATE_MAGIC@ + u32_bytes(MANIFEST_KEY_POLICY_STATE_VERSION)
        + key_policy_fields(state) + u64_bytes(
        spec_fnv1a64(key_policy_fields(state)) ^ MANIFEST_KEY_POLICY_WITNESS,
    )
}

pub open spec fn spec_encode_key_policy(state: ManifestKeyPolicyState) -> Result<
    Seq<u8>,
    ManifestKeyPolicyStateError,
> {
    if state.floor == 0 {
        Err(ManifestKeyPolicyStateError::ZeroFloor)
    } else if state.binding.spec_validate() is Err {
        Err(state.binding.spec_validate()->Err_0)
    } else {
        Ok(key_policy_bytes(state))
    }
}

#[verifier::opaque]
pub open spec fn spec_decode_key_policy(bytes: Seq<u8>) -> Result<
    ManifestKeyPolicyState,
    ManifestKeyPolicyStateError,
> {
    let floor = spec_le_u32(bytes, 12);
    let key = spec_le_u32(bytes, 20);
    let binding = ManifestKeyPolicyBinding {
        key_id: key as u8,
        key_epoch: spec_le_u32(bytes, 16),
        trust_anchor_sha256: digest_at(bytes, 24),
        policy_sha256: digest_at(bytes, 56),
    };
    if bytes.len() != 96 {
        Err(ManifestKeyPolicyStateError::WrongSize)
    } else if bytes.subrange(0, 8) != MANIFEST_KEY_POLICY_STATE_MAGIC@ {
        Err(ManifestKeyPolicyStateError::BadMagic)
    } else if spec_le_u32(bytes, 8) != MANIFEST_KEY_POLICY_STATE_VERSION {
        Err(ManifestKeyPolicyStateError::UnsupportedVersion)
    } else if floor == 0 {
        Err(ManifestKeyPolicyStateError::ZeroFloor)
    } else if key > 0xff {
        Err(ManifestKeyPolicyStateError::InvalidKeyId)
    } else if binding.spec_validate() is Err {
        Err(binding.spec_validate()->Err_0)
    } else if spec_le_u64(bytes, 88) != spec_fnv1a64(bytes.subrange(12, 88))
        ^ MANIFEST_KEY_POLICY_WITNESS {
        Err(ManifestKeyPolicyStateError::WitnessMismatch)
    } else {
        Ok(ManifestKeyPolicyState { floor, binding })
    }
}

impl ManifestKeyPolicyState {
    pub fn encode(self) -> (result: Result<[u8; 96], ManifestKeyPolicyStateError>)
        ensures
            match result {
                Ok(bytes) => spec_encode_key_policy(self) == Ok::<
                    Seq<u8>,
                    ManifestKeyPolicyStateError,
                >(bytes@),
                Err(error) => spec_encode_key_policy(self) == Err::<
                    Seq<u8>,
                    ManifestKeyPolicyStateError,
                >(error),
            },
    {
        if self.floor == 0 {
            return Err(ManifestKeyPolicyStateError::ZeroFloor);
        }
        self.binding.validate()?;
        let mut fields: Vec<u8> = Vec::new();
        push_u32(&mut fields, self.floor);
        push_u32(&mut fields, self.binding.key_epoch);
        push_u32(&mut fields, self.binding.key_id as u32);
        push_bytes(&mut fields, &self.binding.trust_anchor_sha256);
        push_bytes(&mut fields, &self.binding.policy_sha256);
        assert(fields@ =~= key_policy_fields(self));
        let witness = fnv1a64(fields.as_slice()) ^ MANIFEST_KEY_POLICY_WITNESS;
        let mut out: Vec<u8> = Vec::new();
        push_bytes(&mut out, &MANIFEST_KEY_POLICY_STATE_MAGIC);
        push_u32(&mut out, MANIFEST_KEY_POLICY_STATE_VERSION);
        push_bytes(&mut out, fields.as_slice());
        push_u64(&mut out, witness);
        assert(out@ =~= key_policy_bytes(self));
        Ok(into_array(&out))
    }

    pub fn decode(bytes: &[u8]) -> (result: Result<Self, ManifestKeyPolicyStateError>)
        ensures
            result == spec_decode_key_policy(bytes@),
    {
        reveal(spec_decode_key_policy);
        if bytes.len() != MANIFEST_KEY_POLICY_STATE_BYTES {
            return Err(ManifestKeyPolicyStateError::WrongSize);
        }
        if !bytes_eq(&bytes[0..8], &MANIFEST_KEY_POLICY_STATE_MAGIC) {
            return Err(ManifestKeyPolicyStateError::BadMagic);
        }
        if le_u32(bytes, 8) != MANIFEST_KEY_POLICY_STATE_VERSION {
            return Err(ManifestKeyPolicyStateError::UnsupportedVersion);
        }
        let floor = le_u32(bytes, 12);
        if floor == 0 {
            return Err(ManifestKeyPolicyStateError::ZeroFloor);
        }
        let key_epoch = le_u32(bytes, 16);
        let key = le_u32(bytes, 20);
        if key > 0xff {
            return Err(ManifestKeyPolicyStateError::InvalidKeyId);
        }
        let binding = ManifestKeyPolicyBinding {
            key_id: key as u8,
            key_epoch,
            trust_anchor_sha256: read_digest(bytes, 24),
            policy_sha256: read_digest(bytes, 56),
        };
        binding.validate()?;
        if le_u64(bytes, 88) != fnv1a64(&bytes[12..88]) ^ MANIFEST_KEY_POLICY_WITNESS {
            return Err(ManifestKeyPolicyStateError::WitnessMismatch);
        }
        Ok(Self { floor, binding })
    }

    /// Field-by-field equality.
    pub fn same_as(&self, other: &Self) -> (equal: bool)
        ensures
            equal == (*self == *other),
    {
        self.floor == other.floor && self.binding.same_as(&other.binding)
    }
}

/// A key-policy payload decodes to the floor and binding it was encoded with.
pub proof fn lemma_key_policy_round_trip(state: ManifestKeyPolicyState)
    requires
        spec_encode_key_policy(state) is Ok,
    ensures
        spec_decode_key_policy(spec_encode_key_policy(state)->Ok_0) == Ok::<
            ManifestKeyPolicyState,
            ManifestKeyPolicyStateError,
        >(state),
{
    reveal(spec_decode_key_policy);
    let s = key_policy_bytes(state);
    let fields = key_policy_fields(state);
    let key = state.binding.key_id as u32;
    let witness = spec_fnv1a64(fields) ^ MANIFEST_KEY_POLICY_WITNESS;
    assert(s.subrange(0, 8) =~= MANIFEST_KEY_POLICY_STATE_MAGIC@);
    assert(s.subrange(8, 12) =~= u32_bytes(MANIFEST_KEY_POLICY_STATE_VERSION));
    assert(s.subrange(12, 16) =~= u32_bytes(state.floor));
    assert(s.subrange(16, 20) =~= u32_bytes(state.binding.key_epoch));
    assert(s.subrange(20, 24) =~= u32_bytes(key));
    assert(s.subrange(24, 56) =~= state.binding.trust_anchor_sha256@);
    assert(s.subrange(56, 88) =~= state.binding.policy_sha256@);
    assert(s.subrange(12, 88) =~= fields);
    assert(s.subrange(88, 96) =~= u64_bytes(witness));
    lemma_le_u32_at(s, 8, MANIFEST_KEY_POLICY_STATE_VERSION);
    lemma_le_u32_at(s, 12, state.floor);
    lemma_le_u32_at(s, 16, state.binding.key_epoch);
    lemma_le_u32_at(s, 20, key);
    lemma_le_u64_at(s, 88, witness);
    lemma_digest_at_view(s, 24, state.binding.trust_anchor_sha256);
    lemma_digest_at_view(s, 56, state.binding.policy_sha256);
}

} // verus!

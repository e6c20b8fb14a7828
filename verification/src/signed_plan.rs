//! The signed maintenance-program head: the exact verified program artifact
//! bound to each authorization, and the hash chain over every binding.
use vstd::prelude::*;
use crate::checksum::{fnv1a64, spec_fnv1a64};
use crate::codec::{
    all_zero, bytes_eq, digest_at, digest_eq, into_array, is_zero, is_zero_range, le_u32, le_u64,
    lemma_digest_at_view, lemma_le_u32_at, lemma_le_u64_at, lemma_u32_bytes_zero, push_bytes,
    push_u32, push_u64, push_zeros, read_digest, spec_le_u32, spec_le_u64, u32_bytes, u64_bytes,
    zeros,
};
use crate::digest::{sha256, sha256_digest};
use crate::layout::{
    SIGNED_MAINTENANCE_PLAN_OPERATION_COUNT, SIGNED_MAINTENANCE_PLAN_PREAPPLY_CANCEL_MASK,
    SIGNED_MAINTENANCE_PLAN_PROGRAM_VERSION, SIGNED_MAINTENANCE_PLAN_STATE_BYTES,
    SIGNED_MAINTENANCE_PLAN_STATE_MAGIC, SIGNED_MAINTENANCE_PLAN_STATE_VERSION,
    SIGNED_MAINTENANCE_PLAN_TRANSITION_COUNT, SIGNED_MAINTENANCE_PLAN_WITNESS,
};
use crate::maintenance_audit::{MaintenanceAuditStateError, MaintenanceAuthorizationAuditBinding};
use crate::maintenance_plan::{maintenance_plan_id_sha256, plan_id_material};

verus! {

broadcast use vstd::array::group_array_axioms;

#[derive(Clone, Copy, Debug, PartialEq, Eq, Structural)]
pub enum SignedMaintenancePlanStateError {
    WrongSize,
    BadMagic,
    UnsupportedVersion,
    ZeroSequence,
    InvalidOperationCount,
    InvalidTransitionCount,
    InvalidProgramVersion,
    InvalidCancelMask,
    ZeroAuthorizationDigest,
    ZeroAuthorizationId,
    ZeroProgramDigest,
    ZeroPlanId,
    ZeroDescriptorDigest,
    ZeroRootDigest,
    ZeroDeviceBinding,
    AuthorizationSequenceMismatch,
    AuthorizationDigestMismatch,
    AuthorizationIdMismatch,
    DeviceBindingMismatch,
    PlanIdMismatch,
    ZeroChainDigest,
    NonZeroReserved,
    ChainMismatch,
    WitnessMismatch,
    Authorization(MaintenanceAuditStateError),
}

impl SignedMaintenancePlanStateError {
    /// The fixed text that describes this error.
    pub open spec fn message(self) -> Seq<char> {
        match self {
            Self::WrongSize => "signed maintenance-plan state has the wrong size"@,
            Self::BadMagic => "signed maintenance-plan state magic is invalid"@,
            Self::UnsupportedVersion => "signed maintenance-plan state version is unsupported"@,
            Self::ZeroSequence => "signed maintenance-plan authorization sequence is zero"@,
            Self::InvalidOperationCount => {
                "signed maintenance-plan operation count is not the bounded product count"@
            }
            Self::InvalidTransitionCount => {
                "signed maintenance-plan transition count is not the bounded product count"@
            }
            Self::InvalidProgramVersion => "signed maintenance-plan program version is unsupported"@,
            Self::InvalidCancelMask => {
                "signed maintenance-plan cancellation mask violates product policy"@
            }
            Self::ZeroAuthorizationDigest => "signed maintenance-plan authorization digest is zero"@,
            Self::ZeroAuthorizationId => "signed maintenance-plan authorization id is zero"@,
            Self::ZeroProgramDigest => "signed maintenance-plan artifact digest is zero"@,
            Self::ZeroPlanId => "signed maintenance-plan legacy plan id is zero"@,
            Self::ZeroDescriptorDigest => "signed maintenance-plan descriptor digest is zero"@,
            Self::ZeroRootDigest => "signed maintenance-plan trust-root digest is zero"@,
            Self::ZeroDeviceBinding => "signed maintenance-plan device binding is zero"@,
            Self::AuthorizationSequenceMismatch => {
                "signed maintenance-plan sequence does not match its authorization"@
            }
            Self::AuthorizationDigestMismatch => {
                "signed maintenance-plan digest does not match its authorization"@
            }
            Self::AuthorizationIdMismatch => {
                "signed maintenance-plan id does not match its authorization"@
            }
            Self::DeviceBindingMismatch => {
                "signed maintenance-plan device namespace does not match its authorization"@
            }
            Self::PlanIdMismatch => {
                "signed maintenance-plan does not bind the selected M80 plan identity"@
            }
            Self::ZeroChainDigest => "signed maintenance-plan chain digest is zero"@,
            Self::NonZeroReserved => "signed maintenance-plan reserved bytes are nonzero"@,
            Self::ChainMismatch => "signed maintenance-plan chain digest is invalid"@,
            Self::WitnessMismatch => "signed maintenance-plan witness is invalid"@,
            Self::Authorization(error) => error.message(),
        }
    }

    pub fn as_str(self) -> (text: &'static str)
        ensures
            text@ == self.message(),
    {
        match self {
            Self::WrongSize => "signed maintenance-plan state has the wrong size",
            Self::BadMagic => "signed maintenance-plan state magic is invalid",
            Self::UnsupportedVersion => "signed maintenance-plan state version is unsupported",
            Self::ZeroSequence => "signed maintenance-plan authorization sequence is zero",
            Self::InvalidOperationCount => {
                "signed maintenance-plan operation count is not the bounded product count"
            }
            Self::InvalidTransitionCount => {
                "signed maintenance-plan transition count is not the bounded product count"
            }
            Self::InvalidProgramVersion => "signed maintenance-plan program version is unsupported",
            Self::InvalidCancelMask => {
                "signed maintenance-plan cancellation mask violates product policy"
            }
            Self::ZeroAuthorizationDigest => "signed maintenance-plan authorization digest is zero",
            Self::ZeroAuthorizationId => "signed maintenance-plan authorization id is zero",
            Self::ZeroProgramDigest => "signed maintenance-plan artifact digest is zero",
            Self::ZeroPlanId => "signed maintenance-plan legacy plan id is zero",
            Self::ZeroDescriptorDigest => "signed maintenance-plan descriptor digest is zero",
            Self::ZeroRootDigest => "signed maintenance-plan trust-root digest is zero",
            Self::ZeroDeviceBinding => "signed maintenance-plan device binding is zero",
            Self::AuthorizationSequenceMismatch => {
                "signed maintenance-plan sequence does not match its authorization"
            }
            Self::AuthorizationDigestMismatch => {
                "signed maintenance-plan digest does not match its authorization"
            }
            Self::AuthorizationIdMismatch => {
                "signed maintenance-plan id does not match its authorization"
            }
            Self::DeviceBindingMismatch => {
                "signed maintenance-plan device namespace does not match its authorization"
            }
            Self::PlanIdMismatch => {
                "signed maintenance-plan does not bind the selected M80 plan identity"
            }
            Self::ZeroChainDigest => "signed maintenance-plan chain digest is zero",
            Self::NonZeroReserved => "signed maintenance-plan reserved bytes are nonzero",
            Self::ChainMismatch => "signed maintenance-plan chain digest is invalid",
            Self::WitnessMismatch => "signed maintenance-plan witness is invalid",
            Self::Authorization(error) => error.as_str(),
        }
    }
}

/// One verified signed maintenance program, bound to its authorization.
#[derive(Clone, Copy, Debug, PartialEq, Eq)]
pub struct SignedMaintenancePlanBinding {
    pub authorization_sequence: u64,
    pub operation_count: u32,
    pub transition_count: u32,
    pub program_version: u32,
    pub preapply_cancel_mask: u32,
    pub authorization_sha256: [u8; 32],
    pub authorization_id: [u8; 32],
    pub program_sha256: [u8; 32],
    pub plan_id_sha256: [u8; 32],
    pub descriptor_sha256: [u8; 32],
    pub root_sha256: [u8; 32],
    pub device_binding_sha256: [u8; 32],
}

impl SignedMaintenancePlanBinding {
    /// The first rule the program envelope breaks: a nonzero sequence, the
    /// bounded product operation and transition counts, program version and
    /// cancellation mask, and nonzero digests.
    pub open spec fn spec_validate_envelope(self) -> Result<(), SignedMaintenancePlanStateError> {
        if self.authorization_sequence == 0 {
            Err(SignedMaintenancePlanStateError::ZeroSequence)
        } else if self.operation_count != SIGNED_MAINTENANCE_PLAN_OPERATION_COUNT {
            Err(SignedMaintenancePlanStateError::InvalidOperationCount)
        } else if self.transition_count != SIGNED_MAINTENANCE_PLAN_TRANSITION_COUNT {
            Err(SignedMaintenancePlanStateError::InvalidTransitionCount)
        } else if self.program_version != SIGNED_MAINTENANCE_PLAN_PROGRAM_VERSION {
            Err(SignedMaintenancePlanStateError::InvalidProgramVersion)
        } else if self.preapply_cancel_mask != SIGNED_MAINTENANCE_PLAN_PREAPPLY_CANCEL_MASK {
            Err(SignedMaintenancePlanStateError::InvalidCancelMask)
        } else if all_zero(self.authorization_sha256@) {
            Err(SignedMaintenancePlanStateError::ZeroAuthorizationDigest)
        } else if all_zero(self.authorization_id@) {
            Err(SignedMaintenancePlanStateError::ZeroAuthorizationId)
        } else if all_zero(self.program_sha256@) {
            Err(SignedMaintenancePlanStateError::ZeroProgramDigest)
        } else if all_zero(self.plan_id_sha256@) {
            Err(SignedMaintenancePlanStateError::ZeroPlanId)
        } else if all_zero(self.descriptor_sha256@) {
            Err(SignedMaintenancePlanStateError::ZeroDescriptorDigest)
        } else if all_zero(self.root_sha256@) {
            Err(SignedMaintenancePlanStateError::ZeroRootDigest)
        } else if all_zero(self.device_binding_sha256@) {
            Err(SignedMaintenancePlanStateError::ZeroDeviceBinding)
        } else {
            Ok(())
        }
    }

    pub fn validate_envelope(self) -> (result: Result<(), SignedMaintenancePlanStateError>)
        ensures
            result == self.spec_validate_envelope(),
    {
        if self.authorization_sequence == 0 {
            return Err(SignedMaintenancePlanStateError::ZeroSequence);
        }
        if self.operation_count != SIGNED_MAINTENANCE_PLAN_OPERATION_COUNT {
            return Err(SignedMaintenancePlanStateError::InvalidOperationCount);
        }
        if self.transition_count != SIGNED_MAINTENANCE_PLAN_TRANSITION_COUNT {
            return Err(SignedMaintenancePlanStateError::InvalidTransitionCount);
        }
        if self.program_version != SIGNED_MAINTENANCE_PLAN_PROGRAM_VERSION {
            return Err(SignedMaintenancePlanStateError::InvalidProgramVersion);
        }
        if self.preapply_cancel_mask != SIGNED_MAINTENANCE_PLAN_PREAPPLY_CANCEL_MASK {
            return Err(SignedMaintenancePlanStateError::InvalidCancelMask);
        }
        if is_zero(&self.authorization_sha256) {
            return Err(SignedMaintenancePlanStateError::ZeroAuthorizationDigest);
        }
        if is_zero(&self.authorization_id) {
            return Err(SignedMaintenancePlanStateError::ZeroAuthorizationId);
        }
        if is_zero(&self.program_sha256) {
            return Err(SignedMaintenancePlanStateError::ZeroProgramDigest);
        }
        if is_zero(&self.plan_id_sha256) {
            return Err(SignedMaintenancePlanStateError::ZeroPlanId);
        }
        if is_zero(&self.descriptor_sha256) {
            return Err(SignedMaintenancePlanStateError::ZeroDescriptorDigest);
        }
        if is_zero(&self.root_sha256) {
            return Err(SignedMaintenancePlanStateError::ZeroRootDigest);
        }
        if is_zero(&self.device_binding_sha256) {
            return Err(SignedMaintenancePlanStateError::ZeroDeviceBinding);
        }
        Ok(())
    }

    /// The first rule the program breaks against `authorization`: a valid
    /// authorization and envelope, the authorization's sequence, digest, id
    /// and device namespace, and the authorization's plan identifier.
    pub open spec fn spec_validate(self, authorization: MaintenanceAuthorizationAuditBinding) -> Result<
        (),
        SignedMaintenancePlanStateError,
    > {
        if authorization.spec_validate() is Err {
            Err(SignedMaintenancePlanStateError::Authorization(authorization.spec_validate()->Err_0))
        } else if self.spec_validate_envelope() is Err {
            self.spec_validate_envelope()
        } else if self.authorization_sequence != authorization.sequence {
            Err(SignedMaintenancePlanStateError::AuthorizationSequenceMismatch)
        } else if self.authorization_sha256 != authorization.authorization_sha256 {
            Err(SignedMaintenancePlanStateError::AuthorizationDigestMismatch)
        } else if self.authorization_id != authorization.authorization_id {
            Err(SignedMaintenancePlanStateError::AuthorizationIdMismatch)
        } else if self.device_binding_sha256 != authorization.device_binding_sha256 {
            Err(SignedMaintenancePlanStateError::DeviceBindingMismatch)
        } else if self.plan_id_sha256@ != sha256_digest(plan_id_material(authorization)) {
            Err(SignedMaintenancePlanStateError::PlanIdMismatch)
        } else {
            Ok(())
        }
    }

    pub fn validate(self, authorization: MaintenanceAuthorizationAuditBinding) -> (result: Result<
        (),
        SignedMaintenancePlanStateError,
    >)
        ensures
            result == self.spec_validate(authorization),
    {
        if let Err(error) = authorization.validate() {
            return Err(SignedMaintenancePlanStateError::Authorization(error));
        }
        self.validate_envelope()?;
        if self.authorization_sequence != authorization.sequence {
            return Err(SignedMaintenancePlanStateError::AuthorizationSequenceMismatch);
        }
        if !digest_eq(&self.authorization_sha256, &authorization.authorization_sha256) {
            return Err(SignedMaintenancePlanStateError::AuthorizationDigestMismatch);
        }
        if !digest_eq(&self.authorization_id, &authorization.authorization_id) {
            return Err(SignedMaintenancePlanStateError::AuthorizationIdMismatch);
        }
        if !digest_eq(&self.device_binding_sha256, &authorization.device_binding_sha256) {
            return Err(SignedMaintenancePlanStateError::DeviceBindingMismatch);
        }
        let plan_id = maintenance_plan_id_sha256(authorization);
        if !digest_eq(&self.plan_id_sha256, &plan_id) {
            return Err(SignedMaintenancePlanStateError::PlanIdMismatch);
        }
        Ok(())
    }

    /// Field-by-field equality.
    pub fn same_as(&self, other: &Self) -> (equal: bool)
        ensures
            equal == (*self == *other),
    {
        self.authorization_sequence == other.authorization_sequence
            && self.operation_count == other.operation_count
            && self.transition_count == other.transition_count
            && self.program_version == other.program_version
            && self.preapply_cancel_mask == other.preapply_cancel_mask
            && digest_eq(&self.authorization_sha256, &other.authorization_sha256)
            && digest_eq(&self.authorization_id, &other.authorization_id)
            && digest_eq(&self.program_sha256, &other.program_sha256)
            && digest_eq(&self.plan_id_sha256, &other.plan_id_sha256)
            && digest_eq(&self.descriptor_sha256, &other.descriptor_sha256)
            && digest_eq(&self.root_sha256, &other.root_sha256)
            && digest_eq(&self.device_binding_sha256, &other.device_binding_sha256)
    }
}

/// The bytes hashed to extend the signed-program chain by one binding.
pub open spec fn signed_plan_chain_material(previous_chain: Seq<u8>, binding: SignedMaintenancePlanBinding) -> Seq<u8> {
    SIGNED_MAINTENANCE_PLAN_STATE_MAGIC@ + previous_chain + u64_bytes(binding.authorization_sequence)
        + u32_bytes(binding.operation_count) + u32_bytes(binding.transition_count)
        + u32_bytes(binding.program_version) + u32_bytes(binding.preapply_cancel_mask)
        + binding.authorization_sha256@ + binding.authorization_id@ + binding.program_sha256@
        + binding.plan_id_sha256@ + binding.descriptor_sha256@ + binding.root_sha256@
        + binding.device_binding_sha256@
}

/// The signed-program chain digest after binding `binding` on top of
/// `previous_chain_sha256`.
pub fn signed_maintenance_plan_chain_sha256(
    previous_chain_sha256: [u8; 32],
    binding: SignedMaintenancePlanBinding,
) -> (digest: [u8; 32])
    ensures
        digest@ == sha256_digest(signed_plan_chain_material(previous_chain_sha256@, binding)),
{
    let mut material: Vec<u8> = Vec::new();
    push_bytes(&mut material, &SIGNED_MAINTENANCE_PLAN_STATE_MAGIC);
    push_bytes(&mut material, &previous_chain_sha256);
    push_u64(&mut material, binding.authorization_sequence);
    push_u32(&mut material, binding.operation_count);
    push_u32(&mut material, binding.transition_count);
    push_u32(&mut material, binding.program_version);
    push_u32(&mut material, binding.preapply_cancel_mask);
    push_bytes(&mut material, &binding.authorization_sha256);
    push_bytes(&mut material, &binding.authorization_id);
    push_bytes(&mut material, &binding.program_sha256);
    push_bytes(&mut material, &binding.plan_id_sha256);
    push_bytes(&mut material, &binding.descriptor_sha256);
    push_bytes(&mut material, &binding.root_sha256);
    push_bytes(&mut material, &binding.device_binding_sha256);
    assert(material@ =~= signed_plan_chain_material(previous_chain_sha256@, binding));
    sha256(material.as_slice())
}

#[derive(Clone, Copy, Debug, PartialEq, Eq)]
pub struct SignedMaintenancePlanState {
    pub binding: SignedMaintenancePlanBinding,
    pub previous_chain_sha256: [u8; 32],
    pub chain_sha256: [u8; 32],
}

impl SignedMaintenancePlanState {
    /// The first rule a stored head breaks: a valid envelope and a nonzero
    /// chain digest that extends the previous one by this binding.
    pub open spec fn spec_validate_stored(self) -> Result<(), SignedMaintenancePlanStateError> {
        if self.binding.spec_validate_envelope() is Err {
            self.binding.spec_validate_envelope()
        } else if all_zero(self.chain_sha256@) {
            Err(SignedMaintenancePlanStateError::ZeroChainDigest)
        } else if self.chain_sha256@ != sha256_digest(signed_plan_chain_material(self.previous_chain_sha256@, self.binding)) {
            Err(SignedMaintenancePlanStateError::ChainMismatch)
        } else {
            Ok(())
        }
    }

    pub fn validate_stored(self) -> (result: Result<(), SignedMaintenancePlanStateError>)
        ensures
            result == self.spec_validate_stored(),
    {
        self.binding.validate_envelope()?;
        if is_zero(&self.chain_sha256) {
            return Err(SignedMaintenancePlanStateError::ZeroChainDigest);
        }
        let chain = signed_maintenance_plan_chain_sha256(self.previous_chain_sha256, self.binding);
        if !digest_eq(&self.chain_sha256, &chain) {
            return Err(SignedMaintenancePlanStateError::ChainMismatch);
        }
        Ok(())
    }

    /// A head to be written must also bind exactly its authorization.
    pub open spec fn spec_validate(self, authorization: MaintenanceAuthorizationAuditBinding) -> Result<
        (),
        SignedMaintenancePlanStateError,
    > {
        if self.binding.spec_validate(authorization) is Err {
            self.binding.spec_validate(authorization)
        } else {
            self.spec_validate_stored()
        }
    }

    pub fn validate(self, authorization: MaintenanceAuthorizationAuditBinding) -> (result: Result<
        (),
        SignedMaintenancePlanStateError,
    >)
        ensures
            result == self.spec_validate(authorization),
    {
        self.binding.validate(authorization)?;
        self.validate_stored()
    }

    /// Field-by-field equality.
    pub fn same_as(&self, other: &Self) -> (equal: bool)
        ensures
            equal == (*self == *other),
    {
        self.binding.same_as(&other.binding) && digest_eq(&self.previous_chain_sha256, &other.previous_chain_sha256)
            && digest_eq(&self.chain_sha256, &other.chain_sha256)
    }
}

/// Bytes 16..328 of an encoded SignedMaintenancePlanState: the fields its witness covers.
pub open spec fn signed_plan_body(state: SignedMaintenancePlanState) -> Seq<u8> {
    u64_bytes(state.binding.authorization_sequence)
        + u32_bytes(state.binding.operation_count)
        + u32_bytes(state.binding.transition_count)
        + u32_bytes(state.binding.program_version)
        + u32_bytes(state.binding.preapply_cancel_mask)
        + state.binding.authorization_sha256@
        + state.binding.authorization_id@
        + state.binding.program_sha256@
        + state.binding.plan_id_sha256@
        + state.binding.descriptor_sha256@
        + state.binding.root_sha256@
        + state.binding.device_binding_sha256@
        + state.previous_chain_sha256@
        + state.chain_sha256@
}

pub open spec fn signed_plan_bytes(state: SignedMaintenancePlanState) -> Seq<u8> {
    SIGNED_MAINTENANCE_PLAN_STATE_MAGIC@ + u32_bytes(SIGNED_MAINTENANCE_PLAN_STATE_VERSION) + zeros(4) + signed_plan_body(state) + u64_bytes(
        spec_fnv1a64(signed_plan_body(state)) ^ SIGNED_MAINTENANCE_PLAN_WITNESS,
    )
}

pub open spec fn spec_encode_signed_plan(state: SignedMaintenancePlanState, authorization: MaintenanceAuthorizationAuditBinding) -> Result<Seq<u8>, SignedMaintenancePlanStateError> {
    if state.spec_validate(authorization) is Err {
        Err(state.spec_validate(authorization)->Err_0)
    } else {
        Ok(signed_plan_bytes(state))
    }
}

#[verifier::opaque]
pub open spec fn spec_decode_signed_plan(bytes: Seq<u8>) -> Result<SignedMaintenancePlanState, SignedMaintenancePlanStateError> {
    let state = SignedMaintenancePlanState { binding: SignedMaintenancePlanBinding { authorization_sequence: spec_le_u64(bytes, 16), operation_count: spec_le_u32(bytes, 24), transition_count: spec_le_u32(bytes, 28), program_version: spec_le_u32(bytes, 32), preapply_cancel_mask: spec_le_u32(bytes, 36), authorization_sha256: digest_at(bytes, 40), authorization_id: digest_at(bytes, 72), program_sha256: digest_at(bytes, 104), plan_id_sha256: digest_at(bytes, 136), descriptor_sha256: digest_at(bytes, 168), root_sha256: digest_at(bytes, 200), device_binding_sha256: digest_at(bytes, 232) }, previous_chain_sha256: digest_at(bytes, 264), chain_sha256: digest_at(bytes, 296) };
    if bytes.len() != 336 {
        Err(SignedMaintenancePlanStateError::WrongSize)
    } else if bytes.subrange(0, 8) != SIGNED_MAINTENANCE_PLAN_STATE_MAGIC@ {
        Err(SignedMaintenancePlanStateError::BadMagic)
    } else if spec_le_u32(bytes, 8) != SIGNED_MAINTENANCE_PLAN_STATE_VERSION {
        Err(SignedMaintenancePlanStateError::UnsupportedVersion)
    } else if !all_zero(bytes.subrange(12, 16)) {
        Err(SignedMaintenancePlanStateError::NonZeroReserved)
    } else if state.spec_validate_stored() is Err {
        Err(state.spec_validate_stored()->Err_0)
    } else if spec_le_u64(bytes, 328) != spec_fnv1a64(bytes.subrange(16, 328)) ^ SIGNED_MAINTENANCE_PLAN_WITNESS {
        Err(SignedMaintenancePlanStateError::WitnessMismatch)
    } else {
        Ok(state)
    }
}

impl SignedMaintenancePlanState {
    pub fn encode(self, authorization: MaintenanceAuthorizationAuditBinding) -> (result: Result<[u8; 336], SignedMaintenancePlanStateError>)
        ensures
            match result {
                Ok(bytes) => spec_encode_signed_plan(self, authorization) == Ok::<Seq<u8>, SignedMaintenancePlanStateError>(bytes@),
                Err(error) => spec_encode_signed_plan(self, authorization) == Err::<Seq<u8>, SignedMaintenancePlanStateError>(error),
            },
    {
        self.validate(authorization)?;
        let mut body: Vec<u8> = Vec::new();
        push_u64(&mut body, self.binding.authorization_sequence);
        push_u32(&mut body, self.binding.operation_count);
        push_u32(&mut body, self.binding.transition_count);
        push_u32(&mut body, self.binding.program_version);
        push_u32(&mut body, self.binding.preapply_cancel_mask);
        push_bytes(&mut body, &self.binding.authorization_sha256);
        push_bytes(&mut body, &self.binding.authorization_id);
        push_bytes(&mut body, &self.binding.program_sha256);
        push_bytes(&mut body, &self.binding.plan_id_sha256);
        push_bytes(&mut body, &self.binding.descriptor_sha256);
        push_bytes(&mut body, &self.binding.root_sha256);
        push_bytes(&mut body, &self.binding.device_binding_sha256);
        push_bytes(&mut body, &self.previous_chain_sha256);
        push_bytes(&mut body, &self.chain_sha256);
        assert(body@ =~= signed_plan_body(self));
        let witness = fnv1a64(body.as_slice()) ^ SIGNED_MAINTENANCE_PLAN_WITNESS;
        let mut out: Vec<u8> = Vec::new();
        push_bytes(&mut out, &SIGNED_MAINTENANCE_PLAN_STATE_MAGIC);
        push_u32(&mut out, SIGNED_MAINTENANCE_PLAN_STATE_VERSION);
        push_zeros(&mut out, 4);
        push_bytes(&mut out, body.as_slice());
        push_u64(&mut out, witness);
        assert(out@ =~= signed_plan_bytes(self));
        Ok(into_array(&out))
    }

    pub fn decode(bytes: &[u8]) -> (result: Result<Self, SignedMaintenancePlanStateError>)
        ensures
            result == spec_decode_signed_plan(bytes@),
    {
        reveal(spec_decode_signed_plan);
        if bytes.len() != 336 {
            return Err(SignedMaintenancePlanStateError::WrongSize);
        }
        if !bytes_eq(&bytes[0..8], &SIGNED_MAINTENANCE_PLAN_STATE_MAGIC) {
            return Err(SignedMaintenancePlanStateError::BadMagic);
        }
        if le_u32(bytes, 8) != SIGNED_MAINTENANCE_PLAN_STATE_VERSION {
            return Err(SignedMaintenancePlanStateError::UnsupportedVersion);
        }
        if !is_zero_range(bytes, 12, 16) {
            return Err(SignedMaintenancePlanStateError::NonZeroReserved);
        }
        let state = SignedMaintenancePlanState { binding: SignedMaintenancePlanBinding { authorization_sequence: le_u64(bytes, 16), operation_count: le_u32(bytes, 24), transition_count: le_u32(bytes, 28), program_version: le_u32(bytes, 32), preapply_cancel_mask: le_u32(bytes, 36), authorization_sha256: read_digest(bytes, 40), authorization_id: read_digest(bytes, 72), program_sha256: read_digest(bytes, 104), plan_id_sha256: read_digest(bytes, 136), descriptor_sha256: read_digest(bytes, 168), root_sha256: read_digest(bytes, 200), device_binding_sha256: read_digest(bytes, 232) }, previous_chain_sha256: read_digest(bytes, 264), chain_sha256: read_digest(bytes, 296) };
        state.validate_stored()?;
        if le_u64(bytes, 328) != fnv1a64(&bytes[16..328]) ^ SIGNED_MAINTENANCE_PLAN_WITNESS {
            return Err(SignedMaintenancePlanStateError::WitnessMismatch);
        }
        Ok(state)
    }
}

#[verifier::spinoff_prover]
#[verifier::rlimit(60)]
proof fn lemma_signed_plan_fields(state: SignedMaintenancePlanState)
    ensures
        ({
            let s = signed_plan_bytes(state);
            &&& s.len() == 336
            &&& s.subrange(0, 8) == SIGNED_MAINTENANCE_PLAN_STATE_MAGIC@
            &&& spec_le_u32(s, 8) == SIGNED_MAINTENANCE_PLAN_STATE_VERSION
            &&& all_zero(s.subrange(12, 16))
            &&& spec_le_u64(s, 16) == state.binding.authorization_sequence
            &&& spec_le_u32(s, 24) == state.binding.operation_count
            &&& spec_le_u32(s, 28) == state.binding.transition_count
            &&& spec_le_u32(s, 32) == state.binding.program_version
            &&& spec_le_u32(s, 36) == state.binding.preapply_cancel_mask
            &&& digest_at(s, 40) == state.binding.authorization_sha256
            &&& digest_at(s, 72) == state.binding.authorization_id
            &&& digest_at(s, 104) == state.binding.program_sha256
            &&& digest_at(s, 136) == state.binding.plan_id_sha256
            &&& digest_at(s, 168) == state.binding.descriptor_sha256
            &&& digest_at(s, 200) == state.binding.root_sha256
            &&& digest_at(s, 232) == state.binding.device_binding_sha256
            &&& digest_at(s, 264) == state.previous_chain_sha256
            &&& digest_at(s, 296) == state.chain_sha256
            &&& s.subrange(16, 328) == signed_plan_body(state)
            &&& spec_le_u64(s, 328) == spec_fnv1a64(signed_plan_body(state)) ^ SIGNED_MAINTENANCE_PLAN_WITNESS
        }),
{
    let s = signed_plan_bytes(state);
    let b = signed_plan_body(state);
    lemma_u32_bytes_zero();
    assert(s.subrange(0, 8) =~= SIGNED_MAINTENANCE_PLAN_STATE_MAGIC@);
    assert(s.subrange(8, 12) =~= u32_bytes(SIGNED_MAINTENANCE_PLAN_STATE_VERSION));
    assert(s.subrange(12, 16) =~= zeros(4));
    assert(s.subrange(16, 328) =~= b);
    assert(s.subrange(328, 336) =~= u64_bytes(spec_fnv1a64(b) ^ SIGNED_MAINTENANCE_PLAN_WITNESS));
    assert forall|i: int| 16 <= i < 328 implies s[i] == b[i - 16] by {
        assert(s.subrange(16, 328)[i - 16] == s[i]);
    }
    lemma_le_u32_at(s, 8, SIGNED_MAINTENANCE_PLAN_STATE_VERSION);
    lemma_le_u64_at(s, 328, spec_fnv1a64(b) ^ SIGNED_MAINTENANCE_PLAN_WITNESS);
    lemma_signed_plan_body_fields(state, s);
}

#[verifier::spinoff_prover]
#[verifier::rlimit(60)]
proof fn lemma_signed_plan_body_fields(state: SignedMaintenancePlanState, s: Seq<u8>)
    requires
        s.len() == 336,
        forall|i: int| 16 <= i < 328 ==> s[i] == signed_plan_body(state)[i - 16],
    ensures
        spec_le_u64(s, 16) == state.binding.authorization_sequence,
        spec_le_u32(s, 24) == state.binding.operation_count,
        spec_le_u32(s, 28) == state.binding.transition_count,
        spec_le_u32(s, 32) == state.binding.program_version,
        spec_le_u32(s, 36) == state.binding.preapply_cancel_mask,
        digest_at(s, 40) == state.binding.authorization_sha256,
        digest_at(s, 72) == state.binding.authorization_id,
        digest_at(s, 104) == state.binding.program_sha256,
        digest_at(s, 136) == state.binding.plan_id_sha256,
        digest_at(s, 168) == state.binding.descriptor_sha256,
        digest_at(s, 200) == state.binding.root_sha256,
        digest_at(s, 232) == state.binding.device_binding_sha256,
        digest_at(s, 264) == state.previous_chain_sha256,
        digest_at(s, 296) == state.chain_sha256,
{
    let b = signed_plan_body(state);
    assert(b.subrange(0, 8) =~= u64_bytes(state.binding.authorization_sequence));
    assert(s.subrange(16, 24) =~= b.subrange(0, 8));
    lemma_le_u64_at(s, 16, state.binding.authorization_sequence);
    assert(b.subrange(8, 12) =~= u32_bytes(state.binding.operation_count));
    assert(s.subrange(24, 28) =~= b.subrange(8, 12));
    lemma_le_u32_at(s, 24, state.binding.operation_count);
    assert(b.subrange(12, 16) =~= u32_bytes(state.binding.transition_count));
    assert(s.subrange(28, 32) =~= b.subrange(12, 16));
    lemma_le_u32_at(s, 28, state.binding.transition_count);
    assert(b.subrange(16, 20) =~= u32_bytes(state.binding.program_version));
    assert(s.subrange(32, 36) =~= b.subrange(16, 20));
    lemma_le_u32_at(s, 32, state.binding.program_version);
    assert(b.subrange(20, 24) =~= u32_bytes(state.binding.preapply_cancel_mask));
    assert(s.subrange(36, 40) =~= b.subrange(20, 24));
    lemma_le_u32_at(s, 36, state.binding.preapply_cancel_mask);
    assert(b.subrange(24, 56) =~= state.binding.authorization_sha256@);
    assert(s.subrange(40, 72) =~= b.subrange(24, 56));
    lemma_digest_at_view(s, 40, state.binding.authorization_sha256);
    assert(b.subrange(56, 88) =~= state.binding.authorization_id@);
    assert(s.subrange(72, 104) =~= b.subrange(56, 88));
    lemma_digest_at_view(s, 72, state.binding.authorization_id);
    assert(b.subrange(88, 120) =~= state.binding.program_sha256@);
    assert(s.subrange(104, 136) =~= b.subrange(88, 120));
    lemma_digest_at_view(s, 104, state.binding.program_sha256);
    assert(b.subrange(120, 152) =~= state.binding.plan_id_sha256@);
    assert(s.subrange(136, 168) =~= b.subrange(120, 152));
    lemma_digest_at_view(s, 136, state.binding.plan_id_sha256);
    assert(b.subrange(152, 184) =~= state.binding.descriptor_sha256@);
    assert(s.subrange(168, 200) =~= b.subrange(152, 184));
    lemma_digest_at_view(s, 168, state.binding.descriptor_sha256);
    assert(b.subrange(184, 216) =~= state.binding.root_sha256@);
    assert(s.subrange(200, 232) =~= b.subrange(184, 216));
    lemma_digest_at_view(s, 200, state.binding.root_sha256);
    assert(b.subrange(216, 248) =~= state.binding.device_binding_sha256@);
    assert(s.subrange(232, 264) =~= b.subrange(216, 248));
    lemma_digest_at_view(s, 232, state.binding.device_binding_sha256);
    assert(b.subrange(248, 280) =~= state.previous_chain_sha256@);
    assert(s.subrange(264, 296) =~= b.subrange(248, 280));
    lemma_digest_at_view(s, 264, state.previous_chain_sha256);
    assert(b.subrange(280, 312) =~= state.chain_sha256@);
    assert(s.subrange(296, 328) =~= b.subrange(280, 312));
    lemma_digest_at_view(s, 296, state.chain_sha256);
}

/// A signed program head that validates against its authorization decodes from its encoding to itself.
pub proof fn lemma_signed_plan_round_trip(state: SignedMaintenancePlanState, authorization: MaintenanceAuthorizationAuditBinding)
    requires
        state.spec_validate(authorization) is Ok,
    ensures
        spec_decode_signed_plan(signed_plan_bytes(state)) == Ok::<SignedMaintenancePlanState, SignedMaintenancePlanStateError>(state),
{
    reveal(spec_decode_signed_plan);
    lemma_signed_plan_fields(state);
    let s = signed_plan_bytes(state);
    assert(SignedMaintenancePlanState { binding: SignedMaintenancePlanBinding { authorization_sequence: spec_le_u64(s, 16), operation_count: spec_le_u32(s, 24), transition_count: spec_le_u32(s, 28), program_version: spec_le_u32(s, 32), preapply_cancel_mask: spec_le_u32(s, 36), authorization_sha256: digest_at(s, 40), authorization_id: digest_at(s, 72), program_sha256: digest_at(s, 104), plan_id_sha256: digest_at(s, 136), descriptor_sha256: digest_at(s, 168), root_sha256: digest_at(s, 200), device_binding_sha256: digest_at(s, 232) }, previous_chain_sha256: digest_at(s, 264), chain_sha256: digest_at(s, 296) } == state);
    
}


} // verus!

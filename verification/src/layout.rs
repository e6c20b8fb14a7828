//! Fixed geometry, magic values and versions of the persistent-data partition.
use vstd::prelude::*;

verus! {

/// Bytes in one block-device sector.
pub const SECTOR_SIZE: usize = 512;

/// One block-device sector.
pub type Sector = [u8; 512];

pub const FORMAT_EPOCH_BYTES: usize = 16;

/// The format epoch that binds every record to one formatted partition.
pub type FormatEpoch = [u8; 16];

pub const DATA_SUPERBLOCK_MAGIC: [u8; 8] = [0x42u8, 0x4e, 0x44, 0x52, 0x44, 0x41, 0x54, 0x31];
pub const DATA_RECORD_MAGIC: [u8; 8] = [0x42u8, 0x4e, 0x44, 0x52, 0x52, 0x45, 0x43, 0x31];
pub const BOOT_STATE_MAGIC: [u8; 8] = [0x42u8, 0x4e, 0x44, 0x52, 0x42, 0x4f, 0x4f, 0x54];
pub const DEVICE_HEALTH_STATE_MAGIC: [u8; 8] = [0x42u8, 0x4e, 0x44, 0x52, 0x48, 0x4c, 0x54, 0x31];
pub const MANIFEST_ROLLBACK_STATE_MAGIC: [u8; 8] = [
    0x42u8,
    0x4e,
    0x44,
    0x52,
    0x52,
    0x42,
    0x4b,
    0x31,
];
pub const MANIFEST_KEY_POLICY_STATE_MAGIC: [u8; 8] = [
    0x42u8,
    0x4e,
    0x44,
    0x52,
    0x4b,
    0x45,
    0x59,
    0x31,
];
pub const MAINTENANCE_AUDIT_STATE_MAGIC: [u8; 8] = [
    0x42u8,
    0x4e,
    0x44,
    0x52,
    0x4d,
    0x41,
    0x55,
    0x31,
];
pub const MAINTENANCE_EXECUTION_STATE_MAGIC: [u8; 8] = [
    0x42u8,
    0x4e,
    0x44,
    0x52,
    0x4d,
    0x45,
    0x58,
    0x31,
];
pub const MAINTENANCE_STEP_STATE_MAGIC: [u8; 8] = [
    0x42u8,
    0x4e,
    0x44,
    0x52,
    0x4d,
    0x53,
    0x54,
    0x31,
];
pub const MAINTENANCE_PLAN_STATE_MAGIC: [u8; 8] = [
    0x42u8,
    0x4e,
    0x44,
    0x52,
    0x4d,
    0x50,
    0x4c,
    0x31,
];
pub const SIGNED_MAINTENANCE_PLAN_STATE_MAGIC: [u8; 8] = [
    0x42u8,
    0x4e,
    0x44,
    0x52,
    0x4d,
    0x50,
    0x42,
    0x31,
];
/// Domain separator of a plan's operation-instance identifier.
pub const MAINTENANCE_PLAN_OPERATION_INSTANCE_TAG: [u8; 8] = [
    0x4du8,
    0x38,
    0x30,
    0x2d,
    0x4f,
    0x50,
    0x49,
    0x31,
];
/// Domain separator of a plan's idempotency key.
pub const MAINTENANCE_PLAN_IDEMPOTENCY_TAG: [u8; 8] = [
    0x4du8,
    0x38,
    0x30,
    0x2d,
    0x49,
    0x44,
    0x4b,
    0x31,
];

pub const DATA_FORMAT_VERSION: u32 = 1;
pub const DATA_SLOT_COUNT: usize = 2;
pub const DATA_SUPERBLOCK_RELATIVE_LBA: u64 = 0;
pub const DATA_SLOT_RELATIVE_LBAS: [u64; 2] = [1u64, 2];
pub const DATA_RECORD_HEADER_BYTES: usize = 80;
/// Offset of the sector-wide CRC-32: the last four bytes of the sector.
pub const DATA_RECORD_CRC_OFFSET: usize = 508;
pub const DATA_RECORD_MAX_PAYLOAD: usize = 428;
pub const BOOT_STATE_BYTES: usize = 32;
pub const DEVICE_HEALTH_STATE_VERSION: u32 = 1;
pub const DEVICE_HEALTH_STATE_BYTES: usize = 80;
pub const MANIFEST_ROLLBACK_STATE_VERSION: u32 = 1;
pub const MANIFEST_ROLLBACK_STATE_BYTES: usize = 64;
pub const MANIFEST_ROLLBACK_SLOT_RELATIVE_LBAS: [u64; 2] = [3u64, 4];
pub const MANIFEST_KEY_POLICY_STATE_VERSION: u32 = 1;
pub const MANIFEST_KEY_POLICY_STATE_BYTES: usize = 96;
pub const MAINTENANCE_AUDIT_STATE_VERSION: u32 = 1;
pub const MAINTENANCE_AUDIT_STATE_BYTES: usize = 320;
pub const MAINTENANCE_AUDIT_SLOT_RELATIVE_LBAS: [u64; 2] = [5u64, 6];
pub const MAINTENANCE_EXECUTION_STATE_VERSION: u32 = 1;
pub const MAINTENANCE_EXECUTION_STATE_BYTES: usize = 368;
pub const MAINTENANCE_EXECUTION_SLOT_RELATIVE_LBAS: [u64; 2] = [7u64, 8];
pub const MAINTENANCE_EXECUTION_STOP_DRAINED: u32 = 1;
pub const MAINTENANCE_EXECUTION_CLEAN_SHUTDOWN: u32 = 2;
pub const MAINTENANCE_EXECUTION_REQUIRED_FLAGS: u32 = 3;
pub const MAINTENANCE_STEP_STATE_VERSION: u32 = 1;
pub const MAINTENANCE_STEP_STATE_BYTES: usize = 376;
pub const MAINTENANCE_STEP_SLOT_RELATIVE_LBAS: [u64; 2] = [9u64, 10];
pub const MAINTENANCE_STEP_COUNT: u32 = 3;
pub const MAINTENANCE_STEP_ROTATION_ONE: u32 = 1;
pub const MAINTENANCE_STEP_ROTATION_TWO: u32 = 2;
pub const MAINTENANCE_STEP_DRAIN: u32 = 3;
pub const MAINTENANCE_STEP_OPERATION_STORAGE_ROTATION: u64 = 1;
pub const MAINTENANCE_STEP_REPLAY_SAFE_FROM_BOOT_START: u32 = 1;
pub const MAINTENANCE_STEP_DRAIN_VALIDATED: u32 = 2;
pub const MAINTENANCE_PLAN_STATE_VERSION: u32 = 1;
pub const MAINTENANCE_PLAN_STATE_BYTES: usize = 424;
pub const MAINTENANCE_PLAN_SLOT_RELATIVE_LBAS: [u64; 2] = [11u64, 12];
pub const MAINTENANCE_PLAN_PHASE_PREPARED: u32 = 1;
pub const MAINTENANCE_PLAN_PHASE_APPLYING: u32 = 2;
pub const MAINTENANCE_PLAN_PHASE_CONFIRMED: u32 = 3;
pub const MAINTENANCE_PLAN_PHASE_COMPENSATED: u32 = 4;
pub const MAINTENANCE_PLAN_IDEMPOTENT_EFFECT: u32 = 1;
pub const MAINTENANCE_PLAN_RESULT_MAY_BE_UNKNOWN: u32 = 2;
pub const MAINTENANCE_PLAN_EFFECT_CONFIRMED: u32 = 4;
pub const MAINTENANCE_PLAN_COMPENSATED_WITHOUT_EFFECT: u32 = 8;
pub const MAINTENANCE_PLAN_TRANSITIONS_PER_SEQUENCE: u64 = 9;
pub const SIGNED_MAINTENANCE_PLAN_STATE_VERSION: u32 = 1;
pub const SIGNED_MAINTENANCE_PLAN_STATE_BYTES: usize = 336;
pub const SIGNED_MAINTENANCE_PLAN_SLOT_RELATIVE_LBAS: [u64; 2] = [13u64, 14];
pub const SIGNED_MAINTENANCE_PLAN_OPERATION_COUNT: u32 = 3;
pub const SIGNED_MAINTENANCE_PLAN_TRANSITION_COUNT: u32 = 9;
pub const SIGNED_MAINTENANCE_PLAN_PROGRAM_VERSION: u32 = 1;
pub const SIGNED_MAINTENANCE_PLAN_PREAPPLY_CANCEL_MASK: u32 = 1;

pub const RECORD_COMMITTED: u32 = 1;
pub const RECORD_COMMIT_COOKIE: u64 = 0x434f_4d4d_4954_2131;
pub const BOOT_STATE_WITNESS: u64 = 0xb24d_25da_7a5e_c001;
pub const DEVICE_HEALTH_BOOT_OPEN: u32 = 1;
pub const DEVICE_HEALTH_READ_ONLY: u32 = 1;
pub const DEVICE_HEALTH_FLUSH_SUPPORTED: u32 = 2;
pub const DEVICE_HEALTH_MODE_FLAGS: u32 = 3;
pub const DEVICE_HEALTH_WITNESS: u64 = 0xb24d_63da_7a5e_c001;
pub const MANIFEST_ROLLBACK_WITNESS: u64 = 0xb24d_75da_7a5e_c001;
pub const MANIFEST_KEY_POLICY_WITNESS: u64 = 0xb24d_76da_7a5e_c001;
pub const MAINTENANCE_AUDIT_WITNESS: u64 = 0xb24d_77da_7a5e_c001;
pub const MAINTENANCE_EXECUTION_WITNESS: u64 = 0xb24d_78da_7a5e_c001;
pub const MAINTENANCE_STEP_WITNESS: u64 = 0xb24d_79da_7a5e_c001;
pub const MAINTENANCE_PLAN_WITNESS: u64 = 0xb24d_80da_7a5e_c001;
pub const SIGNED_MAINTENANCE_PLAN_WITNESS: u64 = 0xb24d_81da_7a5e_c001;

} // verus!

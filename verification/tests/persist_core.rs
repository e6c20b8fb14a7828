use bndr_persist::boot_state::{
    BootState, BootStateError, DeviceHealthContract, DeviceHealthState, DeviceHealthStateError,
};
use bndr_persist::boot_tx::{
    advance_boot_state, advance_device_health_after_reprobe,
    close_device_health_for_clean_shutdown, AdvanceError, AdvanceEvidence,
    DeviceHealthAdvanceError, DeviceHealthAdvanceEvidence, DeviceHealthCloseError,
    DeviceHealthCloseEvidence,
};
use bndr_persist::checksum::crc32;
use bndr_persist::io::{IoPhase, PersistIoError};
use bndr_persist::memory::{Operation, MemoryIo};
use bndr_persist::key_policy_tx::{
    enforce_and_rotate_manifest_key_policy, ManifestKeyRotationError, ManifestKeyRotationRequest,
};
use bndr_persist::layout::{
    FormatEpoch, Sector, BOOT_STATE_BYTES, DATA_RECORD_CRC_OFFSET, DATA_RECORD_MAX_PAYLOAD,
    DEVICE_HEALTH_STATE_BYTES, FORMAT_EPOCH_BYTES, MANIFEST_KEY_POLICY_STATE_BYTES,
    MANIFEST_ROLLBACK_STATE_BYTES, SECTOR_SIZE,
};
use bndr_persist::manifest_state::{
    ManifestKeyPolicyBinding, ManifestKeyPolicyState, ManifestRollbackBinding,
    ManifestRollbackState, ManifestRollbackStateError,
};
use bndr_persist::manifest_tx::{
    enforce_and_advance_manifest_rollback, ManifestRollbackError, ManifestRollbackEvidence,
};
use bndr_persist::record::{recover, DataRecord, RecordError, RecoveryError};
use bndr_persist::superblock::{seal_sector, DataSuperblock, SuperblockError};

const FORMAT_EPOCH: FormatEpoch = *b"BNDROID-M25-E001";
const FOREIGN_EPOCH: FormatEpoch = *b"BNDROID-M25-E999";

fn fixture() -> MemoryIo {
    let mut sectors = vec![[0_u8; SECTOR_SIZE]; 16];
    sectors[2] = DataSuperblock::encode(4, FORMAT_EPOCH).unwrap();
    sectors[3] = DataRecord::encode(FORMAT_EPOCH, 0, &state(0)).unwrap();
    MemoryIo::new(sectors)
}
fn state(count: u64) -> [u8; BOOT_STATE_BYTES] {
    BootState { boot_count: count }.encode()
}

fn device_contract() -> DeviceHealthContract {
    DeviceHealthContract {
        capacity_sectors: 16_384,
        selected_features: (1_u64 << 32) | (1_u64 << 9),
        transport_base: 0x0a00_3e00,
        irq_id: 79,
        sector_bytes: 512,
        queue_size: 8,
        device_read_only: false,
        flush_supported: true,
    }
}

fn manifest_binding() -> ManifestRollbackBinding {
    ManifestRollbackBinding {
        key_id: 2,
        trust_anchor_sha256: [0x42; 32],
    }
}

fn manifest_key_policy_binding(key_id: u8, key_epoch: u32) -> ManifestKeyPolicyBinding {
    ManifestKeyPolicyBinding {
        key_id,
        key_epoch,
        trust_anchor_sha256: [key_id; 32],
        policy_sha256: [0x76; 32],
    }
}

fn manifest_key_rotation_request(
    key_id: u8,
    key_epoch: u32,
    artifact_index: u32,
) -> ManifestKeyRotationRequest {
    ManifestKeyRotationRequest {
        partition_first_lba: 2,
        partition_sectors: 6,
        expected_format_epoch: FORMAT_EPOCH,
        bootstrap_floor: 2,
        artifact_index,
        artifact_binding: manifest_key_policy_binding(key_id, key_epoch),
        legacy_predecessor: manifest_binding(),
        legacy_predecessor_epoch: 2,
    }
}

#[test]
fn superblock_round_trips_and_rejects_geometry_or_corruption() {
    let sector = DataSuperblock::encode(64, FORMAT_EPOCH).unwrap();
    assert_eq!(
        DataSuperblock::decode(&sector, 64, FORMAT_EPOCH),
        Ok(DataSuperblock {
            partition_sectors: 64,
            slot_relative_lbas: [1, 2],
            format_epoch: FORMAT_EPOCH,
        })
    );
    assert_eq!(
        DataSuperblock::decode(&sector, 63, FORMAT_EPOCH),
        Err(SuperblockError::BadPartitionSize)
    );
    let mut corrupt = sector;
    corrupt[100] = 1;
    assert_eq!(
        DataSuperblock::decode(&corrupt, 64, FORMAT_EPOCH),
        Err(SuperblockError::NonZeroReserved)
    );
    assert_eq!(
        DataSuperblock::encode(2, FORMAT_EPOCH),
        Err(SuperblockError::BadPartitionSize)
    );
}

#[test]
fn superblock_requires_the_expected_nonzero_format_epoch() {
    let sector = DataSuperblock::encode(64, FORMAT_EPOCH).unwrap();
    assert_eq!(
        DataSuperblock::decode(&sector, 64, FOREIGN_EPOCH),
        Err(SuperblockError::FormatEpochMismatch)
    );
    assert_eq!(
        DataSuperblock::encode(64, [0; FORMAT_EPOCH_BYTES]),
        Err(SuperblockError::ZeroFormatEpoch)
    );
    assert_eq!(
        DataSuperblock::decode(&sector, 64, [0; FORMAT_EPOCH_BYTES]),
        Err(SuperblockError::ZeroFormatEpoch)
    );

    let mut zero_on_disk = sector;
    zero_on_disk[48..48 + FORMAT_EPOCH_BYTES].fill(0);
    seal_sector(&mut zero_on_disk);
    assert_eq!(
        DataSuperblock::decode(&zero_on_disk, 64, FORMAT_EPOCH),
        Err(SuperblockError::ZeroFormatEpoch)
    );
}

#[test]
fn records_round_trip_at_empty_and_maximum_payload_sizes() {
    for payload in [&[][..], &[0x5a; DATA_RECORD_MAX_PAYLOAD][..]] {
        let sector = DataRecord::encode(FORMAT_EPOCH, 42, payload).unwrap();
        let record = DataRecord::decode(&sector, FORMAT_EPOCH).unwrap();
        assert_eq!(record.generation, 42);
        assert_eq!(record.format_epoch, FORMAT_EPOCH);
        assert_eq!(record.payload, payload);
    }
    assert_eq!(
        DataRecord::encode(FORMAT_EPOCH, 0, &[0; DATA_RECORD_MAX_PAYLOAD + 1]),
        Err(RecordError::PayloadTooLarge)
    );
}

#[test]
fn records_require_the_expected_nonzero_format_epoch() {
    let sector = DataRecord::encode(FORMAT_EPOCH, 42, b"payload").unwrap();
    assert_eq!(
        DataRecord::decode(&sector, FOREIGN_EPOCH),
        Err(RecordError::FormatEpochMismatch)
    );
    assert_eq!(
        DataRecord::encode([0; FORMAT_EPOCH_BYTES], 42, b"payload"),
        Err(RecordError::ZeroFormatEpoch)
    );
    assert_eq!(
        DataRecord::decode(&sector, [0; FORMAT_EPOCH_BYTES]),
        Err(RecordError::ZeroFormatEpoch)
    );

    let mut zero_on_disk = sector;
    zero_on_disk[64..64 + FORMAT_EPOCH_BYTES].fill(0);
    seal_sector(&mut zero_on_disk);
    assert_eq!(
        DataRecord::decode(&zero_on_disk, FORMAT_EPOCH),
        Err(RecordError::ZeroFormatEpoch)
    );
}

#[test]
fn record_crc_payload_crc_digest_and_generation_witness_reject_corruption() {
    let valid = DataRecord::encode(FORMAT_EPOCH, 7, b"persistent payload").unwrap();
    for offset in [16, 32, 40, 48, 64, DATA_RECORD_CRC_OFFSET] {
        let mut corrupt = valid;
        corrupt[offset] ^= 0x80;
        assert!(
            DataRecord::decode(&corrupt, FORMAT_EPOCH).is_err(),
            "offset {offset}"
        );
    }
}

#[test]
fn recovery_selects_the_newest_valid_slot_and_reports_rejections() {
    let old = DataRecord::encode(FORMAT_EPOCH, 4, &state(4)).unwrap();
    let new = DataRecord::encode(FORMAT_EPOCH, 5, &state(5)).unwrap();
    let selected = recover([&old, &new], FORMAT_EPOCH).unwrap();
    assert_eq!(selected.slot, 1);
    assert_eq!(selected.generation, 5);
    assert_eq!(selected.format_epoch, FORMAT_EPOCH);
    assert_eq!(selected.valid_slots, 2);
    assert_eq!(selected.rejected_slots, 0);
    assert_eq!(selected.inactive_slot(), 0);
    assert_eq!(selected.next_generation(), Ok(6));
    assert_eq!(
        BootState::decode(selected.payload),
        Ok(BootState { boot_count: 5 })
    );

    let mut torn = new;
    torn[80] ^= 1;
    let recovered = recover([&old, &torn], FORMAT_EPOCH).unwrap();
    assert_eq!(recovered.slot, 0);
    assert_eq!(recovered.generation, 4);
    assert_eq!(recovered.valid_slots, 1);
    assert_eq!(recovered.rejected_slots, 1);
}

#[test]
fn recovery_rejects_no_valid_duplicate_and_exhausted_generations() {
    let empty = [0_u8; SECTOR_SIZE];
    assert_eq!(
        recover([&empty, &empty], FORMAT_EPOCH),
        Err(RecoveryError::NoValidRecord)
    );
    let first = DataRecord::encode(FORMAT_EPOCH, 9, b"first").unwrap();
    let second = DataRecord::encode(FORMAT_EPOCH, 9, b"second").unwrap();
    assert_eq!(
        recover([&first, &second], FORMAT_EPOCH),
        Err(RecoveryError::AmbiguousGeneration)
    );
    let exhausted = DataRecord::encode(FORMAT_EPOCH, u64::MAX, b"last").unwrap();
    let selected = recover([&exhausted, &empty], FORMAT_EPOCH).unwrap();
    assert_eq!(
        selected.next_generation(),
        Err(RecoveryError::GenerationExhausted)
    );
}

#[test]
fn recovery_rejects_generation_gaps_in_either_slot_order() {
    let fourth = DataRecord::encode(FORMAT_EPOCH, 4, b"fourth").unwrap();
    let sixth = DataRecord::encode(FORMAT_EPOCH, 6, b"sixth").unwrap();
    assert_eq!(
        recover([&fourth, &sixth], FORMAT_EPOCH),
        Err(RecoveryError::GenerationGap)
    );
    assert_eq!(
        recover([&sixth, &fourth], FORMAT_EPOCH),
        Err(RecoveryError::GenerationGap)
    );
}

#[test]
fn recovery_rejects_foreign_and_zero_format_epochs() {
    let matching = DataRecord::encode(FORMAT_EPOCH, 4, b"matching").unwrap();
    let foreign = DataRecord::encode(FOREIGN_EPOCH, 5, b"foreign").unwrap();
    let selected = recover([&matching, &foreign], FORMAT_EPOCH).unwrap();
    assert_eq!(selected.slot, 0);
    assert_eq!(selected.generation, 4);
    assert_eq!(selected.valid_slots, 1);
    assert_eq!(selected.rejected_slots, 1);
    assert_eq!(
        recover([&foreign, &foreign], FORMAT_EPOCH),
        Err(RecoveryError::NoValidRecord)
    );
    assert_eq!(
        recover([&matching, &foreign], [0; FORMAT_EPOCH_BYTES]),
        Err(RecoveryError::ZeroFormatEpoch)
    );
}

#[test]
fn boot_state_has_exact_wire_size_and_witness() {
    let encoded = state(0x1020_3040_5060_7080);
    assert_eq!(encoded.len(), BOOT_STATE_BYTES);
    assert_eq!(
        BootState::decode(&encoded),
        Ok(BootState {
            boot_count: 0x1020_3040_5060_7080,
        })
    );
    let mut corrupt = encoded;
    corrupt[24] ^= 1;
    assert_eq!(
        BootState::decode(&corrupt),
        Err(BootStateError::WitnessMismatch)
    );
}

#[test]
fn device_health_state_round_trips_exact_contract_and_open_hint() {
    let state = DeviceHealthState {
        boot_count: 9,
        boot_open: true,
        contract: device_contract(),
    };
    let encoded = state.encode().unwrap();
    assert_eq!(encoded.len(), DEVICE_HEALTH_STATE_BYTES);
    assert_eq!(DeviceHealthState::decode(&encoded), Ok(state));

    let closed = DeviceHealthState {
        boot_open: false,
        ..state
    };
    assert_eq!(
        DeviceHealthState::decode(&closed.encode().unwrap()),
        Ok(closed)
    );
}

#[test]
fn device_health_state_rejects_flags_contract_corruption_and_witnesses() {
    let state = DeviceHealthState {
        boot_count: 9,
        boot_open: true,
        contract: device_contract(),
    };
    let encoded = state.encode().unwrap();

    let mut flags = encoded;
    flags[12] |= 0x80;
    assert_eq!(
        DeviceHealthState::decode(&flags),
        Err(DeviceHealthStateError::BadFlags)
    );

    let mut contract = encoded;
    contract[24] ^= 1;
    assert_eq!(
        DeviceHealthState::decode(&contract),
        Err(DeviceHealthStateError::ContractDigestMismatch)
    );

    let mut witness = encoded;
    witness[72] ^= 1;
    assert_eq!(
        DeviceHealthState::decode(&witness),
        Err(DeviceHealthStateError::StateWitnessMismatch)
    );

    let invalid = DeviceHealthState {
        contract: DeviceHealthContract {
            capacity_sectors: 0,
            ..device_contract()
        },
        ..state
    };
    assert_eq!(
        invalid.encode(),
        Err(DeviceHealthStateError::InvalidContract)
    );
}

#[test]
fn manifest_rollback_state_round_trips_and_rejects_field_corruption() {
    let state = ManifestRollbackState {
        floor: 3,
        binding: manifest_binding(),
    };
    let encoded = state.encode().unwrap();
    assert_eq!(encoded.len(), MANIFEST_ROLLBACK_STATE_BYTES);
    assert_eq!(ManifestRollbackState::decode(&encoded), Ok(state));

    for offset in [0, 8, 12, 16, 20, 24, 56] {
        let mut corrupt = encoded;
        corrupt[offset] ^= 1;
        assert!(
            ManifestRollbackState::decode(&corrupt).is_err(),
            "offset {offset}"
        );
    }
    assert_eq!(
        ManifestRollbackState {
            floor: 0,
            binding: manifest_binding(),
        }
        .encode(),
        Err(ManifestRollbackStateError::ZeroFloor)
    );
    assert_eq!(
        ManifestRollbackState {
            floor: 3,
            binding: ManifestRollbackBinding {
                key_id: 0,
                trust_anchor_sha256: [0x42; 32],
            },
        }
        .encode(),
        Err(ManifestRollbackStateError::InvalidKeyId)
    );
}

#[test]
fn manifest_floor_advances_repairs_redundancy_then_becomes_read_only() {
    let mut io = fixture();
    let first = enforce_and_advance_manifest_rollback(
        &mut io,
        2,
        6,
        FORMAT_EPOCH,
        2,
        3,
        manifest_binding(),
    )
    .unwrap();
    assert_eq!(
        first,
        ManifestRollbackEvidence {
            provisioned_before: false,
            bootstrap_floor: 2,
            persisted_floor_before: 0,
            effective_floor: 2,
            artifact_index: 3,
            committed_floor: 3,
            initial_generation: 0,
            committed_generation: 1,
            initial_slot: u8::MAX,
            committed_slot: 0,
            initial_valid_slots: 0,
            initial_rejected_slots: 0,
            committed_valid_slots: 1,
            committed_rejected_slots: 1,
            floor_advanced: true,
            record_written: true,
            redundancy_repaired: false,
            reads: 4,
            writes: 1,
            flushes: 1,
            binding: manifest_binding(),
        }
    );
    assert_eq!(
        io.operations,
        [
            Operation::Read(5),
            Operation::Read(6),
            Operation::Write(5),
            Operation::Flush,
            Operation::Read(5),
            Operation::Read(6),
        ]
    );

    io.operations.clear();
    let second = enforce_and_advance_manifest_rollback(
        &mut io,
        2,
        6,
        FORMAT_EPOCH,
        2,
        3,
        manifest_binding(),
    )
    .unwrap();
    assert!(second.provisioned_before);
    assert_eq!(second.persisted_floor_before, 3);
    assert_eq!(second.initial_generation, 1);
    assert_eq!(second.committed_generation, 2);
    assert_eq!(second.initial_valid_slots, 1);
    assert_eq!(second.committed_valid_slots, 2);
    assert!(!second.floor_advanced);
    assert!(second.record_written);
    assert!(second.redundancy_repaired);
    assert_eq!(second.committed_slot, 1);

    io.operations.clear();
    let third = enforce_and_advance_manifest_rollback(
        &mut io,
        2,
        6,
        FORMAT_EPOCH,
        2,
        3,
        manifest_binding(),
    )
    .unwrap();
    assert_eq!(third.initial_generation, 2);
    assert_eq!(third.committed_generation, 2);
    assert_eq!(third.initial_valid_slots, 2);
    assert_eq!(third.committed_valid_slots, 2);
    assert!(!third.floor_advanced);
    assert!(!third.record_written);
    assert!(!third.redundancy_repaired);
    assert_eq!(io.operations, [Operation::Read(5), Operation::Read(6)]);
}

#[test]
fn persistent_manifest_floor_rejects_a_valid_old_index_without_mutation() {
    let mut io = fixture();
    enforce_and_advance_manifest_rollback(
        &mut io,
        2,
        6,
        FORMAT_EPOCH,
        2,
        3,
        manifest_binding(),
    )
    .unwrap();
    io.operations.clear();
    assert_eq!(
        enforce_and_advance_manifest_rollback(
            &mut io,
            2,
            6,
            FORMAT_EPOCH,
            2,
            2,
            manifest_binding(),
        ),
        Err(ManifestRollbackError::Rollback {
            actual: 2,
            minimum: 3,
        })
    );
    assert_eq!(io.operations, [Operation::Read(5), Operation::Read(6)]);
}

#[test]
fn torn_inactive_manifest_record_preserves_and_repairs_the_old_floor() {
    let mut io = fixture();
    enforce_and_advance_manifest_rollback(
        &mut io,
        2,
        6,
        FORMAT_EPOCH,
        2,
        3,
        manifest_binding(),
    )
    .unwrap();
    io.sectors[6] = io.sectors[5];
    io.sectors[6][100] ^= 1;
    io.operations.clear();
    let repaired = enforce_and_advance_manifest_rollback(
        &mut io,
        2,
        6,
        FORMAT_EPOCH,
        2,
        3,
        manifest_binding(),
    )
    .unwrap();
    assert_eq!(repaired.persisted_floor_before, 3);
    assert_eq!(repaired.initial_valid_slots, 1);
    assert_eq!(repaired.initial_rejected_slots, 1);
    assert!(repaired.redundancy_repaired);
    assert_eq!(repaired.committed_valid_slots, 2);
    assert_eq!(repaired.committed_rejected_slots, 0);
}

#[test]
fn manifest_floor_fails_closed_on_foreign_binding_and_no_valid_record() {
    let mut io = fixture();
    let foreign = ManifestRollbackState {
        floor: 3,
        binding: ManifestRollbackBinding {
            key_id: 7,
            trust_anchor_sha256: [0x77; 32],
        },
    }
    .encode()
    .unwrap();
    io.sectors[5] = DataRecord::encode(FORMAT_EPOCH, 1, &foreign).unwrap();
    assert_eq!(
        enforce_and_advance_manifest_rollback(
            &mut io,
            2,
            6,
            FORMAT_EPOCH,
            2,
            3,
            manifest_binding(),
        ),
        Err(ManifestRollbackError::BindingMismatch)
    );

    io.sectors[5].fill(0x55);
    io.sectors[6].fill(0xaa);
    assert_eq!(
        enforce_and_advance_manifest_rollback(
            &mut io,
            2,
            6,
            FORMAT_EPOCH,
            2,
            3,
            manifest_binding(),
        ),
        Err(ManifestRollbackError::Recovery(
            RecoveryError::NoValidRecord
        ))
    );
}

#[test]
fn manifest_floor_mutation_failures_never_destroy_the_selected_slot() {
    let mut io = fixture();
    enforce_and_advance_manifest_rollback(
        &mut io,
        2,
        6,
        FORMAT_EPOCH,
        2,
        3,
        manifest_binding(),
    )
    .unwrap();
    let selected = io.sectors[5];
    io.tear_write = true;
    assert_eq!(
        enforce_and_advance_manifest_rollback(
            &mut io,
            2,
            6,
            FORMAT_EPOCH,
            2,
            3,
            manifest_binding(),
        ),
        Err(ManifestRollbackError::VerificationFailed)
    );
    assert_eq!(io.sectors[5], selected);
    assert_eq!(
        recover([&io.sectors[5], &io.sectors[6]], FORMAT_EPOCH)
            .unwrap()
            .slot,
        0
    );
}

#[test]
fn manifest_key_policy_state_round_trips_and_rejects_corruption() {
    let state = ManifestKeyPolicyState {
        floor: 5,
        binding: manifest_key_policy_binding(4, 4),
    };
    let encoded = state.encode().unwrap();
    assert_eq!(encoded.len(), MANIFEST_KEY_POLICY_STATE_BYTES);
    assert_eq!(ManifestKeyPolicyState::decode(&encoded), Ok(state));
    for offset in [0, 8, 12, 16, 20, 24, 56, 88] {
        let mut corrupt = encoded;
        corrupt[offset] ^= 1;
        assert!(
            ManifestKeyPolicyState::decode(&corrupt).is_err(),
            "offset {offset}"
        );
    }
}

#[test]
fn manifest_key_policy_migrates_two_epochs_repairs_then_becomes_read_only() {
    let mut io = fixture();
    enforce_and_advance_manifest_rollback(
        &mut io,
        2,
        6,
        FORMAT_EPOCH,
        2,
        3,
        manifest_binding(),
    )
    .unwrap();

    io.operations.clear();
    let key3 =
        enforce_and_rotate_manifest_key_policy(&mut io, manifest_key_rotation_request(3, 3, 4))
            .unwrap();
    assert!(key3.provisioned_before);
    assert!(key3.legacy_migrated);
    assert!(key3.key_transition);
    assert_eq!(key3.previous_key_id, 2);
    assert_eq!(key3.previous_key_epoch, 2);
    assert_eq!(key3.active_key_id, 3);
    assert_eq!(key3.active_key_epoch, 3);
    assert_eq!(key3.persisted_floor_before, 3);
    assert_eq!(key3.committed_floor, 4);
    assert_eq!(key3.initial_generation, 1);
    assert_eq!(key3.committed_generation, 2);
    assert_eq!(key3.initial_active_policy_slots, 0);
    assert_eq!(key3.committed_active_policy_slots, 1);
    assert!(key3.record_written);
    assert!(!key3.redundancy_repaired);

    io.operations.clear();
    let key4 =
        enforce_and_rotate_manifest_key_policy(&mut io, manifest_key_rotation_request(4, 4, 5))
            .unwrap();
    assert!(!key4.legacy_migrated);
    assert!(key4.key_transition);
    assert_eq!(key4.previous_key_id, 3);
    assert_eq!(key4.previous_key_epoch, 3);
    assert_eq!(key4.persisted_floor_before, 4);
    assert_eq!(key4.committed_floor, 5);
    assert_eq!(key4.initial_generation, 2);
    assert_eq!(key4.committed_generation, 3);
    assert_eq!(key4.initial_active_policy_slots, 0);
    assert_eq!(key4.committed_active_policy_slots, 1);

    io.operations.clear();
    let repair =
        enforce_and_rotate_manifest_key_policy(&mut io, manifest_key_rotation_request(4, 4, 5))
            .unwrap();
    assert!(!repair.key_transition);
    assert!(repair.redundancy_repaired);
    assert_eq!(repair.initial_generation, 3);
    assert_eq!(repair.committed_generation, 4);
    assert_eq!(repair.initial_active_policy_slots, 1);
    assert_eq!(repair.committed_active_policy_slots, 2);
    assert_eq!(repair.writes, 1);
    assert_eq!(repair.flushes, 1);

    io.operations.clear();
    let steady =
        enforce_and_rotate_manifest_key_policy(&mut io, manifest_key_rotation_request(4, 4, 5))
            .unwrap();
    assert!(!steady.record_written);
    assert!(!steady.redundancy_repaired);
    assert_eq!(steady.initial_generation, 4);
    assert_eq!(steady.committed_generation, 4);
    assert_eq!(steady.initial_active_policy_slots, 2);
    assert_eq!(steady.committed_active_policy_slots, 2);
    assert_eq!(steady.writes, 0);
    assert_eq!(steady.flushes, 0);
    assert_eq!(io.operations, [Operation::Read(5), Operation::Read(6)]);
}

#[test]
fn retired_or_skipped_manifest_key_epochs_fail_without_mutation() {
    let mut io = fixture();
    enforce_and_advance_manifest_rollback(
        &mut io,
        2,
        6,
        FORMAT_EPOCH,
        2,
        3,
        manifest_binding(),
    )
    .unwrap();
    io.operations.clear();
    assert_eq!(
        enforce_and_rotate_manifest_key_policy(&mut io, manifest_key_rotation_request(4, 4, 5),),
        Err(ManifestKeyRotationError::SkippedKeyEpoch {
            artifact_epoch: 4,
            active_epoch: 2,
        })
    );
    assert_eq!(io.operations, [Operation::Read(5), Operation::Read(6)]);

    enforce_and_rotate_manifest_key_policy(&mut io, manifest_key_rotation_request(3, 3, 4))
        .unwrap();
    enforce_and_rotate_manifest_key_policy(&mut io, manifest_key_rotation_request(4, 4, 5))
        .unwrap();
    io.operations.clear();
    assert_eq!(
        enforce_and_rotate_manifest_key_policy(&mut io, manifest_key_rotation_request(3, 3, 6),),
        Err(ManifestKeyRotationError::RetiredKey {
            artifact_epoch: 3,
            active_epoch: 4,
        })
    );
    assert_eq!(io.operations, [Operation::Read(5), Operation::Read(6)]);
}

#[test]
fn device_health_transaction_upgrades_legacy_without_persisting_offline() {
    let mut io = fixture();
    let evidence =
        advance_device_health_after_reprobe(&mut io, 2, 4, FORMAT_EPOCH, device_contract())
            .unwrap();
    assert_eq!(
        evidence.persistence,
        AdvanceEvidence {
            initial_generation: 0,
            committed_generation: 1,
            initial_slot: 0,
            committed_slot: 1,
            initial_valid_slots: 1,
            initial_rejected_slots: 1,
            reads: 5,
            writes: 1,
            flushes: 1,
        }
    );
    assert!(evidence.legacy_upgrade);
    assert!(!evidence.persisted_contract_present);
    assert!(!evidence.prior_boot_open);
    assert!(!evidence.contract_changed);
    assert!(!evidence.reprobe_required);
    assert!(evidence.reprobe_verified);
    assert!(evidence.current_boot_open);
    assert!(!evidence.offline_persisted);
    assert!(!evidence.offline_from_record);
    let committed = DataRecord::decode(&io.sectors[4], FORMAT_EPOCH).unwrap();
    assert_eq!(
        DeviceHealthState::decode(committed.payload),
        Ok(DeviceHealthState {
            boot_count: 1,
            boot_open: true,
            contract: device_contract(),
        })
    );
}

#[test]
fn open_previous_boot_requires_and_records_a_fresh_reprobe() {
    let mut io = fixture();
    advance_device_health_after_reprobe(&mut io, 2, 4, FORMAT_EPOCH, device_contract())
        .unwrap();
    io.operations.clear();
    let evidence =
        advance_device_health_after_reprobe(&mut io, 2, 4, FORMAT_EPOCH, device_contract())
            .unwrap();
    assert!(!evidence.legacy_upgrade);
    assert!(evidence.persisted_contract_present);
    assert!(evidence.prior_boot_open);
    assert!(!evidence.contract_changed);
    assert!(evidence.reprobe_required);
    assert!(evidence.reprobe_verified);
    assert_eq!(evidence.persistence.initial_generation, 1);
    assert_eq!(evidence.persistence.committed_generation, 2);
    assert_eq!(
        io.operations,
        [
            Operation::Read(2),
            Operation::Read(3),
            Operation::Read(4),
            Operation::Write(3),
            Operation::Flush,
            Operation::Read(3),
            Operation::Read(4),
        ]
    );
}

#[test]
fn changed_contract_is_a_reprobe_hint_and_not_an_offline_decision() {
    let mut io = fixture();
    advance_device_health_after_reprobe(&mut io, 2, 4, FORMAT_EPOCH, device_contract())
        .unwrap();
    let changed = DeviceHealthContract {
        transport_base: 0x0a00_3c00,
        ..device_contract()
    };
    let evidence =
        advance_device_health_after_reprobe(&mut io, 2, 4, FORMAT_EPOCH, changed).unwrap();
    assert!(evidence.prior_boot_open);
    assert!(evidence.contract_changed);
    assert!(evidence.reprobe_required);
    assert!(evidence.reprobe_verified);
    assert!(!evidence.offline_persisted);
    assert!(!evidence.offline_from_record);
    assert_eq!(evidence.current_contract, changed);
}

#[test]
fn ordinary_boot_counter_preserves_an_existing_health_payload() {
    let mut io = fixture();
    advance_device_health_after_reprobe(&mut io, 2, 4, FORMAT_EPOCH, device_contract())
        .unwrap();
    io.operations.clear();

    let evidence = advance_boot_state(&mut io, 2, 4, FORMAT_EPOCH).unwrap();
    assert_eq!(evidence.initial_generation, 1);
    assert_eq!(evidence.committed_generation, 2);
    assert_eq!(evidence.initial_slot, 1);
    assert_eq!(evidence.committed_slot, 0);
    let record = DataRecord::decode(&io.sectors[3], FORMAT_EPOCH).unwrap();
    assert_eq!(
        DeviceHealthState::decode(record.payload),
        Ok(DeviceHealthState {
            boot_count: 2,
            boot_open: true,
            contract: device_contract(),
        })
    );
}

#[test]
fn malformed_health_payload_fails_closed_before_any_mutation() {
    let mut io = fixture();
    io.sectors[4] = DataRecord::encode(FORMAT_EPOCH, 1, b"not-health").unwrap();
    assert_eq!(
        advance_device_health_after_reprobe(&mut io, 2, 4, FORMAT_EPOCH, device_contract()),
        Err(DeviceHealthAdvanceError::DeviceHealthState(
            DeviceHealthStateError::WrongSize
        ))
    );
    assert_eq!(
        io.operations,
        [Operation::Read(2), Operation::Read(3), Operation::Read(4)]
    );
}

#[test]
fn clean_shutdown_closes_the_exact_open_session_in_strict_order() {
    let mut io = fixture();
    let opened =
        advance_device_health_after_reprobe(&mut io, 2, 4, FORMAT_EPOCH, device_contract())
            .unwrap();
    io.operations.clear();

    let closed = close_device_health_for_clean_shutdown(
        &mut io,
        2,
        4,
        FORMAT_EPOCH,
        opened.persistence.committed_generation,
        device_contract(),
    )
    .unwrap();
    assert_eq!(
        closed.persistence,
        AdvanceEvidence {
            initial_generation: 1,
            committed_generation: 2,
            initial_slot: 1,
            committed_slot: 0,
            initial_valid_slots: 2,
            initial_rejected_slots: 0,
            reads: 5,
            writes: 1,
            flushes: 1,
        }
    );
    assert_eq!(closed.open_generation, 1);
    assert!(closed.prior_boot_open);
    assert!(closed.contract_matched);
    assert!(!closed.current_boot_open);
    assert!(!closed.offline_persisted);
    assert!(!closed.offline_from_record);
    assert_eq!(
        io.operations,
        [
            Operation::Read(2),
            Operation::Read(3),
            Operation::Read(4),
            Operation::Write(3),
            Operation::Flush,
            Operation::Read(3),
            Operation::Read(4),
        ]
    );
    let record = DataRecord::decode(&io.sectors[3], FORMAT_EPOCH).unwrap();
    assert_eq!(
        DeviceHealthState::decode(record.payload),
        Ok(DeviceHealthState {
            boot_count: 2,
            boot_open: false,
            contract: device_contract(),
        })
    );
}

#[test]
fn closed_session_removes_only_the_next_boot_unclosed_hint() {
    let mut io = fixture();
    let opened =
        advance_device_health_after_reprobe(&mut io, 2, 4, FORMAT_EPOCH, device_contract())
            .unwrap();
    close_device_health_for_clean_shutdown(
        &mut io,
        2,
        4,
        FORMAT_EPOCH,
        opened.persistence.committed_generation,
        device_contract(),
    )
    .unwrap();
    io.operations.clear();

    let next =
        advance_device_health_after_reprobe(&mut io, 2, 4, FORMAT_EPOCH, device_contract())
            .unwrap();
    assert!(!next.legacy_upgrade);
    assert!(next.persisted_contract_present);
    assert!(!next.prior_boot_open);
    assert!(!next.contract_changed);
    assert!(!next.reprobe_required);
    assert!(next.reprobe_verified);
    assert!(next.current_boot_open);
    assert!(!next.offline_persisted);
    assert!(!next.offline_from_record);
    assert_eq!(next.persistence.initial_generation, 2);
    assert_eq!(next.persistence.committed_generation, 3);
}

#[test]
fn clean_shutdown_rejects_a_stale_session_generation_before_mutation() {
    let mut io = fixture();
    let opened =
        advance_device_health_after_reprobe(&mut io, 2, 4, FORMAT_EPOCH, device_contract())
            .unwrap();
    io.operations.clear();

    assert_eq!(
        close_device_health_for_clean_shutdown(
            &mut io,
            2,
            4,
            FORMAT_EPOCH,
            opened.persistence.committed_generation + 1,
            device_contract(),
        ),
        Err(DeviceHealthCloseError::SessionGenerationMismatch)
    );
    assert_eq!(
        io.operations,
        [Operation::Read(2), Operation::Read(3), Operation::Read(4)]
    );
}

#[test]
fn clean_shutdown_rejects_a_changed_contract_before_mutation() {
    let mut io = fixture();
    let opened =
        advance_device_health_after_reprobe(&mut io, 2, 4, FORMAT_EPOCH, device_contract())
            .unwrap();
    io.operations.clear();
    let changed = DeviceHealthContract {
        transport_base: 0x0a00_3c00,
        ..device_contract()
    };

    assert_eq!(
        close_device_health_for_clean_shutdown(
            &mut io,
            2,
            4,
            FORMAT_EPOCH,
            opened.persistence.committed_generation,
            changed,
        ),
        Err(DeviceHealthCloseError::ContractMismatch)
    );
    assert_eq!(
        io.operations,
        [Operation::Read(2), Operation::Read(3), Operation::Read(4)]
    );
}

#[test]
fn clean_shutdown_rejects_replay_of_an_already_closed_session() {
    let mut io = fixture();
    let opened =
        advance_device_health_after_reprobe(&mut io, 2, 4, FORMAT_EPOCH, device_contract())
            .unwrap();
    let first = close_device_health_for_clean_shutdown(
        &mut io,
        2,
        4,
        FORMAT_EPOCH,
        opened.persistence.committed_generation,
        device_contract(),
    )
    .unwrap();
    io.operations.clear();

    assert_eq!(
        close_device_health_for_clean_shutdown(
            &mut io,
            2,
            4,
            FORMAT_EPOCH,
            first.persistence.committed_generation,
            device_contract(),
        ),
        Err(DeviceHealthCloseError::SessionAlreadyClosed)
    );
    assert_eq!(
        io.operations,
        [Operation::Read(2), Operation::Read(3), Operation::Read(4)]
    );
}

#[test]
fn clean_shutdown_does_not_verify_a_torn_close_record() {
    let mut io = fixture();
    let opened =
        advance_device_health_after_reprobe(&mut io, 2, 4, FORMAT_EPOCH, device_contract())
            .unwrap();
    io.operations.clear();
    io.tear_write = true;

    assert_eq!(
        close_device_health_for_clean_shutdown(
            &mut io,
            2,
            4,
            FORMAT_EPOCH,
            opened.persistence.committed_generation,
            device_contract(),
        ),
        Err(DeviceHealthCloseError::VerificationFailed)
    );
    let recovered = recover([&io.sectors[3], &io.sectors[4]], FORMAT_EPOCH).unwrap();
    assert_eq!(recovered.generation, 1);
    assert_eq!(recovered.slot, 1);
}

#[test]
fn clean_shutdown_stops_after_a_failed_flush() {
    let mut io = fixture();
    let opened =
        advance_device_health_after_reprobe(&mut io, 2, 4, FORMAT_EPOCH, device_contract())
            .unwrap();
    io.operations.clear();
    io.fail_flush = true;

    assert_eq!(
        close_device_health_for_clean_shutdown(
            &mut io,
            2,
            4,
            FORMAT_EPOCH,
            opened.persistence.committed_generation,
            device_contract(),
        ),
        Err(DeviceHealthCloseError::Io {
            phase: IoPhase::Flush,
            error: PersistIoError::Device,
        })
    );
    assert_eq!(
        io.operations,
        [
            Operation::Read(2),
            Operation::Read(3),
            Operation::Read(4),
            Operation::Write(3),
            Operation::Flush,
        ]
    );
}

#[test]
fn clean_shutdown_rejects_generation_exhaustion_before_mutation() {
    let mut io = fixture();
    let health = DeviceHealthState {
        boot_count: u64::MAX,
        boot_open: true,
        contract: device_contract(),
    }
    .encode()
    .unwrap();
    io.sectors[3] = DataRecord::encode(FORMAT_EPOCH, u64::MAX, &health).unwrap();

    assert_eq!(
        close_device_health_for_clean_shutdown(
            &mut io,
            2,
            4,
            FORMAT_EPOCH,
            u64::MAX,
            device_contract(),
        ),
        Err(DeviceHealthCloseError::Recovery(
            RecoveryError::GenerationExhausted
        ))
    );
    assert_eq!(
        io.operations,
        [Operation::Read(2), Operation::Read(3), Operation::Read(4)]
    );
}

#[test]
fn durable_transaction_updates_inactive_slots_in_strict_order() {
    let mut io = fixture();
    let first = advance_boot_state(&mut io, 2, 4, FORMAT_EPOCH).unwrap();
    assert_eq!(
        first,
        AdvanceEvidence {
            initial_generation: 0,
            committed_generation: 1,
            initial_slot: 0,
            committed_slot: 1,
            initial_valid_slots: 1,
            initial_rejected_slots: 1,
            reads: 5,
            writes: 1,
            flushes: 1,
        }
    );
    assert_eq!(
        io.operations,
        [
            Operation::Read(2),
            Operation::Read(3),
            Operation::Read(4),
            Operation::Write(4),
            Operation::Flush,
            Operation::Read(3),
            Operation::Read(4),
        ]
    );
    let initial_sector = io.sectors[3];

    io.operations.clear();
    let second = advance_boot_state(&mut io, 2, 4, FORMAT_EPOCH).unwrap();
    assert_eq!(second.initial_generation, 1);
    assert_eq!(second.committed_generation, 2);
    assert_eq!(second.initial_slot, 1);
    assert_eq!(second.committed_slot, 0);
    assert_eq!(
        io.operations,
        [
            Operation::Read(2),
            Operation::Read(3),
            Operation::Read(4),
            Operation::Write(3),
            Operation::Flush,
            Operation::Read(3),
            Operation::Read(4),
        ]
    );
    assert_ne!(io.sectors[3], initial_sector);
    assert_eq!(
        DataRecord::decode(&io.sectors[3], FORMAT_EPOCH)
            .unwrap()
            .generation,
        2
    );
    assert_eq!(
        DataRecord::decode(&io.sectors[4], FORMAT_EPOCH)
            .unwrap()
            .generation,
        1
    );
}

#[test]
fn durable_transaction_does_not_verify_a_torn_write() {
    let mut io = fixture();
    let old = io.sectors[3];
    io.tear_write = true;
    assert_eq!(
        advance_boot_state(&mut io, 2, 4, FORMAT_EPOCH),
        Err(AdvanceError::VerificationFailed)
    );
    assert_eq!(io.sectors[3], old);
    let recovered = recover([&io.sectors[3], &io.sectors[4]], FORMAT_EPOCH).unwrap();
    assert_eq!(recovered.generation, 0);
    assert_eq!(recovered.slot, 0);
}

#[test]
fn durable_transaction_stops_after_a_failed_flush() {
    let mut io = fixture();
    io.fail_flush = true;
    assert_eq!(
        advance_boot_state(&mut io, 2, 4, FORMAT_EPOCH),
        Err(AdvanceError::Io {
            phase: IoPhase::Flush,
            error: PersistIoError::Device,
        })
    );
    assert_eq!(
        io.operations,
        [
            Operation::Read(2),
            Operation::Read(3),
            Operation::Read(4),
            Operation::Write(4),
            Operation::Flush,
        ]
    );
}

#[test]
fn durable_transaction_rejects_bounds_and_state_generation_mismatch() {
    let mut io = fixture();
    assert_eq!(
        advance_boot_state(&mut io, 13, 4, FORMAT_EPOCH),
        Err(AdvanceError::PartitionBounds)
    );
    assert!(io.operations.is_empty());

    io.sectors[3] = DataRecord::encode(FORMAT_EPOCH, 4, &state(3)).unwrap();
    assert_eq!(
        advance_boot_state(&mut io, 2, 4, FORMAT_EPOCH),
        Err(AdvanceError::StateGenerationMismatch)
    );
    assert_eq!(
        io.operations,
        [Operation::Read(2), Operation::Read(3), Operation::Read(4)]
    );
}

#[test]
fn durable_transaction_rejects_foreign_and_zero_format_epochs() {
    let mut io = fixture();
    assert_eq!(
        advance_boot_state(&mut io, 2, 4, [0; FORMAT_EPOCH_BYTES]),
        Err(AdvanceError::Superblock(SuperblockError::ZeroFormatEpoch))
    );
    assert!(io.operations.is_empty());

    assert_eq!(
        advance_boot_state(&mut io, 2, 4, FOREIGN_EPOCH),
        Err(AdvanceError::Superblock(
            SuperblockError::FormatEpochMismatch
        ))
    );
    assert_eq!(io.operations, [Operation::Read(2)]);
}

#[test]
fn crc32_matches_the_ieee_reference_vector() {
    assert_eq!(crc32(b"123456789"), 0xcbf4_3926);
}

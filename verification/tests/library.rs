use bndr_persist::boot_state::{BootState, DeviceHealthContract, DeviceHealthState};
use bndr_persist::boot_tx::{
    advance_boot_state, advance_device_health_after_reprobe,
    close_device_health_for_clean_shutdown, AdvanceError, DeviceHealthCloseError,
};
use bndr_persist::checksum::{crc32, fnv1a64};
use bndr_persist::install_policy::{
    candidate_boot_operation, classify_install_candidate, committed_boot_operation,
    previous_versions, recovery_boot_operation, retire_directory_entry, runtime_install_candidate_id,
    uninstall_boot_operation,
    BootOperationError, InstallAction, InstallCandidateModel, InstallMetadataModel,
    InstallPolicyError, LiveDirectoryModel, PackageStateModel,
};
use bndr_persist::io::{DurableSectorIo, IoPhase, PersistIoError};
use bndr_persist::layout::{
    FormatEpoch, Sector, BOOT_STATE_BYTES, MAINTENANCE_PLAN_STATE_MAGIC, SECTOR_SIZE,
};
use bndr_persist::maintenance_audit::MaintenanceAuthorizationAuditBinding;
use bndr_persist::maintenance_plan::maintenance_plan_id_sha256;
use bndr_persist::manifest_state::{ManifestRollbackBinding, ManifestRollbackState};
use bndr_persist::manifest_tx::{enforce_and_advance_manifest_rollback, ManifestRollbackError};
use bndr_persist::memory::{Operation, MemoryIo, TORN_BYTE};
use bndr_persist::package::{
    compact_launcher_icon, InstalledLauncherIcon, LauncherIconError, LauncherIconSource,
    next_relaunch_sequence, next_runtime_install_sequence, next_runtime_uninstall_sequence,
    AndroidPackageRestartImageGrantSnapshot, FixedText, GptPolicyError, PackageBootOperation,
    service_pending, RelaunchError, RuntimeInstallError, RuntimeUninstallError, ServiceAction,
    QUEUE_COMPLETE, QUEUE_EMPTY, QUEUE_PENDING, QUEUE_RUNNING, RESTART_IMAGE_GRANT_CONSUMED,
};
use bndr_persist::record::{recover, DataRecord, RecoveryError};
use bndr_persist::superblock::DataSuperblock;
use sha2::Digest;

const EPOCH: FormatEpoch = *b"LIBRARY-TEST-E01";

fn boot_device() -> MemoryIo {
    let mut sectors = vec![[0_u8; SECTOR_SIZE]; 16];
    sectors[2] = DataSuperblock::encode(4, EPOCH).unwrap();
    sectors[3] = DataRecord::encode(EPOCH, 0, &boot_state(0)).unwrap();
    MemoryIo::new(sectors)
}

fn boot_state(count: u64) -> [u8; BOOT_STATE_BYTES] {
    BootState { boot_count: count }.encode()
}

fn contract() -> DeviceHealthContract {
    DeviceHealthContract {
        capacity_sectors: 8_192,
        selected_features: 1_u64 << 32,
        transport_base: 0x1000,
        irq_id: 33,
        sector_bytes: 512,
        queue_size: 16,
        device_read_only: false,
        flush_supported: true,
    }
}

fn rollback_binding() -> ManifestRollbackBinding {
    ManifestRollbackBinding { key_id: 7, trust_anchor_sha256: [0x5a; 32] }
}

fn selected_payload(device: &MemoryIo, first: usize) -> Vec<u8> {
    let slots: [&Sector; 2] = [&device.sectors[first], &device.sectors[first + 1]];
    recover(slots, EPOCH).unwrap().payload.to_vec()
}

#[test]
fn crc32_matches_the_ieee_check_value() {
    assert_eq!(crc32(b""), 0);
    assert_eq!(crc32(b"123456789"), 0xcbf4_3926);
    assert_eq!(crc32(b"a"), 0xe8b7_be43);
}

#[test]
fn fnv1a64_matches_published_values() {
    assert_eq!(fnv1a64(b""), 0xcbf2_9ce4_8422_2325);
    assert_eq!(fnv1a64(b"a"), 0xaf63_dc4c_8601_ec8c);
    assert_eq!(fnv1a64(b"foobar"), 0x8594_4171_f739_67e8);
}

#[test]
fn plan_identifier_is_the_sha256_of_its_material() {
    let authorization = MaintenanceAuthorizationAuditBinding {
        sequence: 9,
        operations: 3,
        max_uses: 1,
        authorization_sha256: [1; 32],
        authorization_id: [2; 32],
        manifest_sha256: [3; 32],
        policy_sha256: [4; 32],
        root_sha256: [5; 32],
        device_binding_sha256: [6; 32],
    };
    let mut material = Vec::new();
    material.extend_from_slice(&MAINTENANCE_PLAN_STATE_MAGIC);
    material.extend_from_slice(&9_u64.to_le_bytes());
    material.extend_from_slice(&3_u64.to_le_bytes());
    material.extend_from_slice(&1_u32.to_le_bytes());
    for byte in 1_u8..=6 {
        material.extend_from_slice(&[byte; 32]);
    }
    let expected: [u8; 32] = sha2::Sha256::digest(&material).into();
    let digest = maintenance_plan_id_sha256(authorization);
    assert_eq!(digest, expected);
    assert_ne!(&digest[..], &material[..32]);
    let mut other = authorization;
    other.sequence = 10;
    assert_ne!(maintenance_plan_id_sha256(other), digest);
}

#[test]
fn fixed_text_keeps_short_ascii_and_refuses_the_rest() {
    let text = FixedText::<8>::try_from_ascii("gallery").unwrap();
    assert_eq!(text.len(), 7);
    assert!(!text.is_empty());
    assert_eq!(text.as_bytes(), b"gallery");
    assert_eq!(text.as_str(), "gallery");

    let exact = FixedText::<8>::try_from_ascii("12345678").unwrap();
    assert_eq!(exact.as_str(), "12345678");

    let empty = FixedText::<8>::try_from_ascii("").unwrap();
    assert!(empty.is_empty());
    assert_eq!(empty.as_str(), "");

    assert!(FixedText::<8>::try_from_ascii("123456789").is_none());
    assert!(FixedText::<8>::try_from_ascii("caf\u{e9}").is_none());
}

#[test]
fn request_sequences_start_at_one_and_continue_without_gaps() {
    assert_eq!(next_relaunch_sequence(5, 1, 0, 0), Ok(()));
    assert_eq!(next_relaunch_sequence(5, 1, 4, 17), Ok(()));
    assert_eq!(next_relaunch_sequence(5, 18, 5, 17), Ok(()));
    assert_eq!(next_relaunch_sequence(5, 17, 5, 17), Err(RelaunchError::Sequence));
    assert_eq!(next_relaunch_sequence(5, 19, 5, 17), Err(RelaunchError::Sequence));
    assert_eq!(next_relaunch_sequence(5, 2, 4, 1), Err(RelaunchError::Sequence));
    assert_eq!(next_relaunch_sequence(0, 1, 0, 0), Err(RelaunchError::Sequence));
    assert_eq!(next_relaunch_sequence(5, 0, 4, 0), Err(RelaunchError::Sequence));
    assert_eq!(next_relaunch_sequence(5, 0, 5, u64::MAX), Err(RelaunchError::Sequence));
    assert_eq!(next_runtime_uninstall_sequence(2, 3, 2, 2), Ok(()));
    assert_eq!(
        next_runtime_uninstall_sequence(2, 4, 2, 2),
        Err(RuntimeUninstallError::Sequence)
    );
    assert_eq!(next_runtime_install_sequence(8, 1, 9, 40), Ok(()));
    assert_eq!(
        next_runtime_install_sequence(8, 41, 9, 40),
        Err(RuntimeInstallError::Sequence)
    );
}

#[test]
fn restart_grant_is_complete_only_after_one_full_exchange() {
    let done = AndroidPackageRestartImageGrantSnapshot {
        state: RESTART_IMAGE_GRANT_CONSUMED,
        launcher_owner: 1,
        old_execution_owner: 2,
        new_execution_owner: 3,
        compatible_session_id: 4,
        package_generation: 5,
        escrows: 1,
        reissues: 1,
        replacement_claims: 1,
        image_held: false,
        ordinary_grant_pending: false,
    };
    assert!(done.complete());
    assert!(!AndroidPackageRestartImageGrantSnapshot { new_execution_owner: 2, ..done }.complete());
    assert!(!AndroidPackageRestartImageGrantSnapshot { reissues: 2, ..done }.complete());
    assert!(!AndroidPackageRestartImageGrantSnapshot { image_held: true, ..done }.complete());
    assert!(!AndroidPackageRestartImageGrantSnapshot { state: 2, ..done }.complete());
}

#[test]
fn failure_names_are_stable() {
    assert_eq!(RelaunchError::RequiresReset.as_str(), "requires-reset");
    assert_eq!(PackageBootOperation::UninstallRepair.as_str(), "uninstall-repair");
    assert_eq!(
        GptPolicyError::PartitionAttributes.as_str(),
        "installed-package GPT attributes are unsupported"
    );
    assert_eq!(PersistIoError::OutcomeUnknown.as_str(), "persistent-data mutation outcome is unknown");
}

#[test]
fn memory_device_tears_writes_and_fails_flushes_on_request() {
    let mut device = MemoryIo::new(vec![[0_u8; SECTOR_SIZE]; 2]);
    let mut sector = [0_u8; SECTOR_SIZE];
    sector[TORN_BYTE] = 0x10;
    device.tear_write = true;
    assert_eq!(device.write_sector(1, &sector), Ok(()));
    assert_eq!(device.sectors[1][TORN_BYTE], 0x11);
    assert_eq!(device.sectors[0], [0_u8; SECTOR_SIZE]);
    assert_eq!(device.write_sector(2, &sector), Err(PersistIoError::OutOfBounds));
    device.fail_flush = true;
    assert_eq!(device.flush(), Err(PersistIoError::Device));
    let mut output = [0_u8; SECTOR_SIZE];
    assert_eq!(device.read_sector(1, &mut output), Ok(()));
    assert_eq!(output[TORN_BYTE], 0x11);
    assert_eq!(
        device.operations,
        vec![Operation::Write(1), Operation::Flush, Operation::Read(1)]
    );
}

#[test]
fn each_boot_advance_counts_exactly_one_boot() {
    let mut device = boot_device();
    for expected in 1_u64..=3 {
        let evidence = advance_boot_state(&mut device, 2, 4, EPOCH).unwrap();
        assert_eq!(evidence.committed_generation, expected);
        let payload = selected_payload(&device, 3);
        assert_eq!(BootState::decode(&payload).unwrap().boot_count, expected);
    }
}

#[test]
fn failed_boot_commit_changes_only_the_inactive_slot() {
    let mut device = boot_device();
    device.fail_flush = true;
    let before = device.sectors.clone();
    assert_eq!(
        advance_boot_state(&mut device, 2, 4, EPOCH),
        Err(AdvanceError::Io { phase: IoPhase::Flush, error: PersistIoError::Device })
    );
    for lba in 0..before.len() {
        if lba != 4 {
            assert_eq!(device.sectors[lba], before[lba]);
        }
    }
    assert_eq!(recover([&device.sectors[3], &device.sectors[4]], EPOCH).unwrap().generation, 1);
}

#[test]
fn reprobe_opens_a_session_that_closes_once() {
    let mut device = boot_device();
    let opened = advance_device_health_after_reprobe(&mut device, 2, 4, EPOCH, contract()).unwrap();
    let generation = opened.persistence.committed_generation;
    let state = DeviceHealthState::decode(&selected_payload(&device, 3)).unwrap();
    assert_eq!(state, DeviceHealthState { boot_count: generation, boot_open: true, contract: contract() });

    close_device_health_for_clean_shutdown(&mut device, 2, 4, EPOCH, generation, contract()).unwrap();
    let closed = DeviceHealthState::decode(&selected_payload(&device, 3)).unwrap();
    assert_eq!(closed, DeviceHealthState { boot_count: generation + 1, boot_open: false, contract: contract() });

    let before = device.sectors.clone();
    assert_eq!(
        close_device_health_for_clean_shutdown(&mut device, 2, 4, EPOCH, generation + 1, contract()),
        Err(DeviceHealthCloseError::SessionAlreadyClosed)
    );
    assert_eq!(device.sectors, before);
}

#[test]
fn rollback_floor_only_moves_forward() {
    let mut device = MemoryIo::new(vec![[0_u8; SECTOR_SIZE]; 16]);
    let first = enforce_and_advance_manifest_rollback(&mut device, 2, 6, EPOCH, 3, 5, rollback_binding())
        .unwrap();
    assert_eq!(first.committed_floor, 5);
    let held = ManifestRollbackState::decode(&selected_payload(&device, 5)).unwrap();
    assert_eq!(held, ManifestRollbackState { floor: 5, binding: rollback_binding() });

    let repaired = enforce_and_advance_manifest_rollback(&mut device, 2, 6, EPOCH, 1, 5, rollback_binding())
        .unwrap();
    assert!(repaired.redundancy_repaired);
    assert_eq!(repaired.committed_floor, 5);
    let same = enforce_and_advance_manifest_rollback(&mut device, 2, 6, EPOCH, 1, 5, rollback_binding())
        .unwrap();
    assert!(!same.record_written);
    assert_eq!(same.committed_floor, 5);

    let before = device.sectors.clone();
    assert_eq!(
        enforce_and_advance_manifest_rollback(&mut device, 2, 6, EPOCH, 1, 4, rollback_binding()),
        Err(ManifestRollbackError::Rollback { actual: 4, minimum: 5 })
    );
    assert_eq!(device.sectors, before);
}

#[test]
fn rollback_enforcement_reports_each_precondition() {
    let mut device = MemoryIo::new(vec![[0_u8; SECTOR_SIZE]; 16]);
    assert_eq!(
        enforce_and_advance_manifest_rollback(&mut device, 2, 6, EPOCH, 0, 5, rollback_binding()),
        Err(ManifestRollbackError::ZeroBootstrapFloor)
    );
    assert_eq!(
        enforce_and_advance_manifest_rollback(&mut device, 2, 6, EPOCH, 1, 0, rollback_binding()),
        Err(ManifestRollbackError::ZeroArtifactIndex)
    );
    assert_eq!(
        enforce_and_advance_manifest_rollback(&mut device, 12, 6, EPOCH, 1, 5, rollback_binding()),
        Err(ManifestRollbackError::PartitionBounds)
    );
    assert_eq!(
        enforce_and_advance_manifest_rollback(&mut device, 2, 6, EPOCH, 9, 5, rollback_binding()),
        Err(ManifestRollbackError::Rollback { actual: 5, minimum: 9 })
    );
    assert_eq!(device.sectors, vec![[0_u8; SECTOR_SIZE]; 16]);
}

#[test]
fn boot_recovery_without_a_record_reports_it() {
    let mut sectors = vec![[0_u8; SECTOR_SIZE]; 16];
    sectors[2] = DataSuperblock::encode(4, EPOCH).unwrap();
    let mut device = MemoryIo::new(sectors);
    assert_eq!(
        advance_boot_state(&mut device, 2, 4, EPOCH),
        Err(AdvanceError::Recovery(RecoveryError::NoValidRecord))
    );
}

#[test]
fn monitor_claims_only_pending_requests_of_live_owners() {
    assert_eq!(service_pending(QUEUE_PENDING, true), ServiceAction::Claim);
    assert_eq!(service_pending(QUEUE_PENDING, false), ServiceAction::Discard);
    assert_eq!(service_pending(QUEUE_COMPLETE, false), ServiceAction::Discard);
    assert_eq!(service_pending(QUEUE_COMPLETE, true), ServiceAction::Idle);
    assert_eq!(service_pending(QUEUE_RUNNING, false), ServiceAction::Idle);
    assert_eq!(service_pending(QUEUE_EMPTY, false), ServiceAction::Idle);
}

fn icon_source(pixels: Vec<u32>) -> LauncherIconSource {
    LauncherIconSource {
        resource_id: 0x7f02_0001,
        png_crc32: 0x1234_5678,
        pixels,
        source_width: 48,
        source_height: 48,
        source_density_dpi: 160,
        color_quantized: false,
    }
}

#[test]
fn launcher_icon_compaction_keeps_every_pixel() {
    let pixels = vec![
        0xff00_0000, 0xffff_ffff, 0xff00_0000, 0xff12_3456,
        0xffff_ffff, 0xff12_3456, 0xff00_0000, 0xffab_cdef,
    ];
    let icon: InstalledLauncherIcon<4> =
        compact_launcher_icon(Some(icon_source(pixels.clone()))).unwrap().unwrap();
    for (index, value) in pixels.iter().enumerate() {
        assert_eq!(icon.pixel(index), Some(*value));
    }
    assert_eq!(icon.pixel(8), None);
    assert_eq!(icon.pixel(usize::MAX), None);
    assert_eq!(icon.resource_id(), 0x7f02_0001);
    assert_eq!(icon.png_crc32(), 0x1234_5678);
    assert_eq!(icon.source_density_dpi(), 160);
    assert!(!icon.color_quantized());
}

#[test]
fn launcher_icon_with_too_many_colors_is_refused() {
    let sixteen: Vec<u32> = (0..18).map(|i| if i < 16 { i } else { 0 }).collect();
    assert!(compact_launcher_icon::<9>(Some(icon_source(sixteen))).unwrap().is_some());
    let seventeen: Vec<u32> = (0..18).map(|i| if i < 17 { i } else { 0 }).collect();
    assert_eq!(
        compact_launcher_icon::<9>(Some(icon_source(seventeen))),
        Err(LauncherIconError::Palette)
    );
    assert_eq!(compact_launcher_icon::<9>(None), Ok(None));
}

#[test]
fn launcher_icon_pixels_past_the_source_use_the_first_color() {
    let pixels = vec![0xff11_1111, 0xff22_2222, 0xff11_1111, 0xff33_3333, 0xff22_2222];
    let icon: InstalledLauncherIcon<4> =
        compact_launcher_icon(Some(icon_source(pixels.clone()))).unwrap().unwrap();
    for (index, value) in pixels.iter().enumerate() {
        assert_eq!(icon.pixel(index), Some(*value));
    }
    for index in 5..8 {
        assert_eq!(icon.pixel(index), Some(0xff11_1111));
    }
    let blank: InstalledLauncherIcon<4> =
        compact_launcher_icon(Some(icon_source(Vec::new()))).unwrap().unwrap();
    assert_eq!(blank.pixel(0), None);
}

#[test]
fn rollback_refusals_only_read() {
    let mut device = MemoryIo::new(vec![[0_u8; SECTOR_SIZE]; 16]);
    enforce_and_advance_manifest_rollback(&mut device, 2, 6, EPOCH, 3, 5, rollback_binding()).unwrap();
    device.operations.clear();
    assert_eq!(
        enforce_and_advance_manifest_rollback(&mut device, 2, 6, EPOCH, 1, 4, rollback_binding()),
        Err(ManifestRollbackError::Rollback { actual: 4, minimum: 5 })
    );
    assert_eq!(device.operations.len(), 2);
    assert!(device.operations.iter().all(|op| matches!(op, Operation::Read(_))));
    device.operations.clear();
    assert_eq!(
        enforce_and_advance_manifest_rollback(&mut device, 2, 6, EPOCH, 0, 5, rollback_binding()),
        Err(ManifestRollbackError::ZeroBootstrapFloor)
    );
    assert!(device.operations.is_empty());
}

fn install_metadata(transaction_id: u64, version_code: u64, apk: u8, signer: u8) -> InstallMetadataModel {
    InstallMetadataModel {
        transaction_id,
        package: b"com.example.app".to_vec(),
        activity: b"com.example.app/.Main".to_vec(),
        version_code,
        apk_sha256: [apk; 32],
        signer_cert_sha256: [signer; 32],
        compatibility_profile: 1,
    }
}

#[test]
fn empty_slot_takes_an_install() {
    let admitted = install_metadata(7, 3, 1, 9);
    assert_eq!(
        classify_install_candidate(&PackageStateModel::Empty, &admitted, 4096),
        Ok(Some(InstallCandidateModel {
            action: InstallAction::Install,
            expected_generation: 0,
            expected_version_code: 0,
            version_code: 3,
            apk_length: 4096,
        }))
    );
}

#[test]
fn installed_package_updates_only_to_a_higher_version_of_the_same_package_and_signer() {
    let installed = PackageStateModel::Installed {
        metadata: install_metadata(7, 3, 1, 9),
        generation: 4,
        apk_length: 4096,
    };
    assert_eq!(classify_install_candidate(&installed, &install_metadata(7, 3, 1, 9), 4096), Ok(None));
    assert_eq!(
        classify_install_candidate(&installed, &install_metadata(7, 3, 1, 9), 4097),
        Err(InstallPolicyError::TransactionConflict)
    );
    assert_eq!(
        classify_install_candidate(&installed, &install_metadata(7, 4, 1, 9), 4096),
        Err(InstallPolicyError::TransactionConflict)
    );
    let mut renamed = install_metadata(8, 4, 2, 9);
    renamed.package = b"com.example.other".to_vec();
    assert_eq!(
        classify_install_candidate(&installed, &renamed, 4096),
        Err(InstallPolicyError::PackageChanged)
    );
    assert_eq!(
        classify_install_candidate(&installed, &install_metadata(8, 4, 2, 5), 4096),
        Err(InstallPolicyError::SignerChanged)
    );
    assert_eq!(
        classify_install_candidate(&installed, &install_metadata(8, 3, 2, 9), 4096),
        Err(InstallPolicyError::VersionNotIncreasing)
    );
    assert_eq!(
        classify_install_candidate(&installed, &install_metadata(8, 5, 2, 9), 5000),
        Ok(Some(InstallCandidateModel {
            action: InstallAction::Update,
            expected_generation: 4,
            expected_version_code: 3,
            version_code: 5,
            apk_length: 5000,
        }))
    );
}

#[test]
fn removed_package_reinstalls_at_the_same_version_only_with_the_same_apk() {
    let removed = PackageStateModel::Removed { last_metadata: install_metadata(7, 3, 1, 9), generation: 6 };
    assert_eq!(
        classify_install_candidate(&removed, &install_metadata(8, 3, 2, 9), 4096),
        Err(InstallPolicyError::VersionNotIncreasing)
    );
    assert_eq!(
        classify_install_candidate(&removed, &install_metadata(8, 2, 1, 9), 4096),
        Err(InstallPolicyError::VersionNotIncreasing)
    );
    assert_eq!(
        classify_install_candidate(&removed, &install_metadata(8, 3, 1, 5), 4096),
        Err(InstallPolicyError::SignerChanged)
    );
    assert_eq!(
        classify_install_candidate(&removed, &install_metadata(8, 3, 1, 9), 4096),
        Ok(Some(InstallCandidateModel {
            action: InstallAction::Reinstall,
            expected_generation: 6,
            expected_version_code: 3,
            version_code: 3,
            apk_length: 4096,
        }))
    );
}

#[test]
fn every_one_byte_change_of_a_record_is_rejected() {
    let sector = DataRecord::encode(EPOCH, 7, b"payload").unwrap();
    assert!(DataRecord::decode(&sector, EPOCH).is_ok());
    for position in 0..SECTOR_SIZE {
        for flip in [1_u8, 0x80, 0xff] {
            let mut changed = sector;
            changed[position] ^= flip;
            assert!(DataRecord::decode(&changed, EPOCH).is_err(), "byte {} flip {:#x}", position, flip);
        }
    }
}

#[test]
fn every_one_byte_change_of_a_superblock_is_rejected() {
    let sector = DataSuperblock::encode(4, EPOCH).unwrap();
    assert!(DataSuperblock::decode(&sector, 4, EPOCH).is_ok());
    for position in 0..SECTOR_SIZE {
        let mut changed = sector;
        changed[position] ^= 0x10;
        assert!(DataSuperblock::decode(&changed, 4, EPOCH).is_err(), "byte {}", position);
    }
}

#[test]
fn boot_operations_follow_the_candidate_and_the_slot() {
    let installed = PackageStateModel::Installed {
        metadata: install_metadata(7, 3, 1, 9),
        generation: 4,
        apk_length: 4096,
    };
    let update = InstallCandidateModel {
        action: InstallAction::Update,
        expected_generation: 4,
        expected_version_code: 3,
        version_code: 5,
        apk_length: 5000,
    };
    assert_eq!(candidate_boot_operation(&installed, Some(update)), Ok(PackageBootOperation::UpdateCandidate));
    assert_eq!(candidate_boot_operation(&installed, None), Ok(PackageBootOperation::SourceReplay));
    assert_eq!(
        candidate_boot_operation(&PackageStateModel::Empty, None),
        Err(BootOperationError::DurableManifestMismatch)
    );
    assert_eq!(previous_versions(&installed), (4, 3));
    assert_eq!(previous_versions(&PackageStateModel::Empty), (0, 0));
    let removed = PackageStateModel::Removed { last_metadata: install_metadata(7, 3, 1, 9), generation: 6 };
    assert_eq!(previous_versions(&removed), (6, 3));
    assert_eq!(committed_boot_operation(false, &installed, false), Ok(PackageBootOperation::Recovery));
    assert_eq!(committed_boot_operation(true, &installed, true), Ok(PackageBootOperation::SourceReplay));
    assert_eq!(committed_boot_operation(true, &installed, false), Ok(PackageBootOperation::Update));
    assert_eq!(committed_boot_operation(true, &removed, false), Ok(PackageBootOperation::Reinstall));
    assert_eq!(committed_boot_operation(true, &PackageStateModel::Empty, false), Ok(PackageBootOperation::Install));
    assert_eq!(
        committed_boot_operation(false, &removed, false),
        Err(BootOperationError::DurableManifestMismatch)
    );
    assert_eq!(recovery_boot_operation(Some((4, 3)), Some((6, 2))), (PackageBootOperation::Recovery, 4, 3));
    assert_eq!(recovery_boot_operation(None, Some((6, 2))), (PackageBootOperation::RemovedRecovery, 6, 2));
    assert_eq!(recovery_boot_operation(None, None), (PackageBootOperation::EmptyRecovery, 0, 0));
    assert_eq!(uninstall_boot_operation(false, 2), PackageBootOperation::Uninstall);
    assert_eq!(uninstall_boot_operation(true, 0), PackageBootOperation::UninstallReplay);
    assert_eq!(uninstall_boot_operation(true, 1), PackageBootOperation::UninstallRepair);
}

#[test]
fn retiring_a_directory_entry_selects_the_first_remaining_package() {
    let mut directory = LiveDirectoryModel {
        entries: vec![None, Some(11), Some(12)],
        selected: Some(11),
        removed: false,
        formatted: false,
        revision: 3,
    };
    assert_eq!(retire_directory_entry(&mut directory, 1), Some(2));
    assert_eq!(directory.entries, vec![None, None, Some(12)]);
    assert_eq!(directory.selected, Some(12));
    assert!(!directory.removed);
    assert!(directory.formatted);
    assert_eq!(directory.revision, 4);
    assert_eq!(retire_directory_entry(&mut directory, 2), None);
    assert_eq!(directory.selected, None);
    assert!(directory.removed);
    assert_eq!(directory.revision, 5);
}

#[test]
fn candidate_id_is_the_first_eight_bytes_of_the_candidate_digest() {
    let metadata = install_metadata(7, 5, 2, 9);
    let action_code = 2_u16.to_le_bytes();
    let mut material = b"Bndroid AndroidBox Runtime Install-2 candidate v1\0".to_vec();
    material.extend_from_slice(&action_code);
    material.extend_from_slice(&4_u64.to_le_bytes());
    material.extend_from_slice(&3_u64.to_le_bytes());
    material.extend_from_slice(&7_u64.to_le_bytes());
    material.extend_from_slice(&5_u64.to_le_bytes());
    material.extend_from_slice(&5000_u32.to_le_bytes());
    material.extend_from_slice(&[2_u8; 32]);
    material.extend_from_slice(&[9_u8; 32]);
    material.extend_from_slice(b"com.example.app");
    material.extend_from_slice(b"com.example.app/.Main");
    let digest = sha2::Sha256::digest(&material);
    let mut first = [0_u8; 8];
    first.copy_from_slice(&digest[..8]);
    let expected = u64::from_le_bytes(first);
    let id = runtime_install_candidate_id(&action_code, 4, 3, &metadata, 5000);
    assert_eq!(id, if expected == 0 { 1 } else { expected });
    assert_ne!(id, runtime_install_candidate_id(&action_code, 4, 3, &metadata, 5001));
}

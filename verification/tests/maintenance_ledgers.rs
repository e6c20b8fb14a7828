use bndr_persist::boot_state::BootState;
use bndr_persist::layout::{
    FormatEpoch, BOOT_STATE_BYTES, MAINTENANCE_AUDIT_STATE_BYTES,
    MAINTENANCE_EXECUTION_REQUIRED_FLAGS, MAINTENANCE_EXECUTION_STATE_BYTES,
    MAINTENANCE_STEP_DRAIN, MAINTENANCE_STEP_ROTATION_ONE, MAINTENANCE_STEP_ROTATION_TWO,
    MAINTENANCE_STEP_STATE_BYTES, SECTOR_SIZE, MAINTENANCE_PLAN_PHASE_APPLYING,
    MAINTENANCE_PLAN_PHASE_COMPENSATED, MAINTENANCE_PLAN_PHASE_CONFIRMED,
    MAINTENANCE_PLAN_PHASE_PREPARED, MAINTENANCE_PLAN_STATE_BYTES, MAINTENANCE_PLAN_SLOT_RELATIVE_LBAS,
    SIGNED_MAINTENANCE_PLAN_OPERATION_COUNT, SIGNED_MAINTENANCE_PLAN_PREAPPLY_CANCEL_MASK,
    SIGNED_MAINTENANCE_PLAN_PROGRAM_VERSION, SIGNED_MAINTENANCE_PLAN_STATE_BYTES,
    SIGNED_MAINTENANCE_PLAN_TRANSITION_COUNT, SIGNED_MAINTENANCE_PLAN_SLOT_RELATIVE_LBAS,
};
use bndr_persist::maintenance_audit::{
    maintenance_audit_chain_sha256, MaintenanceAuditState, MaintenanceAuditStateError,
    MaintenanceAuthorizationAuditBinding,
};
use bndr_persist::maintenance_audit_tx::{
    commit_maintenance_authorization, MaintenanceAuditError, MaintenanceAuditEvidence,
    MaintenanceAuditRequest,
};
use bndr_persist::maintenance_execution::{
    maintenance_execution_chain_sha256, MaintenanceExecutionCompletionBinding,
    MaintenanceExecutionState, MaintenanceExecutionStateError,
};
use bndr_persist::maintenance_execution_tx::{
    admit_maintenance_authorization_with_execution, commit_maintenance_execution_completion,
    MaintenanceExecutionCompletionRequest, MaintenanceExecutionError,
};
use bndr_persist::maintenance_step::{
    maintenance_step_chain_sha256, maintenance_step_effect_sha256, MaintenanceStepCommitBinding,
    MaintenanceStepState, MaintenanceStepStateError,
};
use bndr_persist::maintenance_step_tx::{
    commit_maintenance_step, preflight_maintenance_step_admission,
    validate_maintenance_step_terminal, MaintenanceStepCommitRequest, MaintenanceStepError,
    MaintenanceStepTerminalRequest,
};
use bndr_persist::io::{IoPhase, PersistIoError};
use bndr_persist::maintenance_plan::{
    maintenance_plan_chain_sha256, maintenance_plan_id_sha256,
    maintenance_plan_idempotency_key_sha256, maintenance_plan_operation_instance_id_sha256,
    MaintenancePlanState, MaintenancePlanStateError, MaintenancePlanTransitionBinding,
};
use bndr_persist::maintenance_plan_tx::{
    commit_maintenance_plan_transition, preflight_maintenance_plan_admission,
    validate_maintenance_plan_terminal, MaintenancePlanError, MaintenancePlanTerminalRequest,
    MaintenancePlanTransitionRequest,
};
use bndr_persist::memory::{Operation, MemoryIo};
use bndr_persist::signed_plan::{
    signed_maintenance_plan_chain_sha256, SignedMaintenancePlanBinding,
    SignedMaintenancePlanState, SignedMaintenancePlanStateError,
};
use bndr_persist::signed_plan_tx::{
    commit_signed_maintenance_plan, preflight_signed_maintenance_plan,
    validate_signed_maintenance_plan_terminal, SignedMaintenancePlanError,
    SignedMaintenancePlanRequest, SignedMaintenancePlanTerminalRequest,
};
use bndr_persist::record::{recover, DataRecord, RecoveryError};
use bndr_persist::superblock::DataSuperblock;

const FORMAT_EPOCH: FormatEpoch = *b"BNDROID-M25-E001";

fn fixture() -> MemoryIo {
    let mut sectors = vec![[0_u8; SECTOR_SIZE]; 16];
    sectors[2] = DataSuperblock::encode(4, FORMAT_EPOCH).unwrap();
    sectors[3] = DataRecord::encode(FORMAT_EPOCH, 0, &state(0)).unwrap();
    MemoryIo::new(sectors)
}

fn state(count: u64) -> [u8; BOOT_STATE_BYTES] {
    BootState { boot_count: count }.encode()
}

fn maintenance_binding(sequence: u64) -> MaintenanceAuthorizationAuditBinding {
    MaintenanceAuthorizationAuditBinding {
        sequence,
        operations: 1,
        max_uses: 2,
        authorization_sha256: [sequence as u8; 32],
        authorization_id: [sequence as u8 + 0x10; 32],
        manifest_sha256: [0x5a; 32],
        policy_sha256: [0xd5; 32],
        root_sha256: [0x68; 32],
        device_binding_sha256: [0x04; 32],
    }
}

fn maintenance_request(sequence: u64) -> MaintenanceAuditRequest {
    maintenance_request_with_sectors(sequence, 9)
}

fn maintenance_request_with_sectors(
    sequence: u64,
    partition_sectors: u64,
) -> MaintenanceAuditRequest {
    MaintenanceAuditRequest {
        partition_first_lba: 1,
        partition_sectors,
        expected_format_epoch: FORMAT_EPOCH,
        binding: maintenance_binding(sequence),
    }
}

fn maintenance_completion_binding(sequence: u64) -> MaintenanceExecutionCompletionBinding {
    let authorization = maintenance_binding(sequence);
    MaintenanceExecutionCompletionBinding {
        sequence,
        operations: authorization.operations,
        max_uses: authorization.max_uses,
        uses_consumed: authorization.max_uses,
        rotations_completed: authorization.max_uses,
        flags: MAINTENANCE_EXECUTION_REQUIRED_FLAGS,
        appdata_generation: sequence + 20,
        authorization_sha256: authorization.authorization_sha256,
        authorization_id: authorization.authorization_id,
        manifest_sha256: authorization.manifest_sha256,
        policy_sha256: authorization.policy_sha256,
        root_sha256: authorization.root_sha256,
        device_binding_sha256: authorization.device_binding_sha256,
        runtime_evidence_sha256: [sequence as u8 + 0x40; 32],
    }
}

fn maintenance_completion_request(sequence: u64) -> MaintenanceExecutionCompletionRequest {
    maintenance_completion_request_with_sectors(sequence, 9)
}

fn maintenance_completion_request_with_sectors(
    sequence: u64,
    partition_sectors: u64,
) -> MaintenanceExecutionCompletionRequest {
    MaintenanceExecutionCompletionRequest {
        partition_first_lba: 1,
        partition_sectors,
        expected_format_epoch: FORMAT_EPOCH,
        binding: maintenance_completion_binding(sequence),
    }
}

fn maintenance_step_binding(sequence: u64, step_ordinal: u32) -> MaintenanceStepCommitBinding {
    let (observed_rotations, drain_validated) = match step_ordinal {
        MAINTENANCE_STEP_ROTATION_ONE => (1, false),
        MAINTENANCE_STEP_ROTATION_TWO => (2, false),
        MAINTENANCE_STEP_DRAIN => (2, true),
        _ => (0, false),
    };
    MaintenanceStepCommitBinding::for_observation(
        maintenance_binding(sequence),
        step_ordinal,
        observed_rotations,
        drain_validated,
    )
    .unwrap()
}

fn maintenance_step_request(sequence: u64, step_ordinal: u32) -> MaintenanceStepCommitRequest {
    maintenance_step_request_with_sectors(sequence, step_ordinal, 11)
}

fn maintenance_step_request_with_sectors(
    sequence: u64,
    step_ordinal: u32,
    partition_sectors: u64,
) -> MaintenanceStepCommitRequest {
    MaintenanceStepCommitRequest {
        partition_first_lba: 1,
        partition_sectors,
        expected_format_epoch: FORMAT_EPOCH,
        binding: maintenance_step_binding(sequence, step_ordinal),
    }
}

fn maintenance_step_terminal_request(sequence: u64) -> MaintenanceStepTerminalRequest {
    MaintenanceStepTerminalRequest {
        partition_first_lba: 1,
        partition_sectors: 11,
        expected_format_epoch: FORMAT_EPOCH,
        authorization: maintenance_binding(sequence),
        rotations_completed: 2,
    }
}

fn maintenance_plan_binding(
    sequence: u64,
    operation_ordinal: u32,
    phase: u32,
) -> MaintenancePlanTransitionBinding {
    MaintenancePlanTransitionBinding::for_transition(
        maintenance_binding(sequence),
        operation_ordinal,
        phase,
    )
    .unwrap()
}

fn maintenance_plan_request(
    sequence: u64,
    operation_ordinal: u32,
    phase: u32,
) -> MaintenancePlanTransitionRequest {
    maintenance_plan_request_with_sectors(sequence, operation_ordinal, phase, 13)
}

fn maintenance_plan_request_with_sectors(
    sequence: u64,
    operation_ordinal: u32,
    phase: u32,
    partition_sectors: u64,
) -> MaintenancePlanTransitionRequest {
    MaintenancePlanTransitionRequest {
        partition_first_lba: 1,
        partition_sectors,
        expected_format_epoch: FORMAT_EPOCH,
        binding: maintenance_plan_binding(sequence, operation_ordinal, phase),
    }
}

fn prepare_m80_sequence_two(io: &mut MemoryIo) {
    admit_maintenance_authorization_with_execution(io, maintenance_request_with_sectors(1, 13))
        .unwrap();
    commit_maintenance_execution_completion(
        io,
        maintenance_completion_request_with_sectors(1, 13),
    )
    .unwrap();
    let admission =
        preflight_maintenance_plan_admission(io, maintenance_request_with_sectors(2, 13))
            .unwrap();
    assert!(!admission.provisioned_before);
    assert!(admission.legacy_anchor);
    assert_eq!(admission.reads, 8);
    admit_maintenance_authorization_with_execution(io, maintenance_request_with_sectors(2, 13))
        .unwrap();
}

fn signed_maintenance_plan_binding(sequence: u64) -> SignedMaintenancePlanBinding {
    let authorization = maintenance_binding(sequence);
    SignedMaintenancePlanBinding {
        authorization_sequence: sequence,
        operation_count: SIGNED_MAINTENANCE_PLAN_OPERATION_COUNT,
        transition_count: SIGNED_MAINTENANCE_PLAN_TRANSITION_COUNT,
        program_version: SIGNED_MAINTENANCE_PLAN_PROGRAM_VERSION,
        preapply_cancel_mask: SIGNED_MAINTENANCE_PLAN_PREAPPLY_CANCEL_MASK,
        authorization_sha256: authorization.authorization_sha256,
        authorization_id: authorization.authorization_id,
        program_sha256: [sequence as u8 + 0x50; 32],
        plan_id_sha256: maintenance_plan_id_sha256(authorization),
        descriptor_sha256: [sequence as u8 + 0x60; 32],
        root_sha256: [0x81; 32],
        device_binding_sha256: authorization.device_binding_sha256,
    }
}

fn signed_maintenance_plan_request(sequence: u64) -> SignedMaintenancePlanRequest {
    SignedMaintenancePlanRequest {
        partition_first_lba: 1,
        partition_sectors: 15,
        expected_format_epoch: FORMAT_EPOCH,
        authorization: maintenance_binding(sequence),
        binding: signed_maintenance_plan_binding(sequence),
    }
}

fn prepare_m81_predecessor(io: &mut MemoryIo) {
    admit_maintenance_authorization_with_execution(io, maintenance_request_with_sectors(1, 15))
        .unwrap();
    commit_maintenance_execution_completion(
        io,
        maintenance_completion_request_with_sectors(1, 15),
    )
    .unwrap();
}
#[test]
fn maintenance_audit_state_round_trips_and_seals_its_hash_chain() {
    let binding = maintenance_binding(1);
    let state = MaintenanceAuditState {
        sequence: 1,
        accepted_count: 1,
        operations: binding.operations,
        max_uses: binding.max_uses,
        authorization_sha256: binding.authorization_sha256,
        authorization_id: binding.authorization_id,
        manifest_sha256: binding.manifest_sha256,
        policy_sha256: binding.policy_sha256,
        root_sha256: binding.root_sha256,
        device_binding_sha256: binding.device_binding_sha256,
        previous_chain_sha256: [0; 32],
        chain_sha256: maintenance_audit_chain_sha256([0; 32], binding),
    };
    let encoded = state.encode().unwrap();
    assert_eq!(encoded.len(), MAINTENANCE_AUDIT_STATE_BYTES);
    assert_eq!(MaintenanceAuditState::decode(&encoded), Ok(state));
    for offset in [
        0, 8, 12, 16, 24, 32, 40, 44, 48, 80, 112, 144, 176, 208, 272, 304, 312,
    ] {
        let mut corrupt = encoded;
        corrupt[offset] ^= 1;
        assert!(
            MaintenanceAuditState::decode(&corrupt).is_err(),
            "offset {offset}"
        );
    }
}

#[test]
fn maintenance_authorizations_commit_in_order_and_replays_are_read_only() {
    let mut io = fixture();
    let first = commit_maintenance_authorization(&mut io, maintenance_request(1)).unwrap();
    assert_eq!(
        first,
        MaintenanceAuditEvidence {
            provisioned_before: false,
            resumed: false,
            completed_sequence_before: 0,
            preflight_reads: 0,
            execution_initial_generation: 0,
            execution_initial_slot: u8::MAX,
            execution_initial_valid_slots: 0,
            execution_initial_rejected_slots: 0,
            step_preflight_reads: 0,
            step_provisioned_before: false,
            step_legacy_anchor: false,
            step_sequence_before: 0,
            step_base_sequence_before: 0,
            step_entry_count_before: 0,
            step_ordinal_before: 0,
            step_initial_generation: 0,
            step_initial_slot: u8::MAX,
            step_initial_valid_slots: 0,
            step_initial_rejected_slots: 0,
            previous_sequence: 0,
            committed_sequence: 1,
            previous_accepted_count: 0,
            committed_accepted_count: 1,
            initial_generation: 0,
            committed_generation: 1,
            initial_slot: u8::MAX,
            committed_slot: 0,
            initial_valid_slots: 0,
            initial_rejected_slots: 0,
            committed_valid_slots: 1,
            committed_rejected_slots: 1,
            reads: 4,
            writes: 1,
            flushes: 1,
            previous_chain_sha256: [0; 32],
            committed_chain_sha256: maintenance_audit_chain_sha256(
                [0; 32],
                maintenance_binding(1),
            ),
            binding: maintenance_binding(1),
        }
    );
    assert_eq!(
        io.operations,
        [
            Operation::Read(6),
            Operation::Read(7),
            Operation::Write(6),
            Operation::Flush,
            Operation::Read(6),
            Operation::Read(7),
        ]
    );

    io.operations.clear();
    let second = commit_maintenance_authorization(&mut io, maintenance_request(2)).unwrap();
    assert!(second.provisioned_before);
    assert_eq!(second.previous_sequence, 1);
    assert_eq!(second.committed_sequence, 2);
    assert_eq!(second.previous_accepted_count, 1);
    assert_eq!(second.committed_accepted_count, 2);
    assert_eq!(second.initial_generation, 1);
    assert_eq!(second.committed_generation, 2);
    assert_eq!(second.initial_slot, 0);
    assert_eq!(second.committed_slot, 1);
    assert_eq!(second.committed_valid_slots, 2);
    assert_eq!(second.previous_chain_sha256, first.committed_chain_sha256);

    io.operations.clear();
    assert_eq!(
        commit_maintenance_authorization(&mut io, maintenance_request(2)),
        Err(MaintenanceAuditError::Replay {
            actual: 2,
            minimum: 3,
        })
    );
    assert_eq!(io.operations, [Operation::Read(6), Operation::Read(7)]);
}

#[test]
fn maintenance_audit_rejects_bootstrap_gaps_and_namespace_substitution() {
    let mut io = fixture();
    assert_eq!(
        commit_maintenance_authorization(&mut io, maintenance_request(2)),
        Err(MaintenanceAuditError::BootstrapSequence { actual: 2 })
    );
    assert_eq!(io.operations, [Operation::Read(6), Operation::Read(7)]);

    io.operations.clear();
    commit_maintenance_authorization(&mut io, maintenance_request(1)).unwrap();
    io.operations.clear();
    assert_eq!(
        commit_maintenance_authorization(&mut io, maintenance_request(3)),
        Err(MaintenanceAuditError::SequenceGap {
            actual: 3,
            expected: 2,
        })
    );
    assert_eq!(io.operations, [Operation::Read(6), Operation::Read(7)]);

    let mut foreign = maintenance_request(2);
    foreign.binding.root_sha256 = [0x99; 32];
    io.operations.clear();
    assert_eq!(
        commit_maintenance_authorization(&mut io, foreign),
        Err(MaintenanceAuditError::NamespaceMismatch)
    );
    assert_eq!(io.operations, [Operation::Read(6), Operation::Read(7)]);
}

#[test]
fn maintenance_audit_mutation_failure_preserves_the_selected_chain_head() {
    let mut io = fixture();
    commit_maintenance_authorization(&mut io, maintenance_request(1)).unwrap();
    let selected = io.sectors[6];
    io.tear_write = true;
    assert_eq!(
        commit_maintenance_authorization(&mut io, maintenance_request(2)),
        Err(MaintenanceAuditError::VerificationFailed)
    );
    assert_eq!(io.sectors[6], selected);
    let recovered = recover([&io.sectors[6], &io.sectors[7]], FORMAT_EPOCH).unwrap();
    assert_eq!(recovered.slot, 0);
    assert_eq!(
        MaintenanceAuditState::decode(recovered.payload)
            .unwrap()
            .sequence,
        1
    );
}

#[test]
fn maintenance_execution_state_round_trips_and_seals_runtime_evidence() {
    let binding = maintenance_completion_binding(1);
    let state = MaintenanceExecutionState {
        sequence: 1,
        completed_count: 1,
        operations: binding.operations,
        max_uses: binding.max_uses,
        uses_consumed: binding.uses_consumed,
        rotations_completed: binding.rotations_completed,
        flags: binding.flags,
        appdata_generation: binding.appdata_generation,
        authorization_sha256: binding.authorization_sha256,
        authorization_id: binding.authorization_id,
        manifest_sha256: binding.manifest_sha256,
        policy_sha256: binding.policy_sha256,
        root_sha256: binding.root_sha256,
        device_binding_sha256: binding.device_binding_sha256,
        previous_chain_sha256: [0; 32],
        chain_sha256: maintenance_execution_chain_sha256([0; 32], binding),
        runtime_evidence_sha256: binding.runtime_evidence_sha256,
    };
    let encoded = state.encode().unwrap();
    assert_eq!(encoded.len(), MAINTENANCE_EXECUTION_STATE_BYTES);
    assert_eq!(MaintenanceExecutionState::decode(&encoded), Ok(state));
    for offset in [
        0, 8, 12, 16, 24, 32, 40, 44, 48, 52, 56, 64, 96, 128, 160, 192, 224, 256, 288, 320,
        352, 360,
    ] {
        let mut corrupt = encoded;
        corrupt[offset] ^= 1;
        assert!(
            MaintenanceExecutionState::decode(&corrupt).is_err(),
            "offset {offset}"
        );
    }
}

#[test]
fn maintenance_execution_admission_resumes_only_the_unfinished_exact_head() {
    let mut io = fixture();
    let first = admit_maintenance_authorization_with_execution(&mut io, maintenance_request(1))
        .unwrap();
    assert!(!first.resumed);
    assert_eq!(first.completed_sequence_before, 0);
    assert_eq!(first.preflight_reads, 4);
    assert_eq!(first.writes, 1);

    let completed =
        commit_maintenance_execution_completion(&mut io, maintenance_completion_request(1))
            .unwrap();
    assert_eq!(completed.previous_sequence, 0);
    assert_eq!(completed.committed_sequence, 1);
    assert_eq!(completed.committed_completed_count, 1);
    assert_eq!(completed.reads, 6);
    assert_eq!(completed.writes, 1);
    assert_eq!(completed.flushes, 1);

    let second =
        admit_maintenance_authorization_with_execution(&mut io, maintenance_request(2))
            .unwrap();
    assert!(!second.resumed);
    assert_eq!(second.completed_sequence_before, 1);
    assert_eq!(second.previous_sequence, 1);
    assert_eq!(second.committed_sequence, 2);

    io.operations.clear();
    let resumed =
        admit_maintenance_authorization_with_execution(&mut io, maintenance_request(2))
            .unwrap();
    assert!(resumed.resumed);
    assert_eq!(resumed.completed_sequence_before, 1);
    assert_eq!(resumed.previous_sequence, 2);
    assert_eq!(resumed.committed_sequence, 2);
    assert_eq!(resumed.initial_generation, resumed.committed_generation);
    assert_eq!(resumed.reads, 0);
    assert_eq!(resumed.writes, 0);
    assert_eq!(resumed.flushes, 0);
    assert_eq!(
        io.operations,
        [
            Operation::Read(6),
            Operation::Read(7),
            Operation::Read(8),
            Operation::Read(9),
        ]
    );

    io.operations.clear();
    assert_eq!(
        admit_maintenance_authorization_with_execution(&mut io, maintenance_request(3)),
        Err(MaintenanceExecutionError::IncompletePredecessor {
            actual: 3,
            unfinished: 2,
        })
    );
    assert_eq!(io.operations.len(), 4);

    commit_maintenance_execution_completion(&mut io, maintenance_completion_request(2))
        .unwrap();
    io.operations.clear();
    assert_eq!(
        admit_maintenance_authorization_with_execution(&mut io, maintenance_request(2)),
        Err(MaintenanceExecutionError::CompletedReplay {
            actual: 2,
            minimum: 3,
        })
    );
    assert_eq!(io.operations.len(), 4);
}

#[test]
fn maintenance_execution_rejects_resume_binding_substitution_without_mutation() {
    let mut io = fixture();
    admit_maintenance_authorization_with_execution(&mut io, maintenance_request(1)).unwrap();
    let audit_before = [io.sectors[6], io.sectors[7]];
    let execution_before = [io.sectors[8], io.sectors[9]];
    let mut substituted = maintenance_request(1);
    substituted.binding.authorization_id = [0xa5; 32];
    io.operations.clear();
    assert_eq!(
        admit_maintenance_authorization_with_execution(&mut io, substituted),
        Err(MaintenanceExecutionError::AuthorizationBindingMismatch)
    );
    assert_eq!(io.operations.len(), 4);
    assert_eq!([io.sectors[6], io.sectors[7]], audit_before);
    assert_eq!([io.sectors[8], io.sectors[9]], execution_before);
}

#[test]
fn maintenance_execution_torn_completion_preserves_the_prior_head() {
    let mut io = fixture();
    admit_maintenance_authorization_with_execution(&mut io, maintenance_request(1)).unwrap();
    commit_maintenance_execution_completion(&mut io, maintenance_completion_request(1))
        .unwrap();
    admit_maintenance_authorization_with_execution(&mut io, maintenance_request(2)).unwrap();
    let selected = io.sectors[8];
    io.tear_write = true;
    assert_eq!(
        commit_maintenance_execution_completion(&mut io, maintenance_completion_request(2)),
        Err(MaintenanceExecutionError::VerificationFailed)
    );
    assert_eq!(io.sectors[8], selected);
    let recovered = recover([&io.sectors[8], &io.sectors[9]], FORMAT_EPOCH).unwrap();
    assert_eq!(recovered.slot, 0);
    assert_eq!(
        MaintenanceExecutionState::decode(recovered.payload)
            .unwrap()
            .sequence,
        1
    );
}

#[test]
fn maintenance_step_state_round_trips_and_seals_every_program_binding() {
    let binding = maintenance_step_binding(2, MAINTENANCE_STEP_ROTATION_ONE);
    let state = MaintenanceStepState {
        sequence: 2,
        base_sequence: 2,
        entry_count: 1,
        operations: binding.operations,
        max_uses: binding.max_uses,
        step_ordinal: binding.step_ordinal,
        observed_rotations: binding.observed_rotations,
        flags: binding.flags,
        authorization_sha256: binding.authorization_sha256,
        authorization_id: binding.authorization_id,
        manifest_sha256: binding.manifest_sha256,
        policy_sha256: binding.policy_sha256,
        root_sha256: binding.root_sha256,
        device_binding_sha256: binding.device_binding_sha256,
        effect_sha256: binding.effect_sha256,
        previous_chain_sha256: [0; 32],
        chain_sha256: maintenance_step_chain_sha256([0; 32], 2, 1, binding),
    };
    let encoded = state.encode().unwrap();
    assert_eq!(encoded.len(), MAINTENANCE_STEP_STATE_BYTES);
    assert_eq!(MaintenanceStepState::decode(&encoded), Ok(state));
    for offset in [
        0, 8, 12, 16, 24, 32, 40, 48, 52, 56, 60, 64, 96, 128, 160, 192, 224, 256, 288, 320,
        352, 360,
    ] {
        let mut corrupt = encoded;
        corrupt[offset] ^= 1;
        assert!(
            MaintenanceStepState::decode(&corrupt).is_err(),
            "offset {offset}"
        );
    }

    for step in [
        MAINTENANCE_STEP_ROTATION_ONE,
        MAINTENANCE_STEP_ROTATION_TWO,
        MAINTENANCE_STEP_DRAIN,
    ] {
        let binding = maintenance_step_binding(7, step);
        assert_eq!(
            binding.effect_sha256,
            maintenance_step_effect_sha256(binding)
        );
    }
}

#[test]
fn maintenance_steps_migrate_from_m78_replay_and_advance_only_in_order() {
    let mut io = fixture();
    admit_maintenance_authorization_with_execution(
        &mut io,
        maintenance_request_with_sectors(1, 11),
    )
    .unwrap();
    commit_maintenance_execution_completion(
        &mut io,
        maintenance_completion_request_with_sectors(1, 11),
    )
    .unwrap();

    io.operations.clear();
    let migration =
        preflight_maintenance_step_admission(&mut io, maintenance_request_with_sectors(2, 11))
            .unwrap();
    assert!(!migration.provisioned_before);
    assert!(migration.legacy_anchor);
    assert!(!migration.resumes_current_sequence);
    assert_eq!(migration.audit_sequence, 1);
    assert_eq!(migration.execution_sequence, 1);
    assert_eq!(migration.step_sequence, 0);
    assert_eq!(migration.reads, 6);
    assert_eq!(io.operations.len(), 6);

    admit_maintenance_authorization_with_execution(
        &mut io,
        maintenance_request_with_sectors(2, 11),
    )
    .unwrap();
    io.operations.clear();
    let first = commit_maintenance_step(
        &mut io,
        maintenance_step_request(2, MAINTENANCE_STEP_ROTATION_ONE),
    )
    .unwrap();
    assert!(!first.provisioned_before);
    assert!(!first.replayed);
    assert_eq!(first.base_sequence, 2);
    assert_eq!(first.previous_entry_count, 0);
    assert_eq!(first.committed_entry_count, 1);
    assert_eq!(first.committed_step_ordinal, MAINTENANCE_STEP_ROTATION_ONE);
    assert_eq!(first.initial_generation, 0);
    assert_eq!(first.committed_generation, 1);
    assert_eq!(first.initial_slot, u8::MAX);
    assert_eq!(first.committed_slot, 0);
    assert_eq!((first.reads, first.writes, first.flushes), (8, 1, 1));
    assert_eq!(
        io.operations,
        [
            Operation::Read(6),
            Operation::Read(7),
            Operation::Read(8),
            Operation::Read(9),
            Operation::Read(10),
            Operation::Read(11),
            Operation::Write(10),
            Operation::Flush,
            Operation::Read(10),
            Operation::Read(11),
        ]
    );

    io.operations.clear();
    let first_replay = commit_maintenance_step(
        &mut io,
        maintenance_step_request(2, MAINTENANCE_STEP_ROTATION_ONE),
    )
    .unwrap();
    assert!(first_replay.replayed);
    assert_eq!(first_replay.committed_entry_count, 1);
    assert_eq!(first_replay.initial_generation, 1);
    assert_eq!(first_replay.committed_generation, 1);
    assert_eq!(
        (
            first_replay.reads,
            first_replay.writes,
            first_replay.flushes
        ),
        (6, 0, 0)
    );
    assert_eq!(io.operations.len(), 6);

    let second = commit_maintenance_step(
        &mut io,
        maintenance_step_request(2, MAINTENANCE_STEP_ROTATION_TWO),
    )
    .unwrap();
    assert_eq!(second.previous_entry_count, 1);
    assert_eq!(second.committed_entry_count, 2);
    assert_eq!(second.previous_step_ordinal, MAINTENANCE_STEP_ROTATION_ONE);
    assert_eq!(second.committed_step_ordinal, MAINTENANCE_STEP_ROTATION_TWO);
    assert_eq!(second.committed_generation, 2);
    assert_eq!(second.committed_slot, 1);

    let lower_step_replay = commit_maintenance_step(
        &mut io,
        maintenance_step_request(2, MAINTENANCE_STEP_ROTATION_ONE),
    )
    .unwrap();
    assert!(lower_step_replay.replayed);
    assert_eq!(
        lower_step_replay.requested_step_ordinal,
        MAINTENANCE_STEP_ROTATION_ONE
    );
    assert_eq!(
        lower_step_replay.committed_step_ordinal,
        MAINTENANCE_STEP_ROTATION_TWO
    );
    assert_eq!(lower_step_replay.committed_entry_count, 2);

    let third =
        commit_maintenance_step(&mut io, maintenance_step_request(2, MAINTENANCE_STEP_DRAIN))
            .unwrap();
    assert_eq!(third.previous_entry_count, 2);
    assert_eq!(third.committed_entry_count, 3);
    assert_eq!(third.previous_step_ordinal, MAINTENANCE_STEP_ROTATION_TWO);
    assert_eq!(third.committed_step_ordinal, MAINTENANCE_STEP_DRAIN);
    assert_eq!(third.committed_generation, 3);
    assert_eq!(third.committed_slot, 0);

    let terminal =
        validate_maintenance_step_terminal(&mut io, maintenance_step_terminal_request(2))
            .unwrap();
    assert_eq!(terminal.sequence, 2);
    assert_eq!(terminal.base_sequence, 2);
    assert_eq!(terminal.entry_count, 3);
    assert_eq!(terminal.step_ordinal, MAINTENANCE_STEP_DRAIN);
    assert_eq!(terminal.generation, 3);
    assert_eq!(terminal.reads, 4);
    assert_eq!(terminal.chain_sha256, third.committed_chain_sha256);

    commit_maintenance_execution_completion(
        &mut io,
        maintenance_completion_request_with_sectors(2, 11),
    )
    .unwrap();
    let step_slots = [io.sectors[10], io.sectors[11]];
    assert_eq!(
        commit_maintenance_step(
            &mut io,
            maintenance_step_request(2, MAINTENANCE_STEP_ROTATION_ONE),
        ),
        Err(MaintenanceStepError::ExecutionAlreadyComplete)
    );
    assert_eq!([io.sectors[10], io.sectors[11]], step_slots);

    let next =
        preflight_maintenance_step_admission(&mut io, maintenance_request_with_sectors(3, 11))
            .unwrap();
    assert!(next.provisioned_before);
    assert!(!next.legacy_anchor);
    assert!(!next.resumes_current_sequence);
    assert_eq!(next.step_sequence, 2);
    assert_eq!(next.step_entry_count, 3);
    assert_eq!(next.step_ordinal, MAINTENANCE_STEP_DRAIN);
    admit_maintenance_authorization_with_execution(
        &mut io,
        maintenance_request_with_sectors(3, 11),
    )
    .unwrap();
    let next_first = commit_maintenance_step(
        &mut io,
        maintenance_step_request(3, MAINTENANCE_STEP_ROTATION_ONE),
    )
    .unwrap();
    assert_eq!(next_first.base_sequence, 2);
    assert_eq!(next_first.previous_entry_count, 3);
    assert_eq!(next_first.committed_entry_count, 4);
    assert_eq!(next_first.previous_sequence, 2);
    assert_eq!(next_first.committed_sequence, 3);
}

#[test]
fn maintenance_steps_reject_gaps_substitution_and_early_completion_without_mutation() {
    let mut io = fixture();
    admit_maintenance_authorization_with_execution(
        &mut io,
        maintenance_request_with_sectors(1, 11),
    )
    .unwrap();
    commit_maintenance_execution_completion(
        &mut io,
        maintenance_completion_request_with_sectors(1, 11),
    )
    .unwrap();
    admit_maintenance_authorization_with_execution(
        &mut io,
        maintenance_request_with_sectors(2, 11),
    )
    .unwrap();

    let ledgers_before = [
        io.sectors[6],
        io.sectors[7],
        io.sectors[8],
        io.sectors[9],
        io.sectors[10],
        io.sectors[11],
    ];
    assert_eq!(
        commit_maintenance_step(
            &mut io,
            maintenance_step_request(2, MAINTENANCE_STEP_ROTATION_TWO),
        ),
        Err(MaintenanceStepError::BootstrapStep {
            sequence: 2,
            step: MAINTENANCE_STEP_ROTATION_TWO,
        })
    );
    assert_eq!(
        [
            io.sectors[6],
            io.sectors[7],
            io.sectors[8],
            io.sectors[9],
            io.sectors[10],
            io.sectors[11],
        ],
        ledgers_before
    );

    commit_maintenance_step(
        &mut io,
        maintenance_step_request(2, MAINTENANCE_STEP_ROTATION_ONE),
    )
    .unwrap();
    let step_slots = [io.sectors[10], io.sectors[11]];
    assert_eq!(
        commit_maintenance_step(&mut io, maintenance_step_request(2, MAINTENANCE_STEP_DRAIN),),
        Err(MaintenanceStepError::StepGap {
            actual: MAINTENANCE_STEP_DRAIN,
            expected: MAINTENANCE_STEP_ROTATION_TWO,
        })
    );
    assert_eq!([io.sectors[10], io.sectors[11]], step_slots);
    assert_eq!(
        validate_maintenance_step_terminal(&mut io, maintenance_step_terminal_request(2)),
        Err(MaintenanceStepError::TerminalStepIncomplete)
    );
    assert_eq!(
        preflight_maintenance_step_admission(&mut io, maintenance_request_with_sectors(3, 11),),
        Err(MaintenanceStepError::TerminalStepIncomplete)
    );

    let mut substituted_authorization = maintenance_binding(2);
    substituted_authorization.authorization_id = [0xa5; 32];
    let substituted_binding = MaintenanceStepCommitBinding::for_observation(
        substituted_authorization,
        MAINTENANCE_STEP_ROTATION_TWO,
        2,
        false,
    )
    .unwrap();
    let substituted = MaintenanceStepCommitRequest {
        partition_first_lba: 1,
        partition_sectors: 11,
        expected_format_epoch: FORMAT_EPOCH,
        binding: substituted_binding,
    };
    assert_eq!(
        commit_maintenance_step(&mut io, substituted),
        Err(MaintenanceStepError::AuthorizationBindingMismatch)
    );
    assert_eq!([io.sectors[10], io.sectors[11]], step_slots);
}

#[test]
fn maintenance_step_torn_write_falls_back_and_reconciles_from_the_selected_head() {
    let mut io = fixture();
    admit_maintenance_authorization_with_execution(
        &mut io,
        maintenance_request_with_sectors(1, 11),
    )
    .unwrap();
    commit_maintenance_execution_completion(
        &mut io,
        maintenance_completion_request_with_sectors(1, 11),
    )
    .unwrap();
    admit_maintenance_authorization_with_execution(
        &mut io,
        maintenance_request_with_sectors(2, 11),
    )
    .unwrap();
    commit_maintenance_step(
        &mut io,
        maintenance_step_request(2, MAINTENANCE_STEP_ROTATION_ONE),
    )
    .unwrap();
    let selected = io.sectors[10];

    io.tear_write = true;
    assert_eq!(
        commit_maintenance_step(
            &mut io,
            maintenance_step_request(2, MAINTENANCE_STEP_ROTATION_TWO),
        ),
        Err(MaintenanceStepError::VerificationFailed)
    );
    assert_eq!(io.sectors[10], selected);
    let recovered = recover([&io.sectors[10], &io.sectors[11]], FORMAT_EPOCH).unwrap();
    assert_eq!(recovered.slot, 0);
    let recovered_state = MaintenanceStepState::decode(recovered.payload).unwrap();
    assert_eq!(recovered_state.step_ordinal, MAINTENANCE_STEP_ROTATION_ONE);
    assert_eq!(recovered_state.entry_count, 1);

    io.tear_write = false;
    let resumed =
        preflight_maintenance_step_admission(&mut io, maintenance_request_with_sectors(2, 11))
            .unwrap();
    assert!(resumed.resumes_current_sequence);
    assert_eq!(resumed.step_ordinal, MAINTENANCE_STEP_ROTATION_ONE);
    let replay = commit_maintenance_step(
        &mut io,
        maintenance_step_request(2, MAINTENANCE_STEP_ROTATION_ONE),
    )
    .unwrap();
    assert!(replay.replayed);
    let second = commit_maintenance_step(
        &mut io,
        maintenance_step_request(2, MAINTENANCE_STEP_ROTATION_TWO),
    )
    .unwrap();
    assert_eq!(second.committed_generation, 2);
    assert_eq!(second.committed_entry_count, 2);

    io.fail_flush = true;
    io.operations.clear();
    assert_eq!(
        commit_maintenance_step(&mut io, maintenance_step_request(2, MAINTENANCE_STEP_DRAIN),),
        Err(MaintenanceStepError::Io {
            phase: IoPhase::Flush,
            error: PersistIoError::Device,
        })
    );
    assert_eq!(
        io.operations,
        [
            Operation::Read(6),
            Operation::Read(7),
            Operation::Read(8),
            Operation::Read(9),
            Operation::Read(10),
            Operation::Read(11),
            Operation::Write(10),
            Operation::Flush,
        ]
    );
}

#[test]
fn maintenance_plan_state_round_trips_and_seals_identity_phase_and_chain() {
    let binding = maintenance_plan_binding(
        2,
        MAINTENANCE_STEP_ROTATION_ONE,
        MAINTENANCE_PLAN_PHASE_PREPARED,
    );
    let state = MaintenancePlanState {
        sequence: 2,
        base_sequence: 2,
        transition_count: 1,
        operations: binding.operations,
        max_uses: binding.max_uses,
        operation_ordinal: binding.operation_ordinal,
        phase: binding.phase,
        flags: binding.flags,
        authorization_sha256: binding.authorization_sha256,
        authorization_id: binding.authorization_id,
        manifest_sha256: binding.manifest_sha256,
        policy_sha256: binding.policy_sha256,
        root_sha256: binding.root_sha256,
        device_binding_sha256: binding.device_binding_sha256,
        effect_sha256: binding.effect_sha256,
        operation_instance_id: binding.operation_instance_id,
        idempotency_key: binding.idempotency_key,
        previous_chain_sha256: [0; 32],
        chain_sha256: maintenance_plan_chain_sha256([0; 32], 2, 1, binding),
    };
    let encoded = state.encode().unwrap();
    assert_eq!(encoded.len(), MAINTENANCE_PLAN_STATE_BYTES);
    assert_eq!(MaintenancePlanState::decode(&encoded), Ok(state));
    for offset in [
        0, 8, 12, 16, 24, 32, 40, 48, 52, 56, 60, 64, 96, 128, 160, 192, 224, 256, 288, 320,
        352, 384, 416,
    ] {
        let mut corrupt = encoded;
        corrupt[offset] ^= 1;
        assert!(
            MaintenancePlanState::decode(&corrupt).is_err(),
            "offset {offset}"
        );
    }
    let authorization = maintenance_binding(2);
    let plan_id = maintenance_plan_id_sha256(authorization);
    assert_ne!(plan_id, [0; 32]);
    assert_eq!(
        binding.operation_instance_id,
        maintenance_plan_operation_instance_id_sha256(
            plan_id,
            binding.operation_ordinal,
            binding.effect_sha256,
        )
    );
    assert_eq!(
        binding.idempotency_key,
        maintenance_plan_idempotency_key_sha256(
            plan_id,
            binding.operation_instance_id,
            binding.effect_sha256,
        )
    );
}

#[test]
fn maintenance_plan_reconciles_result_unknown_and_confirms_all_three_effects() {
    let mut io = fixture();
    prepare_m80_sequence_two(&mut io);

    let prepared = commit_maintenance_plan_transition(
        &mut io,
        maintenance_plan_request(
            2,
            MAINTENANCE_STEP_ROTATION_ONE,
            MAINTENANCE_PLAN_PHASE_PREPARED,
        ),
    )
    .unwrap();
    assert!(!prepared.replayed);
    assert_eq!(prepared.committed_transition_count, 1);
    assert_eq!(
        (prepared.reads, prepared.writes, prepared.flushes),
        (12, 1, 1)
    );
    let applying = commit_maintenance_plan_transition(
        &mut io,
        maintenance_plan_request(
            2,
            MAINTENANCE_STEP_ROTATION_ONE,
            MAINTENANCE_PLAN_PHASE_APPLYING,
        ),
    )
    .unwrap();
    assert_eq!(applying.committed_transition_count, 2);

    let unknown =
        preflight_maintenance_plan_admission(&mut io, maintenance_request_with_sectors(2, 13))
            .unwrap();
    assert!(unknown.result_unknown);
    assert!(!unknown.effect_observed_unconfirmed);
    assert_eq!(unknown.phase, MAINTENANCE_PLAN_PHASE_APPLYING);

    let first = commit_maintenance_step(
        &mut io,
        maintenance_step_request(2, MAINTENANCE_STEP_ROTATION_ONE),
    )
    .unwrap();
    let observed =
        preflight_maintenance_plan_admission(&mut io, maintenance_request_with_sectors(2, 13))
            .unwrap();
    assert!(!observed.result_unknown);
    assert!(observed.effect_observed_unconfirmed);
    assert_eq!(
        observed.step.step_effect_sha256,
        first.binding.effect_sha256
    );

    let mut last_plan = commit_maintenance_plan_transition(
        &mut io,
        maintenance_plan_request(
            2,
            MAINTENANCE_STEP_ROTATION_ONE,
            MAINTENANCE_PLAN_PHASE_CONFIRMED,
        ),
    )
    .unwrap();
    assert_eq!(last_plan.committed_transition_count, 3);

    for (operation, step) in [
        (
            MAINTENANCE_STEP_ROTATION_TWO,
            maintenance_step_request(2, MAINTENANCE_STEP_ROTATION_TWO),
        ),
        (
            MAINTENANCE_STEP_DRAIN,
            maintenance_step_request(2, MAINTENANCE_STEP_DRAIN),
        ),
    ] {
        commit_maintenance_plan_transition(
            &mut io,
            maintenance_plan_request(2, operation, MAINTENANCE_PLAN_PHASE_PREPARED),
        )
        .unwrap();
        commit_maintenance_plan_transition(
            &mut io,
            maintenance_plan_request(2, operation, MAINTENANCE_PLAN_PHASE_APPLYING),
        )
        .unwrap();
        commit_maintenance_step(&mut io, step).unwrap();
        last_plan = commit_maintenance_plan_transition(
            &mut io,
            maintenance_plan_request(2, operation, MAINTENANCE_PLAN_PHASE_CONFIRMED),
        )
        .unwrap();
    }
    assert_eq!(last_plan.committed_transition_count, 9);
    assert_eq!(last_plan.committed_generation, 9);
    let step_terminal =
        validate_maintenance_step_terminal(&mut io, maintenance_step_terminal_request(2))
            .unwrap();
    let terminal = validate_maintenance_plan_terminal(
        &mut io,
        MaintenancePlanTerminalRequest {
            partition_first_lba: 1,
            partition_sectors: 13,
            expected_format_epoch: FORMAT_EPOCH,
            authorization: maintenance_binding(2),
            expected_step_chain_sha256: step_terminal.chain_sha256,
        },
    )
    .unwrap();
    assert_eq!(terminal.transition_count, 9);
    assert_eq!(terminal.operation_ordinal, MAINTENANCE_STEP_DRAIN);
    assert_eq!(terminal.phase, MAINTENANCE_PLAN_PHASE_CONFIRMED);
    assert_eq!(terminal.chain_sha256, last_plan.committed_chain_sha256);
    assert_eq!(terminal.reads, 8);
}

#[test]
fn maintenance_plan_compensates_only_before_apply_and_then_fails_closed() {
    let mut io = fixture();
    prepare_m80_sequence_two(&mut io);
    commit_maintenance_plan_transition(
        &mut io,
        maintenance_plan_request(
            2,
            MAINTENANCE_STEP_ROTATION_ONE,
            MAINTENANCE_PLAN_PHASE_PREPARED,
        ),
    )
    .unwrap();
    let compensated = commit_maintenance_plan_transition(
        &mut io,
        maintenance_plan_request(
            2,
            MAINTENANCE_STEP_ROTATION_ONE,
            MAINTENANCE_PLAN_PHASE_COMPENSATED,
        ),
    )
    .unwrap();
    assert_eq!(compensated.committed_transition_count, 2);
    assert_eq!(
        compensated.committed_phase,
        MAINTENANCE_PLAN_PHASE_COMPENSATED
    );
    assert_eq!(
        commit_maintenance_plan_transition(
            &mut io,
            maintenance_plan_request(
                2,
                MAINTENANCE_STEP_ROTATION_ONE,
                MAINTENANCE_PLAN_PHASE_APPLYING,
            ),
        ),
        Err(MaintenancePlanError::PlanCompensated)
    );
    assert_eq!(
        preflight_maintenance_plan_admission(&mut io, maintenance_request_with_sectors(3, 13)),
        Err(MaintenancePlanError::LedgerDivergence)
    );
    assert_eq!([io.sectors[10], io.sectors[11]], [[0; SECTOR_SIZE]; 2]);
}

#[test]
fn maintenance_plan_rejects_gaps_and_repairs_a_corrupt_newest_slot() {
    let mut io = fixture();
    prepare_m80_sequence_two(&mut io);
    commit_maintenance_plan_transition(
        &mut io,
        maintenance_plan_request(
            2,
            MAINTENANCE_STEP_ROTATION_ONE,
            MAINTENANCE_PLAN_PHASE_PREPARED,
        ),
    )
    .unwrap();
    assert_eq!(
        commit_maintenance_plan_transition(
            &mut io,
            maintenance_plan_request(
                2,
                MAINTENANCE_STEP_ROTATION_ONE,
                MAINTENANCE_PLAN_PHASE_CONFIRMED,
            ),
        ),
        Err(MaintenancePlanError::TransitionGap)
    );
    let applying = commit_maintenance_plan_transition(
        &mut io,
        maintenance_plan_request(
            2,
            MAINTENANCE_STEP_ROTATION_ONE,
            MAINTENANCE_PLAN_PHASE_APPLYING,
        ),
    )
    .unwrap();
    let newest_lba =
        1 + MAINTENANCE_PLAN_SLOT_RELATIVE_LBAS[usize::from(applying.committed_slot)] as usize;
    io.sectors[newest_lba][100] ^= 1;
    let fallback =
        preflight_maintenance_plan_admission(&mut io, maintenance_request_with_sectors(2, 13))
            .unwrap();
    assert_eq!(fallback.phase, MAINTENANCE_PLAN_PHASE_PREPARED);
    assert_eq!(fallback.valid_slots, 1);
    assert_eq!(fallback.rejected_slots, 1);
    let repaired = commit_maintenance_plan_transition(
        &mut io,
        maintenance_plan_request(
            2,
            MAINTENANCE_STEP_ROTATION_ONE,
            MAINTENANCE_PLAN_PHASE_APPLYING,
        ),
    )
    .unwrap();
    assert!(!repaired.replayed);
    assert_eq!(repaired.initial_rejected_slots, 1);
    assert_eq!(repaired.committed_valid_slots, 2);
    assert_eq!(repaired.committed_rejected_slots, 0);
    assert_eq!(repaired.committed_transition_count, 2);
}

#[test]
fn signed_maintenance_plan_state_round_trips_and_seals_program_chain() {
    let authorization = maintenance_binding(2);
    let binding = signed_maintenance_plan_binding(2);
    let state = SignedMaintenancePlanState {
        binding,
        previous_chain_sha256: [0; 32],
        chain_sha256: signed_maintenance_plan_chain_sha256([0; 32], binding),
    };
    let encoded = state.encode(authorization).unwrap();
    assert_eq!(encoded.len(), SIGNED_MAINTENANCE_PLAN_STATE_BYTES);
    assert_eq!(SignedMaintenancePlanState::decode(&encoded), Ok(state));
    for offset in [
        0, 8, 12, 16, 24, 28, 32, 36, 40, 72, 104, 136, 168, 200, 232, 264, 296, 328,
    ] {
        let mut corrupt = encoded;
        corrupt[offset] ^= 1;
        assert!(
            SignedMaintenancePlanState::decode(&corrupt).is_err(),
            "offset {offset}"
        );
    }
}

#[test]
fn signed_maintenance_plan_commits_once_replays_read_only_and_rejects_substitution() {
    let mut io = fixture();
    prepare_m81_predecessor(&mut io);
    io.operations.clear();

    let preflight =
        preflight_signed_maintenance_plan(&mut io, signed_maintenance_plan_request(2)).unwrap();
    assert!(!preflight.provisioned_before);
    assert!(!preflight.exact_replay);
    assert!(preflight.predecessor_complete);
    assert_eq!(preflight.reads, 10);

    io.operations.clear();
    let committed =
        commit_signed_maintenance_plan(&mut io, signed_maintenance_plan_request(2)).unwrap();
    assert!(!committed.provisioned_before);
    assert!(!committed.replayed);
    assert!(committed.predecessor_complete);
    assert_eq!(committed.committed_sequence, 2);
    assert_eq!(committed.committed_generation, 1);
    assert_eq!(
        (committed.reads, committed.writes, committed.flushes),
        (14, 1, 1)
    );

    io.operations.clear();
    let replay =
        commit_signed_maintenance_plan(&mut io, signed_maintenance_plan_request(2)).unwrap();
    assert!(replay.provisioned_before);
    assert!(replay.replayed);
    assert_eq!(replay.committed_generation, committed.committed_generation);
    assert_eq!(
        replay.committed_chain_sha256,
        committed.committed_chain_sha256
    );
    assert_eq!((replay.reads, replay.writes, replay.flushes), (10, 0, 0));

    let mut substituted = signed_maintenance_plan_request(2);
    substituted.binding.program_sha256[0] ^= 1;
    io.operations.clear();
    assert_eq!(
        preflight_signed_maintenance_plan(&mut io, substituted),
        Err(SignedMaintenancePlanError::ProgramBindingMismatch)
    );
    assert!(
        io.operations
            .iter()
            .all(|operation| matches!(operation, Operation::Read(_)))
    );
}

#[test]
fn signed_maintenance_plan_terminal_binds_the_confirmed_m80_head() {
    let mut io = fixture();
    prepare_m81_predecessor(&mut io);
    let program =
        commit_signed_maintenance_plan(&mut io, signed_maintenance_plan_request(2)).unwrap();
    admit_maintenance_authorization_with_execution(
        &mut io,
        maintenance_request_with_sectors(2, 15),
    )
    .unwrap();

    let mut last_plan = None;
    for operation in [
        MAINTENANCE_STEP_ROTATION_ONE,
        MAINTENANCE_STEP_ROTATION_TWO,
        MAINTENANCE_STEP_DRAIN,
    ] {
        commit_maintenance_plan_transition(
            &mut io,
            maintenance_plan_request_with_sectors(
                2,
                operation,
                MAINTENANCE_PLAN_PHASE_PREPARED,
                15,
            ),
        )
        .unwrap();
        commit_maintenance_plan_transition(
            &mut io,
            maintenance_plan_request_with_sectors(
                2,
                operation,
                MAINTENANCE_PLAN_PHASE_APPLYING,
                15,
            ),
        )
        .unwrap();
        commit_maintenance_step(
            &mut io,
            maintenance_step_request_with_sectors(2, operation, 15),
        )
        .unwrap();
        last_plan = Some(
            commit_maintenance_plan_transition(
                &mut io,
                maintenance_plan_request_with_sectors(
                    2,
                    operation,
                    MAINTENANCE_PLAN_PHASE_CONFIRMED,
                    15,
                ),
            )
            .unwrap(),
        );
    }
    let last_plan = last_plan.unwrap();
    let terminal = validate_signed_maintenance_plan_terminal(
        &mut io,
        SignedMaintenancePlanTerminalRequest {
            partition_first_lba: 1,
            partition_sectors: 15,
            expected_format_epoch: FORMAT_EPOCH,
            authorization: maintenance_binding(2),
            binding: signed_maintenance_plan_binding(2),
            expected_plan_chain_sha256: last_plan.committed_chain_sha256,
        },
    )
    .unwrap();
    assert_eq!(terminal.sequence, 2);
    assert_eq!(
        terminal.program_chain_sha256,
        program.committed_chain_sha256
    );
    assert_eq!(terminal.plan_chain_sha256, last_plan.committed_chain_sha256);
    assert_eq!(terminal.reads, 10);
}

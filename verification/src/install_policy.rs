//! The install/update rule of the runtime package installer: an admitted
//! package either installs into an empty slot, updates the installed package
//! (same package, same signer, higher version), reinstalls after a removal,
//! or is refused.
use vstd::prelude::*;
use crate::codec::{bytes_eq, digest_eq, le_u64, push_bytes, push_u32, push_u64, spec_le_u64, u32_bytes, u64_bytes};
use crate::digest::{sha256, sha256_digest};
use crate::package::PackageBootOperation;

verus! {

/// What the store retains of an admitted package: its transaction id, names,
/// version, digests and compatibility profile.
#[derive(Debug)]
pub struct InstallMetadataModel {
    pub transaction_id: u64,
    pub package: Vec<u8>,
    pub activity: Vec<u8>,
    pub version_code: u64,
    pub apk_sha256: [u8; 32],
    pub signer_cert_sha256: [u8; 32],
    pub compatibility_profile: u8,
}

/// The package slot as the store reports it.
#[derive(Debug)]
pub enum PackageStateModel {
    Empty,
    Installed { metadata: InstallMetadataModel, generation: u64, apk_length: u64 },
    Removed { last_metadata: InstallMetadataModel, generation: u64 },
}

/// What publishing the candidate would do to the slot.
#[derive(Clone, Copy, Debug, PartialEq, Eq)]
pub enum InstallAction {
    Install,
    Update,
    Reinstall,
}

/// The installable candidate: the action, the slot state it expects, and the
/// admitted version and length.
#[derive(Clone, Copy, Debug, PartialEq, Eq)]
pub struct InstallCandidateModel {
    pub action: InstallAction,
    pub expected_generation: u64,
    pub expected_version_code: u64,
    pub version_code: u64,
    pub apk_length: u32,
}

/// Why the admitted package cannot take the slot.
#[derive(Clone, Copy, Debug, PartialEq, Eq)]
pub enum InstallPolicyError {
    TransactionConflict,
    PackageChanged,
    SignerChanged,
    VersionNotIncreasing,
}

/// Two metadata records agree in every field.
pub open spec fn same_metadata(a: InstallMetadataModel, b: InstallMetadataModel) -> bool {
    &&& a.transaction_id == b.transaction_id
    &&& a.package@ == b.package@
    &&& a.activity@ == b.activity@
    &&& a.version_code == b.version_code
    &&& a.apk_sha256 == b.apk_sha256
    &&& a.signer_cert_sha256 == b.signer_cert_sha256
    &&& a.compatibility_profile == b.compatibility_profile
}

pub open spec fn install_candidate(
    action: InstallAction,
    expected_generation: u64,
    expected_version_code: u64,
    admitted: InstallMetadataModel,
    apk_length: u32,
) -> InstallCandidateModel {
    InstallCandidateModel {
        action,
        expected_generation,
        expected_version_code,
        version_code: admitted.version_code,
        apk_length,
    }
}

/// The classification of an admitted package against the slot: `None` when
/// the same transaction is already installed, the candidate when it may be
/// published, and otherwise the first rule it breaks.
pub open spec fn spec_classify_install(
    current: PackageStateModel,
    admitted: InstallMetadataModel,
    apk_length: u32,
) -> Result<Option<InstallCandidateModel>, InstallPolicyError> {
    match current {
        PackageStateModel::Empty => Ok(Some(install_candidate(InstallAction::Install, 0, 0, admitted, apk_length))),
        PackageStateModel::Installed { metadata: previous, generation, apk_length: installed_length } => {
            if admitted.transaction_id == previous.transaction_id {
                if same_metadata(admitted, previous) && apk_length == installed_length {
                    Ok(None)
                } else {
                    Err(InstallPolicyError::TransactionConflict)
                }
            } else if admitted.package@ != previous.package@ {
                Err(InstallPolicyError::PackageChanged)
            } else if admitted.signer_cert_sha256 != previous.signer_cert_sha256 {
                Err(InstallPolicyError::SignerChanged)
            } else if admitted.version_code <= previous.version_code {
                Err(InstallPolicyError::VersionNotIncreasing)
            } else {
                Ok(Some(install_candidate(InstallAction::Update, generation, previous.version_code, admitted, apk_length)))
            }
        },
        PackageStateModel::Removed { last_metadata: previous, generation } => {
            if admitted.package@ != previous.package@ {
                Err(InstallPolicyError::PackageChanged)
            } else if admitted.signer_cert_sha256 != previous.signer_cert_sha256 {
                Err(InstallPolicyError::SignerChanged)
            } else if admitted.version_code < previous.version_code || (admitted.version_code
                == previous.version_code && admitted.apk_sha256 != previous.apk_sha256) {
                Err(InstallPolicyError::VersionNotIncreasing)
            } else {
                Ok(Some(install_candidate(InstallAction::Reinstall, generation, previous.version_code, admitted, apk_length)))
            }
        },
    }
}

fn metadata_eq(a: &InstallMetadataModel, b: &InstallMetadataModel) -> (equal: bool)
    ensures
        equal == same_metadata(*a, *b),
{
    a.transaction_id == b.transaction_id && bytes_eq(a.package.as_slice(), b.package.as_slice()) && bytes_eq(
        a.activity.as_slice(),
        b.activity.as_slice(),
    ) && a.version_code == b.version_code && digest_eq(&a.apk_sha256, &b.apk_sha256) && digest_eq(
        &a.signer_cert_sha256,
        &b.signer_cert_sha256,
    ) && a.compatibility_profile == b.compatibility_profile
}

/// Classifies an admitted package against the current slot.
///
/// An empty slot takes an install. An installed package with the same
/// transaction id is an idempotent replay when the metadata and length match
/// exactly, and a conflict otherwise. Any other package must keep the package
/// name and signer and raise the version code; after a removal the version may
/// stay the same only with the same APK digest.
pub fn classify_install_candidate(
    current: &PackageStateModel,
    admitted: &InstallMetadataModel,
    apk_length: u32,
) -> (result: Result<Option<InstallCandidateModel>, InstallPolicyError>)
    ensures
        result == spec_classify_install(*current, *admitted, apk_length),
{
    let (action, expected_generation, expected_version_code) = match current {
        PackageStateModel::Empty => (InstallAction::Install, 0u64, 0u64),
        PackageStateModel::Installed { metadata: previous, generation, apk_length: installed_length } => {
            if admitted.transaction_id == previous.transaction_id {
                if metadata_eq(admitted, previous) && apk_length as u64 == *installed_length {
                    return Ok(None);
                }
                return Err(InstallPolicyError::TransactionConflict);
            }
            if !bytes_eq(admitted.package.as_slice(), previous.package.as_slice()) {
                return Err(InstallPolicyError::PackageChanged);
            }
            if !digest_eq(&admitted.signer_cert_sha256, &previous.signer_cert_sha256) {
                return Err(InstallPolicyError::SignerChanged);
            }
            if admitted.version_code <= previous.version_code {
                return Err(InstallPolicyError::VersionNotIncreasing);
            }
            (InstallAction::Update, *generation, previous.version_code)
        },
        PackageStateModel::Removed { last_metadata: previous, generation } => {
            if !bytes_eq(admitted.package.as_slice(), previous.package.as_slice()) {
                return Err(InstallPolicyError::PackageChanged);
            }
            if !digest_eq(&admitted.signer_cert_sha256, &previous.signer_cert_sha256) {
                return Err(InstallPolicyError::SignerChanged);
            }
            if admitted.version_code < previous.version_code || (admitted.version_code == previous.version_code
                && !digest_eq(&admitted.apk_sha256, &previous.apk_sha256)) {
                return Err(InstallPolicyError::VersionNotIncreasing);
            }
            (InstallAction::Reinstall, *generation, previous.version_code)
        },
    };
    Ok(
        Some(
            InstallCandidateModel {
                action,
                expected_generation,
                expected_version_code,
                version_code: admitted.version_code,
                apk_length,
            },
        ),
    )
}

/// An update or reinstall keeps the package name and signer of the package it
/// replaces and never lowers its version code; an update raises it.
pub proof fn lemma_candidate_keeps_package_and_signer(
    current: PackageStateModel,
    admitted: InstallMetadataModel,
    apk_length: u32,
)
    requires
        spec_classify_install(current, admitted, apk_length) matches Ok(Some(_)),
    ensures
        ({
            let candidate = spec_classify_install(current, admitted, apk_length)->Ok_0->Some_0;
            &&& candidate.version_code == admitted.version_code
            &&& candidate.apk_length == apk_length
            &&& match current {
                PackageStateModel::Empty => candidate.action == InstallAction::Install,
                PackageStateModel::Installed { metadata: previous, generation, .. } => {
                    &&& candidate.action == InstallAction::Update
                    &&& candidate.expected_generation == generation
                    &&& admitted.package@ == previous.package@
                    &&& admitted.signer_cert_sha256 == previous.signer_cert_sha256
                    &&& candidate.version_code > previous.version_code
                },
                PackageStateModel::Removed { last_metadata: previous, generation } => {
                    &&& candidate.action == InstallAction::Reinstall
                    &&& candidate.expected_generation == generation
                    &&& admitted.package@ == previous.package@
                    &&& admitted.signer_cert_sha256 == previous.signer_cert_sha256
                    &&& candidate.version_code >= previous.version_code
                    &&& candidate.version_code == previous.version_code ==> admitted.apk_sha256
                        == previous.apk_sha256
                },
            }
        }),
{
}

/// Classifying the installed package's own metadata and length again is an
/// idempotent replay.
pub proof fn lemma_installed_replay_is_idempotent(
    metadata: InstallMetadataModel,
    generation: u64,
    apk_length: u32,
)
    ensures
        spec_classify_install(
            PackageStateModel::Installed { metadata, generation, apk_length: apk_length as u64 },
            metadata,
            apk_length,
        ) == Ok::<Option<InstallCandidateModel>, InstallPolicyError>(None),
{
}

/// The durable package state does not match what the boot pass found.
#[derive(Clone, Copy, Debug, PartialEq, Eq)]
pub enum BootOperationError {
    DurableManifestMismatch,
}

/// The boot operation reported for a classified install candidate.
pub open spec fn spec_candidate_boot_operation(
    current: PackageStateModel,
    candidate: Option<InstallCandidateModel>,
) -> Result<PackageBootOperation, BootOperationError> {
    match candidate {
        Some(c) => match c.action {
            InstallAction::Install => Ok(PackageBootOperation::InstallCandidate),
            InstallAction::Update => Ok(PackageBootOperation::UpdateCandidate),
            InstallAction::Reinstall => Ok(PackageBootOperation::ReinstallCandidate),
        },
        None => if current is Installed {
            Ok(PackageBootOperation::SourceReplay)
        } else {
            Err(BootOperationError::DurableManifestMismatch)
        },
    }
}

/// Names the boot operation of a classified install candidate: the candidate's
/// action, or a source replay when the same transaction is already installed.
pub fn candidate_boot_operation(
    current: &PackageStateModel,
    candidate: Option<InstallCandidateModel>,
) -> (result: Result<PackageBootOperation, BootOperationError>)
    ensures
        result == spec_candidate_boot_operation(*current, candidate),
{
    match candidate {
        Some(c) => match c.action {
            InstallAction::Install => Ok(PackageBootOperation::InstallCandidate),
            InstallAction::Update => Ok(PackageBootOperation::UpdateCandidate),
            InstallAction::Reinstall => Ok(PackageBootOperation::ReinstallCandidate),
        },
        None => match current {
            PackageStateModel::Installed { .. } => Ok(PackageBootOperation::SourceReplay),
            _ => Err(BootOperationError::DurableManifestMismatch),
        },
    }
}

pub open spec fn spec_previous_versions(current: PackageStateModel) -> (u64, u64) {
    match current {
        PackageStateModel::Empty => (0u64, 0u64),
        PackageStateModel::Installed { metadata, generation, .. } => (generation, metadata.version_code),
        PackageStateModel::Removed { last_metadata, generation } => (generation, last_metadata.version_code),
    }
}

/// The generation and version code a boot pass reports as previous: zero for
/// an empty slot, else those of the installed or last removed package.
pub fn previous_versions(current: &PackageStateModel) -> (versions: (u64, u64))
    ensures
        versions == spec_previous_versions(*current),
{
    match current {
        PackageStateModel::Empty => (0, 0),
        PackageStateModel::Installed { metadata, generation, .. } => (*generation, metadata.version_code),
        PackageStateModel::Removed { last_metadata, generation } => (*generation, last_metadata.version_code),
    }
}

/// The boot operation after a committed package was read back: recovery
/// without a source; with one, an install, a replay of the same package, an
/// update or a reinstall, by what the slot held before.
pub open spec fn spec_committed_boot_operation(
    source_supplied: bool,
    previous: PackageStateModel,
    previous_is_committed: bool,
) -> Result<PackageBootOperation, BootOperationError> {
    if !source_supplied {
        if previous is Installed {
            Ok(PackageBootOperation::Recovery)
        } else {
            Err(BootOperationError::DurableManifestMismatch)
        }
    } else {
        match previous {
            PackageStateModel::Empty => Ok(PackageBootOperation::Install),
            PackageStateModel::Installed { .. } => if previous_is_committed {
                Ok(PackageBootOperation::SourceReplay)
            } else {
                Ok(PackageBootOperation::Update)
            },
            PackageStateModel::Removed { .. } => Ok(PackageBootOperation::Reinstall),
        }
    }
}

/// Names the boot operation once the committed package has been read back;
/// `previous_is_committed` says that the slot already held that exact package.
pub fn committed_boot_operation(
    source_supplied: bool,
    previous: &PackageStateModel,
    previous_is_committed: bool,
) -> (result: Result<PackageBootOperation, BootOperationError>)
    ensures
        result == spec_committed_boot_operation(source_supplied, *previous, previous_is_committed),
{
    match previous {
        PackageStateModel::Installed { .. } => if !source_supplied {
            Ok(PackageBootOperation::Recovery)
        } else if previous_is_committed {
            Ok(PackageBootOperation::SourceReplay)
        } else {
            Ok(PackageBootOperation::Update)
        },
        PackageStateModel::Empty => if source_supplied {
            Ok(PackageBootOperation::Install)
        } else {
            Err(BootOperationError::DurableManifestMismatch)
        },
        PackageStateModel::Removed { .. } => if source_supplied {
            Ok(PackageBootOperation::Reinstall)
        } else {
            Err(BootOperationError::DurableManifestMismatch)
        },
    }
}

pub open spec fn spec_recovery_boot_operation(
    selected: Option<(u64, u64)>,
    removed: Option<(u64, u64)>,
) -> (PackageBootOperation, u64, u64) {
    match (selected, removed) {
        (Some((generation, version)), _) => (PackageBootOperation::Recovery, generation, version),
        (None, Some((generation, version))) => (PackageBootOperation::RemovedRecovery, generation, version),
        (None, None) => (PackageBootOperation::EmptyRecovery, 0u64, 0u64),
    }
}

pub open spec fn spec_uninstall_boot_operation(was_removed: bool, writes: u64) -> PackageBootOperation {
    if was_removed {
        if writes == 0 { PackageBootOperation::UninstallReplay } else { PackageBootOperation::UninstallRepair }
    } else {
        PackageBootOperation::Uninstall
    }
}

/// The boot operation of a recovery pass with no input, and the previous
/// generation and version code it reports: the selected package's, else the
/// first removal tombstone's, else none.
pub fn recovery_boot_operation(
    selected: Option<(u64, u64)>,
    removed: Option<(u64, u64)>,
) -> (result: (PackageBootOperation, u64, u64))
    ensures
        result == spec_recovery_boot_operation(selected, removed),
{
    match (selected, removed) {
        (Some((generation, version)), _) => (PackageBootOperation::Recovery, generation, version),
        (None, Some((generation, version))) => (PackageBootOperation::RemovedRecovery, generation, version),
        (None, None) => (PackageBootOperation::EmptyRecovery, 0, 0),
    }
}

/// The boot operation of a durable uninstall: a replay when the package was
/// already removed and nothing was written, a repair when it was removed but
/// the tombstone had to be written again, else the uninstall itself.
pub fn uninstall_boot_operation(was_removed: bool, writes: u64) -> (operation: PackageBootOperation)
    ensures
        operation == spec_uninstall_boot_operation(was_removed, writes),
{
    if was_removed {
        if writes == 0 {
            PackageBootOperation::UninstallReplay
        } else {
            PackageBootOperation::UninstallRepair
        }
    } else {
        PackageBootOperation::Uninstall
    }
}

/// The live package directory as the catalog publishes it: one entry per
/// directory slot (a package handle, or empty), the selected package, whether
/// a removal is published, and a revision that counts the changes.
#[derive(Debug)]
pub struct LiveDirectoryModel {
    pub entries: Vec<Option<u64>>,
    pub selected: Option<u64>,
    pub removed: bool,
    pub formatted: bool,
    pub revision: u64,
}

/// Clears the directory entry of a durably uninstalled package. The first
/// remaining entry, if any, becomes the selected package; with none left the
/// removal is published. The volume is formatted and the revision advances by
/// one. Returns the index of the replacement.
pub fn retire_directory_entry(directory: &mut LiveDirectoryModel, index: usize) -> (replacement: Option<usize>)
    requires
        index < old(directory).entries@.len(),
        old(directory).revision < u64::MAX,
    ensures
        final(directory).entries@ == old(directory).entries@.update(index as int, None),
        final(directory).formatted,
        final(directory).revision == old(directory).revision + 1,
        final(directory).removed == (replacement is None),
        match replacement {
            Some(k) => {
                &&& k < final(directory).entries@.len()
                &&& final(directory).entries@[k as int] is Some
                &&& forall|j: int| 0 <= j < k ==> #[trigger] final(directory).entries@[j] is None
                &&& final(directory).selected == final(directory).entries@[k as int]
            },
            None => {
                &&& forall|j: int| 0 <= j < final(directory).entries@.len() ==> #[trigger] final(directory).entries@[j] is None
                &&& final(directory).selected is None
            },
        },
{
    directory.entries.set(index, None);
    let ghost entries = directory.entries@;
    let mut replacement: Option<usize> = None;
    let mut k: usize = 0;
    while k < directory.entries.len()
        invariant
            directory.entries@ == entries,
            k <= entries.len(),
            match replacement {
                None => forall|j: int| 0 <= j < k ==> #[trigger] entries[j] is None,
                Some(found) => {
                    &&& found < k
                    &&& entries[found as int] is Some
                    &&& forall|j: int| 0 <= j < found ==> #[trigger] entries[j] is None
                },
            },
        decreases entries.len() - k,
    {
        if replacement.is_none() && directory.entries[k].is_some() {
            replacement = Some(k);
        }
        k += 1;
    }
    directory.selected = match replacement {
        Some(found) => directory.entries[found],
        None => None,
    };
    directory.removed = replacement.is_none();
    directory.formatted = true;
    directory.revision = directory.revision + 1;
    replacement
}

/// The domain string that opens the hashed description of an install candidate.
pub const RUNTIME_INSTALL_CANDIDATE_DOMAIN: [u8; 50] = [
    0x42u8, 0x6e, 0x64, 0x72, 0x6f, 0x69, 0x64, 0x20, 0x41, 0x6e,
    0x64, 0x72, 0x6f, 0x69, 0x64, 0x42, 0x6f, 0x78, 0x20, 0x52,
    0x75, 0x6e, 0x74, 0x69, 0x6d, 0x65, 0x20, 0x49, 0x6e, 0x73,
    0x74, 0x61, 0x6c, 0x6c, 0x2d, 0x32, 0x20, 0x63, 0x61, 0x6e,
    0x64, 0x69, 0x64, 0x61, 0x74, 0x65, 0x20, 0x76, 0x31, 0x00,
];

/// The bytes hashed to name an install candidate: the domain string, the
/// action's code as the caller encodes it, the slot state the candidate
/// expects, and the admitted package's transaction id, version, length,
/// digests and names.
pub open spec fn candidate_id_material(
    action_code: Seq<u8>,
    expected_generation: u64,
    expected_version_code: u64,
    metadata: InstallMetadataModel,
    apk_length: u32,
) -> Seq<u8> {
    RUNTIME_INSTALL_CANDIDATE_DOMAIN@ + action_code + u64_bytes(expected_generation) + u64_bytes(
        expected_version_code,
    ) + u64_bytes(metadata.transaction_id) + u64_bytes(metadata.version_code) + u32_bytes(apk_length)
        + metadata.apk_sha256@ + metadata.signer_cert_sha256@ + metadata.package@ + metadata.activity@
}

/// The candidate id taken from a digest: its first eight bytes as a
/// little-endian `u64`, with zero replaced by one so that an id is never zero.
pub open spec fn candidate_id_of(digest: Seq<u8>) -> u64 {
    if spec_le_u64(digest, 0) == 0 {
        1
    } else {
        spec_le_u64(digest, 0)
    }
}

/// Names an install candidate by the SHA-256 of its description.
/// `action_code` is the little-endian encoding of the candidate action's
/// wire code.
pub fn runtime_install_candidate_id(
    action_code: &[u8],
    expected_generation: u64,
    expected_version_code: u64,
    metadata: &InstallMetadataModel,
    apk_length: u32,
) -> (id: u64)
    ensures
        id == candidate_id_of(
            sha256_digest(
                candidate_id_material(action_code@, expected_generation, expected_version_code, *metadata, apk_length),
            ),
        ),
        id != 0,
{
    let mut material: Vec<u8> = Vec::new();
    push_bytes(&mut material, &RUNTIME_INSTALL_CANDIDATE_DOMAIN);
    push_bytes(&mut material, action_code);
    push_u64(&mut material, expected_generation);
    push_u64(&mut material, expected_version_code);
    push_u64(&mut material, metadata.transaction_id);
    push_u64(&mut material, metadata.version_code);
    push_u32(&mut material, apk_length);
    push_bytes(&mut material, &metadata.apk_sha256);
    push_bytes(&mut material, &metadata.signer_cert_sha256);
    push_bytes(&mut material, metadata.package.as_slice());
    push_bytes(&mut material, metadata.activity.as_slice());
    assert(material@ =~= candidate_id_material(
        action_code@,
        expected_generation,
        expected_version_code,
        *metadata,
        apk_length,
    ));
    let digest = sha256(material.as_slice());
    let value = le_u64(&digest, 0);
    if value == 0 {
        1
    } else {
        value
    }
}

/// The install rule, case by case over the inputs:
/// - an empty slot always takes an install expecting generation and version
///   zero;
/// - over an installed package, the same transaction is a replay exactly when
///   every metadata field and the length match, and a conflict otherwise;
///   another transaction is refused for a changed package name, then for a
///   changed signer, then for a version code that does not rise, and is
///   otherwise an update expecting the installed generation and version;
/// - after a removal, a changed package name or signer is refused; a higher
///   version code, or the same one with the same APK digest, is a reinstall
///   expecting the removal's generation and the removed version; a lower
///   version code, or the same one with another digest, is refused.
/// Every candidate carries the admitted version code and length.
pub proof fn lemma_install_rule(current: PackageStateModel, admitted: InstallMetadataModel, apk_length: u32)
    ensures
        ({
            let result = spec_classify_install(current, admitted, apk_length);
            let candidate = |action: InstallAction, generation: u64, version: u64|
                Ok::<Option<InstallCandidateModel>, InstallPolicyError>(
                    Some(
                        InstallCandidateModel {
                            action,
                            expected_generation: generation,
                            expected_version_code: version,
                            version_code: admitted.version_code,
                            apk_length,
                        },
                    ),
                );
            match current {
                PackageStateModel::Empty => result == candidate(InstallAction::Install, 0, 0),
                PackageStateModel::Installed { metadata: previous, generation, apk_length: installed_length } => {
                    let same_package = admitted.package@ == previous.package@;
                    let same_signer = admitted.signer_cert_sha256 == previous.signer_cert_sha256;
                    &&& admitted.transaction_id == previous.transaction_id ==> (result == Ok::<
                        Option<InstallCandidateModel>,
                        InstallPolicyError,
                    >(None) <==> (admitted.package@ == previous.package@ && admitted.activity@ == previous.activity@
                        && admitted.version_code == previous.version_code && admitted.apk_sha256 == previous.apk_sha256
                        && admitted.signer_cert_sha256 == previous.signer_cert_sha256
                        && admitted.compatibility_profile == previous.compatibility_profile && apk_length
                        == installed_length))
                    &&& admitted.transaction_id == previous.transaction_id && result != Ok::<
                        Option<InstallCandidateModel>,
                        InstallPolicyError,
                    >(None) ==> result == Err::<Option<InstallCandidateModel>, InstallPolicyError>(
                        InstallPolicyError::TransactionConflict,
                    )
                    &&& admitted.transaction_id != previous.transaction_id ==> {
                        &&& !same_package ==> result == Err::<Option<InstallCandidateModel>, InstallPolicyError>(
                            InstallPolicyError::PackageChanged,
                        )
                        &&& same_package && !same_signer ==> result == Err::<
                            Option<InstallCandidateModel>,
                            InstallPolicyError,
                        >(InstallPolicyError::SignerChanged)
                        &&& same_package && same_signer && admitted.version_code <= previous.version_code ==> result
                            == Err::<Option<InstallCandidateModel>, InstallPolicyError>(
                            InstallPolicyError::VersionNotIncreasing,
                        )
                        &&& same_package && same_signer && admitted.version_code > previous.version_code ==> result
                            == candidate(InstallAction::Update, generation, previous.version_code)
                    }
                },
                PackageStateModel::Removed { last_metadata: previous, generation } => {
                    let same_package = admitted.package@ == previous.package@;
                    let same_signer = admitted.signer_cert_sha256 == previous.signer_cert_sha256;
                    &&& !same_package ==> result == Err::<Option<InstallCandidateModel>, InstallPolicyError>(
                        InstallPolicyError::PackageChanged,
                    )
                    &&& same_package && !same_signer ==> result == Err::<Option<InstallCandidateModel>, InstallPolicyError>(
                        InstallPolicyError::SignerChanged,
                    )
                    &&& same_package && same_signer && (admitted.version_code > previous.version_code || (
                    admitted.version_code == previous.version_code && admitted.apk_sha256 == previous.apk_sha256))
                        ==> result == candidate(InstallAction::Reinstall, generation, previous.version_code)
                    &&& same_package && same_signer && (admitted.version_code < previous.version_code || (
                    admitted.version_code == previous.version_code && admitted.apk_sha256 != previous.apk_sha256))
                        ==> result == Err::<Option<InstallCandidateModel>, InstallPolicyError>(
                        InstallPolicyError::VersionNotIncreasing,
                    )
                },
            }
        }),
{
}

/// The boot operation of a classified candidate follows the slot it was
/// classified against: an install candidate for an empty slot, an update
/// candidate or a source replay over an installed package, and a reinstall
/// candidate after a removal.
pub proof fn lemma_candidate_operation_follows_slot(
    current: PackageStateModel,
    admitted: InstallMetadataModel,
    apk_length: u32,
)
    requires
        spec_classify_install(current, admitted, apk_length) is Ok,
    ensures
        ({
            let operation = spec_candidate_boot_operation(
                current,
                spec_classify_install(current, admitted, apk_length)->Ok_0,
            );
            match current {
                PackageStateModel::Empty => operation == Ok::<PackageBootOperation, BootOperationError>(
                    PackageBootOperation::InstallCandidate,
                ),
                PackageStateModel::Installed { .. } => operation == Ok::<PackageBootOperation, BootOperationError>(
                    PackageBootOperation::UpdateCandidate,
                ) || operation == Ok::<PackageBootOperation, BootOperationError>(
                    PackageBootOperation::SourceReplay,
                ),
                PackageStateModel::Removed { .. } => operation == Ok::<PackageBootOperation, BootOperationError>(
                    PackageBootOperation::ReinstallCandidate,
                ),
            }
        }),
{
}

/// What a boot pass reports of the slot before it: an empty slot reports
/// generation and version zero, and otherwise the generation of the installed
/// or removed package and the version code of its metadata.
pub proof fn lemma_previous_versions(current: PackageStateModel)
    ensures
        ({
            let (generation, version) = spec_previous_versions(current);
            &&& current is Empty ==> generation == 0 && version == 0
            &&& current matches PackageStateModel::Installed { metadata, generation: g, .. } ==> generation == g
                && version == metadata.version_code
            &&& current matches PackageStateModel::Removed { last_metadata, generation: g } ==> generation == g
                && version == last_metadata.version_code
        }),
{
}

/// The boot operation of each outcome: a recovery pass reports the selected
/// package whenever there is one, a removal only when none is selected, and an
/// empty recovery with zero versions otherwise, always with the versions of
/// what it reports; an uninstall is a replay only when the package was already
/// removed and nothing was written, a repair when it was removed and the
/// tombstone was written again, and an uninstall exactly when it was not yet
/// removed; with a committed package, no source means recovery of an installed
/// package, and a source means an install, reinstall, replay or update by what
/// the slot held.
pub proof fn lemma_boot_operations(
    selected: Option<(u64, u64)>,
    removed: Option<(u64, u64)>,
    was_removed: bool,
    writes: u64,
    source_supplied: bool,
    previous: PackageStateModel,
    previous_is_committed: bool,
)
    ensures
        ({
            let (operation, generation, version) = spec_recovery_boot_operation(selected, removed);
            &&& selected matches Some((g, v)) ==> operation == PackageBootOperation::Recovery && generation == g
                && version == v
            &&& selected is None ==> (removed matches Some((g, v)) ==> operation
                == PackageBootOperation::RemovedRecovery && generation == g && version == v)
            &&& selected is None && removed is None ==> operation == PackageBootOperation::EmptyRecovery
                && generation == 0 && version == 0
        }),
        (spec_uninstall_boot_operation(was_removed, writes) == PackageBootOperation::Uninstall) == !was_removed,
        (spec_uninstall_boot_operation(was_removed, writes) == PackageBootOperation::UninstallReplay) == (was_removed
            && writes == 0),
        (spec_uninstall_boot_operation(was_removed, writes) == PackageBootOperation::UninstallRepair) == (was_removed
            && writes > 0),
        ({
            let operation = spec_committed_boot_operation(source_supplied, previous, previous_is_committed);
            &&& operation is Err <==> !source_supplied && !(previous is Installed)
            &&& !source_supplied && previous is Installed ==> operation == Ok::<PackageBootOperation, BootOperationError>(
                PackageBootOperation::Recovery,
            )
            &&& source_supplied && previous is Empty ==> operation == Ok::<PackageBootOperation, BootOperationError>(
                PackageBootOperation::Install,
            )
            &&& source_supplied && previous is Removed ==> operation == Ok::<PackageBootOperation, BootOperationError>(
                PackageBootOperation::Reinstall,
            )
            &&& source_supplied && previous is Installed ==> (operation == Ok::<PackageBootOperation, BootOperationError>(
                PackageBootOperation::SourceReplay,
            )) == previous_is_committed
            &&& source_supplied && previous is Installed && !previous_is_committed ==> operation == Ok::<
                PackageBootOperation,
                BootOperationError,
            >(PackageBootOperation::Update)
        }),
        ({
            let candidates = |action: InstallAction| spec_candidate_boot_operation(
                previous,
                Some(InstallCandidateModel {
                    action,
                    expected_generation: 0,
                    expected_version_code: 0,
                    version_code: 0,
                    apk_length: 0,
                }),
            );
            &&& candidates(InstallAction::Install) == Ok::<PackageBootOperation, BootOperationError>(
                PackageBootOperation::InstallCandidate,
            )
            &&& candidates(InstallAction::Update) == Ok::<PackageBootOperation, BootOperationError>(
                PackageBootOperation::UpdateCandidate,
            )
            &&& candidates(InstallAction::Reinstall) == Ok::<PackageBootOperation, BootOperationError>(
                PackageBootOperation::ReinstallCandidate,
            )
            &&& (spec_candidate_boot_operation(previous, None) == Ok::<PackageBootOperation, BootOperationError>(
                PackageBootOperation::SourceReplay,
            )) == previous is Installed
            &&& !(previous is Installed) ==> spec_candidate_boot_operation(previous, None) == Err::<
                PackageBootOperation,
                BootOperationError,
            >(BootOperationError::DurableManifestMismatch)
        }),
{
}

} // verus!

use singctl::upgrade::{
    resolve_asset, upgrade_due, ReleaseAsset, UpgradeAction, UpgradeError, UpgradeMachine,
};
use singctl::version::{is_newer, parse_version, SemVersion};

fn version(major: u32, minor: u32, patch: u32) -> SemVersion {
    SemVersion { major, minor, patch }
}

#[test]
fn release_tags_parse_exactly() {
    assert_eq!(parse_version("v1.2.3"), Some(version(1, 2, 3)));
    assert_eq!(parse_version("v0.0.0"), Some(version(0, 0, 0)));
    assert_eq!(parse_version("v10.400.9999"), Some(version(10, 400, 9999)));
    assert_eq!(parse_version("v4294967295.0.1"), Some(version(4294967295, 0, 1)));
}

#[test]
fn malformed_release_tags_are_rejected() {
    assert_eq!(parse_version(""), None);
    assert_eq!(parse_version("1.2.3"), None);
    assert_eq!(parse_version("v1.2"), None);
    assert_eq!(parse_version("v1.2.3.4"), None);
    assert_eq!(parse_version("v1..3"), None);
    assert_eq!(parse_version("vx.2.3"), None);
    assert_eq!(parse_version("v1.2.3-rc1"), None);
    // One past the largest 32-bit component overflows.
    assert_eq!(parse_version("v4294967296.0.0"), None);
}

#[test]
fn newer_is_lexicographic_over_the_components() {
    assert!(is_newer(&version(2, 0, 0), &version(1, 9, 9)));
    assert!(is_newer(&version(1, 3, 0), &version(1, 2, 9)));
    assert!(is_newer(&version(1, 2, 4), &version(1, 2, 3)));
    assert!(!is_newer(&version(1, 2, 3), &version(1, 2, 3)));
    assert!(!is_newer(&version(1, 2, 3), &version(1, 2, 4)));
    assert!(!is_newer(&version(0, 9, 9), &version(1, 0, 0)));
}

#[test]
fn upgrade_is_due_only_for_a_strictly_newer_release() {
    assert!(upgrade_due(&version(1, 1, 0), &version(1, 0, 7)));
    assert!(!upgrade_due(&version(1, 0, 7), &version(1, 0, 7)));
    assert!(!upgrade_due(&version(1, 0, 6), &version(1, 0, 7)));
}

fn assets() -> Vec<ReleaseAsset> {
    vec![
        ReleaseAsset {
            name: "panel-linux-armv7.tar.gz".to_string(),
            url: "https://dl.example/armv7".to_string(),
        },
        ReleaseAsset {
            name: "panel-linux-amd64.tar.gz".to_string(),
            url: "https://dl.example/amd64".to_string(),
        },
        ReleaseAsset {
            name: "panel-linux-arm64.tar.gz".to_string(),
            url: "https://dl.example/arm64".to_string(),
        },
    ]
}

#[test]
fn asset_resolution_picks_the_first_architecture_match() {
    assert_eq!(resolve_asset(&assets(), "amd64"), Ok(1));
    assert_eq!(resolve_asset(&assets(), "arm64"), Ok(2));
}

#[test]
fn asset_resolution_fails_without_a_match() {
    assert_eq!(
        resolve_asset(&assets(), "riscv64"),
        Err(UpgradeError::NoMatchingAsset)
    );
}

#[test]
fn failed_verification_leaves_the_original_untouched() {
    let mut m = UpgradeMachine::new();
    assert_eq!(
        m.on_download_result(true),
        Ok(UpgradeAction::VerifyCandidate)
    );
    let r = m.on_verify_result(false);
    assert_eq!(r, Err(UpgradeError::VerificationFailed));
    // No destructive action has occurred: the executable still holds
    // the original bytes, no backup file is left behind, and the bad
    // candidate is discarded.
    assert!(m.original_intact);
    assert!(!m.backup_exists);
    assert!(!m.candidate_present);
}

#[test]
fn failed_download_changes_nothing() {
    let mut m = UpgradeMachine::new();
    assert_eq!(m.on_download_result(false), Err(UpgradeError::DownloadFailed));
    assert!(m.original_intact);
    assert!(!m.backup_exists);
    assert!(!m.candidate_present);
}

#[test]
fn failed_backup_aborts_before_the_swap() {
    let mut m = UpgradeMachine::new();
    m.on_download_result(true).expect("downloaded");
    m.on_verify_result(true).expect("verified");
    assert_eq!(m.on_engine_stopped(), UpgradeAction::BackupOriginal);
    assert_eq!(m.on_backup_result(false), Err(UpgradeError::BackupFailed));
    assert!(m.original_intact);
    assert!(!m.backup_exists);
}

#[test]
fn failed_swap_restores_the_backup() {
    let mut m = UpgradeMachine::new();
    m.on_download_result(true).expect("downloaded");
    m.on_verify_result(true).expect("verified");
    m.on_engine_stopped();
    assert_eq!(m.on_backup_result(true), Ok(UpgradeAction::ReplaceBinary));
    assert_eq!(m.on_replace_result(false), Ok(UpgradeAction::RestoreBackup));
    // The original bytes are gone, but a verified-good backup exists.
    assert!(!m.original_intact);
    assert!(m.backup_exists);
    let r = m.on_restore_result(true);
    assert_eq!(r, Err(UpgradeError::ReplaceFailed { restored: true }));
    assert!(m.original_intact);
}

#[test]
fn failed_permissions_restore_the_backup() {
    let mut m = UpgradeMachine::new();
    m.on_download_result(true).expect("downloaded");
    m.on_verify_result(true).expect("verified");
    m.on_engine_stopped();
    m.on_backup_result(true).expect("backed up");
    m.on_replace_result(true).expect("replaced");
    assert_eq!(
        m.on_permission_result(false),
        Ok(UpgradeAction::RestoreBackup)
    );
    let r = m.on_restore_result(true);
    assert_eq!(r, Err(UpgradeError::PermissionFailed { restored: true }));
    assert!(m.original_intact);
}

#[test]
fn successful_chain_reaches_the_exec_step() {
    let mut m = UpgradeMachine::new();
    assert_eq!(m.on_download_result(true), Ok(UpgradeAction::VerifyCandidate));
    assert_eq!(m.on_verify_result(true), Ok(UpgradeAction::StopEngine));
    assert_eq!(m.on_engine_stopped(), UpgradeAction::BackupOriginal);
    assert_eq!(m.on_backup_result(true), Ok(UpgradeAction::ReplaceBinary));
    assert_eq!(m.on_replace_result(true), Ok(UpgradeAction::SetPermissions));
    assert_eq!(m.on_permission_result(true), Ok(UpgradeAction::CleanupAndExec));
    // Throughout, there was always an original or a backup in place.
    assert!(m.backup_exists);
}

#[test]
fn returned_exec_relaunches_the_restored_original() {
    let mut m = UpgradeMachine::new();
    m.on_download_result(true).expect("downloaded");
    m.on_verify_result(true).expect("verified");
    m.on_engine_stopped();
    m.on_backup_result(true).expect("backed up");
    m.on_replace_result(true).expect("replaced");
    m.on_permission_result(true).expect("permissions set");
    assert_eq!(m.on_exec_returned(), UpgradeAction::RestoreBackup);
    assert_eq!(m.on_restore_result(true), Ok(UpgradeAction::RelaunchOriginal));
    assert!(m.original_intact);
}

#[test]
fn failed_restore_is_distinguishably_terminal() {
    let mut m = UpgradeMachine::new();
    m.on_download_result(true).expect("downloaded");
    m.on_verify_result(true).expect("verified");
    m.on_engine_stopped();
    m.on_backup_result(true).expect("backed up");
    m.on_replace_result(false).expect("restore requested");
    assert_eq!(m.on_restore_result(false), Ok(UpgradeAction::Terminate));
}

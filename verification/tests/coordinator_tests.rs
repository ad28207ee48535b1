use dg_edge_updater::Action;
use dg_edge_updater::Binary;
use dg_edge_updater::Coordinator;
use dg_edge_updater::Event;
use dg_edge_updater::Manifest;
use dg_edge_updater::Outcome;
use dg_edge_updater::ServiceAction;
use dg_edge_updater::UpdateError;

fn manifest_with(version: &str) -> Manifest {
    Manifest { name: None, version: version.to_string(), date: None, author: None }
}

/// Runs a coordinator up to the local-version decision: manifest fetched
/// with `remote`, live binary reporting `local`.
fn resolved(backup_exists: bool, remote: &str, local: Option<&str>) -> (Coordinator, Action) {
    let (c, a) = Coordinator::new("x86_64", backup_exists);
    assert!(matches!(a, Action::FetchManifest));
    let (c, a) = c.step(Event::ManifestFetched { manifest: Some(manifest_with(remote)) });
    assert!(matches!(a, Action::QueryLiveVersion));
    c.step(Event::VersionReported { output: local.map(|s| s.to_string()) })
}

/// Runs a 1.1.9 -> 1.2.0 update up to the first start attempt: download,
/// permissions, verification, stop and swap all succeeded.
fn at_first_start_attempt(backup_exists: bool) -> (Coordinator, Action) {
    let (c, a) = resolved(backup_exists, "1.2.0", Some("1.1.9"));
    assert!(matches!(a, Action::Download { .. }));
    let (c, a) = c.step(Event::Transferred { ok: true });
    assert!(matches!(a, Action::MarkExecutable));
    let (c, a) = c.step(Event::PermissionsSet { ok: true });
    assert!(matches!(a, Action::QueryStagedVersion));
    let (c, a) = c.step(Event::VersionReported { output: Some("1.2.0".to_string()) });
    assert!(matches!(a, Action::ControlService { action: ServiceAction::Stop }));
    let (mut c, mut a) = c.step(Event::ServiceControlled { ok: true });
    if backup_exists {
        assert!(matches!(a, Action::DiscardBackup));
        let next = c.step(Event::BackupDiscarded);
        c = next.0;
        a = next.1;
        assert!(c.slots.backup.is_none());
    }
    assert!(matches!(a, Action::BackUpLive));
    let (c, a) = c.step(Event::LiveBackedUp { ok: true });
    assert!(matches!(a, Action::PromoteStaged));
    let (c, a) = c.step(Event::StagedPromoted { ok: true });
    assert!(matches!(a, Action::ControlService { action: ServiceAction::Start }));
    (c, a)
}

/// Runs an update to the point where all three start attempts with the new
/// binary have failed and the backup is about to be restored.
fn at_rollback_rename(backup_exists: bool) -> (Coordinator, Action) {
    let (mut c, _) = at_first_start_attempt(backup_exists);
    let mut starts: u64 = 1;
    loop {
        let next = c.step(Event::ServiceControlled { ok: false });
        c = next.0;
        match next.1 {
            Action::Delay { seconds } => assert_eq!(seconds, 2),
            _ => panic!("expected the fixed delay"),
        }
        let next = c.step(Event::DelayElapsed);
        c = next.0;
        match next.1 {
            Action::ControlService { action: ServiceAction::Start } => starts += 1,
            Action::ClearLive => break,
            _ => panic!("unexpected action after the delay"),
        }
    }
    assert_eq!(starts, 3);
    let (c, a) = c.step(Event::LiveCleared);
    assert!(matches!(a, Action::RestoreBackup));
    (c, a)
}

#[test]
fn unsupported_arch_terminates_before_any_network_request() {
    let (c, a) = Coordinator::new("riscv64", false);
    assert!(matches!(a, Action::Report));
    assert_eq!(
        c.outcome(),
        Some(Outcome::Failed { error: UpdateError::UnsupportedPlatform, critical: false })
    );
    assert_eq!(c.slots.live, Some(Binary::Prior));
}

#[test]
fn manifest_fetch_failure_fails_the_run() {
    let (c, _) = Coordinator::new("x86_64", false);
    let (c, a) = c.step(Event::ManifestFetched { manifest: None });
    assert!(matches!(a, Action::Report));
    assert_eq!(
        c.outcome(),
        Some(Outcome::Failed { error: UpdateError::ManifestFetch, critical: false })
    );
}

#[test]
fn malformed_manifest_version_fails_the_run() {
    let (c, _) = Coordinator::new("x86_64", false);
    let (c, a) = c.step(Event::ManifestFetched { manifest: Some(manifest_with("latest")) });
    assert!(matches!(a, Action::Report));
    assert_eq!(
        c.outcome(),
        Some(Outcome::Failed { error: UpdateError::InvalidVersion, critical: false })
    );
}

#[test]
fn equal_versions_terminate_up_to_date() {
    let (c, a) = resolved(false, "1.2.0", Some("1.2.0"));
    assert!(matches!(a, Action::Report));
    assert_eq!(c.outcome(), Some(Outcome::UpToDate));
    assert_eq!(c.slots.live, Some(Binary::Prior));
}

#[test]
fn older_remote_terminates_up_to_date() {
    let (c, a) = resolved(false, "1.1.0", Some("1.2.0"));
    assert!(matches!(a, Action::Report));
    assert_eq!(c.outcome(), Some(Outcome::UpToDate));
}

#[test]
fn newer_remote_requests_download_with_architecture_url() {
    let (_, a) = resolved(false, "1.2.0", Some("1.1.9"));
    match a {
        Action::Download { url } => {
            assert_eq!(url, "https://os.druid.garden/1.2.0/amd64/druid-garden-os.app");
        },
        _ => panic!("expected a download"),
    }
}

#[test]
fn missing_local_binary_counts_as_zero_and_updates() {
    let (_, a) = resolved(false, "0.0.1", None);
    assert!(matches!(a, Action::Download { .. }));
}

#[test]
fn download_failure_is_a_fetch_error() {
    let (c, _) = resolved(false, "1.2.0", Some("1.1.9"));
    let (c, a) = c.step(Event::Transferred { ok: false });
    assert!(matches!(a, Action::Report));
    assert_eq!(c.outcome(), Some(Outcome::Failed { error: UpdateError::Fetch, critical: false }));
    assert_eq!(c.slots.live, Some(Binary::Prior));
}

#[test]
fn permission_failure_fails_the_run() {
    let (c, _) = resolved(false, "1.2.0", Some("1.1.9"));
    let (c, _) = c.step(Event::Transferred { ok: true });
    let (c, a) = c.step(Event::PermissionsSet { ok: false });
    assert!(matches!(a, Action::Report));
    assert_eq!(
        c.outcome(),
        Some(Outcome::Failed { error: UpdateError::Permission, critical: false })
    );
}

#[test]
fn verification_mismatch_fails_and_leaves_live_untouched() {
    let (c, _) = resolved(false, "1.2.0", Some("1.1.9"));
    let (c, _) = c.step(Event::Transferred { ok: true });
    let (c, _) = c.step(Event::PermissionsSet { ok: true });
    let before = c.slots;
    let (c, a) = c.step(Event::VersionReported { output: Some("1.1.8".to_string()) });
    assert!(matches!(a, Action::Report));
    assert_eq!(
        c.outcome(),
        Some(Outcome::Failed { error: UpdateError::ArtifactVerificationFailed, critical: false })
    );
    assert_eq!(c.slots, before);
    assert_eq!(c.slots.live, Some(Binary::Prior));
}

#[test]
fn unreadable_staged_version_fails_verification() {
    let (c, _) = resolved(false, "1.2.0", Some("1.1.9"));
    let (c, _) = c.step(Event::Transferred { ok: true });
    let (c, _) = c.step(Event::PermissionsSet { ok: true });
    let (c, a) = c.step(Event::VersionReported { output: None });
    assert!(matches!(a, Action::Report));
    assert_eq!(
        c.outcome(),
        Some(Outcome::Failed { error: UpdateError::ArtifactVerificationFailed, critical: false })
    );
}

#[test]
fn stop_failure_fails_the_run_before_the_swap() {
    let (c, _) = resolved(false, "1.2.0", Some("1.1.9"));
    let (c, _) = c.step(Event::Transferred { ok: true });
    let (c, _) = c.step(Event::PermissionsSet { ok: true });
    let (c, _) = c.step(Event::VersionReported { output: Some("1.2.0".to_string()) });
    let (c, a) = c.step(Event::ServiceControlled { ok: false });
    assert!(matches!(a, Action::Report));
    assert_eq!(
        c.outcome(),
        Some(
            Outcome::Failed {
                error: UpdateError::ServiceControl(ServiceAction::Stop),
                critical: false,
            }
        )
    );
    assert_eq!(c.slots.live, Some(Binary::Prior));
}

#[test]
fn stale_backup_is_discarded_without_error() {
    let (c, a) = at_first_start_attempt(true);
    assert!(matches!(a, Action::ControlService { action: ServiceAction::Start }));
    assert_eq!(c.slots.backup, Some(Binary::Prior));
}

#[test]
fn rename_failure_is_critical_and_leaves_live_in_place() {
    let (c, _) = resolved(false, "1.2.0", Some("1.1.9"));
    let (c, _) = c.step(Event::Transferred { ok: true });
    let (c, _) = c.step(Event::PermissionsSet { ok: true });
    let (c, _) = c.step(Event::VersionReported { output: Some("1.2.0".to_string()) });
    let (c, _) = c.step(Event::ServiceControlled { ok: true });
    let (c, a) = c.step(Event::LiveBackedUp { ok: false });
    assert!(matches!(a, Action::Report));
    assert_eq!(c.outcome(), Some(Outcome::Failed { error: UpdateError::Swap, critical: true }));
    assert_eq!(c.slots.live, Some(Binary::Prior));
}

#[test]
fn copy_failure_is_critical() {
    let (c, _) = resolved(false, "1.2.0", Some("1.1.9"));
    let (c, _) = c.step(Event::Transferred { ok: true });
    let (c, _) = c.step(Event::PermissionsSet { ok: true });
    let (c, _) = c.step(Event::VersionReported { output: Some("1.2.0".to_string()) });
    let (c, _) = c.step(Event::ServiceControlled { ok: true });
    let (c, _) = c.step(Event::LiveBackedUp { ok: true });
    let (c, a) = c.step(Event::StagedPromoted { ok: false });
    assert!(matches!(a, Action::Report));
    assert_eq!(c.outcome(), Some(Outcome::Failed { error: UpdateError::Swap, critical: true }));
    assert!(c.outcome().unwrap().is_critical());
}

#[test]
fn update_succeeds_on_first_start() {
    let (c, _) = at_first_start_attempt(false);
    let (c, a) = c.step(Event::ServiceControlled { ok: true });
    assert!(matches!(a, Action::Report));
    assert_eq!(c.outcome(), Some(Outcome::Updated));
    assert_eq!(c.slots.live, Some(Binary::Fresh));
}

#[test]
fn start_success_on_second_attempt_stops_retrying() {
    let (c, _) = at_first_start_attempt(false);
    let (c, a) = c.step(Event::ServiceControlled { ok: false });
    match a {
        Action::Delay { seconds } => assert_eq!(seconds, 2),
        _ => panic!("expected the fixed delay"),
    }
    let (c, a) = c.step(Event::DelayElapsed);
    assert!(matches!(a, Action::ControlService { action: ServiceAction::Start }));
    let (c, a) = c.step(Event::ServiceControlled { ok: true });
    assert!(matches!(a, Action::Report));
    assert_eq!(c.outcome(), Some(Outcome::Updated));
}

#[test]
fn three_failed_starts_trigger_rollback_and_restore_succeeds() {
    let (c, _) = at_rollback_rename(false);
    let (c, a) = c.step(Event::BackupRestored { ok: true });
    assert!(matches!(a, Action::ControlService { action: ServiceAction::Start }));
    assert_eq!(c.slots.live, Some(Binary::Prior));
    assert_eq!(c.slots.backup, None);
    let (c, a) = c.step(Event::ServiceControlled { ok: true });
    assert!(matches!(a, Action::Report));
    assert_eq!(c.outcome(), Some(Outcome::RolledBack));
    assert_eq!(c.slots.live, Some(Binary::Prior));
    assert_eq!(c.slots.backup, None);
}

#[test]
fn rollback_rename_failure_is_critical_and_final() {
    let (c, _) = at_rollback_rename(false);
    let (c, a) = c.step(Event::BackupRestored { ok: false });
    assert!(matches!(a, Action::Report));
    assert_eq!(
        c.outcome(),
        Some(Outcome::Failed { error: UpdateError::Rollback, critical: true })
    );
    assert!(c.outcome().unwrap().is_critical());
}

#[test]
fn restored_binary_failing_to_start_is_critical() {
    let (c, _) = at_rollback_rename(false);
    let (c, _) = c.step(Event::BackupRestored { ok: true });
    let (c, a) = c.step(Event::ServiceControlled { ok: false });
    assert!(matches!(a, Action::Report));
    assert_eq!(
        c.outcome(),
        Some(
            Outcome::Failed {
                error: UpdateError::ServiceControl(ServiceAction::Start),
                critical: true,
            }
        )
    );
}

#[test]
fn non_critical_terminations_leave_a_live_binary() {
    let (c, _) = resolved(false, "1.0.0", Some("1.0.0"));
    assert!(c.slots.live.is_some());
    let (c2, _) = at_first_start_attempt(false);
    let (c2, _) = c2.step(Event::ServiceControlled { ok: true });
    assert!(c2.slots.live.is_some());
    let (c3, _) = at_rollback_rename(false);
    let (c3, _) = c3.step(Event::BackupRestored { ok: true });
    let (c3, _) = c3.step(Event::ServiceControlled { ok: true });
    assert!(c3.slots.live.is_some());
}

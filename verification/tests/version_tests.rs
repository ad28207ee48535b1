use dg_edge_updater::Manifest;
use dg_edge_updater::SemanticVersion;
use dg_edge_updater::UpdateError;
use dg_edge_updater::version::resolve_local_version;
use dg_edge_updater::version::resolve_remote_version;
use dg_edge_updater::version::update_warranted;

fn manifest_with(version: &str) -> Manifest {
    Manifest { name: None, version: version.to_string(), date: None, author: None }
}

fn v(major: u64, minor: u64, patch: u64) -> SemanticVersion {
    SemanticVersion { major, minor, patch }
}

#[test]
fn remote_version_parses_well_formed_string() {
    let m = manifest_with("1.2.3");
    assert_eq!(resolve_remote_version(&m), Ok(v(1, 2, 3)));
}

#[test]
fn remote_version_rejects_malformed_string() {
    let m = manifest_with("not-a-version");
    assert_eq!(resolve_remote_version(&m), Err(UpdateError::InvalidVersion));
}

#[test]
fn remote_version_rejects_partial_string() {
    let m = manifest_with("1.2");
    assert_eq!(resolve_remote_version(&m), Err(UpdateError::InvalidVersion));
}

#[test]
fn local_version_of_missing_binary_is_zero() {
    assert_eq!(resolve_local_version(&None), v(0, 0, 0));
}

#[test]
fn local_version_of_unparsable_output_is_zero() {
    assert_eq!(resolve_local_version(&Some("druid garden".to_string())), v(0, 0, 0));
}

#[test]
fn local_version_of_well_formed_output_parses() {
    assert_eq!(resolve_local_version(&Some("2.4.6".to_string())), v(2, 4, 6));
}

#[test]
fn update_proceeds_when_remote_is_newer() {
    assert!(update_warranted(&v(1, 2, 0), &v(1, 1, 9)));
    assert!(update_warranted(&v(2, 0, 0), &v(1, 9, 9)));
    assert!(update_warranted(&v(1, 2, 1), &v(1, 2, 0)));
    assert!(update_warranted(&v(0, 0, 1), &v(0, 0, 0)));
}

#[test]
fn update_skipped_when_remote_equal_or_older() {
    assert!(!update_warranted(&v(1, 2, 0), &v(1, 2, 0)));
    assert!(!update_warranted(&v(1, 1, 9), &v(1, 2, 0)));
    assert!(!update_warranted(&v(0, 0, 0), &v(0, 0, 0)));
}

#[test]
fn version_comparison_is_lexicographic() {
    assert!(v(1, 0, 0).precedes(&v(2, 0, 0)));
    assert!(v(1, 9, 9).precedes(&v(2, 0, 0)));
    assert!(!v(2, 0, 0).precedes(&v(1, 9, 9)));
    assert!(v(1, 2, 3).precedes(&v(1, 3, 0)));
    assert!(!v(1, 2, 3).precedes(&v(1, 2, 3)));
}

#[test]
fn zero_version_is_sentinel() {
    assert_eq!(SemanticVersion::zero(), v(0, 0, 0));
}

use served_bootstrap::decide::should_update;
use served_bootstrap::errors::InstallError;
use served_bootstrap::ledger::read_ledger;
use served_bootstrap::version::SemVer;

#[test]
fn parse_accepts_versions() {
    let v = SemVer::parse("1.5.0").unwrap();
    assert_eq!(v.as_str(), "1.5.0");
    assert!(SemVer::parse("0.0.0").is_some());
    assert!(SemVer::parse("1.0.0-beta.14").is_some());
}

#[test]
fn parse_rejects_other_text() {
    assert!(SemVer::parse("").is_none());
    assert!(SemVer::parse("v1.5.0").is_none());
    assert!(SemVer::parse("1.5").is_none());
    assert!(SemVer::parse("one.two.three").is_none());
}

#[test]
fn precedes_orders_versions() {
    let low = SemVer::parse("1.2.0").unwrap();
    let high = SemVer::parse("2.0.0").unwrap();
    assert!(low.precedes(&high));
    assert!(!high.precedes(&low));
    assert!(!low.precedes(&low));
}

#[test]
fn precedes_orders_prereleases() {
    let pre = SemVer::parse("1.0.0-alpha").unwrap();
    let rel = SemVer::parse("1.0.0").unwrap();
    assert!(pre.precedes(&rel));
    assert!(!rel.precedes(&pre));
}

#[test]
fn baseline_is_origin_version() {
    let b = SemVer::baseline();
    assert_eq!(b.as_str(), "0.0.0");
    let one = SemVer::parse("1.0.0").unwrap();
    assert!(b.precedes(&one));
}

// The decision table: update exactly when the directory is fresh or the
// installed version sorts strictly above the remote tag.

#[test]
fn update_table_baseline_vs_newer() {
    let installed = SemVer::parse("0.0.0").unwrap();
    let remote = SemVer::parse("1.2.0").unwrap();
    assert!(should_update(&installed, &remote, true));
    assert!(!should_update(&installed, &remote, false));
}

#[test]
fn update_table_installed_above_remote() {
    let installed = SemVer::parse("2.0.0").unwrap();
    let remote = SemVer::parse("1.2.0").unwrap();
    assert!(should_update(&installed, &remote, false));
}

#[test]
fn update_table_equal_versions() {
    let installed = SemVer::parse("1.2.0").unwrap();
    let remote = SemVer::parse("1.2.0").unwrap();
    assert!(!should_update(&installed, &remote, false));
}

#[test]
fn update_not_taken_when_remote_newer() {
    // The comparison is deliberately inverted: a newer remote tag alone does
    // not trigger an update on an existing directory.
    let installed = SemVer::parse("1.2.0").unwrap();
    let remote = SemVer::parse("2.0.0").unwrap();
    assert!(!should_update(&installed, &remote, false));
}

// The ledger.

#[test]
fn ledger_round_trip() {
    // The marker written as "1.5.0" reads back as semantic version 1.5.0
    // exactly.
    let read = read_ledger(true, Some("1.5.0")).unwrap();
    assert_eq!(read.installed.as_str(), "1.5.0");
    assert!(!read.fresh_dir);
    let parsed = semver::Version::parse(read.installed.as_str()).unwrap();
    assert_eq!(parsed, semver::Version::new(1, 5, 0));
}

#[test]
fn ledger_corrupt_marker_is_fatal() {
    assert!(matches!(
        read_ledger(true, Some("not a version")),
        Err(InstallError::LedgerParseFailed)
    ));
}

#[test]
fn ledger_missing_directory_is_fresh_baseline() {
    let read = read_ledger(false, None).unwrap();
    assert_eq!(read.installed.as_str(), "0.0.0");
    assert!(read.fresh_dir);
}

#[test]
fn ledger_missing_marker_is_baseline() {
    let read = read_ledger(true, None).unwrap();
    assert_eq!(read.installed.as_str(), "0.0.0");
    assert!(!read.fresh_dir);
}

//! Tests of the manifest-locating decision.

use docsrs_metadata::locator::locate_decision;
use docsrs_metadata::locator::manifest_candidates;
use docsrs_metadata::LocateError;

#[test]
fn candidates_prefer_the_pristine_manifest() {
    let candidates = manifest_candidates();
    assert_eq!(candidates.len(), 2);
    assert_eq!(candidates[0], "Cargo.toml.orig".to_owned());
    assert_eq!(candidates[1], "Cargo.toml".to_owned());
}

#[test]
fn canonical_manifest_alone_is_located() {
    let candidates = manifest_candidates();
    let exists = vec![false, true];
    let picked = locate_decision(true, &exists).unwrap();
    assert_eq!(candidates[picked], "Cargo.toml".to_owned());
}

#[test]
fn pristine_manifest_wins_when_both_exist() {
    let candidates = manifest_candidates();
    let exists = vec![true, true];
    let picked = locate_decision(true, &exists).unwrap();
    assert_eq!(candidates[picked], "Cargo.toml.orig".to_owned());
}

#[test]
fn missing_source_dir_is_reported() {
    let err = locate_decision(false, &vec![true, true]).unwrap_err();
    assert_eq!(err, LocateError::SourcePathUnavailable);
    assert_eq!(err.message(), "Source path not available".to_owned());
}

#[test]
fn missing_manifest_is_reported() {
    let err = locate_decision(true, &vec![false, false]).unwrap_err();
    assert_eq!(err, LocateError::ManifestNotFound);
    assert_eq!(err.message(), "Manifest not found".to_owned());
}

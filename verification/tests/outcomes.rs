//! Exercises the outcome functions that decide a caller's result from a
//! driver call read out as plain values, and the listing reduction.

use opendalr::operator::{child_names, exists_outcome, operation_outcome, removal_outcome};
use opendalr::{BackendFault, ErrorKind, FaultReport};

fn fault(fault: BackendFault) -> FaultReport {
    FaultReport { fault, message: "diagnostic".to_string() }
}

#[test]
fn exists_outcome_reports_success_as_true() {
    assert_eq!(exists_outcome(Ok(())).unwrap(), true);
}

#[test]
fn exists_outcome_reports_not_found_as_false() {
    assert_eq!(exists_outcome(Err(fault(BackendFault::NotFound))).unwrap(), false);
}

#[test]
fn exists_outcome_raises_other_faults_by_kind() {
    let err = exists_outcome(Err(fault(BackendFault::PermissionDenied))).unwrap_err();
    assert_eq!(err.kind, ErrorKind::Permission);
    assert_eq!(err.message, "diagnostic");
}

#[test]
fn removal_outcome_treats_not_found_as_success() {
    assert!(removal_outcome(Ok(())).is_ok());
    assert!(removal_outcome(Err(fault(BackendFault::NotFound))).is_ok());
}

#[test]
fn removal_outcome_raises_other_faults_by_kind() {
    let err = removal_outcome(Err(fault(BackendFault::Other))).unwrap_err();
    assert_eq!(err.kind, ErrorKind::Backend);
    assert_eq!(err.message, "diagnostic");
}

#[test]
fn operation_outcome_hands_success_through() {
    assert_eq!(operation_outcome::<u32>(Ok(7)).unwrap(), 7);
}

#[test]
fn operation_outcome_maps_each_fault_to_its_kind() {
    let cases = vec![
        (BackendFault::NotFound, ErrorKind::NotFound),
        (BackendFault::PermissionDenied, ErrorKind::Permission),
        (BackendFault::IsADirectory, ErrorKind::IsADirectory),
        (BackendFault::NotADirectory, ErrorKind::NotADirectory),
        (BackendFault::ConfigInvalid, ErrorKind::Backend),
        (BackendFault::Other, ErrorKind::Backend),
    ];
    for (f, expected) in cases {
        let err = operation_outcome::<u32>(Err(fault(f))).unwrap_err();
        assert_eq!(err.kind, expected);
        assert_eq!(err.message, "diagnostic");
    }
}

fn pair(path: &str, name: &str) -> (String, String) {
    (path.to_string(), name.to_string())
}

#[test]
fn child_names_drops_the_root_entry_of_a_root_listing() {
    let entries = vec![pair("/", "/"), pair("x.txt", "x.txt")];
    assert_eq!(child_names(&entries, ""), vec!["x.txt".to_string()]);
}

#[test]
fn child_names_drops_the_listed_directory_itself() {
    let entries = vec![pair("dir/", "dir/"), pair("dir/file", "file"), pair("dir/sub/", "sub/")];
    assert_eq!(child_names(&entries, "dir/"), vec!["file".to_string(), "sub/".to_string()]);
}

#[test]
fn child_names_keeps_a_child_named_like_its_parent() {
    let entries = vec![pair("dir/", "dir/"), pair("dir/dir/", "dir/")];
    assert_eq!(child_names(&entries, "dir/"), vec!["dir/".to_string()]);
}

#[test]
fn child_names_of_a_bare_self_listing_is_empty() {
    let entries = vec![pair("hollow/", "hollow/")];
    assert_eq!(child_names(&entries, "hollow/"), Vec::<String>::new());
}

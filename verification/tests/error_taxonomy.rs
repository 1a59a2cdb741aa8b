//! Exercises the normalization of backend faults into the error taxonomy.

use opendalr::{BackendFault, ErrorKind, StorageError};

#[test]
fn each_operation_fault_maps_to_its_kind() {
    let cases = vec![
        (BackendFault::NotFound, ErrorKind::NotFound),
        (BackendFault::PermissionDenied, ErrorKind::Permission),
        (BackendFault::IsADirectory, ErrorKind::IsADirectory),
        (BackendFault::NotADirectory, ErrorKind::NotADirectory),
        (BackendFault::ConfigInvalid, ErrorKind::Backend),
        (BackendFault::Other, ErrorKind::Backend),
    ];
    for (fault, expected) in cases {
        let err = StorageError::from_operation_fault(fault, "diagnostic".to_string());
        assert_eq!(err.kind, expected);
        assert_eq!(err.message, "diagnostic");
    }
}

#[test]
fn no_operation_fault_maps_to_configuration() {
    let faults = vec![
        BackendFault::NotFound,
        BackendFault::PermissionDenied,
        BackendFault::IsADirectory,
        BackendFault::NotADirectory,
        BackendFault::ConfigInvalid,
        BackendFault::Other,
    ];
    for fault in faults {
        let err = StorageError::from_operation_fault(fault, String::new());
        assert_ne!(err.kind, ErrorKind::Configuration);
    }
}

#[test]
fn construction_faults_always_map_to_configuration() {
    let err = StorageError::from_construction_fault("root unusable".to_string());
    assert_eq!(err.kind, ErrorKind::Configuration);
    assert_eq!(err.message, "root unusable");
}

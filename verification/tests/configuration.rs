//! Exercises object-store configuration assembly and the construction
//! error path, without any network call.

use opendalr::{ErrorKind, GcsConfig, OpenDALOperator};

#[test]
fn empty_bucket_is_a_configuration_error() {
    let err = OpenDALOperator::new_gcs(
        String::new(),
        None,
        None,
        None,
        None,
        None,
        None,
    )
    .unwrap_err();
    assert_eq!(err.kind, ErrorKind::Configuration);
}

#[test]
fn empty_filesystem_root_is_a_configuration_error() {
    let err = OpenDALOperator::new_fs(String::new()).unwrap_err();
    assert_eq!(err.kind, ErrorKind::Configuration);
    assert!(!err.message.is_empty());
}

#[test]
fn credential_path_takes_priority_over_inline_material() {
    let cfg = GcsConfig::assemble(
        "bucket".to_string(),
        Some("/secrets/key.json".to_string()),
        Some("{\"inline\":true}".to_string()),
        None,
        None,
        None,
        None,
    )
    .unwrap();
    assert_eq!(cfg.credential_path.as_deref(), Some("/secrets/key.json"));
    assert_eq!(cfg.credential_json, None);
}

#[test]
fn inline_material_applies_when_no_path_is_given() {
    let cfg = GcsConfig::assemble(
        "bucket".to_string(),
        None,
        Some("{\"inline\":true}".to_string()),
        None,
        None,
        None,
        None,
    )
    .unwrap();
    assert_eq!(cfg.credential_path, None);
    assert_eq!(cfg.credential_json.as_deref(), Some("{\"inline\":true}"));
}

#[test]
fn optional_fields_are_carried_over_verbatim() {
    let cfg = GcsConfig::assemble(
        "bucket".to_string(),
        None,
        None,
        Some("https://storage.example".to_string()),
        Some("STANDARD".to_string()),
        Some("publicRead".to_string()),
        Some("/prefix".to_string()),
    )
    .unwrap();
    assert_eq!(cfg.bucket, "bucket");
    assert_eq!(cfg.endpoint.as_deref(), Some("https://storage.example"));
    assert_eq!(cfg.default_storage_class.as_deref(), Some("STANDARD"));
    assert_eq!(cfg.predefined_acl.as_deref(), Some("publicRead"));
    assert_eq!(cfg.root.as_deref(), Some("/prefix"));
}

#[test]
fn empty_bucket_is_rejected_before_any_driver_is_built() {
    let err = GcsConfig::assemble(
        String::new(),
        Some("/secrets/key.json".to_string()),
        None,
        None,
        None,
        None,
        None,
    )
    .unwrap_err();
    assert_eq!(err.kind, ErrorKind::Configuration);
    assert!(!err.message.is_empty());
}

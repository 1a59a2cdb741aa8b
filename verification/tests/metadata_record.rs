//! Exercises the metadata record's accessors on directly built records.

use opendalr::{EntryKind, OpenDALMetadata};

fn record(kind: EntryKind) -> OpenDALMetadata {
    OpenDALMetadata {
        kind,
        content_length: 1234,
        cache_control: Some("max-age=60".to_string()),
        content_md5: None,
        content_type: Some("text/plain".to_string()),
        etag: Some("\"abc\"".to_string()),
        content_disposition: None,
        version: None,
    }
}

#[test]
fn file_record_reports_file_only() {
    let m = record(EntryKind::File);
    assert!(m.is_file());
    assert!(!m.is_dir());
}

#[test]
fn dir_record_reports_dir_only() {
    let m = record(EntryKind::Dir);
    assert!(m.is_dir());
    assert!(!m.is_file());
}

#[test]
fn unclassified_record_reports_neither_flag() {
    let m = record(EntryKind::Unknown);
    assert!(!m.is_file());
    assert!(!m.is_dir());
}

#[test]
fn accessors_project_the_stored_attributes() {
    let m = record(EntryKind::File);
    assert_eq!(m.content_length(), 1234);
    assert_eq!(m.cache_control(), Some("max-age=60"));
    assert_eq!(m.content_md5(), None);
    assert_eq!(m.content_type(), Some("text/plain"));
    assert_eq!(m.etag(), Some("\"abc\""));
    assert_eq!(m.content_disposition(), None);
    assert_eq!(m.version(), None);
}

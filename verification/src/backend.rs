//! The trusted boundary to the backend driver crate.
//!
//! Everything that actually touches storage goes through the `opendal`
//! crate. Each item here either declares one of its types or wraps one
//! call into it, converting the driver's values to the library's plain
//! values on the way out; nothing else in the library is trusted.

use vstd::prelude::*;

use crate::error::BackendFault;
use crate::gcs_config::GcsConfig;
use crate::info::OpenDALOperatorInfo;
use crate::metadata::{EntryKind, OpenDALMetadata};

verus! {

/// Declares `opendal::BlockingOperator`, the live driver connection that an
/// operator owns. Opaque to verification; every use goes through a wrapper
/// below.
#[verifier::external_type_specification]
#[verifier::external_body]
pub struct ExBlockingOperator(opendal::BlockingOperator);

/// Declares `opendal::Error`, the driver's error type. Its kind and message
/// are read through [`fault_kind_of`] and [`fault_message_of`].
#[verifier::external_type_specification]
#[verifier::external_body]
pub struct ExError(opendal::Error);

/// Declares `opendal::Metadata`, the driver's description of one entry,
/// read out as a plain record by [`record_of`].
#[verifier::external_type_specification]
#[verifier::external_body]
pub struct ExMetadata(opendal::Metadata);

/// Relies on `opendal::Error::kind`: every driver error carries exactly one
/// kind; the match forwards each kind this library distinguishes and folds
/// the rest into `Other`.
#[verifier::external_body]
pub(crate) fn fault_kind_of(e: &opendal::Error) -> (f: BackendFault) {
    match e.kind() {
        opendal::ErrorKind::NotFound => BackendFault::NotFound,
        opendal::ErrorKind::PermissionDenied => BackendFault::PermissionDenied,
        opendal::ErrorKind::IsADirectory => BackendFault::IsADirectory,
        opendal::ErrorKind::NotADirectory => BackendFault::NotADirectory,
        opendal::ErrorKind::ConfigInvalid => BackendFault::ConfigInvalid,
        _ => BackendFault::Other,
    }
}

/// Relies on `opendal::Error`'s `Display` implementation: it renders the
/// driver's full diagnostic for the failure.
#[verifier::external_body]
pub(crate) fn fault_message_of(e: &opendal::Error) -> (m: String) {
    e.to_string()
}

/// Relies on `opendal::services::Fs` and `opendal::Operator::new` /
/// `finish` / `blocking`: builds a blocking filesystem driver rooted at the
/// given directory, creating the root if it is missing, or reports why the
/// root cannot be used. An empty root path leaves the driver without a
/// root, which its build step rejects, so construction fails on it.
#[verifier::external_body]
pub(crate) fn build_fs(root_path: &str) -> (r: Result<opendal::BlockingOperator, opendal::Error>)
    ensures
        root_path@.len() == 0 ==> r is Err,
{
    let builder = opendal::services::Fs::default().root(root_path);
    Ok(opendal::Operator::new(builder)?.finish().blocking())
}

/// Relies on `opendal::services::Gcs` and `opendal::Operator::new` /
/// `finish` / `blocking`: applies each present configuration field verbatim
/// to the object-store builder and builds the blocking driver. A
/// well-formed configuration is required so that at most one credential
/// field is handed to the builder.
#[verifier::external_body]
pub(crate) fn build_gcs(cfg: &GcsConfig) -> (r: Result<opendal::BlockingOperator, opendal::Error>)
    requires
        cfg.wf(),
{
    let mut b = opendal::services::Gcs::default().bucket(&cfg.bucket);
    if let Some(v) = &cfg.credential_path { b = b.credential_path(v); }
    if let Some(v) = &cfg.credential_json { b = b.credential(v); }
    if let Some(v) = &cfg.endpoint { b = b.endpoint(v); }
    if let Some(v) = &cfg.default_storage_class { b = b.default_storage_class(v); }
    if let Some(v) = &cfg.predefined_acl { b = b.predefined_acl(v); }
    if let Some(v) = &cfg.root { b = b.root(v); }
    Ok(opendal::Operator::new(b)?.finish().blocking())
}

/// Relies on `opendal::BlockingOperator::info` and the accessors of
/// `opendal::OperatorInfo` (`scheme`, `root`, `name`): reads the driver's
/// descriptor of this operator out as plain text, attribute by attribute.
#[verifier::external_body]
pub(crate) fn op_info(op: &opendal::BlockingOperator) -> (r: OpenDALOperatorInfo) {
    let info = op.info();
    OpenDALOperatorInfo {
        scheme: info.scheme().to_string(),
        root: info.root().to_string(),
        name: info.name().to_string(),
    }
}

/// Relies on the accessors of `opendal::Metadata` (`mode`,
/// `content_length`, and the optional attribute getters): reads the
/// driver's metadata value out as a plain record, field by field; each
/// optional attribute is absent exactly when the driver left it
/// unpopulated.
#[verifier::external_body]
pub(crate) fn record_of(m: &opendal::Metadata) -> (r: OpenDALMetadata) {
    let kind = match m.mode() {
        opendal::EntryMode::FILE => EntryKind::File,
        opendal::EntryMode::DIR => EntryKind::Dir,
        opendal::EntryMode::Unknown => EntryKind::Unknown,
    };
    OpenDALMetadata {
        kind,
        content_length: m.content_length(),
        cache_control: m.cache_control().map(String::from),
        content_md5: m.content_md5().map(String::from),
        content_type: m.content_type().map(String::from),
        etag: m.etag().map(String::from),
        content_disposition: m.content_disposition().map(String::from),
        version: m.version().map(String::from),
    }
}

/// Relies on `opendal::BlockingOperator::stat`: queries the backend for
/// the metadata of one path, read out as a plain record through
/// [`record_of`], or returns the driver's error (`NotFound` kind when the
/// path does not exist).
#[verifier::external_body]
pub(crate) fn op_stat(op: &opendal::BlockingOperator, path: &str) -> (r: Result<
    OpenDALMetadata,
    opendal::Error,
>) {
    match op.stat(path) {
        Ok(m) => Ok(record_of(&m)),
        Err(e) => Err(e),
    }
}

/// Relies on `opendal::BlockingOperator::create_dir`: creates a directory
/// entry at the path.
#[verifier::external_body]
pub(crate) fn op_create_dir(op: &opendal::BlockingOperator, path: &str) -> (r: Result<
    (),
    opendal::Error,
>) {
    op.create_dir(path)
}

/// Relies on `opendal::BlockingOperator::list` and the accessors of
/// `opendal::Entry` (`path`, `name`): returns the entries under the path,
/// non-recursively, each read out as its (path, name) pair of plain text.
/// The driver reports the listed directory itself among the entries and
/// reports a missing path as an empty listing; both are normalized by the
/// caller.
#[verifier::external_body]
pub(crate) fn op_list(op: &opendal::BlockingOperator, path: &str) -> (r: Result<
    Vec<(String, String)>,
    opendal::Error,
>) {
    match op.list(path) {
        Ok(entries) => Ok(
            entries.iter().map(|e| (e.path().to_string(), e.name().to_string())).collect(),
        ),
        Err(e) => Err(e),
    }
}

/// Relies on `opendal::BlockingOperator::read`: reads the full content at
/// the path, copied out as owned bytes.
#[verifier::external_body]
pub(crate) fn op_read(op: &opendal::BlockingOperator, path: &str) -> (r: Result<
    Vec<u8>,
    opendal::Error,
>) {
    match op.read(path) {
        Ok(buffer) => Ok(buffer.to_vec()),
        Err(e) => Err(e),
    }
}

/// Relies on `opendal::BlockingOperator::write`: creates or overwrites the
/// entry at the path with the given bytes. The metadata the driver returns
/// for the written entry is discarded.
#[verifier::external_body]
pub(crate) fn op_write(op: &opendal::BlockingOperator, path: &str, data: Vec<u8>) -> (r: Result<
    (),
    opendal::Error,
>) {
    match op.write(path, data) {
        Ok(_) => Ok(()),
        Err(e) => Err(e),
    }
}

/// Relies on `opendal::BlockingOperator::delete`: removes the entry at the
/// path; deleting a missing path is not an error.
#[verifier::external_body]
pub(crate) fn op_delete(op: &opendal::BlockingOperator, path: &str) -> (r: Result<
    (),
    opendal::Error,
>) {
    op.delete(path)
}

/// Relies on `opendal::BlockingOperator::copy`: duplicates content from the
/// source path to the destination path.
#[verifier::external_body]
pub(crate) fn op_copy(op: &opendal::BlockingOperator, from: &str, to: &str) -> (r: Result<
    (),
    opendal::Error,
>) {
    op.copy(from, to)
}

/// Relies on `opendal::BlockingOperator::rename`: moves the entry at the
/// old path to the new path, overwriting an existing destination.
#[verifier::external_body]
pub(crate) fn op_rename(op: &opendal::BlockingOperator, from: &str, to: &str) -> (r: Result<
    (),
    opendal::Error,
>) {
    op.rename(from, to)
}

/// Relies on `opendal::BlockingOperator::remove_all`: recursively deletes
/// the path and everything beneath it; a missing path is not an error.
#[verifier::external_body]
pub(crate) fn op_remove_all(op: &opendal::BlockingOperator, path: &str) -> (r: Result<
    (),
    opendal::Error,
>) {
    op.remove_all(path)
}

} // verus!

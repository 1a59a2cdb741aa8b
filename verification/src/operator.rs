//! The operator facade: one uniform, blocking operation set over exactly
//! one configured backend driver.
//!
//! Every operation forwards to the driver through the trusted boundary and
//! then decides the caller's result here, through outcome functions over
//! plain values whose contracts are exact: driver errors are mapped into
//! the library's error taxonomy, a missing path on `path_exists`, `delete`
//! and `remove_all` becomes a normal result instead of a failure, and a
//! listing is reduced to the direct children the caller asked for.

use vstd::prelude::*;

use crate::backend;
use crate::error::{BackendFault, ErrorKind, FaultReport, StorageError};
use crate::gcs_config::GcsConfig;
use crate::info::OpenDALOperatorInfo;
use crate::metadata::OpenDALMetadata;
use vstd::string::StrSliceExecFns;
use vstd::string::StringExecFns;

verus! {

broadcast use vstd::string::group_string_axioms;

/// Reads a driver error out as plain values: its classification and its
/// diagnostic message. What the report holds depends on the driver alone;
/// everything decided on it afterwards is contracted.
fn fault_report_of(e: &opendal::Error) -> (r: FaultReport) {
    FaultReport { fault: backend::fault_kind_of(e), message: backend::fault_message_of(e) }
}

/// Normalizes a driver error observed while constructing an operator:
/// whatever the driver reported, the caller sees a configuration error.
fn construction_error(e: opendal::Error) -> (r: StorageError)
    ensures
        r.kind == ErrorKind::Configuration,
{
    let message = backend::fault_message_of(&e);
    StorageError::from_construction_fault(message)
}

/// Decides the caller's result for an operation that owes the value the
/// backend produced: a success is handed through unchanged, and a fault is
/// mapped to exactly the error kind the taxonomy assigns it, with the
/// driver's message kept verbatim. No fault maps to `Configuration`.
pub fn operation_outcome<T>(outcome: Result<T, FaultReport>) -> (r: Result<T, StorageError>)
    ensures
        outcome matches Ok(v) ==> (r matches Ok(w) && w == v),
        outcome matches Err(f) ==> (r matches Err(e) && e.kind == crate::error::normalize_fault(
            f.fault,
        ) && e.kind != ErrorKind::Configuration && e.message == f.message),
{
    match outcome {
        Ok(v) => Ok(v),
        Err(f) => Err(StorageError::from_operation_fault(f.fault, f.message)),
    }
}

/// Decides the caller's result for an existence check: a successful lookup
/// means the path exists, the backend's not-found response means it does
/// not — a normal `false`, never an error — and every other fault is
/// mapped to exactly its taxonomy kind. No fault maps to `Configuration`.
pub fn exists_outcome(outcome: Result<(), FaultReport>) -> (r: Result<bool, StorageError>)
    ensures
        outcome is Ok ==> (r matches Ok(b) && b == true),
        outcome matches Err(f) ==> {
            &&& f.fault == BackendFault::NotFound ==> (r matches Ok(b) && b == false)
            &&& f.fault != BackendFault::NotFound ==> (r matches Err(e) && e.kind
                == crate::error::normalize_fault(f.fault) && e.kind != ErrorKind::Configuration
                && e.message == f.message)
        },
{
    match outcome {
        Ok(_) => Ok(true),
        Err(f) => match f.fault {
            BackendFault::NotFound => Ok(false),
            _ => Err(StorageError::from_operation_fault(f.fault, f.message)),
        },
    }
}

/// Decides the caller's result for an idempotent removal: a success is
/// handed through, the backend's not-found response is also a success —
/// removing what is absent is a no-op, never an error — and every other
/// fault is mapped to exactly its taxonomy kind. No fault maps to
/// `Configuration`.
pub fn removal_outcome(outcome: Result<(), FaultReport>) -> (r: Result<(), StorageError>)
    ensures
        outcome is Ok ==> r is Ok,
        outcome matches Err(f) ==> {
            &&& f.fault == BackendFault::NotFound ==> r is Ok
            &&& f.fault != BackendFault::NotFound ==> (r matches Err(e) && e.kind
                == crate::error::normalize_fault(f.fault) && e.kind != ErrorKind::Configuration
                && e.message == f.message)
        },
{
    match outcome {
        Ok(_) => Ok(()),
        Err(f) => match f.fault {
            BackendFault::NotFound => Ok(()),
            _ => Err(StorageError::from_operation_fault(f.fault, f.message)),
        },
    }
}

/// The listed path as the driver reports it among the entries: the empty
/// path denotes the root, which the driver reports as `/`.
pub open spec fn spec_listed_path(listed: Seq<char>) -> Seq<char> {
    if listed.len() == 0 {
        seq!['/']
    } else {
        listed
    }
}

/// The direct children of a listing of `(path, name)` pairs: every entry
/// whose path is not the listed directory itself, reduced to its name, in
/// listing order.
pub open spec fn spec_child_names(entries: Seq<(String, String)>, self_path: Seq<char>) -> Seq<
    String,
>
    decreases entries.len(),
{
    if entries.len() == 0 {
        Seq::empty()
    } else {
        let rest = spec_child_names(entries.drop_last(), self_path);
        if entries.last().0@ == self_path {
            rest
        } else {
            rest.push(entries.last().1)
        }
    }
}

/// Reduces a driver listing to the names of the direct children, exactly
/// as [`spec_child_names`] states it: the entry reporting the listed
/// directory itself is dropped, every other entry contributes its name,
/// in listing order.
pub fn child_names(entries: &Vec<(String, String)>, listed: &str) -> (names: Vec<String>)
    ensures
        names@ == spec_child_names(entries@, spec_listed_path(listed@)),
{
    let self_path: String = if listed.unicode_len() == 0 {
        "/".to_string()
    } else {
        String::from_str(listed)
    };
    proof {
        reveal_strlit("/");
        assert(self_path@ =~= spec_listed_path(listed@));
    }
    let mut names: Vec<String> = Vec::new();
    let mut i: usize = 0;
    while i < entries.len()
        invariant
            i <= entries@.len(),
            self_path@ == spec_listed_path(listed@),
            names@ == spec_child_names(entries@.subrange(0, i as int), self_path@),
        decreases entries@.len() - i,
    {
        proof {
            assert(entries@.subrange(0, (i + 1) as int).drop_last() =~= entries@.subrange(
                0,
                i as int,
            ));
            assert(entries@.subrange(0, (i + 1) as int).last() == entries@[i as int]);
        }
        let pair = &entries[i];
        if !(pair.0 == self_path) {
            names.push(pair.1.clone());
        }
        i = i + 1;
    }
    proof {
        assert(entries@.subrange(0, entries@.len() as int) =~= entries@);
    }
    names
}

/// An operator owns exactly one live, configured backend driver; its
/// backend kind and root are fixed at construction and every call is a
/// synchronous method that blocks until the backend responds. Releasing
/// the operator releases the driver's connection and handles.
#[derive(Debug)]
pub struct OpenDALOperator {
    op: opendal::BlockingOperator,
    info: OpenDALOperatorInfo,
}

impl OpenDALOperator {
    /// The descriptor read from the driver when this operator was
    /// constructed; it never changes afterwards.
    pub closed spec fn descriptor(self) -> OpenDALOperatorInfo {
        self.info
    }

    /// Constructs an operator over the local filesystem, rooted at the
    /// given directory.
    ///
    /// All paths handed to the operator are interpreted relative to that
    /// root. An empty root, or a root the driver cannot use, is reported
    /// as a configuration error; no partially configured operator is ever
    /// observable. At the driver boundary: a missing root directory is
    /// created eagerly rather than rejected.
    pub fn new_fs(root_path: String) -> (r: Result<OpenDALOperator, StorageError>)
        ensures
            root_path@.len() == 0 ==> r is Err,
            r matches Err(e) ==> e.kind == ErrorKind::Configuration,
    {
        match backend::build_fs(root_path.as_str()) {
            Ok(op) => {
                let info = backend::op_info(&op);
                Ok(OpenDALOperator { op, info })
            },
            Err(e) => Err(construction_error(e)),
        }
    }

    /// Constructs an operator over the cloud object store.
    ///
    /// The bucket is required: an empty bucket is rejected as a
    /// configuration error before any driver is built. When both
    /// credential sources are supplied, `credential_path` takes priority
    /// and the inline material is never applied; all other optional fields
    /// are applied verbatim, and backend defaults fill the absent ones.
    /// At the driver boundary: credential material is loaded lazily, so a
    /// malformed credential surfaces when the driver first uses it, not
    /// here.
    pub fn new_gcs(
        bucket: String,
        credential_path: Option<String>,
        credential_json_content: Option<String>,
        endpoint: Option<String>,
        default_storage_class: Option<String>,
        predefined_acl: Option<String>,
        root: Option<String>,
    ) -> (r: Result<OpenDALOperator, StorageError>)
        ensures
            bucket@.len() == 0 ==> r is Err,
            r matches Err(e) ==> e.kind == ErrorKind::Configuration,
    {
        let config = match GcsConfig::assemble(
            bucket,
            credential_path,
            credential_json_content,
            endpoint,
            default_storage_class,
            predefined_acl,
            root,
        ) {
            Ok(c) => c,
            Err(e) => {
                return Err(e);
            },
        };
        match backend::build_gcs(&config) {
            Ok(op) => {
                let info = backend::op_info(&op);
                Ok(OpenDALOperator { op, info })
            },
            Err(e) => Err(construction_error(e)),
        }
    }

    /// The descriptor of this operator: backend scheme, configured root
    /// and backend-assigned name. It is read from the driver once, at
    /// construction, and never changes afterwards: every call returns that
    /// same stored descriptor.
    pub fn info(&self) -> (r: OpenDALOperatorInfo)
        ensures
            r == self.descriptor(),
    {
        OpenDALOperatorInfo {
            scheme: self.info.scheme.clone(),
            root: self.info.root.clone(),
            name: self.info.name.clone(),
        }
    }

    /// Whether an entry exists at the path.
    ///
    /// A missing path is a normal `false` result, never an error: this is
    /// the one operation that converts the backend's not-found response
    /// into a value, as [`exists_outcome`] states exactly. Only genuine
    /// backend failures are raised, so the error kind is never `NotFound`
    /// (nor `Configuration`).
    pub fn path_exists(&self, path: &str) -> (r: Result<bool, StorageError>)
        ensures
            r matches Err(e) ==> {
                &&& e.kind != ErrorKind::NotFound
                &&& e.kind != ErrorKind::Configuration
            },
    {
        let outcome: Result<(), FaultReport> = match backend::op_stat(&self.op, path) {
            Ok(_) => Ok(()),
            Err(e) => Err(fault_report_of(&e)),
        };
        exists_outcome(outcome)
    }

    /// Retrieves the metadata record for the path.
    ///
    /// The backend's answer is decided by [`operation_outcome`]: the
    /// record is handed through on success, and a fault is mapped to
    /// exactly its taxonomy kind — `NotFound` when the path does not
    /// exist, `Permission` when access is denied, `Backend` for any other
    /// backend failure; never `Configuration`.
    pub fn stat(&self, path: &str) -> (r: Result<OpenDALMetadata, StorageError>)
        ensures
            r matches Err(e) ==> e.kind != ErrorKind::Configuration,
    {
        let outcome: Result<OpenDALMetadata, FaultReport> = match backend::op_stat(
            &self.op,
            path,
        ) {
            Ok(record) => Ok(record),
            Err(e) => Err(fault_report_of(&e)),
        };
        operation_outcome(outcome)
    }

    /// Creates a directory entry at the path. At the driver boundary: an
    /// already existing directory is not an error for either backend, and
    /// a path without a trailing `/` is rejected as `NotADirectory`.
    pub fn create_dir(&self, path: &str) -> (r: Result<(), StorageError>)
        ensures
            r matches Err(e) ==> e.kind != ErrorKind::Configuration,
    {
        let outcome: Result<(), FaultReport> = match backend::op_create_dir(&self.op, path) {
            Ok(u) => Ok(u),
            Err(e) => Err(fault_report_of(&e)),
        };
        operation_outcome(outcome)
    }

    /// Lists the direct children of the path, non-recursively, one entry
    /// name per child, relative to the listed path. An existing empty
    /// directory yields an empty sequence; a missing path fails with a
    /// `NotFound` error.
    ///
    /// Two divergences of the driver are normalized here: the driver
    /// reports the listed directory among its own entries, which
    /// [`child_names`] drops exactly as [`spec_child_names`] states, and
    /// it reports a missing path as an empty listing, which the existence
    /// check ahead of the listing turns into the `NotFound` error this
    /// operation owes.
    pub fn list(&self, path: &str) -> (r: Result<Vec<String>, StorageError>)
        ensures
            r matches Err(e) ==> e.kind != ErrorKind::Configuration,
    {
        match backend::op_stat(&self.op, path) {
            Ok(_) => (),
            Err(e) => {
                return operation_outcome(Err(fault_report_of(&e)));
            },
        }
        match backend::op_list(&self.op, path) {
            Ok(entries) => Ok(child_names(&entries, path)),
            Err(e) => operation_outcome(Err(fault_report_of(&e))),
        }
    }

    /// Reads the full content of the entry at the path as one byte
    /// sequence, decided by [`operation_outcome`]: the bytes are handed
    /// through on success, and a fault is mapped to exactly its taxonomy
    /// kind — `NotFound` when the path is absent, `IsADirectory` when it
    /// names a directory.
    pub fn read_raw(&self, path: &str) -> (r: Result<Vec<u8>, StorageError>)
        ensures
            r matches Err(e) ==> e.kind != ErrorKind::Configuration,
    {
        let outcome: Result<Vec<u8>, FaultReport> = match backend::op_read(&self.op, path) {
            Ok(bytes) => Ok(bytes),
            Err(e) => Err(fault_report_of(&e)),
        };
        operation_outcome(outcome)
    }

    /// Creates or overwrites the entry at the path with the given bytes.
    /// At the driver boundary: intermediate directories implied by the
    /// path are created as needed by both backends.
    pub fn write(&self, path: &str, data: Vec<u8>) -> (r: Result<(), StorageError>)
        ensures
            r matches Err(e) ==> e.kind != ErrorKind::Configuration,
    {
        let outcome: Result<(), FaultReport> = match backend::op_write(&self.op, path, data) {
            Ok(u) => Ok(u),
            Err(e) => Err(fault_report_of(&e)),
        };
        operation_outcome(outcome)
    }

    /// Removes the single entry at the path. Deletion is idempotent, as
    /// [`removal_outcome`] states exactly: a missing entry is a normal
    /// success, never an error, so the error kind is never `NotFound`
    /// (nor `Configuration`).
    pub fn delete(&self, path: &str) -> (r: Result<(), StorageError>)
        ensures
            r matches Err(e) ==> {
                &&& e.kind != ErrorKind::NotFound
                &&& e.kind != ErrorKind::Configuration
            },
    {
        let outcome: Result<(), FaultReport> = match backend::op_delete(&self.op, path) {
            Ok(u) => Ok(u),
            Err(e) => Err(fault_report_of(&e)),
        };
        removal_outcome(outcome)
    }

    /// Duplicates the content at the source path to the destination path.
    /// Fails with a `NotFound` error when the source is absent; the source
    /// is left unchanged.
    pub fn copy(&self, source_path: &str, destination_path: &str) -> (r: Result<(), StorageError>)
        ensures
            r matches Err(e) ==> e.kind != ErrorKind::Configuration,
    {
        let outcome: Result<(), FaultReport> = match backend::op_copy(
            &self.op,
            source_path,
            destination_path,
        ) {
            Ok(u) => Ok(u),
            Err(e) => Err(fault_report_of(&e)),
        };
        operation_outcome(outcome)
    }

    /// Moves the entry at the old path to the new path, overwriting an
    /// existing destination. Fails with a `NotFound` error when the old
    /// path is absent.
    pub fn rename(&self, old_path: &str, new_path: &str) -> (r: Result<(), StorageError>)
        ensures
            r matches Err(e) ==> e.kind != ErrorKind::Configuration,
    {
        let outcome: Result<(), FaultReport> = match backend::op_rename(
            &self.op,
            old_path,
            new_path,
        ) {
            Ok(u) => Ok(u),
            Err(e) => Err(fault_report_of(&e)),
        };
        operation_outcome(outcome)
    }

    /// Recursively deletes the path and everything beneath it. Like
    /// `delete`, it is idempotent as [`removal_outcome`] states exactly: a
    /// missing path is a normal success, never an error, so the error kind
    /// is never `NotFound` (nor `Configuration`).
    pub fn remove_all(&self, path: &str) -> (r: Result<(), StorageError>)
        ensures
            r matches Err(e) ==> {
                &&& e.kind != ErrorKind::NotFound
                &&& e.kind != ErrorKind::Configuration
            },
    {
        let outcome: Result<(), FaultReport> = match backend::op_remove_all(&self.op, path) {
            Ok(u) => Ok(u),
            Err(e) => Err(fault_report_of(&e)),
        };
        removal_outcome(outcome)
    }
}

} // verus!

//! The normalized error taxonomy.
//!
//! Every backend failure is mapped to exactly one [`ErrorKind`] before it
//! reaches a caller; no operation returns an untyped error.

use vstd::prelude::*;

verus! {

/// The kind of a normalized storage failure.
///
/// Callers pattern-match on this to react by kind; the original backend
/// diagnostic travels alongside it in [`StorageError::message`].
#[derive(Clone, Copy, Debug, PartialEq, Eq, Structural)]
pub enum ErrorKind {
    /// Invalid or insufficient construction parameters; surfaced at
    /// construction time only, never by a later operation.
    Configuration,
    /// The addressed path does not exist where existence was required.
    NotFound,
    /// The path names a directory where a file was required.
    IsADirectory,
    /// The path names a file where a directory was required.
    NotADirectory,
    /// The backend denied the operation due to access control.
    Permission,
    /// Any other backend failure (network, malformed response, quota).
    Backend,
}

/// A backend driver's own classification of a failed call, before it is
/// normalized into an [`ErrorKind`].
#[derive(Clone, Copy, Debug, PartialEq, Eq, Structural)]
pub enum BackendFault {
    /// The driver reported that the path does not exist.
    NotFound,
    /// The driver reported an access-control denial.
    PermissionDenied,
    /// The driver reported a file/directory kind mismatch: a directory
    /// stood where a file was required.
    IsADirectory,
    /// The driver reported a file/directory kind mismatch: a file stood
    /// where a directory was required.
    NotADirectory,
    /// The driver rejected its own configuration.
    ConfigInvalid,
    /// Any other driver-side failure.
    Other,
}

/// One failed driver call, read out as plain values: the driver's own
/// classification of the failure and its diagnostic message. This is what
/// the normalization functions decide on.
#[derive(Clone, Debug)]
pub struct FaultReport {
    /// The driver's classification of the failure.
    pub fault: BackendFault,
    /// The driver's diagnostic message, verbatim.
    pub message: String,
}

/// A typed storage failure: a normalized kind plus the backend's original
/// diagnostic message, kept verbatim for observability.
#[derive(Clone, Debug)]
pub struct StorageError {
    /// The normalized kind of this failure.
    pub kind: ErrorKind,
    /// The backend's original diagnostic message.
    pub message: String,
}

/// How a backend fault observed during an operation (not during
/// construction) is normalized.
///
/// No fault maps to [`ErrorKind::Configuration`]: configuration problems are
/// surfaced at construction time only, so a driver-side `ConfigInvalid`
/// seen mid-operation is reported as a generic backend failure.
pub open spec fn normalize_fault(f: BackendFault) -> ErrorKind {
    match f {
        BackendFault::NotFound => ErrorKind::NotFound,
        BackendFault::PermissionDenied => ErrorKind::Permission,
        BackendFault::IsADirectory => ErrorKind::IsADirectory,
        BackendFault::NotADirectory => ErrorKind::NotADirectory,
        BackendFault::ConfigInvalid => ErrorKind::Backend,
        BackendFault::Other => ErrorKind::Backend,
    }
}

impl StorageError {
    /// Builds the normalized error for a fault observed during an
    /// operation. The resulting kind is never `Configuration`.
    pub fn from_operation_fault(fault: BackendFault, message: String) -> (r: StorageError)
        ensures
            r.kind == normalize_fault(fault),
            r.kind != ErrorKind::Configuration,
            r.message == message,
    {
        let kind = match fault {
            BackendFault::NotFound => ErrorKind::NotFound,
            BackendFault::PermissionDenied => ErrorKind::Permission,
            BackendFault::IsADirectory => ErrorKind::IsADirectory,
            BackendFault::NotADirectory => ErrorKind::NotADirectory,
            BackendFault::ConfigInvalid => ErrorKind::Backend,
            BackendFault::Other => ErrorKind::Backend,
        };
        StorageError { kind, message }
    }

    /// Builds the normalized error for a failure of operator construction:
    /// whatever the driver reported, the kind is `Configuration`.
    pub fn from_construction_fault(message: String) -> (r: StorageError)
        ensures
            r.kind == ErrorKind::Configuration,
            r.message == message,
    {
        StorageError { kind: ErrorKind::Configuration, message }
    }
}

} // verus!

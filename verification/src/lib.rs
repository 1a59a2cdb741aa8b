//! A uniform blocking storage layer over heterogeneous backends.
//!
//! An [`OpenDALOperator`] exposes one operation set (existence checks,
//! metadata retrieval, directory listing, read/write, copy/rename/delete)
//! over a local filesystem or a cloud object store, with one normalized
//! error taxonomy and backend-agnostic metadata values.

mod backend;
pub mod error;
pub mod gcs_config;
pub mod info;
pub mod metadata;
pub mod operator;

pub use crate::error::{BackendFault, ErrorKind, FaultReport, StorageError};
pub use crate::gcs_config::GcsConfig;
pub use crate::info::OpenDALOperatorInfo;
pub use crate::metadata::{EntryKind, OpenDALMetadata};
pub use crate::operator::OpenDALOperator;

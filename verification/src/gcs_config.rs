//! Assembly and validation of the object-store driver configuration.
//!
//! The configuration is assembled from plain caller-supplied values before
//! any driver is built, so the validation rules — a required bucket and the
//! credential precedence — are decided and proved here, not inside the
//! driver crate.

use vstd::prelude::*;

use crate::error::{ErrorKind, StorageError};
use vstd::string::StrSliceExecFns;

verus! {

/// The fully decided configuration of an object-store driver: what is
/// handed to the backend, field for field, with no further choices left.
#[derive(Clone, Debug)]
pub struct GcsConfig {
    /// The required bucket name; never empty.
    pub bucket: String,
    /// Path to a credential file, when that source was chosen.
    pub credential_path: Option<String>,
    /// Inline credential material, when that source was chosen. Never
    /// present together with `credential_path`.
    pub credential_json: Option<String>,
    /// Endpoint override, applied verbatim when present.
    pub endpoint: Option<String>,
    /// Default storage class, applied verbatim when present.
    pub default_storage_class: Option<String>,
    /// Predefined ACL, applied verbatim when present.
    pub predefined_acl: Option<String>,
    /// Path prefix all operations are relative to, when present.
    pub root: Option<String>,
}

impl GcsConfig {
    /// A well-formed configuration names a bucket and draws credentials
    /// from at most one source.
    pub open spec fn wf(self) -> bool {
        &&& self.bucket@.len() > 0
        &&& !(self.credential_path is Some && self.credential_json is Some)
    }

    /// Decides the configuration from the caller-supplied values.
    ///
    /// The bucket is required: an empty bucket is rejected with a
    /// configuration error, and nothing else is. When both credential
    /// sources are supplied, `credential_path` takes priority and the
    /// inline material is discarded; every other field is carried over
    /// verbatim.
    pub fn assemble(
        bucket: String,
        credential_path: Option<String>,
        credential_json_content: Option<String>,
        endpoint: Option<String>,
        default_storage_class: Option<String>,
        predefined_acl: Option<String>,
        root: Option<String>,
    ) -> (r: Result<GcsConfig, StorageError>)
        ensures
            r is Err <==> bucket@.len() == 0,
            r matches Err(e) ==> e.kind == ErrorKind::Configuration,
            r matches Ok(cfg) ==> {
                &&& cfg.wf()
                &&& cfg.bucket == bucket
                &&& cfg.credential_path == credential_path
                &&& (credential_path is Some ==> cfg.credential_json is None)
                &&& (credential_path is None ==> cfg.credential_json == credential_json_content)
                &&& cfg.endpoint == endpoint
                &&& cfg.default_storage_class == default_storage_class
                &&& cfg.predefined_acl == predefined_acl
                &&& cfg.root == root
            },
    {
        if bucket.as_str().unicode_len() == 0 {
            return Err(
                StorageError::from_construction_fault(
                    "bucket is required but was empty".to_string(),
                ),
            );
        }
        let credential_json = if credential_path.is_some() {
            None
        } else {
            credential_json_content
        };
        Ok(
            GcsConfig {
                bucket,
                credential_path,
                credential_json,
                endpoint,
                default_storage_class,
                predefined_acl,
                root,
            },
        )
    }
}

} // verus!

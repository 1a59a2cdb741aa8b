//! The backend-agnostic metadata record.
//!
//! One record describes the attributes of one addressed entry at the
//! moment it was looked up. It is populated once from the driver's
//! metadata value and never mutated afterwards.

use vstd::prelude::*;

verus! {

/// The classification of one storage entry.
#[derive(Clone, Copy, Debug, PartialEq, Eq, Structural)]
pub enum EntryKind {
    /// The entry is a file.
    File,
    /// The entry is a directory.
    Dir,
    /// The backend did not classify the entry.
    Unknown,
}

/// Whether an optional borrowed text equals an optional owned text,
/// present for present and character for character.
pub open spec fn same_opt_text(a: Option<&str>, b: Option<String>) -> bool {
    match (a, b) {
        (Some(x), Some(y)) => x@ == y@,
        (None, None) => true,
        _ => false,
    }
}

/// The attributes of one storage entry, backend-agnostic.
///
/// `content_length` is meaningful only for a file; the optional fields are
/// absent whenever the backend does not populate or support them.
#[derive(Clone, Debug)]
pub struct OpenDALMetadata {
    /// The entry's classification.
    pub kind: EntryKind,
    /// Size in bytes; meaningful only when the entry is a file.
    pub content_length: u64,
    /// Backend-supplied cache control directive, if any.
    pub cache_control: Option<String>,
    /// Backend-supplied MD5 of the content, if any.
    pub content_md5: Option<String>,
    /// Backend-supplied content type, if any.
    pub content_type: Option<String>,
    /// Backend-supplied entity tag, if any.
    pub etag: Option<String>,
    /// Backend-supplied content disposition, if any.
    pub content_disposition: Option<String>,
    /// Backend-supplied version identifier, if any.
    pub version: Option<String>,
}

impl OpenDALMetadata {
    /// Whether this record reports a file.
    pub open spec fn spec_is_file(self) -> bool {
        self.kind == EntryKind::File
    }

    /// Whether this record reports a directory.
    pub open spec fn spec_is_dir(self) -> bool {
        self.kind == EntryKind::Dir
    }

    /// Whether the backend classified the entry at all.
    pub open spec fn classified(self) -> bool {
        self.kind != EntryKind::Unknown
    }

    /// True exactly when the entry is a file.
    pub fn is_file(&self) -> (r: bool)
        ensures
            r == self.spec_is_file(),
    {
        match self.kind {
            EntryKind::File => true,
            _ => false,
        }
    }

    /// True exactly when the entry is a directory.
    pub fn is_dir(&self) -> (r: bool)
        ensures
            r == self.spec_is_dir(),
    {
        match self.kind {
            EntryKind::Dir => true,
            _ => false,
        }
    }

    /// The entry's size in bytes; meaningful only when it is a file.
    pub fn content_length(&self) -> (r: u64)
        ensures
            r == self.content_length,
    {
        self.content_length
    }

    /// The backend-supplied cache control directive, if any.
    pub fn cache_control(&self) -> (r: Option<&str>)
        ensures
            same_opt_text(r, self.cache_control),
    {
        match &self.cache_control {
            Some(s) => Some(s.as_str()),
            None => None,
        }
    }

    /// The backend-supplied MD5 of the content, if any.
    pub fn content_md5(&self) -> (r: Option<&str>)
        ensures
            same_opt_text(r, self.content_md5),
    {
        match &self.content_md5 {
            Some(s) => Some(s.as_str()),
            None => None,
        }
    }

    /// The backend-supplied content type, if any.
    pub fn content_type(&self) -> (r: Option<&str>)
        ensures
            same_opt_text(r, self.content_type),
    {
        match &self.content_type {
            Some(s) => Some(s.as_str()),
            None => None,
        }
    }

    /// The backend-supplied entity tag, if any.
    pub fn etag(&self) -> (r: Option<&str>)
        ensures
            same_opt_text(r, self.etag),
    {
        match &self.etag {
            Some(s) => Some(s.as_str()),
            None => None,
        }
    }

    /// The backend-supplied content disposition, if any.
    pub fn content_disposition(&self) -> (r: Option<&str>)
        ensures
            same_opt_text(r, self.content_disposition),
    {
        match &self.content_disposition {
            Some(s) => Some(s.as_str()),
            None => None,
        }
    }

    /// The backend-supplied version identifier, if any.
    pub fn version(&self) -> (r: Option<&str>)
        ensures
            same_opt_text(r, self.version),
    {
        match &self.version {
            Some(s) => Some(s.as_str()),
            None => None,
        }
    }
}

/// The classification flags of a record are mutually exclusive: no record
/// reports both a file and a directory, and a classified record reports
/// exactly one of the two.
pub proof fn lemma_classification_exclusive(m: OpenDALMetadata)
    ensures
        !(m.spec_is_file() && m.spec_is_dir()),
        m.classified() ==> (m.spec_is_file() <==> !m.spec_is_dir()),
{
}

} // verus!

//! The immutable descriptor of a configured operator.

use vstd::prelude::*;

verus! {

/// The identity of a configured operator: derived once from the driver's
/// descriptor and never mutated afterwards.
#[derive(Clone, Debug)]
pub struct OpenDALOperatorInfo {
    /// The backend kind identifier, such as a filesystem or object-store
    /// scheme name.
    pub scheme: String,
    /// The path prefix all operations are relative to.
    pub root: String,
    /// The backend-assigned display name, such as a bucket name.
    pub name: String,
}

impl OpenDALOperatorInfo {
    /// The backend kind identifier.
    pub fn scheme(&self) -> (r: String)
        ensures
            r@ == self.scheme@,
    {
        self.scheme.clone()
    }

    /// The path prefix all operations are relative to.
    pub fn root(&self) -> (r: String)
        ensures
            r@ == self.root@,
    {
        self.root.clone()
    }

    /// The backend-assigned display name.
    pub fn name(&self) -> (r: String)
        ensures
            r@ == self.name@,
    {
        self.name.clone()
    }
}

} // verus!

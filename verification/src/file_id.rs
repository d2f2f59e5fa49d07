//! Abstract file identities: a virtual path plus an optional package
//! reference. Distinct identities may alias the same resource; they are "the
//! same resource" exactly when their canonical identities match.

use vstd::prelude::*;

use crate::package_spec::{PackageSpec, PackageSpecView};
use crate::vpath::VirtualPath;
use crate::vpath::{normalize, rooted};

verus! {

/// The view of an optional package specification.
pub open spec fn package_view(p: &Option<PackageSpec>) -> Option<PackageSpecView> {
    match p {
        Some(s) => Some(s@),
        None => None,
    }
}

/// The mathematical identity of a virtual file.
#[verifier::ext_equal]
pub struct VirtualFileIdView {
    pub package: Option<PackageSpecView>,
    pub path: Seq<char>,
}

/// Identifies a virtual file: a canonical virtual path, optionally qualified
/// by the external package the file lives in.
pub struct VirtualFileId {
    pub package: Option<PackageSpec>,
    pub path: VirtualPath,
}

impl View for VirtualFileId {
    type V = VirtualFileIdView;

    open spec fn view(&self) -> VirtualFileIdView {
        VirtualFileIdView { package: package_view(&self.package), path: self.path@ }
    }
}

impl Clone for VirtualFileId {
    fn clone(&self) -> (r: Self)
        ensures
            r == *self,
    {
        let package = match &self.package {
            Some(p) => Some(p.clone()),
            None => None,
        };
        VirtualFileId { package, path: self.path.clone() }
    }
}

impl VirtualFileId {
    /// Builds an identity from a raw path, normalizing the path.
    pub fn new(package: Option<PackageSpec>, path: &str) -> (r: VirtualFileId)
        ensures
            r@.package == package_view(&package),
            r@.path == rooted(normalize(path@)),
    {
        VirtualFileId { package, path: VirtualPath::new(path) }
    }

    /// Whether two identities are syntactically the same canonical identity.
    pub fn matches(&self, other: &VirtualFileId) -> (r: bool)
        ensures
            r == (self@ == other@),
    {
        let package_eq = match (&self.package, &other.package) {
            (None, None) => true,
            (Some(a), Some(b)) => a.matches(b),
            _ => false,
        };
        let r = package_eq && self.path.matches(&other.path);
        proof {
            if r {
                assert(self@ =~= other@);
            }
        }
        r
    }
}

} // verus!

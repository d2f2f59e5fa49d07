//! The path identity hasher: turns a (virtual path, optional package) pair
//! into a stable, collision-resistant 128-bit identity.
//!
//! The hash is computed over an unambiguous text encoding of the canonical
//! rooted path and the package components, so equal (path, package) pairs
//! always hash equal and distinct pairs never share a hash input. No
//! process-specific state is involved: results are reproducible across
//! runs.

use vstd::prelude::*;

use vstd::utf8::encode_utf8;

use crate::errors::FileResult;
use crate::file_id::{package_view, VirtualFileIdView};
use crate::package_spec::{dec_chars, usize_to_string, PackageSpec, PackageSpecView};
use crate::vpath::{normalize, rooted, VirtualPath};

verus! {

/// What the 128-bit SipHash-1-3 digest (with an all-zero key) of a byte
/// string is.
pub uninterp spec fn sip13_of(bytes: Seq<u8>) -> u128;

/// Relies on siphasher's `SipHasher13::hash` with the all-zero key: the
/// 128-bit digest is a deterministic function of the byte string alone.
#[verifier::external_body]
fn sip128(data: &[u8]) -> (r: u128)
    ensures
        r == sip13_of(data@),
{
    siphasher::sip128::SipHasher13::new().hash(data).as_u128()
}

/// The characters hashed for an identity. The encoding is injective: a
/// packageless identity starts with `-`; a package-qualified one starts
/// with `P`, followed by the namespace and name each prefixed with its
/// decimal length and a `:`, the version text, and one more `:`; the
/// canonical rooted path closes either form. Length prefixes delimit the
/// free-form components, and the version text holds no `:`, so distinct
/// (package, path) pairs never encode to the same characters.
pub open spec fn identity_chars(package: Option<PackageSpecView>, path: Seq<char>) -> Seq<char> {
    match package {
        Some(p) => seq!['P'] + dec_chars(p.namespace.len() as int) + seq![':'] + p.namespace
            + dec_chars(p.name.len() as int) + seq![':'] + p.name + p.version.text_spec()
            + seq![':'] + path,
        None => seq!['-'] + path,
    }
}

/// The 128-bit identity of a (canonical path, optional package) pair.
pub open spec fn identity_hash(package: Option<PackageSpecView>, path: Seq<char>) -> u128 {
    sip13_of(encode_utf8(identity_chars(package, path)))
}

impl VirtualFileIdView {
    /// The 128-bit identity of this file identity.
    pub open spec fn ident_hash(&self) -> u128 {
        identity_hash(self.package, self.path)
    }
}

/// A hash that is the same for all identities pointing to the same entity.
#[derive(Clone, Copy, Debug, PartialEq, Eq, Hash, Structural)]
pub struct PathHash(u128);

impl PathHash {
    /// The 128-bit value of the hash.
    pub closed spec fn value_spec(&self) -> u128 {
        self.0
    }

    /// Hashes a canonical path together with its optional package.
    ///
    /// The result is infallible; the fallible signature mirrors the
    /// resolution pipeline this feeds into.
    pub fn new(path: &VirtualPath, package: &Option<PackageSpec>) -> (r: FileResult<PathHash>)
        ensures
            r matches Ok(h) && h.value_spec() == identity_hash(package_view(package), path@),
    {
        proof {
            reveal_strlit("P");
            reveal_strlit("-");
            reveal_strlit(":");
        }
        let mut s = match package {
            Some(p) => {
                let mut t = "P".to_owned();
                let namespace_len = usize_to_string(p.namespace.as_str().unicode_len());
                t.append(namespace_len.as_str());
                t.append(":");
                t.append(p.namespace.as_str());
                let name_len = usize_to_string(p.name.as_str().unicode_len());
                t.append(name_len.as_str());
                t.append(":");
                t.append(p.name.as_str());
                let version = p.version.to_text();
                t.append(version.as_str());
                t.append(":");
                t
            },
            None => "-".to_owned(),
        };
        s.append(path.as_rooted_str());
        proof {
            assert(s@ =~= identity_chars(package_view(package), path@));
        }
        Ok(PathHash(sip128(s.as_str().as_bytes())))
    }
}

impl PathHash {
    /// Two hashes with the same 128-bit value are the same hash.
    pub proof fn lemma_value_injective(a: PathHash, b: PathHash)
        requires
            a.value_spec() == b.value_spec(),
        ensures
            a == b,
    {
    }
}

/// Law: distinct raw identities that normalize to the same physical path
/// and carry the same package hash equal, so they share one cache slot.
pub proof fn lemma_aliased_identities_hash_equal(
    package: Option<PackageSpecView>,
    raw_a: Seq<char>,
    raw_b: Seq<char>,
)
    requires
        normalize(raw_a) == normalize(raw_b),
    ensures
        identity_hash(package, rooted(normalize(raw_a))) == identity_hash(
            package,
            rooted(normalize(raw_b)),
        ),
{
}

} // verus!

//! The package resolver: locates an external package through the storage
//! capability, and for absent `preview` packages falls back to network
//! acquisition — download, gzip decompression, tar extraction — writing the
//! unpacked files back through the storage capability.

use vstd::prelude::*;

use vstd::slice::slice_to_vec;

use crate::archive::{gunzip_of, read_archive, tar_entries_of};
use crate::errors::{PackageError, PackageResult};
use crate::fetch::{FetchOutcome, PackageFetcher};
use crate::file_manager::FileManager;
use crate::package_spec::{PackageSpec, PackageSpecView};
use crate::system_world::SystemWorld;
use crate::vpath::VirtualPath;

verus! {

/// Which acquisition step the resolver takes for a package.
#[derive(Clone, Copy, Debug, PartialEq, Eq, Structural)]
pub enum PackageAction {
    /// The package is already present locally; no network is involved.
    UseLocal,
    /// The package is absent and lives in the `preview` namespace: attempt
    /// a network fetch.
    FetchPreview,
    /// The package is absent and its namespace never fetches: resolution
    /// fails as not found.
    Unavailable,
}

/// The resolver's acquisition policy: a present package is used as is; an
/// absent one is fetched exactly when its namespace is `preview`, and
/// otherwise fails.
pub fn resolve_package_action(present: bool, preview: bool) -> (r: PackageAction)
    ensures
        (r == PackageAction::UseLocal) <==> present,
        (r == PackageAction::FetchPreview) <==> (!present && preview),
        (r == PackageAction::Unavailable) <==> (!present && !preview),
{
    if present {
        PackageAction::UseLocal
    } else if preview {
        PackageAction::FetchPreview
    } else {
        PackageAction::Unavailable
    }
}

/// The well-known download URL of a `preview` package.
pub open spec fn download_url_spec(s: PackageSpecView) -> Seq<char> {
    "https://packages.typst.org/preview/"@ + s.name + seq!['-'] + s.version.text_spec()
        + ".tar.gz"@
}

impl PackageSpec {
    /// Builds the well-known download URL. Only the `preview` namespace
    /// defines one; the resolver never asks for any other.
    pub fn preview_url(&self) -> (r: String)
        ensures
            r@ == download_url_spec(self@),
    {
        proof {
            reveal_strlit("-");
        }
        let mut out = "https://packages.typst.org/preview/".to_owned();
        out.append(self.name.as_str());
        out.append("-");
        let v = self.version.to_text();
        out.append(v.as_str());
        out.append(".tar.gz");
        proof {
            assert(out@ =~= download_url_spec(self@));
        }
        out
    }
}

/// The position of the last `/` in a path, or `-1` when there is none.
pub open spec fn last_slash(s: Seq<char>) -> int
    decreases s.len(),
{
    if s.len() == 0 {
        -1
    } else if s[s.len() - 1] == '/' {
        s.len() - 1
    } else {
        last_slash(s.drop_last())
    }
}

/// The directory part of a rooted path: everything before the last `/`,
/// or the root itself.
pub open spec fn parent_spec(s: Seq<char>) -> Seq<char> {
    if last_slash(s) <= 0 {
        seq!['/']
    } else {
        s.take(last_slash(s))
    }
}

/// The directory that must exist before a rooted path can be written.
#[verifier::loop_isolation(false)]
fn parent_dir(path: &str) -> (r: String)
    ensures
        r@ == parent_spec(path@),
{
    proof {
        reveal_strlit("/");
    }
    let n = path.unicode_len();
    let mut j: usize = n;
    proof {
        assert(path@.take(n as int) =~= path@);
    }
    while j > 0 && path.get_char(j - 1) != '/'
        invariant
            j <= n,
            last_slash(path@) == last_slash(path@.take(j as int)),
        decreases j,
    {
        proof {
            assert(path@.take(j as int).drop_last() =~= path@.take(j as int - 1));
        }
        j = j - 1;
    }
    if j <= 1 {
        proof {
            if j == 1 {
                assert(path@.take(1)[0] == path@[0]);
            }
            assert("/"@ =~= seq!['/']);
        }
        "/".to_owned()
    } else {
        proof {
            assert(path@.take(j as int)[j - 1] == path@[j - 1]);
            assert(last_slash(path@.take(j as int)) == j - 1);
        }
        let r = path.substring_char(0, j - 1).to_owned();
        proof {
            assert(r@ =~= path@.take(j as int - 1));
        }
        r
    }
}

impl<F: FileManager, N: PackageFetcher> SystemWorld<F, N> {
    /// Makes a package available in the storage capability's cache.
    ///
    /// A package the storage already holds is used as is — no network
    /// call, even if stale. An absent package is downloaded exactly when
    /// its namespace is `preview`; an absent package of any other
    /// namespace fails as not found without any network involvement.
    pub fn check_package(&self, spec: &PackageSpec) -> (r: PackageResult<()>)
        ensures
            spec@.namespace != "preview"@ ==> (r is Ok || (r is Err && r->Err_0
                == PackageError::NotFound)),
            r is Err ==> (r->Err_0 == PackageError::NotFound || r->Err_0
                == PackageError::NetworkFailed || r->Err_0 == PackageError::MalformedArchive),
    {
        let present = match self.file_manager.file_exists(
            "/".to_owned(),
            Some(spec.to_qualifier()),
        ) {
            Ok(b) => b,
            Err(_) => false,
        };
        match resolve_package_action(present, spec.is_preview()) {
            PackageAction::UseLocal => Ok(()),
            PackageAction::Unavailable => Err(PackageError::NotFound),
            PackageAction::FetchPreview => self.download_package(spec),
        }
    }

    /// Downloads a `preview` package through the network capability and
    /// unpacks it through the storage capability.
    ///
    /// An endpoint answer of "no such package" maps to not-found, any
    /// other transport failure to network-failed, and a corrupt archive to
    /// malformed-archive.
    fn download_package(&self, spec: &PackageSpec) -> (r: PackageResult<()>)
        requires
            spec@.namespace == "preview"@,
        ensures
            r is Err ==> (r->Err_0 == PackageError::NotFound || r->Err_0
                == PackageError::NetworkFailed || r->Err_0 == PackageError::MalformedArchive),
    {
        let url = spec.preview_url();
        match self.fetcher.fetch(url) {
            FetchOutcome::NotFound => Err(PackageError::NotFound),
            FetchOutcome::TransportError => Err(PackageError::NetworkFailed),
            FetchOutcome::Archive(data) => self.install_archive(spec, data.as_slice()),
        }
    }

    /// Unpacks a downloaded archive into the storage capability, every
    /// operation attributed to the package's qualifier.
    ///
    /// Fails exactly when the bytes are not a well-formed gzip stream or
    /// the decompressed bytes are not a readable tar archive. Entries that
    /// cannot be read, and writes the storage refuses, are skipped: a
    /// partial package is preferred over none, because the compiler will
    /// surface missing-file errors for the files it actually needs.
    #[verifier::loop_isolation(false)]
    pub fn install_archive(&self, spec: &PackageSpec, data: &[u8]) -> (r: PackageResult<()>)
        ensures
            r is Ok <==> (gunzip_of(data@) matches Some(t) && tar_entries_of(t) is Some),
            r is Err ==> r->Err_0 == PackageError::MalformedArchive,
    {
        let entries = match read_archive(data) {
            Some(es) => es,
            None => {
                return Err(PackageError::MalformedArchive);
            },
        };
        let qualifier = spec.to_qualifier();
        let mut k: usize = 0;
        while k < entries.len()
            invariant
                k <= entries.len(),
            decreases entries.len() - k,
        {
            let entry = &entries[k];
            if entry.ok {
                let dest = VirtualPath::new(entry.path.as_str());
                let parent = parent_dir(dest.as_rooted_str());
                let _ = self.file_manager.create_directory(parent, Some(qualifier.clone()));
                let _ = self.file_manager.write(
                    dest.to_rooted_string(),
                    Some(qualifier.clone()),
                    slice_to_vec(entry.data.as_slice()),
                );
            }
            k = k + 1;
        }
        Ok(())
    }
}

} // verus!

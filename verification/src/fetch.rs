//! The network capability consumed by the package resolver.
//!
//! The core never opens a connection itself: when a `preview` package must
//! be downloaded, it builds the well-known URL and hands it to an
//! embedder-supplied [`PackageFetcher`]. The fetch is synchronous from the
//! resolver's point of view.

use vstd::prelude::*;

verus! {

/// How a package archive download ended.
pub enum FetchOutcome {
    /// The endpoint returned the archive's bytes (a gzip-compressed tar).
    Archive(Vec<u8>),
    /// The endpoint reported that no such package exists.
    NotFound,
    /// Any other transport failure.
    TransportError,
}

/// The network capability: performs one HTTP GET for a package archive.
///
/// The core states nothing about what an implementation returns: every
/// verified caller handles each possible outcome.
pub trait PackageFetcher {
    /// Downloads the archive at `url`.
    fn fetch(&self, url: String) -> FetchOutcome;
}

} // verus!

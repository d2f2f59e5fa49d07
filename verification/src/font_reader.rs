//! The font capability: enumerates the embedder's raw font blobs, once, at
//! world construction.

use vstd::prelude::*;

use vstd::slice::slice_to_vec;

verus! {

/// One raw font blob, as supplied by a font capability. A blob may embed
/// several font faces.
pub struct FontDefinition {
    pub data: Vec<u8>,
}

impl Clone for FontDefinition {
    fn clone(&self) -> (r: Self)
        ensures
            r.data@ == self.data@,
    {
        FontDefinition { data: slice_to_vec(self.data.as_slice()) }
    }
}

/// The font capability consumed at world construction.
pub trait FontReader {
    /// The embedder's raw font blobs.
    fn fonts(&self) -> Vec<FontDefinition>;
}

} // verus!

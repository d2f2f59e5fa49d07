//! Raw font blobs for the world's font catalog.
//!
//! A blob is stored as the embedder handed it over; parsing the faces it
//! embeds is the document compiler's concern, not this layer's.

use vstd::prelude::*;

use vstd::slice::slice_to_vec;

verus! {

/// One raw font blob, as supplied by the embedder. A blob may embed several
/// font faces.
pub struct FontDefinition {
    pub data: Vec<u8>,
}

impl Clone for FontDefinition {
    fn clone(&self) -> (r: Self)
        ensures
            r.data@ == self.data@,
    {
        FontDefinition { data: slice_to_vec(self.data.as_slice()) }
    }
}

} // verus!

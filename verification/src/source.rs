//! A decoded source document: the text of one virtual file, tagged with the
//! identity it was resolved from (detached documents carry none).

use vstd::prelude::*;

use crate::file_id::VirtualFileId;

verus! {

/// The decoded text of a virtual file.
pub struct Source {
    /// The identity the text was resolved from; `None` for a detached
    /// document such as the missing-main placeholder.
    pub id: Option<VirtualFileId>,
    /// The decoded text.
    pub text: String,
}

impl Clone for Source {
    fn clone(&self) -> (r: Self)
        ensures
            r == *self,
    {
        let id = match &self.id {
            Some(i) => Some(i.clone()),
            None => None,
        };
        Source { id, text: self.text.clone() }
    }
}

impl Source {
    /// Wraps the decoded text of the file identified by `id`.
    pub fn new(id: VirtualFileId, text: String) -> (r: Source)
        ensures
            r.id == Some(id),
            r.text == text,
    {
        Source { id: Some(id), text }
    }

    /// A document that belongs to no virtual file.
    pub fn detached(text: &str) -> (r: Source)
        ensures
            r.id is None,
            r.text@ == text@,
    {
        Source { id: None, text: text.to_owned() }
    }
}

} // verus!

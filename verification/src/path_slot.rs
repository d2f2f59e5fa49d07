//! The lazy slot: a memoized holder for one physical resource's decoded
//! text and raw bytes, each computed at most once per session.
//!
//! Failures are memoized too: a slot that failed once returns the same
//! failure on every later call without re-invoking the storage capability,
//! until the owning world is reset. This bounds retries to once per session
//! and keeps diagnostics stable within a compile.

use vstd::prelude::*;

use vstd::slice::{slice_subrange, slice_to_vec};
use vstd::utf8::{decode_utf8, valid_utf8};

use crate::errors::{FileError, FileResult};
use crate::file_id::VirtualFileId;
use crate::file_manager::FileManager;
use crate::package_spec::qualifier_spec;
use crate::source::Source;

verus! {

/// Relies on `String::from_utf8`: it succeeds exactly on valid UTF-8 input
/// and yields the decoded characters.
#[verifier::external_body]
fn utf8_to_string(bytes: Vec<u8>) -> (r: Option<String>)
    ensures
        r is Some <==> valid_utf8(bytes@),
        r matches Some(s) ==> s@ == decode_utf8(bytes@),
{
    String::from_utf8(bytes).ok()
}

/// The bytes with a leading UTF-8 byte-order mark removed, if one is
/// present.
pub open spec fn strip_bom(b: Seq<u8>) -> Seq<u8> {
    if b.len() >= 3 && b[0] == 0xefu8 && b[1] == 0xbbu8 && b[2] == 0xbfu8 {
        b.skip(3)
    } else {
        b
    }
}

/// Decodes file bytes as UTF-8, stripping a leading byte-order mark.
///
/// Succeeds exactly when the bytes after the optional mark are valid UTF-8;
/// invalid encoding surfaces as [`FileError::InvalidUtf8`].
pub fn decode_text(buf: Vec<u8>) -> (r: FileResult<String>)
    ensures
        r is Ok <==> valid_utf8(strip_bom(buf@)),
        r matches Ok(s) ==> s@ == decode_utf8(strip_bom(buf@)),
        r matches Err(e) ==> e == FileError::InvalidUtf8,
{
    let has_bom = buf.len() >= 3 && buf[0] == 0xefu8 && buf[1] == 0xbbu8 && buf[2] == 0xbfu8;
    let stripped: Vec<u8> = if has_bom {
        let rest = slice_subrange(buf.as_slice(), 3, buf.len());
        proof {
            assert(rest@ =~= strip_bom(buf@));
        }
        slice_to_vec(rest)
    } else {
        buf
    };
    match utf8_to_string(stripped) {
        Some(s) => Ok(s),
        None => Err(FileError::InvalidUtf8),
    }
}

/// Duplicates a memoized text outcome.
fn clone_source_result(r: &FileResult<Source>) -> (c: FileResult<Source>)
    ensures
        c == *r,
{
    match r {
        Ok(s) => Ok(s.clone()),
        Err(e) => Err(*e),
    }
}

/// The view of a bytes outcome: the byte sequence on success, the error
/// otherwise.
pub open spec fn bytes_outcome(r: FileResult<Vec<u8>>) -> FileResult<Seq<u8>> {
    match r {
        Ok(v) => Ok(v@),
        Err(e) => Err(e),
    }
}

/// Duplicates a memoized bytes outcome.
fn clone_bytes_result(r: &FileResult<Vec<u8>>) -> (c: FileResult<Vec<u8>>)
    ensures
        bytes_outcome(c) == bytes_outcome(*r),
{
    match r {
        Ok(v) => Ok(slice_to_vec(v.as_slice())),
        Err(e) => Err(*e),
    }
}

/// Holds canonical data for all identities pointing to the same entity.
///
/// A ghost counter records how many times the slot has invoked the storage
/// capability's `read`, so the at-most-once-per-accessor policy is part of
/// the verified interface: well-formedness pins the counter to the number
/// of computed memos.
pub struct PathSlot {
    id: VirtualFileId,
    source: Option<FileResult<Source>>,
    buffer: Option<FileResult<Vec<u8>>>,
    reads: Ghost<int>,
}

impl PathSlot {
    /// How many of the slot's two payloads have been computed — text and
    /// bytes each cost exactly one capability read, success or failure.
    pub open spec fn computed_payloads(&self) -> int {
        (if self.text_memo() is Some {
            1int
        } else {
            0int
        }) + (if self.bytes_memo() is Some {
            1int
        } else {
            0int
        })
    }

    /// Well-formedness: a memoized decoded text belongs to this slot's
    /// identity and is the BOM-stripped UTF-8 decoding of some byte
    /// string, and the capability has been read exactly once per computed
    /// payload — never again after memoization.
    pub open spec fn wf(&self) -> bool {
        &&& (self.text_memo() matches Some(Ok(s)) ==> s.id == Some(self.id_of()) && (exists|
            b: Seq<u8>,
        | valid_utf8(strip_bom(b)) && s.text@ == decode_utf8(strip_bom(b))))
        &&& self.reads_of() == self.computed_payloads()
    }

    /// The identity the slot was created for.
    pub closed spec fn id_of(&self) -> VirtualFileId {
        self.id
    }

    /// The memoized text outcome, if computed.
    pub closed spec fn text_memo(&self) -> Option<FileResult<Source>> {
        self.source
    }

    /// The memoized bytes outcome, if computed.
    pub closed spec fn bytes_memo(&self) -> Option<FileResult<Vec<u8>>> {
        self.buffer
    }

    /// How many times the slot has invoked the storage capability's
    /// `read`.
    pub closed spec fn reads_of(&self) -> int {
        self.reads@
    }

    /// Creates an empty slot for one physical resource, before any read.
    pub fn new(id: VirtualFileId) -> (r: PathSlot)
        ensures
            r.wf(),
            r.id_of() == id,
            r.text_memo() is None,
            r.bytes_memo() is None,
            r.reads_of() == 0,
    {
        PathSlot { id, source: None, buffer: None, reads: Ghost(0) }
    }

    /// The qualifier string under which reads of this slot are attributed.
    fn package_string(&self) -> (r: Option<String>)
        ensures
            r is Some <==> self.id_of()@.package is Some,
            r matches Some(q) ==> q@ == qualifier_spec(self.id_of()@.package->0),
    {
        match &self.id.package {
            Some(p) => Some(p.to_qualifier()),
            None => None,
        }
    }

    /// Resolves the slot's decoded text, invoking the storage capability's
    /// `read` at most once for the text accessor across the slot's lifetime.
    ///
    /// On the first call the outcome — success or failure — is memoized;
    /// every later call returns that same outcome without reading again.
    pub fn source<F: FileManager>(&mut self, manager: &F) -> (r: FileResult<Source>)
        requires
            old(self).wf(),
        ensures
            final(self).wf(),
            final(self).id_of() == old(self).id_of(),
            final(self).bytes_memo() == old(self).bytes_memo(),
            final(self).text_memo() == Some(r),
            final(self).reads_of() == old(self).reads_of() + (if old(self).text_memo() is Some {
                0int
            } else {
                1int
            }),
            old(self).text_memo() matches Some(m) ==> *final(self) == *old(self) && r == m,
            r matches Ok(s) ==> s.id == Some(old(self).id_of()) && (exists|b: Seq<u8>|
                valid_utf8(strip_bom(b)) && s.text@ == decode_utf8(strip_bom(b))),
    {
        if let Some(m) = &self.source {
            return clone_source_result(m);
        }
        let read = manager.read(self.id.path.to_rooted_string(), self.package_string());
        proof {
            self.reads@ = self.reads@ + 1;
        }
        let res: FileResult<Source> = match read {
            Ok(bytes) => {
                let ghost raw = bytes@;
                match decode_text(bytes) {
                    Ok(text) => {
                        proof {
                            assert(valid_utf8(strip_bom(raw)) && text@ == decode_utf8(
                                strip_bom(raw),
                            ));
                        }
                        Ok(Source::new(self.id.clone(), text))
                    },
                    Err(e) => Err(e),
                }
            },
            Err(e) => Err(FileError::from(e)),
        };
        let out = clone_source_result(&res);
        self.source = Some(res);
        out
    }

    /// Resolves the slot's raw bytes, invoking the storage capability's
    /// `read` at most once for the bytes accessor across the slot's
    /// lifetime.
    ///
    /// On the first call the outcome — success or failure — is memoized;
    /// every later call returns that same outcome without reading again.
    pub fn file<F: FileManager>(&mut self, manager: &F) -> (r: FileResult<Vec<u8>>)
        requires
            old(self).wf(),
        ensures
            final(self).wf(),
            final(self).id_of() == old(self).id_of(),
            final(self).text_memo() == old(self).text_memo(),
            final(self).bytes_memo() matches Some(m) && bytes_outcome(m) == bytes_outcome(r),
            final(self).reads_of() == old(self).reads_of() + (if old(self).bytes_memo() is Some {
                0int
            } else {
                1int
            }),
            old(self).bytes_memo() matches Some(m) ==> *final(self) == *old(self)
                && bytes_outcome(r) == bytes_outcome(m),
    {
        if let Some(m) = &self.buffer {
            return clone_bytes_result(m);
        }
        let read = manager.read(self.id.path.to_rooted_string(), self.package_string());
        proof {
            self.reads@ = self.reads@ + 1;
        }
        let res: FileResult<Vec<u8>> = match read {
            Ok(bytes) => Ok(bytes),
            Err(e) => Err(FileError::from(e)),
        };
        let out = clone_bytes_result(&res);
        self.buffer = Some(res);
        out
    }
}

} // verus!

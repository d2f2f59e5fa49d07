//! Reading downloaded package archives: gzip decompression and tar
//! unpacking, each treated as a pure function of the archive bytes.

use vstd::prelude::*;

verus! {

/// What gzip decompression of a byte string yields: the decompressed bytes,
/// or nothing when the input is not a well-formed gzip stream.
pub uninterp spec fn gunzip_of(bytes: Seq<u8>) -> Option<Seq<u8>>;

/// Relies on flate2's `GzDecoder`: decompression of a byte string is
/// deterministic, succeeding exactly on well-formed input.
#[verifier::external_body]
fn gunzip(data: &[u8]) -> (r: Option<Vec<u8>>)
    ensures
        r is Some <==> gunzip_of(data@) is Some,
        r matches Some(v) ==> Some(v@) == gunzip_of(data@),
{
    let mut out: Vec<u8> = Vec::new();
    match std::io::Read::read_to_end(&mut flate2::read::GzDecoder::new(data), &mut out) {
        Ok(_) => Some(out),
        Err(_) => None,
    }
}

/// One entry unpacked from a tar archive. An entry whose header or contents
/// could not be read is kept with `ok == false`, so that the caller can skip
/// it instead of aborting the whole unpack.
pub struct ArchiveEntry {
    /// Whether the entry's path and contents were read successfully.
    pub ok: bool,
    /// The entry's path inside the archive; empty when not `ok`.
    pub path: String,
    /// The entry's contents; empty when not `ok`.
    pub data: Vec<u8>,
}

impl View for ArchiveEntry {
    type V = (bool, Seq<char>, Seq<u8>);

    open spec fn view(&self) -> (bool, Seq<char>, Seq<u8>) {
        (self.ok, self.path@, self.data@)
    }
}

/// What tar unpacking of a byte string yields: the entry list, or nothing
/// when the archive's entry table cannot be read at all.
pub uninterp spec fn tar_entries_of(bytes: Seq<u8>) -> Option<Seq<(bool, Seq<char>, Seq<u8>)>>;

/// The marker kept in place of an entry that could not be read.
fn unreadable_entry() -> (r: ArchiveEntry)
    ensures
        r@ == (false, Seq::<char>::empty(), Seq::<u8>::empty()),
{
    ArchiveEntry { ok: false, path: String::new(), data: Vec::new() }
}

/// Relies on the tar crate's `Archive` and `Entry` readers: the entry list
/// is a deterministic function of the archive bytes; an entry whose
/// contents cannot be read comes back marked not-ok.
#[verifier::external_body]
fn untar(data: &[u8]) -> (r: Option<Vec<ArchiveEntry>>)
    ensures
        r is Some <==> tar_entries_of(data@) is Some,
        r matches Some(es) ==> {
            &&& tar_entries_of(data@) matches Some(list)
            &&& es@.len() == list.len()
            &&& forall|i: int| 0 <= i < list.len() ==> es@[i]@ == list[i]
        },
{
    let mut archive = tar::Archive::new(data);
    let entries = match archive.entries() { Ok(e) => e, Err(_) => return None };
    let mut out: Vec<ArchiveEntry> = Vec::new();
    for entry in entries {
        let mut item = unreadable_entry();
        if let Ok(mut e) = entry {
            let path = String::from_utf8_lossy(&e.path_bytes()).into_owned();
            let mut bytes: Vec<u8> = Vec::new();
            if std::io::Read::read_to_end(&mut e, &mut bytes).is_ok() {
                item = ArchiveEntry { ok: true, path, data: bytes };
            }
        }
        out.push(item);
    }
    Some(out)
}

/// Decompresses and unpacks a downloaded package archive.
///
/// Fails exactly when the bytes are not a well-formed gzip stream or the
/// decompressed bytes are not a readable tar archive.
pub fn read_archive(data: &[u8]) -> (r: Option<Vec<ArchiveEntry>>)
    ensures
        r is Some <==> (gunzip_of(data@) matches Some(t) && tar_entries_of(t) is Some),
        r matches Some(es) ==> {
            &&& gunzip_of(data@) matches Some(t)
            &&& tar_entries_of(t) matches Some(list)
            &&& es@.len() == list.len()
            &&& forall|i: int| 0 <= i < list.len() ==> es@[i]@ == list[i]
        },
{
    let unzipped = match gunzip(data) {
        Some(v) => v,
        None => {
            return None;
        },
    };
    untar(unzipped.as_slice())
}

} // verus!

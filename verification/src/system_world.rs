//! The virtual world: the façade a document compiler consumes.
//!
//! The world owns the identity-hash cache, the resource-slot cache, the
//! font catalog and the session-pinned "current date" memo, and exposes the
//! compiler-facing read operations together with a session-reset operation.
//! Each cache entry is computed at most once per session; `reset` clears
//! both caches wholesale while preserving the font catalog and the
//! designated main identity.

use vstd::prelude::*;

use crate::date::{current_ymd, valid_date, Date};
use crate::errors::{FileError, FileResult};
use crate::fetch::PackageFetcher;
use crate::file_id::{VirtualFileId, VirtualFileIdView};
use crate::file_manager::FileManager;
use crate::fonts::FontDefinition;
use crate::path_hash::PathHash;
use crate::path_slot::{bytes_outcome, PathSlot};
use crate::source::Source;
use crate::vpath::{normalize, rooted, VirtualPath};

verus! {

/// The first cached hash outcome for `id`, scanning the cache front to
/// back; `None` when `id` is not cached.
pub open spec fn hash_cache_lookup(
    entries: Seq<(VirtualFileId, FileResult<PathHash>)>,
    id: VirtualFileIdView,
) -> Option<FileResult<PathHash>>
    decreases entries.len(),
{
    if entries.len() == 0 {
        None
    } else if entries[0].0@ == id {
        Some(entries[0].1)
    } else {
        hash_cache_lookup(entries.skip(1), id)
    }
}

/// The position of the slot cached for hash `h`; `-1` when none is cached.
pub open spec fn slot_cache_index(slots: Seq<(PathHash, PathSlot)>, h: PathHash) -> int
    decreases slots.len(),
{
    if slots.len() == 0 {
        -1
    } else if slots[0].0 == h {
        0
    } else if slot_cache_index(slots.skip(1), h) == -1 {
        -1
    } else {
        slot_cache_index(slots.skip(1), h) + 1
    }
}

/// A lookup skips any prefix that holds no match.
proof fn lemma_hash_lookup_skip(
    entries: Seq<(VirtualFileId, FileResult<PathHash>)>,
    id: VirtualFileIdView,
    i: int,
)
    requires
        0 <= i <= entries.len(),
        forall|k: int| 0 <= k < i ==> entries[k].0@ != id,
    ensures
        hash_cache_lookup(entries, id) == hash_cache_lookup(entries.skip(i), id),
    decreases i,
{
    if i > 0 {
        assert(entries[0].0@ != id);
        assert(entries.skip(1).skip(i - 1) =~= entries.skip(i));
        lemma_hash_lookup_skip(entries.skip(1), id, i - 1);
    } else {
        assert(entries.skip(0) =~= entries);
    }
}

/// A scan that first matches at position `i` is the lookup's result.
proof fn lemma_hash_lookup_at(
    entries: Seq<(VirtualFileId, FileResult<PathHash>)>,
    id: VirtualFileIdView,
    i: int,
)
    requires
        0 <= i < entries.len(),
        entries[i].0@ == id,
        forall|k: int| 0 <= k < i ==> entries[k].0@ != id,
    ensures
        hash_cache_lookup(entries, id) == Some(entries[i].1),
{
    lemma_hash_lookup_skip(entries, id, i);
    assert(entries.skip(i)[0] == entries[i]);
}

/// A scan that never matches means the lookup finds nothing.
proof fn lemma_hash_lookup_none(
    entries: Seq<(VirtualFileId, FileResult<PathHash>)>,
    id: VirtualFileIdView,
)
    requires
        forall|k: int| 0 <= k < entries.len() ==> entries[k].0@ != id,
    ensures
        hash_cache_lookup(entries, id) is None,
{
    lemma_hash_lookup_skip(entries, id, entries.len() as int);
    assert(entries.skip(entries.len() as int) =~= Seq::<(
        VirtualFileId,
        FileResult<PathHash>,
    )>::empty());
}

/// How appending one entry changes a lookup: a hit is preserved, and only
/// the appended identity gains an answer.
proof fn lemma_hash_lookup_push(
    entries: Seq<(VirtualFileId, FileResult<PathHash>)>,
    e: (VirtualFileId, FileResult<PathHash>),
    o: VirtualFileIdView,
)
    ensures
        hash_cache_lookup(entries.push(e), o) == (if hash_cache_lookup(entries, o) is Some {
            hash_cache_lookup(entries, o)
        } else if e.0@ == o {
            Some(e.1)
        } else {
            None
        }),
    decreases entries.len(),
{
    if entries.len() == 0 {
        reveal_with_fuel(hash_cache_lookup, 2);
        assert(entries.push(e)[0] == e);
        assert(entries.push(e).skip(1) =~= Seq::<(VirtualFileId, FileResult<PathHash>)>::empty());
    } else {
        assert(entries.push(e)[0] == entries[0]);
        assert(entries.push(e).skip(1) =~= entries.skip(1).push(e));
        lemma_hash_lookup_push(entries.skip(1), e, o);
    }
}

/// An index skips any prefix that holds no match.
proof fn lemma_slot_index_skip(slots: Seq<(PathHash, PathSlot)>, h: PathHash, i: int)
    requires
        0 <= i <= slots.len(),
        forall|k: int| 0 <= k < i ==> slots[k].0 != h,
    ensures
        slot_cache_index(slots, h) == (if slot_cache_index(slots.skip(i), h) == -1 {
            -1int
        } else {
            slot_cache_index(slots.skip(i), h) + i
        }),
    decreases i,
{
    if i > 0 {
        assert(slots[0].0 != h);
        assert(slots.skip(1).skip(i - 1) =~= slots.skip(i));
        lemma_slot_index_bounds(slots.skip(i), h);
        lemma_slot_index_skip(slots.skip(1), h, i - 1);
    } else {
        assert(slots.skip(0) =~= slots);
    }
}

/// A scan that first matches at position `i` is the cached slot's index.
proof fn lemma_slot_index_at(slots: Seq<(PathHash, PathSlot)>, h: PathHash, i: int)
    requires
        0 <= i < slots.len(),
        slots[i].0 == h,
        forall|k: int| 0 <= k < i ==> slots[k].0 != h,
    ensures
        slot_cache_index(slots, h) == i,
{
    lemma_slot_index_skip(slots, h, i);
    assert(slots.skip(i)[0] == slots[i]);
}

/// A scan that never matches means no slot is cached.
proof fn lemma_slot_index_none(slots: Seq<(PathHash, PathSlot)>, h: PathHash)
    requires
        forall|k: int| 0 <= k < slots.len() ==> slots[k].0 != h,
    ensures
        slot_cache_index(slots, h) == -1,
{
    lemma_slot_index_skip(slots, h, slots.len() as int);
    assert(slots.skip(slots.len() as int) =~= Seq::<(PathHash, PathSlot)>::empty());
}

/// Appending a slot under a fresh hash leaves every other index unchanged
/// and places the new slot at the end.
proof fn lemma_slot_index_push(slots: Seq<(PathHash, PathSlot)>, e: (PathHash, PathSlot), o: PathHash)
    ensures
        slot_cache_index(slots.push(e), o) == (if slot_cache_index(slots, o) >= 0 {
            slot_cache_index(slots, o)
        } else if e.0 == o {
            slots.len() as int
        } else {
            -1int
        }),
    decreases slots.len(),
{
    lemma_slot_index_bounds(slots, o);
    if slots.len() == 0 {
        reveal_with_fuel(slot_cache_index, 2);
        assert(slots.push(e)[0] == e);
        assert(slots.push(e).skip(1) =~= Seq::<(PathHash, PathSlot)>::empty());
    } else {
        assert(slots.push(e)[0] == slots[0]);
        assert(slots.push(e).skip(1) =~= slots.skip(1).push(e));
        lemma_slot_index_bounds(slots.skip(1), o);
        lemma_slot_index_push(slots.skip(1), e, o);
    }
}

/// The index depends only on the hashes, not on the slots beside them.
proof fn lemma_slot_index_same_keys(
    s1: Seq<(PathHash, PathSlot)>,
    s2: Seq<(PathHash, PathSlot)>,
    h: PathHash,
)
    requires
        s1.len() == s2.len(),
        forall|k: int| 0 <= k < s1.len() ==> s1[k].0 == s2[k].0,
    ensures
        slot_cache_index(s1, h) == slot_cache_index(s2, h),
    decreases s1.len(),
{
    if s1.len() > 0 {
        assert(forall|k: int| 0 <= k < s1.skip(1).len() ==> s1.skip(1)[k].0 == s2.skip(1)[k].0);
        lemma_slot_index_same_keys(s1.skip(1), s2.skip(1), h);
    }
}

/// A cached index is in bounds and names its hash.
proof fn lemma_slot_index_bounds(slots: Seq<(PathHash, PathSlot)>, h: PathHash)
    ensures
        -1 <= slot_cache_index(slots, h) < slots.len(),
        slot_cache_index(slots, h) >= 0 ==> slots[slot_cache_index(slots, h)].0 == h,
    decreases slots.len(),
{
    if slots.len() > 0 {
        lemma_slot_index_bounds(slots.skip(1), h);
    }
}

/// A successful lookup names an entry of the cache.
proof fn lemma_hash_lookup_found(
    entries: Seq<(VirtualFileId, FileResult<PathHash>)>,
    id: VirtualFileIdView,
)
    requires
        hash_cache_lookup(entries, id) is Some,
    ensures
        exists|i: int|
            0 <= i < entries.len() && (#[trigger] entries[i]).0@ == id && entries[i].1
                == hash_cache_lookup(entries, id)->0,
    decreases entries.len(),
{
    if entries[0].0@ == id {
        assert(entries[0].0@ == id && entries[0].1 == hash_cache_lookup(entries, id)->0);
    } else {
        lemma_hash_lookup_found(entries.skip(1), id);
        let i = choose|i: int|
            0 <= i < entries.skip(1).len() && (#[trigger] entries.skip(1)[i]).0@ == id
                && entries.skip(1)[i].1 == hash_cache_lookup(entries.skip(1), id)->0;
        assert((entries[i + 1]).0@ == id && entries[i + 1].1 == hash_cache_lookup(
            entries,
            id,
        )->0);
    }
}

/// A world that provides a document compiler access to the embedder's
/// storage, network, font and clock capabilities, memoizing every resolved
/// resource for the length of the session.
pub struct SystemWorld<F: FileManager, N: PackageFetcher> {
    pub(crate) main: VirtualFileId,
    pub(crate) fonts: Vec<FontDefinition>,
    pub(crate) hashes: Vec<(VirtualFileId, FileResult<PathHash>)>,
    pub(crate) slots: Vec<(PathHash, PathSlot)>,
    pub(crate) today: Option<Option<Date>>,
    pub(crate) file_manager: F,
    pub(crate) fetcher: N,
}

impl<F: FileManager, N: PackageFetcher> SystemWorld<F, N> {
    /// The designated main-file identity.
    pub closed spec fn main_of(&self) -> VirtualFileId {
        self.main
    }

    /// The font catalog.
    pub closed spec fn fonts_of(&self) -> Seq<FontDefinition> {
        self.fonts@
    }

    /// The identity-hash cache.
    pub closed spec fn hash_cache_of(&self) -> Seq<(VirtualFileId, FileResult<PathHash>)> {
        self.hashes@
    }

    /// The resource-slot cache.
    pub closed spec fn slot_cache_of(&self) -> Seq<(PathHash, PathSlot)> {
        self.slots@
    }

    /// The session-pinned date memo.
    pub closed spec fn today_of(&self) -> Option<Option<Date>> {
        self.today
    }

    /// Well-formedness of the world: the main identity never carries a
    /// package, identities and hashes are cached at most once, every
    /// cached hash is the identity hash of its identity, hashing an
    /// identity outside any package never fails, the only failure ever
    /// cached for an identity is not-found (a package that could not be
    /// acquired), every slot is well formed, and a memoized date is a
    /// real date.
    pub open spec fn wf(&self) -> bool {
        &&& self.main_of()@.package is None
        &&& (forall|i: int, j: int|
            0 <= i < j < self.hash_cache_of().len() ==> (#[trigger] self.hash_cache_of()[i]).0@
                != (#[trigger] self.hash_cache_of()[j]).0@)
        &&& (forall|i: int|
            0 <= i < self.hash_cache_of().len()
                ==> ((#[trigger] self.hash_cache_of()[i]).1 matches Ok(h) ==> h.value_spec()
                == self.hash_cache_of()[i].0@.ident_hash()))
        &&& (forall|i: int|
            0 <= i < self.hash_cache_of().len()
                ==> ((#[trigger] self.hash_cache_of()[i]).0@.package is None
                ==> self.hash_cache_of()[i].1 is Ok))
        &&& (forall|i: int|
            0 <= i < self.hash_cache_of().len()
                ==> ((#[trigger] self.hash_cache_of()[i]).1 matches Err(e) ==> e
                == FileError::NotFound))
        &&& (forall|i: int, j: int|
            0 <= i < j < self.slot_cache_of().len() ==> (#[trigger] self.slot_cache_of()[i]).0
                != (#[trigger] self.slot_cache_of()[j]).0)
        &&& (forall|i: int|
            0 <= i < self.slot_cache_of().len() ==> (#[trigger] self.slot_cache_of()[i]).1.wf())
        &&& (forall|i: int|
            0 <= i < self.slot_cache_of().len() ==> (#[trigger] self.slot_cache_of()[i]).1.id_of()@
                .ident_hash() == self.slot_cache_of()[i].0.value_spec())
        &&& (self.today_of() matches Some(Some(d)) ==> valid_date(d))
    }

    /// Constructs a world for one editing session over the embedder's
    /// storage and network capabilities, with `main` as the entry point.
    pub fn new(file_manager: F, fetcher: N, main: &str) -> (r: SystemWorld<F, N>)
        ensures
            r.wf(),
            r.main_of()@.package is None,
            r.main_of()@.path == rooted(normalize(main@)),
            r.hash_cache_of().len() == 0,
            r.slot_cache_of().len() == 0,
            r.fonts_of().len() == 0,
            r.today_of() is None,
    {
        SystemWorld {
            main: VirtualFileId::new(None, main),
            fonts: Vec::new(),
            hashes: Vec::new(),
            slots: Vec::new(),
            today: None,
            file_manager,
            fetcher,
        }
    }

    /// Clears the identity-hash cache and the resource-slot cache, so that
    /// the next access observes fresh file contents. The font catalog, the
    /// main identity and the pinned date survive.
    pub fn reset(&mut self)
        requires
            old(self).wf(),
        ensures
            final(self).wf(),
            final(self).hash_cache_of().len() == 0,
            final(self).slot_cache_of().len() == 0,
            final(self).main_of() == old(self).main_of(),
            final(self).fonts_of() == old(self).fonts_of(),
            final(self).today_of() == old(self).today_of(),
    {
        self.hashes.clear();
        self.slots.clear();
    }

    /// Replaces the main-file identity without invalidating any cache.
    pub fn set_main(&mut self, path: &str) -> (r: FileResult<()>)
        requires
            old(self).wf(),
        ensures
            final(self).wf(),
            r is Ok,
            final(self).main_of()@.package is None,
            final(self).main_of()@.path == rooted(normalize(path@)),
            final(self).hash_cache_of() == old(self).hash_cache_of(),
            final(self).slot_cache_of() == old(self).slot_cache_of(),
            final(self).fonts_of() == old(self).fonts_of(),
            final(self).today_of() == old(self).today_of(),
    {
        self.main = VirtualFileId::new(None, path);
        proof {
            assert(self.hash_cache_of() == old(self).hash_cache_of());
            assert(self.slot_cache_of() == old(self).slot_cache_of());
        }
        Ok(())
    }

    /// Registers one raw font blob in the catalog.
    pub fn add_font(&mut self, font: FontDefinition)
        requires
            old(self).wf(),
        ensures
            final(self).wf(),
            final(self).fonts_of() == old(self).fonts_of().push(font),
            final(self).main_of() == old(self).main_of(),
            final(self).hash_cache_of() == old(self).hash_cache_of(),
            final(self).slot_cache_of() == old(self).slot_cache_of(),
            final(self).today_of() == old(self).today_of(),
    {
        self.fonts.push(font);
        proof {
            assert(self.hash_cache_of() == old(self).hash_cache_of());
            assert(self.slot_cache_of() == old(self).slot_cache_of());
        }
    }

    /// The session-stable font catalog; never fails.
    pub fn font_catalog(&self) -> (r: &Vec<FontDefinition>)
        ensures
            r@ == self.fonts_of(),
    {
        &self.fonts
    }

    /// Looks up a font blob by catalog index; an out-of-range index yields
    /// an empty result rather than failing.
    pub fn font(&self, index: usize) -> (r: Option<FontDefinition>)
        ensures
            index < self.fonts_of().len() ==> (r matches Some(f) && f.data@ == self.fonts_of()[
                index as int].data@),
            index >= self.fonts_of().len() ==> r is None,
    {
        if index < self.fonts.len() {
            Some(self.fonts[index].clone())
        } else {
            None
        }
    }

    /// The current date, pinned for the session: computed through the
    /// clock capability on the first call and memoized, so every later
    /// call — whatever its offset — observes the same value.
    pub fn today(&mut self, offset: Option<i64>) -> (r: Option<Date>)
        requires
            old(self).wf(),
        ensures
            final(self).wf(),
            final(self).main_of() == old(self).main_of(),
            final(self).fonts_of() == old(self).fonts_of(),
            final(self).hash_cache_of() == old(self).hash_cache_of(),
            final(self).slot_cache_of() == old(self).slot_cache_of(),
            final(self).today_of() == Some(r),
            old(self).today_of() matches Some(v) ==> r == v && final(self).today_of() == old(self).today_of(),
            r matches Some(d) ==> valid_date(d),
    {
        if let Some(v) = &self.today {
            return *v;
        }
        let computed: Option<Date> = match current_ymd(offset) {
            Some((y, m, d)) => Date::from_ymd(y, m as u8, d as u8),
            None => None,
        };
        self.today = Some(computed);
        proof {
            assert(self.hash_cache_of() == old(self).hash_cache_of());
            assert(self.slot_cache_of() == old(self).slot_cache_of());
        }
        computed
    }

    /// Resolves an identity to its cached hash outcome, computing and
    /// caching it on first sight. For a package-qualified identity the
    /// first resolution triggers package acquisition; an identity whose
    /// package cannot be acquired is cached as — and fails with — not
    /// found.
    #[verifier::loop_isolation(false)]
    fn resolve_hash(&mut self, id: &VirtualFileId) -> (r: FileResult<PathHash>)
        requires
            old(self).wf(),
        ensures
            final(self).wf(),
            final(self).main_of() == old(self).main_of(),
            final(self).fonts_of() == old(self).fonts_of(),
            final(self).today_of() == old(self).today_of(),
            final(self).slot_cache_of() == old(self).slot_cache_of(),
            hash_cache_lookup(final(self).hash_cache_of(), id@) == Some(r),
            forall|o: VirtualFileIdView|
                hash_cache_lookup(old(self).hash_cache_of(), o) is Some ==> #[trigger]
                    hash_cache_lookup(final(self).hash_cache_of(), o) == hash_cache_lookup(
                    old(self).hash_cache_of(),
                    o,
                ),
            hash_cache_lookup(old(self).hash_cache_of(), id@) matches Some(x) ==> r == x && final(self).hash_cache_of() == old(self).hash_cache_of(),
            r matches Ok(h) ==> h.value_spec() == id@.ident_hash(),
            r matches Err(e) ==> e == FileError::NotFound,
            id@.package is None ==> r is Ok,
    {
        let n = self.hashes.len();
        let mut k: usize = 0;
        while k < n
            invariant
                k <= n,
                forall|j: int| 0 <= j < k ==> self.hashes@[j].0@ != id@,
            decreases n - k,
        {
            if self.hashes[k].0.matches(id) {
                proof {
                    lemma_hash_lookup_at(self.hashes@, id@, k as int);
                }
                return self.hashes[k].1;
            }
            k = k + 1;
        }
        proof {
            lemma_hash_lookup_none(self.hashes@, id@);
        }
        let entry: FileResult<PathHash> = match &id.package {
            Some(spec) => {
                match self.check_package(spec) {
                    Ok(_) => PathHash::new(&id.path, &id.package),
                    Err(_) => Err(FileError::NotFound),
                }
            },
            None => PathHash::new(&id.path, &id.package),
        };
        let ghost pre = self.hashes@;
        let pair = (id.clone(), entry);
        let ghost gpair = pair;
        self.hashes.push(pair);
        proof {
            assert(self.hashes@ == pre.push(gpair));
            assert(self.slot_cache_of() == old(self).slot_cache_of());
            lemma_hash_lookup_push(pre, gpair, id@);
            assert(hash_cache_lookup(self.hashes@, id@) == Some(entry));
            assert forall|o: VirtualFileIdView|
                hash_cache_lookup(pre, o) is Some implies #[trigger] hash_cache_lookup(
                self.hashes@,
                o,
            ) == hash_cache_lookup(pre, o) by {
                lemma_hash_lookup_push(pre, gpair, o);
            }
            assert forall|i: int, j: int|
                0 <= i < j < self.hash_cache_of().len() implies (
            #[trigger] self.hash_cache_of()[i]).0@ != (#[trigger] self.hash_cache_of()[j]).0@ by {
                if j == pre.len() {
                    assert(pre[i].0@ != id@);
                }
            }
            assert forall|i: int|
                0 <= i < self.hash_cache_of().len() implies ((
            #[trigger] self.hash_cache_of()[i]).1 matches Ok(hh) ==> hh.value_spec()
                == self.hash_cache_of()[i].0@.ident_hash()) by {
                if i < pre.len() {
                    assert(self.hash_cache_of()[i] == pre[i]);
                }
            }
            assert forall|i: int|
                0 <= i < self.hash_cache_of().len() implies ((
            #[trigger] self.hash_cache_of()[i]).0@.package is None
                ==> self.hash_cache_of()[i].1 is Ok) by {
                if i < pre.len() {
                    assert(self.hash_cache_of()[i] == pre[i]);
                }
            }
            assert forall|i: int|
                0 <= i < self.hash_cache_of().len() implies ((
            #[trigger] self.hash_cache_of()[i]).1 matches Err(e) ==> e == FileError::NotFound)
                by {
                if i < pre.len() {
                    assert(self.hash_cache_of()[i] == pre[i]);
                }
            }
        }
        entry
    }

    /// Finds the slot cached for `h`, creating an empty slot for `id` when
    /// this is the hash's first access.
    #[verifier::loop_isolation(false)]
    fn ensure_slot(&mut self, id: &VirtualFileId, h: PathHash) -> (i: usize)
        requires
            old(self).wf(),
            h.value_spec() == id@.ident_hash(),
        ensures
            final(self).wf(),
            final(self).main_of() == old(self).main_of(),
            final(self).fonts_of() == old(self).fonts_of(),
            final(self).today_of() == old(self).today_of(),
            final(self).hash_cache_of() == old(self).hash_cache_of(),
            i < final(self).slot_cache_of().len(),
            final(self).slot_cache_of()[i as int].0 == h,
            slot_cache_index(final(self).slot_cache_of(), h) == i as int,
            slot_cache_index(old(self).slot_cache_of(), h) >= 0 ==> final(self).slot_cache_of()
                == old(self).slot_cache_of() && i as int == slot_cache_index(
                old(self).slot_cache_of(),
                h,
            ),
            slot_cache_index(old(self).slot_cache_of(), h) == -1 ==> {
                &&& final(self).slot_cache_of().len() == old(self).slot_cache_of().len() + 1
                &&& forall|k: int|
                    0 <= k < old(self).slot_cache_of().len() ==> #[trigger] final(self).slot_cache_of()[k] == old(self).slot_cache_of()[k]
                &&& final(self).slot_cache_of()[i as int].1.text_memo() is None
                &&& final(self).slot_cache_of()[i as int].1.bytes_memo() is None
                &&& final(self).slot_cache_of()[i as int].1.id_of() == *id
            },
    {
        let n = self.slots.len();
        let mut k: usize = 0;
        while k < n
            invariant
                k <= n,
                forall|j: int| 0 <= j < k ==> self.slots@[j].0 != h,
            decreases n - k,
        {
            let hit = self.slots[k].0 == h;
            if hit {
                proof {
                    lemma_slot_index_at(self.slots@, h, k as int);
                }
                return k;
            }
            k = k + 1;
        }
        proof {
            lemma_slot_index_none(self.slots@, h);
        }
        let ghost pre = self.slots@;
        let slot = PathSlot::new(id.clone());
        self.slots.push((h, slot));
        proof {
            assert(self.hash_cache_of() == old(self).hash_cache_of());
            lemma_slot_index_push(pre, self.slots@[pre.len() as int], h);
            assert(slot_cache_index(self.slots@, h) == pre.len() as int);
            assert forall|i: int, j: int|
                0 <= i < j < self.slot_cache_of().len() implies (
            #[trigger] self.slot_cache_of()[i]).0 != (#[trigger] self.slot_cache_of()[j]).0 by {
                if j == pre.len() {
                    assert(pre[i].0 != h);
                }
            }
            assert forall|i: int|
                0 <= i < self.slot_cache_of().len() implies (
            #[trigger] self.slot_cache_of()[i]).1.wf() by {
                if i < pre.len() {
                    assert(self.slot_cache_of()[i] == pre[i]);
                }
            }
            assert forall|i: int|
                0 <= i < self.slot_cache_of().len() implies (
            #[trigger] self.slot_cache_of()[i]).1.id_of()@.ident_hash()
                == self.slot_cache_of()[i].0.value_spec() by {
                if i < pre.len() {
                    assert(self.slot_cache_of()[i] == pre[i]);
                }
            }
        }
        self.slots.len() - 1
    }

    /// Resolves an identity to its decoded text, creating and filling the
    /// resource slot as needed; the underlying storage read happens at most
    /// once per slot and accessor for the whole session.
    pub fn source(&mut self, id: &VirtualFileId) -> (r: FileResult<Source>)
        requires
            old(self).wf(),
        ensures
            final(self).wf(),
            final(self).main_of() == old(self).main_of(),
            final(self).fonts_of() == old(self).fonts_of(),
            final(self).today_of() == old(self).today_of(),
            hash_cache_lookup(final(self).hash_cache_of(), id@) is Some,
            id@.package is None ==> hash_cache_lookup(final(self).hash_cache_of(), id@)->0 is Ok,
            forall|o: VirtualFileIdView|
                hash_cache_lookup(old(self).hash_cache_of(), o) is Some ==> #[trigger]
                    hash_cache_lookup(final(self).hash_cache_of(), o) == hash_cache_lookup(
                    old(self).hash_cache_of(),
                    o,
                ),
            hash_cache_lookup(final(self).hash_cache_of(), id@) matches Some(Err(e)) ==> (r
                is Err && r->Err_0 == e && e == FileError::NotFound && final(
                self).slot_cache_of() == old(self).slot_cache_of()),
            hash_cache_lookup(final(self).hash_cache_of(), id@) matches Some(Ok(h)) ==> {
                &&& slot_cache_index(final(self).slot_cache_of(), h) >= 0
                &&& final(self).slot_cache_of()[slot_cache_index(
                    final(self).slot_cache_of(),
                    h,
                )].1.text_memo() == Some(r)
            },
            hash_cache_lookup(old(self).hash_cache_of(), id@) matches Some(Ok(h)) ==> (
            slot_cache_index(old(self).slot_cache_of(), h) >= 0 ==> (old(self).slot_cache_of()[
                slot_cache_index(old(self).slot_cache_of(), h)].1.text_memo() matches Some(m)
                ==> (r == m && final(self).slot_cache_of() == old(self).slot_cache_of() && final(
                self).hash_cache_of() == old(self).hash_cache_of()))),
            r matches Ok(s) ==> (s.id matches Some(sid) && sid@.ident_hash() == id@.ident_hash()),
    {
        let h = match self.resolve_hash(id) {
            Ok(h) => h,
            Err(e) => {
                return Err(e);
            },
        };
        let i = self.ensure_slot(id, h);
        let ghost pre = self.slots@;
        let mut pair = self.slots.remove(i);
        let r = pair.1.source(&self.file_manager);
        self.slots.insert(i, pair);
        proof {
            assert(self.slots@ =~= pre.update(i as int, (pre[i as int].0, self.slots@[i as int].1)));
            assert(forall|k: int| 0 <= k < pre.len() ==> self.slots@[k].0 == pre[k].0);
            lemma_slot_index_same_keys(self.slots@, pre, h);
            match hash_cache_lookup(old(self).hash_cache_of(), id@) {
                Some(Ok(h0)) => {
                    if slot_cache_index(old(self).slot_cache_of(), h0) >= 0 && old(
                        self,
                    ).slot_cache_of()[slot_cache_index(old(self).slot_cache_of(), h0)].1
                        .text_memo() is Some {
                        assert(h0 == h);
                        assert(self.slots@ =~= pre);
                    }
                },
                _ => {},
            }
        }
        r
    }

    /// Resolves an identity to its raw bytes, creating and filling the
    /// resource slot as needed; the underlying storage read happens at most
    /// once per slot and accessor for the whole session.
    pub fn file(&mut self, id: &VirtualFileId) -> (r: FileResult<Vec<u8>>)
        requires
            old(self).wf(),
        ensures
            final(self).wf(),
            final(self).main_of() == old(self).main_of(),
            final(self).fonts_of() == old(self).fonts_of(),
            final(self).today_of() == old(self).today_of(),
            hash_cache_lookup(final(self).hash_cache_of(), id@) is Some,
            id@.package is None ==> hash_cache_lookup(final(self).hash_cache_of(), id@)->0 is Ok,
            forall|o: VirtualFileIdView|
                hash_cache_lookup(old(self).hash_cache_of(), o) is Some ==> #[trigger]
                    hash_cache_lookup(final(self).hash_cache_of(), o) == hash_cache_lookup(
                    old(self).hash_cache_of(),
                    o,
                ),
            hash_cache_lookup(final(self).hash_cache_of(), id@) matches Some(Err(e)) ==> (r
                is Err && r->Err_0 == e && e == FileError::NotFound && final(
                self).slot_cache_of() == old(self).slot_cache_of()),
            hash_cache_lookup(final(self).hash_cache_of(), id@) matches Some(Ok(h)) ==> {
                &&& slot_cache_index(final(self).slot_cache_of(), h) >= 0
                &&& final(self).slot_cache_of()[slot_cache_index(
                    final(self).slot_cache_of(),
                    h,
                )].1.bytes_memo() matches Some(m) && bytes_outcome(m) == bytes_outcome(r)
            },
            hash_cache_lookup(old(self).hash_cache_of(), id@) matches Some(Ok(h)) ==> (
            slot_cache_index(old(self).slot_cache_of(), h) >= 0 ==> (old(self).slot_cache_of()[
                slot_cache_index(old(self).slot_cache_of(), h)].1.bytes_memo() matches Some(m)
                ==> (bytes_outcome(r) == bytes_outcome(m) && final(self).slot_cache_of() == old(
                self).slot_cache_of() && final(self).hash_cache_of() == old(self).hash_cache_of()))),
    {
        let h = match self.resolve_hash(id) {
            Ok(h) => h,
            Err(e) => {
                return Err(e);
            },
        };
        let i = self.ensure_slot(id, h);
        let ghost pre = self.slots@;
        let mut pair = self.slots.remove(i);
        let r = pair.1.file(&self.file_manager);
        self.slots.insert(i, pair);
        proof {
            assert(self.slots@ =~= pre.update(i as int, (pre[i as int].0, self.slots@[i as int].1)));
            assert(forall|k: int| 0 <= k < pre.len() ==> self.slots@[k].0 == pre[k].0);
            lemma_slot_index_same_keys(self.slots@, pre, h);
            match hash_cache_lookup(old(self).hash_cache_of(), id@) {
                Some(Ok(h0)) => {
                    if slot_cache_index(old(self).slot_cache_of(), h0) >= 0 && old(
                        self,
                    ).slot_cache_of()[slot_cache_index(old(self).slot_cache_of(), h0)].1
                        .bytes_memo() is Some {
                        assert(h0 == h);
                        assert(self.slots@ =~= pre);
                    }
                },
                _ => {},
            }
        }
        r
    }

    /// The decoded text of the designated main file. When the main
    /// identity cannot be resolved, a placeholder document is returned
    /// rather than an error, so that a compilation always has an entry
    /// document to report diagnostics against.
    pub fn main_source(&mut self) -> (r: Source)
        requires
            old(self).wf(),
        ensures
            final(self).wf(),
            final(self).main_of() == old(self).main_of(),
            final(self).fonts_of() == old(self).fonts_of(),
            final(self).today_of() == old(self).today_of(),
            hash_cache_lookup(final(self).hash_cache_of(), old(self).main_of()@) is Some,
            hash_cache_lookup(final(self).hash_cache_of(), old(self).main_of()@)->0 is Ok,
            hash_cache_lookup(final(self).hash_cache_of(), old(self).main_of()@) matches Some(
                Ok(h),
            ) ==> (final(self).slot_cache_of()[slot_cache_index(final(self).slot_cache_of(), h)].1
                .text_memo() matches Some(Ok(s)) ==> r == s),
            hash_cache_lookup(final(self).hash_cache_of(), old(self).main_of()@) is Some
                && !(hash_cache_lookup(final(self).hash_cache_of(), old(self).main_of()@)
                matches Some(Ok(h)) && final(self).slot_cache_of()[slot_cache_index(
                final(self).slot_cache_of(),
                h,
            )].1.text_memo() matches Some(Ok(s))) ==> r.id is None && r.text@
                == "= No main file detected."@,
    {
        let main = self.main.clone();
        proof {
            assert(main@ == old(self).main_of()@);
            assert(main@.package is None);
        }
        let r = self.source(&main);
        proof {
            assert(hash_cache_lookup(self.hash_cache_of(), main@)->0 is Ok);
        }
        match r {
            Ok(s) => s,
            Err(_) => Source::detached("= No main file detected."),
        }
    }
}

/// Law: in a well-formed world, two cached identities with the same
/// identity hash — in particular two raw aliases that normalized to the
/// same physical path and package — carry the same cached hash, and so
/// route to the same resource slot.
pub proof fn lemma_same_identity_same_slot<F: FileManager, N: PackageFetcher>(
    w: SystemWorld<F, N>,
    a: VirtualFileIdView,
    b: VirtualFileIdView,
)
    requires
        w.wf(),
        a.ident_hash() == b.ident_hash(),
        hash_cache_lookup(w.hash_cache_of(), a) matches Some(Ok(ha)),
        hash_cache_lookup(w.hash_cache_of(), b) matches Some(Ok(hb)),
    ensures
        hash_cache_lookup(w.hash_cache_of(), a)->0 == hash_cache_lookup(w.hash_cache_of(), b)->0,
        slot_cache_index(
            w.slot_cache_of(),
            hash_cache_lookup(w.hash_cache_of(), a)->0->Ok_0,
        ) == slot_cache_index(w.slot_cache_of(), hash_cache_lookup(w.hash_cache_of(), b)->0->Ok_0),
{
    lemma_hash_lookup_found(w.hash_cache_of(), a);
    lemma_hash_lookup_found(w.hash_cache_of(), b);
    let ha = hash_cache_lookup(w.hash_cache_of(), a)->0->Ok_0;
    let hb = hash_cache_lookup(w.hash_cache_of(), b)->0->Ok_0;
    assert(ha.value_spec() == a.ident_hash());
    assert(hb.value_spec() == b.ident_hash());
    PathHash::lemma_value_injective(ha, hb);
}

} // verus!

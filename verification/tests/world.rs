use std::collections::HashMap;
use std::sync::{Arc, Mutex};

use virtual_world::package::resolve_package_action;
use virtual_world::{
    FetchOutcome, FileError, FileManager, FileManagerError, PackageAction, PackageError,
    PackageFetcher, PackageSpec, PathHash, PathSlot, SystemWorld, Version, VirtualFileId,
    VirtualPath,
};

/// An in-memory storage capability that records every call.
struct MemStorage {
    files: Mutex<HashMap<(String, Option<String>), Vec<u8>>>,
    packages_present: Mutex<Vec<String>>,
    reads: Mutex<Vec<(String, Option<String>)>>,
    writes: Mutex<Vec<(String, Option<String>, Vec<u8>)>>,
    dirs: Mutex<Vec<(String, Option<String>)>>,
}

impl MemStorage {
    fn new() -> Arc<MemStorage> {
        Arc::new(MemStorage {
            files: Mutex::new(HashMap::new()),
            packages_present: Mutex::new(Vec::new()),
            reads: Mutex::new(Vec::new()),
            writes: Mutex::new(Vec::new()),
            dirs: Mutex::new(Vec::new()),
        })
    }

    fn put(&self, path: &str, package: Option<&str>, data: &[u8]) {
        self.files
            .lock()
            .unwrap()
            .insert((path.to_string(), package.map(|p| p.to_string())), data.to_vec());
    }

    fn read_count(&self) -> usize {
        self.reads.lock().unwrap().len()
    }
}

/// A shareable handle to the storage mock, so that tests keep a view of
/// the call log after the world takes ownership of the capability.
struct SharedStorage(Arc<MemStorage>);

impl FileManager for SharedStorage {
    fn read(&self, path: String, package: Option<String>) -> Result<Vec<u8>, FileManagerError> {
        self.0.reads.lock().unwrap().push((path.clone(), package.clone()));
        match self.0.files.lock().unwrap().get(&(path, package)) {
            Some(v) => Ok(v.clone()),
            None => Err(FileManagerError::NotFound),
        }
    }

    fn write(
        &self,
        path: String,
        package: Option<String>,
        data: Vec<u8>,
    ) -> Result<(), FileManagerError> {
        self.0.writes.lock().unwrap().push((path.clone(), package.clone(), data.clone()));
        self.0.files.lock().unwrap().insert((path, package), data);
        Ok(())
    }

    fn file_exists(&self, path: String, package: Option<String>) -> Result<bool, FileManagerError> {
        if path == "/" {
            match package {
                Some(q) => Ok(self.0.packages_present.lock().unwrap().contains(&q)),
                None => Ok(true),
            }
        } else {
            Ok(self.0.files.lock().unwrap().contains_key(&(path, package)))
        }
    }

    fn create_directory(
        &self,
        path: String,
        package: Option<String>,
    ) -> Result<(), FileManagerError> {
        self.0.dirs.lock().unwrap().push((path, package));
        Ok(())
    }
}

/// What a mock network endpoint answers.
enum MockAnswer {
    Archive(Vec<u8>),
    NotFound,
    TransportError,
}

/// A network capability that records every request.
struct MockFetcher {
    answer: MockAnswer,
    requests: Mutex<Vec<String>>,
}

impl MockFetcher {
    fn new(answer: MockAnswer) -> Arc<MockFetcher> {
        Arc::new(MockFetcher { answer, requests: Mutex::new(Vec::new()) })
    }

    fn request_count(&self) -> usize {
        self.requests.lock().unwrap().len()
    }
}

/// A shareable handle to the fetcher mock.
struct SharedFetcher(Arc<MockFetcher>);

impl PackageFetcher for SharedFetcher {
    fn fetch(&self, url: String) -> FetchOutcome {
        self.0.requests.lock().unwrap().push(url);
        match &self.0.answer {
            MockAnswer::Archive(bytes) => FetchOutcome::Archive(bytes.clone()),
            MockAnswer::NotFound => FetchOutcome::NotFound,
            MockAnswer::TransportError => FetchOutcome::TransportError,
        }
    }
}

fn preview_spec(name: &str) -> PackageSpec {
    PackageSpec {
        namespace: "preview".to_string(),
        name: name.to_string(),
        version: Version { major: 1, minor: 0, patch: 0 },
    }
}

/// A gzip-compressed tar archive holding the given files.
fn targz(files: &[(&str, &[u8])]) -> Vec<u8> {
    let mut tarball: Vec<u8> = Vec::new();
    {
        let mut builder = tar::Builder::new(&mut tarball);
        for (path, data) in files {
            let mut header = tar::Header::new_gnu();
            header.set_size(data.len() as u64);
            header.set_mode(0o644);
            builder.append_data(&mut header, path, *data).unwrap();
        }
        builder.finish().unwrap();
    }
    let mut gz = flate2::write::GzEncoder::new(Vec::new(), flate2::Compression::default());
    std::io::Write::write_all(&mut gz, &tarball).unwrap();
    gz.finish().unwrap()
}

#[test]
fn aliased_identities_share_one_slot_and_one_read() {
    let storage = MemStorage::new();
    storage.put("/main.typ", None, b"= Hello");
    let fetcher = MockFetcher::new(MockAnswer::NotFound);
    let mut world = SystemWorld::new(SharedStorage(storage.clone()), SharedFetcher(fetcher.clone()), "main.typ");

    let a = VirtualFileId::new(None, "main.typ");
    let b = VirtualFileId::new(None, "/./main.typ");
    let c = VirtualFileId::new(None, "/sub/../main.typ");

    let ta = world.source(&a).unwrap();
    let tb = world.source(&b).unwrap();
    let tc = world.source(&c).unwrap();
    assert_eq!(ta.text, "= Hello");
    assert_eq!(tb.text, "= Hello");
    assert_eq!(tc.text, "= Hello");
    assert_eq!(storage.read_count(), 1);

    let ha = PathHash::new(&VirtualPath::new("main.typ"), &None).unwrap();
    let hb = PathHash::new(&VirtualPath::new("/sub/../main.typ"), &None).unwrap();
    assert_eq!(ha, hb);
}

#[test]
fn hash_differs_for_different_paths_and_packages() {
    let p1 = PathHash::new(&VirtualPath::new("/a.typ"), &None).unwrap();
    let p2 = PathHash::new(&VirtualPath::new("/b.typ"), &None).unwrap();
    assert_ne!(p1, p2);

    let spec = preview_spec("foo");
    let q1 = PathHash::new(&VirtualPath::new("/a.typ"), &Some(spec)).unwrap();
    assert_ne!(p1, q1);
}

#[test]
fn text_and_bytes_each_read_at_most_once() {
    let storage = MemStorage::new();
    storage.put("/main.typ", None, b"content");
    let fetcher = MockFetcher::new(MockAnswer::NotFound);
    let mut world = SystemWorld::new(SharedStorage(storage.clone()), SharedFetcher(fetcher.clone()), "main.typ");
    let id = VirtualFileId::new(None, "main.typ");

    for _ in 0..8 {
        assert_eq!(world.source(&id).unwrap().text, "content");
    }
    assert_eq!(storage.read_count(), 1);

    for _ in 0..8 {
        assert_eq!(world.file(&id).unwrap(), b"content");
    }
    assert_eq!(storage.read_count(), 2);
}

#[test]
fn failures_are_memoized_until_reset() {
    let storage = MemStorage::new();
    let fetcher = MockFetcher::new(MockAnswer::NotFound);
    let mut world = SystemWorld::new(SharedStorage(storage.clone()), SharedFetcher(fetcher.clone()), "missing.typ");
    let id = VirtualFileId::new(None, "missing.typ");

    assert!(world.source(&id).is_err());
    assert!(world.source(&id).is_err());
    assert_eq!(storage.read_count(), 1);
}

#[test]
fn reset_clears_the_caches() {
    let storage = MemStorage::new();
    storage.put("/main.typ", None, b"one");
    let fetcher = MockFetcher::new(MockAnswer::NotFound);
    let mut world = SystemWorld::new(SharedStorage(storage.clone()), SharedFetcher(fetcher.clone()), "main.typ");
    let id = VirtualFileId::new(None, "main.typ");

    assert_eq!(world.source(&id).unwrap().text, "one");
    assert_eq!(world.source(&id).unwrap().text, "one");
    assert_eq!(storage.read_count(), 1);

    storage.put("/main.typ", None, b"two");
    world.reset();
    assert_eq!(world.source(&id).unwrap().text, "two");
    assert_eq!(storage.read_count(), 2);
}

#[test]
fn main_source_returns_placeholder_when_main_is_missing() {
    let storage = MemStorage::new();
    let fetcher = MockFetcher::new(MockAnswer::NotFound);
    let mut world = SystemWorld::new(SharedStorage(storage.clone()), SharedFetcher(fetcher.clone()), "absent.typ");

    let doc = world.main_source();
    assert_eq!(doc.text, "= No main file detected.");
    assert!(doc.id.is_none());
}

#[test]
fn main_source_returns_the_main_text() {
    let storage = MemStorage::new();
    storage.put("/main.typ", None, b"= Title");
    let fetcher = MockFetcher::new(MockAnswer::NotFound);
    let mut world = SystemWorld::new(SharedStorage(storage.clone()), SharedFetcher(fetcher.clone()), "main.typ");

    assert_eq!(world.main_source().text, "= Title");
}

#[test]
fn set_main_switches_the_entry_point_without_reset() {
    let storage = MemStorage::new();
    storage.put("/a.typ", None, b"A");
    storage.put("/b.typ", None, b"B");
    let fetcher = MockFetcher::new(MockAnswer::NotFound);
    let mut world = SystemWorld::new(SharedStorage(storage.clone()), SharedFetcher(fetcher.clone()), "a.typ");

    assert_eq!(world.main_source().text, "A");
    world.set_main("b.typ").unwrap();
    assert_eq!(world.main_source().text, "B");
    assert_eq!(storage.read_count(), 2);
}

#[test]
fn unrepresentable_offset_yields_no_date_and_stays_pinned() {
    let storage = MemStorage::new();
    let fetcher = MockFetcher::new(MockAnswer::NotFound);
    let mut world = SystemWorld::new(SharedStorage(storage.clone()), SharedFetcher(fetcher.clone()), "main.typ");

    // an offset that is a representable delta but shifts the time out of
    // the calendar's range: no date, and no abort
    let first = world.today(Some(3_000_000_000));
    assert_eq!(first, None);
    // the session stays pinned to the first outcome
    assert_eq!(world.today(Some(0)), None);
    assert_eq!(world.today(Some(i64::MAX)), None);
}

#[test]
fn current_date_is_pinned_for_the_session() {
    let storage = MemStorage::new();
    let fetcher = MockFetcher::new(MockAnswer::NotFound);
    let mut world = SystemWorld::new(SharedStorage(storage.clone()), SharedFetcher(fetcher.clone()), "main.typ");

    let first = world.today(Some(0));
    let second = world.today(Some(5));
    assert_eq!(first, second);
    if let Some(d) = first {
        assert!(1 <= d.month && d.month <= 12);
        assert!(1 <= d.day && d.day <= 31);
    }
}

#[test]
fn font_catalog_is_indexed_and_survives_reset() {
    let storage = MemStorage::new();
    let fetcher = MockFetcher::new(MockAnswer::NotFound);
    let mut world = SystemWorld::new(SharedStorage(storage.clone()), SharedFetcher(fetcher.clone()), "main.typ");

    world.add_font(virtual_world::FontDefinition { data: vec![1, 2, 3] });
    assert_eq!(world.font_catalog().len(), 1);
    assert_eq!(world.font(0).unwrap().data, vec![1, 2, 3]);
    assert!(world.font(1).is_none());
    world.reset();
    assert_eq!(world.font(0).unwrap().data, vec![1, 2, 3]);
}

#[test]
fn preview_package_is_downloaded_and_unpacked() {
    let storage = MemStorage::new();
    let archive = targz(&[("typst.toml", b"[package]"), ("src/lib.typ", b"hi")]);
    let fetcher = MockFetcher::new(MockAnswer::Archive(archive));
    let world = SystemWorld::new(SharedStorage(storage.clone()), SharedFetcher(fetcher.clone()), "main.typ");

    let spec = preview_spec("foo");
    assert!(world.check_package(&spec).is_ok());
    assert_eq!(fetcher.request_count(), 1);
    assert_eq!(
        fetcher.requests.lock().unwrap()[0],
        "https://packages.typst.org/preview/foo-1.0.0.tar.gz"
    );

    let writes = storage.writes.lock().unwrap();
    let paths: Vec<&str> = writes.iter().map(|w| w.0.as_str()).collect();
    assert!(paths.contains(&"/typst.toml"));
    assert!(paths.contains(&"/src/lib.typ"));
    for w in writes.iter() {
        assert_eq!(w.1.as_deref(), Some("@preview/foo:1.0.0"));
    }
    let dirs = storage.dirs.lock().unwrap();
    assert!(dirs.iter().any(|d| d.0 == "/src"));
}

#[test]
fn preview_package_missing_on_the_endpoint_fails_as_not_found() {
    let storage = MemStorage::new();
    let fetcher = MockFetcher::new(MockAnswer::NotFound);
    let world = SystemWorld::new(SharedStorage(storage.clone()), SharedFetcher(fetcher.clone()), "main.typ");

    let spec = preview_spec("foo");
    assert_eq!(world.check_package(&spec), Err(PackageError::NotFound));
    assert_eq!(fetcher.request_count(), 1);
    assert!(storage.writes.lock().unwrap().is_empty());
    assert!(storage.dirs.lock().unwrap().is_empty());
}

#[test]
fn acquisition_policy_on_all_inputs() {
    assert_eq!(resolve_package_action(true, true), PackageAction::UseLocal);
    assert_eq!(resolve_package_action(true, false), PackageAction::UseLocal);
    assert_eq!(resolve_package_action(false, true), PackageAction::FetchPreview);
    assert_eq!(resolve_package_action(false, false), PackageAction::Unavailable);
}

#[test]
fn non_preview_namespace_never_fetches() {
    let storage = MemStorage::new();
    let fetcher = MockFetcher::new(MockAnswer::NotFound);
    let world = SystemWorld::new(SharedStorage(storage.clone()), SharedFetcher(fetcher.clone()), "main.typ");

    let spec = PackageSpec {
        namespace: "local".to_string(),
        name: "foo".to_string(),
        version: Version { major: 1, minor: 0, patch: 0 },
    };
    assert_eq!(world.check_package(&spec), Err(PackageError::NotFound));
    assert_eq!(fetcher.request_count(), 0);
}

#[test]
fn present_package_is_used_without_a_fetch() {
    let storage = MemStorage::new();
    storage.packages_present.lock().unwrap().push("@preview/foo:1.0.0".to_string());
    let fetcher = MockFetcher::new(MockAnswer::TransportError);
    let world = SystemWorld::new(SharedStorage(storage.clone()), SharedFetcher(fetcher.clone()), "main.typ");

    assert!(world.check_package(&preview_spec("foo")).is_ok());
    assert_eq!(fetcher.request_count(), 0);
}

#[test]
fn transport_failure_maps_to_network_failed() {
    let storage = MemStorage::new();
    let fetcher = MockFetcher::new(MockAnswer::TransportError);
    let world = SystemWorld::new(SharedStorage(storage.clone()), SharedFetcher(fetcher.clone()), "main.typ");

    assert_eq!(world.check_package(&preview_spec("foo")), Err(PackageError::NetworkFailed));
}

#[test]
fn corrupt_archive_maps_to_malformed_archive() {
    let storage = MemStorage::new();
    let fetcher = MockFetcher::new(MockAnswer::Archive(b"not a gzip stream".to_vec()));
    let world = SystemWorld::new(SharedStorage(storage.clone()), SharedFetcher(fetcher.clone()), "main.typ");

    assert_eq!(world.check_package(&preview_spec("foo")), Err(PackageError::MalformedArchive));
    assert!(storage.writes.lock().unwrap().is_empty());
}

#[test]
fn package_qualified_file_is_read_under_its_qualifier() {
    let storage = MemStorage::new();
    storage.packages_present.lock().unwrap().push("@preview/foo:1.0.0".to_string());
    storage.put("/lib.typ", Some("@preview/foo:1.0.0"), b"package text");
    let fetcher = MockFetcher::new(MockAnswer::NotFound);
    let mut world = SystemWorld::new(SharedStorage(storage.clone()), SharedFetcher(fetcher.clone()), "main.typ");

    let id = VirtualFileId::new(Some(preview_spec("foo")), "lib.typ");
    assert_eq!(world.source(&id).unwrap().text, "package text");
    let reads = storage.reads.lock().unwrap();
    assert_eq!(reads.len(), 1);
    assert_eq!(reads[0].0, "/lib.typ");
    assert_eq!(reads[0].1.as_deref(), Some("@preview/foo:1.0.0"));
}

#[test]
fn unacquirable_package_fails_the_access_and_is_memoized() {
    let storage = MemStorage::new();
    let fetcher = MockFetcher::new(MockAnswer::NotFound);
    let mut world = SystemWorld::new(SharedStorage(storage.clone()), SharedFetcher(fetcher.clone()), "main.typ");

    let id = VirtualFileId::new(Some(preview_spec("gone")), "lib.typ");
    assert_eq!(world.source(&id).map(|s| s.text), Err(FileError::NotFound));
    assert_eq!(world.source(&id).map(|s| s.text), Err(FileError::NotFound));
    // the failed acquisition is memoized: only the first access fetched
    assert_eq!(fetcher.request_count(), 1);
    assert_eq!(storage.read_count(), 0);
}

#[test]
fn slot_memoizes_text_and_bytes_independently() {
    let storage = MemStorage::new();
    storage.put("/f.typ", None, b"abc");

    let shared = SharedStorage(storage.clone());
    let mut slot = PathSlot::new(VirtualFileId::new(None, "f.typ"));
    let s1 = slot.source(&shared).unwrap();
    let s2 = slot.source(&shared).unwrap();
    assert_eq!(s1.text, "abc");
    assert_eq!(s2.text, "abc");
    assert_eq!(storage.read_count(), 1);

    let b1 = slot.file(&shared).unwrap();
    assert_eq!(b1, b"abc");
    assert_eq!(storage.read_count(), 2);
}

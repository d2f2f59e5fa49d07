//! A host-agnostic virtual file layer for a document compiler.
//!
//! The crate resolves abstract file identities (a virtual path plus an
//! optional package reference) to canonical identities, retrieves their bytes
//! at most once per session through an embedder-supplied storage capability,
//! decodes them consistently, and serves the memoized results until the next
//! session reset. It also acquires external packages on demand, caching them
//! through the same storage capability.

pub mod archive;
pub mod date;
pub mod diagnostics;
pub mod errors;
pub mod fetch;
pub mod file_id;
pub mod file_manager;
pub mod file_reader;
pub mod font_reader;
pub mod fonts;
pub mod package;
pub mod package_spec;
pub mod path_hash;
pub mod path_slot;
pub mod source;
pub mod source_location;
pub mod source_range;
pub mod system_world;
pub mod vpath;

pub use date::Date;
pub use diagnostics::{AutocompleteKind, AutocompleteResult, CompilationError, CompilationResult};
pub use diagnostics::{Severity, TypstCompilerDelegate, TypstSourceDelegate};
pub use errors::{FileError, FileResult, PackageError};
pub use fetch::{FetchOutcome, PackageFetcher};
pub use file_id::VirtualFileId;
pub use file_manager::{FileManager, FileManagerError};
pub use file_reader::{FileReader, FileReaderError};
pub use font_reader::FontReader;
pub use fonts::FontDefinition;
pub use package::PackageAction;
pub use package_spec::{PackageSpec, Version};
pub use path_hash::PathHash;
pub use path_slot::PathSlot;
pub use source::Source;
pub use source_location::SourceLocation;
pub use source_range::SourceRange;
pub use system_world::SystemWorld;
pub use vpath::VirtualPath;

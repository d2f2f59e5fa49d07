//! The storage capability: an abstract read/write/exists/create-directory
//! interface over the embedder's namespace.
//!
//! The core never touches a real filesystem; every byte it reads or writes
//! goes through an implementation of [`FileManager`] supplied by the
//! embedding application (an in-memory buffer, a sandboxed file API, or the
//! real filesystem).

use vstd::prelude::*;

use crate::errors::FileError;

verus! {

/// An error reported by the embedder's storage capability.
#[derive(Clone, Copy, Debug, PartialEq, Eq, Structural)]
pub enum FileManagerError {
    /// The file does not exist.
    NotFound,
    /// The file cannot be accessed.
    AccessDenied,
    /// The path names a directory, not a file.
    IsDirectory,
    /// The file is not a source file.
    NotSource,
    /// The file's bytes are not valid UTF-8.
    InvalidUtf8,
    /// The embedder's callback machinery itself failed.
    FfiCallbackError,
    /// Any other failure.
    Other,
}

impl FileManagerError {
    /// The description used when reporting this error to a caller.
    pub open spec fn message_spec(&self) -> Seq<char> {
        match self {
            FileManagerError::NotFound => "file not found"@,
            FileManagerError::AccessDenied => "access denied"@,
            FileManagerError::IsDirectory => "is a directory"@,
            FileManagerError::NotSource => "not a source"@,
            FileManagerError::InvalidUtf8 => "invalid UTF-8"@,
            FileManagerError::FfiCallbackError => "FFI callback error"@,
            FileManagerError::Other => "other"@,
        }
    }

    /// A short human-readable description of the error.
    pub fn message(&self) -> (r: String)
        ensures
            r@ == self.message_spec(),
    {
        match self {
            FileManagerError::NotFound => "file not found".to_owned(),
            FileManagerError::AccessDenied => "access denied".to_owned(),
            FileManagerError::IsDirectory => "is a directory".to_owned(),
            FileManagerError::NotSource => "not a source".to_owned(),
            FileManagerError::InvalidUtf8 => "invalid UTF-8".to_owned(),
            FileManagerError::FfiCallbackError => "FFI callback error".to_owned(),
            FileManagerError::Other => "other".to_owned(),
        }
    }
}

impl core::convert::From<FileManagerError> for FileError {
    /// Wraps a storage-capability error into the resolution-error taxonomy.
    fn from(v: FileManagerError) -> (r: FileError) {
        match v {
            FileManagerError::NotFound => FileError::NotFound,
            FileManagerError::AccessDenied => FileError::AccessDenied,
            FileManagerError::IsDirectory => FileError::IsDirectory,
            FileManagerError::NotSource => FileError::NotSource,
            FileManagerError::InvalidUtf8 => FileError::InvalidUtf8,
            FileManagerError::FfiCallbackError => FileError::Other,
            FileManagerError::Other => FileError::Other,
        }
    }
}

impl vstd::std_specs::convert::FromSpecImpl<FileManagerError> for FileError {
    open spec fn obeys_from_spec() -> bool {
        true
    }

    open spec fn from_spec(v: FileManagerError) -> FileError {
        match v {
            FileManagerError::NotFound => FileError::NotFound,
            FileManagerError::AccessDenied => FileError::AccessDenied,
            FileManagerError::IsDirectory => FileError::IsDirectory,
            FileManagerError::NotSource => FileError::NotSource,
            FileManagerError::InvalidUtf8 => FileError::InvalidUtf8,
            FileManagerError::FfiCallbackError => FileError::Other,
            FileManagerError::Other => FileError::Other,
        }
    }
}

/// The storage capability consumed by the core.
///
/// The `package` argument is a qualifier string that lets a sandboxed host
/// attribute each operation to a specific package for auditing or quota
/// purposes; it is `None` for files outside any package.
///
/// The core states nothing about what an implementation returns: every
/// verified caller handles each possible outcome.
pub trait FileManager {
    /// Reads the bytes of the file at `path`.
    fn read(&self, path: String, package: Option<String>) -> Result<Vec<u8>, FileManagerError>;

    /// Writes `data` to the file at `path`, creating it if absent.
    fn write(
        &self,
        path: String,
        package: Option<String>,
        data: Vec<u8>,
    ) -> Result<(), FileManagerError>;

    /// Reports whether something exists at `path`.
    fn file_exists(&self, path: String, package: Option<String>) -> Result<bool, FileManagerError>;

    /// Creates the directory at `path`, including missing parents.
    fn create_directory(
        &self,
        path: String,
        package: Option<String>,
    ) -> Result<(), FileManagerError>;
}

} // verus!

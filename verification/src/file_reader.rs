//! A read-only variant of the storage capability, for embedders that only
//! supply file contents and never receive writes.

use vstd::prelude::*;

use crate::errors::FileError;

verus! {

/// An error reported by the embedder's read-only storage capability.
#[derive(Clone, Copy, Debug, PartialEq, Eq, Structural)]
pub enum FileReaderError {
    /// The file does not exist.
    NotFound,
    /// The file cannot be accessed.
    AccessDenied,
    /// The path names a directory, not a file.
    IsDirectory,
    /// The file is not a source file.
    NotSource,
    /// The file's bytes are not valid UTF-8.
    InvalidUtf8,
    /// The embedder's callback machinery itself failed.
    FfiCallbackError,
    /// Any other failure.
    Other,
}

impl FileReaderError {
    /// The description used when reporting this error to a caller.
    pub open spec fn message_spec(&self) -> Seq<char> {
        match self {
            FileReaderError::NotFound => "file not found"@,
            FileReaderError::AccessDenied => "access denied"@,
            FileReaderError::IsDirectory => "is a directory"@,
            FileReaderError::NotSource => "not a source"@,
            FileReaderError::InvalidUtf8 => "invalid UTF-8"@,
            FileReaderError::FfiCallbackError => "FFI callback error"@,
            FileReaderError::Other => "other"@,
        }
    }

    /// A short human-readable description of the error.
    pub fn message(&self) -> (r: String)
        ensures
            r@ == self.message_spec(),
    {
        match self {
            FileReaderError::NotFound => "file not found".to_owned(),
            FileReaderError::AccessDenied => "access denied".to_owned(),
            FileReaderError::IsDirectory => "is a directory".to_owned(),
            FileReaderError::NotSource => "not a source".to_owned(),
            FileReaderError::InvalidUtf8 => "invalid UTF-8".to_owned(),
            FileReaderError::FfiCallbackError => "FFI callback error".to_owned(),
            FileReaderError::Other => "other".to_owned(),
        }
    }
}

impl core::convert::From<FileReaderError> for FileError {
    /// Wraps a reader error into the resolution-error taxonomy.
    fn from(v: FileReaderError) -> (r: FileError) {
        match v {
            FileReaderError::NotFound => FileError::NotFound,
            FileReaderError::AccessDenied => FileError::AccessDenied,
            FileReaderError::IsDirectory => FileError::IsDirectory,
            FileReaderError::NotSource => FileError::NotSource,
            FileReaderError::InvalidUtf8 => FileError::InvalidUtf8,
            FileReaderError::FfiCallbackError => FileError::Other,
            FileReaderError::Other => FileError::Other,
        }
    }
}

impl vstd::std_specs::convert::FromSpecImpl<FileReaderError> for FileError {
    open spec fn obeys_from_spec() -> bool {
        true
    }

    open spec fn from_spec(v: FileReaderError) -> FileError {
        match v {
            FileReaderError::NotFound => FileError::NotFound,
            FileReaderError::AccessDenied => FileError::AccessDenied,
            FileReaderError::IsDirectory => FileError::IsDirectory,
            FileReaderError::NotSource => FileError::NotSource,
            FileReaderError::InvalidUtf8 => FileError::InvalidUtf8,
            FileReaderError::FfiCallbackError => FileError::Other,
            FileReaderError::Other => FileError::Other,
        }
    }
}

/// A read-only storage capability: the embedder only resolves reads.
pub trait FileReader {
    /// Reads the bytes of the file at `path`.
    fn read(&self, path: String) -> Result<Vec<u8>, FileReaderError>;
}

} // verus!

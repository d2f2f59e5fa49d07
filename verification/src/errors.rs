//! Error taxonomy of the virtual file layer.
//!
//! Resolution errors ([`FileError`]) occur while turning an identity into
//! bytes or text; they are recoverable, memoized per slot, and surfaced to
//! callers as diagnostics. Package errors ([`PackageError`]) occur during
//! package acquisition.

use vstd::prelude::*;

verus! {

/// An error raised while resolving a virtual file identity to its contents.
#[derive(Clone, Copy, Debug, PartialEq, Eq, Structural)]
pub enum FileError {
    /// The file does not exist.
    NotFound,
    /// The file cannot be accessed.
    AccessDenied,
    /// The path names a directory, not a file.
    IsDirectory,
    /// The file is not a source file.
    NotSource,
    /// The file's bytes are not valid UTF-8.
    InvalidUtf8,
    /// Any other failure of the storage capability.
    Other,
}

/// The outcome of a file resolution.
pub type FileResult<T> = Result<T, FileError>;

impl FileError {
    /// The description used when reporting this error to a caller.
    pub open spec fn message_spec(&self) -> Seq<char> {
        match self {
            FileError::NotFound => "file not found"@,
            FileError::AccessDenied => "access denied"@,
            FileError::IsDirectory => "is a directory"@,
            FileError::NotSource => "not a source"@,
            FileError::InvalidUtf8 => "invalid UTF-8"@,
            FileError::Other => "other"@,
        }
    }

    /// A short human-readable description of the error.
    pub fn message(&self) -> (r: String)
        ensures
            r@ == self.message_spec(),
    {
        match self {
            FileError::NotFound => "file not found".to_owned(),
            FileError::AccessDenied => "access denied".to_owned(),
            FileError::IsDirectory => "is a directory".to_owned(),
            FileError::NotSource => "not a source".to_owned(),
            FileError::InvalidUtf8 => "invalid UTF-8".to_owned(),
            FileError::Other => "other".to_owned(),
        }
    }
}

/// An error raised while acquiring an external package.
#[derive(Clone, Copy, Debug, PartialEq, Eq, Structural)]
pub enum PackageError {
    /// The package is neither cached locally nor available for download.
    NotFound,
    /// A network transport failure other than a missing package.
    NetworkFailed,
    /// The downloaded archive could not be decompressed or unpacked.
    MalformedArchive,
    /// Any other failure while making the package available.
    Other,
}

/// The outcome of a package acquisition.
pub type PackageResult<T> = Result<T, PackageError>;

} // verus!

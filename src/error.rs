use vstd::prelude::*;

verus! {

/// `std::io::Error`, carried opaque in [`Error::Io`].
#[verifier::external_type_specification]
#[verifier::external_body]
pub struct ExIoError(std::io::Error);

/// `zip::result::ZipError`, carried opaque in [`Error::Zip`].
#[verifier::external_type_specification]
#[verifier::external_body]
pub struct ExZipError(zip::result::ZipError);

/// Every way an extraction can fail. Each error aborts the extraction.
#[derive(Debug)]
pub enum Error {
    /// The entry's path leaves the destination root.
    PathEscape { entry: String, detail: String },
    /// A link entry met the `Error` link policy.
    SymlinkNotAllowed { entry: String, target: String },
    /// The cumulative byte budget would be exceeded.
    TotalSizeExceeded { limit: u64, would_be: u64 },
    /// The file count limit would be exceeded.
    FileCountExceeded { limit: usize, attempted: usize },
    /// One entry is larger than the per-file limit.
    FileTooLarge { entry: String, limit: u64, size: u64 },
    /// The entry's stream yields more bytes than it declares.
    SizeMismatch { entry: String, declared: u64, actual: u64 },
    /// The entry's name has more directory levels than allowed.
    PathTooDeep { entry: String, depth: usize, limit: usize },
    /// The target file exists and the overwrite policy is `Error`.
    AlreadyExists { entry: String },
    /// The destination directory is missing.
    DestinationNotFound { path: String },
    /// The destination root cannot be resolved to a canonical directory.
    Jail { path: String, detail: String },
    /// The entry's name fails the syntactic filename rules.
    InvalidFilename { entry: String, reason: String },
    /// A ZIP entry is encrypted.
    EncryptedEntry { entry: String },
    /// A TAR entry is a device, a fifo or another unsupported type.
    UnsupportedEntryType { entry: String, entry_type: String },
    /// The ZIP reader rejected the archive.
    Zip(zip::result::ZipError),
    /// An underlying read, write or decode failed.
    Io(std::io::Error),
}

} // verus!

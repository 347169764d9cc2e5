//! Hardened extraction of untrusted archives.
//!
//! The library holds the decisions of the extraction engine: filename
//! validation, the lexical path jail, the policy chain, the bounded-read
//! accounting and the per-entry state machine. Each is a verified function
//! with a contract. Reading archives from disk and writing files is left to
//! the caller, which performs the actions the engine decides on.

pub mod async_extractor;
pub mod cli;
pub mod driver;
pub mod entry;
mod error;
pub mod extractor;
pub mod filename;
pub mod jail;
pub mod limit_reader;
mod limits;
pub mod policy;
pub mod sevenz;
pub mod tar_entry;
pub mod zip_source;

pub use async_extractor::AsyncExtractor;
pub use driver::{Action, Driver, ExtractionReport, OverwriteMode, ValidationMode};
pub use entry::{EntryInfo, EntryKind};
pub use error::Error;
pub use extractor::{ExtractionMode, Extractor, OverwritePolicy, Report, SymlinkPolicy};
pub use limit_reader::LimitReader;
pub use limits::Limits;
pub use policy::{ExtractionState, SymlinkBehavior};
pub use sevenz::SevenZAdapter;
pub use zip_source::{list_zip, verify_bytes, VerifyReport, ZipSource};

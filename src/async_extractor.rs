//! Settings of an extraction run off the caller's async task. The run itself
//! is the caller's; this holds and converts the configuration.

use vstd::prelude::*;
use crate::driver::Driver;
use crate::error::Error;
use crate::extractor::{
    link_behavior_of, overwrite_mode_of, validation_of, ExtractionMode, Extractor,
    OverwritePolicy, SymlinkPolicy,
};
use crate::limits::Limits;

verus! {

/// Extraction settings with per-limit setters, for a destination that may be
/// created on demand.
#[derive(Debug, Clone)]
pub struct AsyncExtractor {
    destination: String,
    limits: Limits,
    overwrite: OverwritePolicy,
    symlinks: SymlinkPolicy,
    mode: ExtractionMode,
    create_destination: bool,
}

impl AsyncExtractor {
    pub closed spec fn destination_view(&self) -> Seq<char> {
        self.destination@
    }

    pub closed spec fn limits_view(&self) -> Limits {
        self.limits
    }

    pub closed spec fn overwrite_view(&self) -> OverwritePolicy {
        self.overwrite
    }

    pub closed spec fn symlinks_view(&self) -> SymlinkPolicy {
        self.symlinks
    }

    pub closed spec fn mode_view(&self) -> ExtractionMode {
        self.mode
    }

    pub closed spec fn creates_destination(&self) -> bool {
        self.create_destination
    }

    pub open spec fn has_defaults(&self) -> bool {
        &&& self.limits_view() == Limits::spec_default()
        &&& self.overwrite_view() == OverwritePolicy::Error
        &&& self.symlinks_view() == SymlinkPolicy::Skip
        &&& self.mode_view() == ExtractionMode::Streaming
    }

    /// Settings over `destination`, which must exist: `DestinationNotFound`
    /// where it does not.
    pub fn new(destination: &str, exists: bool) -> (r: Result<AsyncExtractor, Error>)
        ensures
            exists <==> r is Ok,
            r matches Ok(x) ==> x.destination_view() == destination@ && x.has_defaults()
                && !x.creates_destination(),
            r matches Err(e) ==> (e matches Error::DestinationNotFound { path } && path@
                == destination@),
    {
        if !exists {
            return Err(Error::DestinationNotFound { path: destination.to_owned() });
        }
        Ok(
            AsyncExtractor {
                destination: destination.to_owned(),
                limits: Limits::default(),
                overwrite: OverwritePolicy::default(),
                symlinks: SymlinkPolicy::default(),
                mode: ExtractionMode::default(),
                create_destination: false,
            },
        )
    }

    /// Settings over `destination`, which the caller has created where it
    /// was missing.
    pub fn new_or_create(destination: &str) -> (r: AsyncExtractor)
        ensures
            r.destination_view() == destination@,
            r.has_defaults(),
            r.creates_destination(),
    {
        AsyncExtractor {
            destination: destination.to_owned(),
            limits: Limits::default(),
            overwrite: OverwritePolicy::default(),
            symlinks: SymlinkPolicy::default(),
            mode: ExtractionMode::default(),
            create_destination: true,
        }
    }

    /// The destination as given.
    pub fn destination(&self) -> (r: &str)
        ensures
            r@ == self.destination_view(),
    {
        self.destination.as_str()
    }

    /// Whether the destination is created on demand.
    pub fn create_destination(&self) -> (r: bool)
        ensures
            r == self.creates_destination(),
    {
        self.create_destination
    }

    /// Sets all limits.
    pub fn limits(self, limits: Limits) -> (r: AsyncExtractor)
        ensures
            r.limits_view() == limits,
            r.destination_view() == self.destination_view(),
            r.overwrite_view() == self.overwrite_view(),
            r.symlinks_view() == self.symlinks_view(),
            r.mode_view() == self.mode_view(),
            r.creates_destination() == self.creates_destination(),
    {
        AsyncExtractor { limits, ..self }
    }

    /// Sets the cap on total bytes.
    pub fn max_total_bytes(self, bytes: u64) -> (r: AsyncExtractor)
        ensures
            r.limits_view() == (Limits { max_total_bytes: bytes, ..self.limits_view() }),
            r.destination_view() == self.destination_view(),
            r.overwrite_view() == self.overwrite_view(),
            r.symlinks_view() == self.symlinks_view(),
            r.mode_view() == self.mode_view(),
            r.creates_destination() == self.creates_destination(),
    {
        let limits = Limits { max_total_bytes: bytes, ..self.limits };
        AsyncExtractor { limits, ..self }
    }

    /// Sets the cap on the number of files.
    pub fn max_file_count(self, count: usize) -> (r: AsyncExtractor)
        ensures
            r.limits_view() == (Limits { max_file_count: count, ..self.limits_view() }),
            r.destination_view() == self.destination_view(),
            r.overwrite_view() == self.overwrite_view(),
            r.symlinks_view() == self.symlinks_view(),
            r.mode_view() == self.mode_view(),
            r.creates_destination() == self.creates_destination(),
    {
        let limits = Limits { max_file_count: count, ..self.limits };
        AsyncExtractor { limits, ..self }
    }

    /// Sets the cap on a single file's size.
    pub fn max_single_file(self, bytes: u64) -> (r: AsyncExtractor)
        ensures
            r.limits_view() == (Limits { max_single_file: bytes, ..self.limits_view() }),
            r.destination_view() == self.destination_view(),
            r.overwrite_view() == self.overwrite_view(),
            r.symlinks_view() == self.symlinks_view(),
            r.mode_view() == self.mode_view(),
            r.creates_destination() == self.creates_destination(),
    {
        let limits = Limits { max_single_file: bytes, ..self.limits };
        AsyncExtractor { limits, ..self }
    }

    /// Sets the cap on directory levels.
    pub fn max_path_depth(self, depth: usize) -> (r: AsyncExtractor)
        ensures
            r.limits_view() == (Limits { max_path_depth: depth, ..self.limits_view() }),
            r.destination_view() == self.destination_view(),
            r.overwrite_view() == self.overwrite_view(),
            r.symlinks_view() == self.symlinks_view(),
            r.mode_view() == self.mode_view(),
            r.creates_destination() == self.creates_destination(),
    {
        let limits = Limits { max_path_depth: depth, ..self.limits };
        AsyncExtractor { limits, ..self }
    }

    /// Sets the overwrite policy.
    pub fn overwrite(self, policy: OverwritePolicy) -> (r: AsyncExtractor)
        ensures
            r.overwrite_view() == policy,
            r.destination_view() == self.destination_view(),
            r.limits_view() == self.limits_view(),
            r.symlinks_view() == self.symlinks_view(),
            r.mode_view() == self.mode_view(),
            r.creates_destination() == self.creates_destination(),
    {
        AsyncExtractor { overwrite: policy, ..self }
    }

    /// Sets the link policy.
    pub fn symlinks(self, policy: SymlinkPolicy) -> (r: AsyncExtractor)
        ensures
            r.symlinks_view() == policy,
            r.destination_view() == self.destination_view(),
            r.limits_view() == self.limits_view(),
            r.overwrite_view() == self.overwrite_view(),
            r.mode_view() == self.mode_view(),
            r.creates_destination() == self.creates_destination(),
    {
        AsyncExtractor { symlinks: policy, ..self }
    }

    /// Sets the strategy.
    pub fn mode(self, mode: ExtractionMode) -> (r: AsyncExtractor)
        ensures
            r.mode_view() == mode,
            r.destination_view() == self.destination_view(),
            r.limits_view() == self.limits_view(),
            r.overwrite_view() == self.overwrite_view(),
            r.symlinks_view() == self.symlinks_view(),
            r.creates_destination() == self.creates_destination(),
    {
        AsyncExtractor { mode, ..self }
    }

    /// The ZIP settings over the canonical form `root` of the destination.
    pub fn build_sync_extractor(&self, root: &str) -> (r: Extractor)
        ensures
            r.destination_view() == root@,
            r.limits_view() == self.limits_view(),
            r.overwrite_view() == self.overwrite_view(),
            r.symlinks_view() == self.symlinks_view(),
            r.mode_view() == self.mode_view(),
    {
        Extractor::new_or_create(root).limits(self.limits).overwrite(self.overwrite).symlinks(
            self.symlinks,
        ).mode(self.mode)
    }

    /// The engine over the canonical form `root` of the destination.
    pub fn build_driver(&self, root: &str) -> (r: Driver)
        ensures
            r.destination_view() == root@,
            r.limits_view() == self.limits_view(),
            r.overwrite_view() == overwrite_mode_of(self.overwrite_view()),
            r.symlinks_view() == link_behavior_of(self.symlinks_view()),
            r.validation_view() == validation_of(self.mode_view()),
    {
        self.build_sync_extractor(root).driver()
    }
}

} // verus!

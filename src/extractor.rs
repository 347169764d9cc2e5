//! The ZIP-facing configuration surface and its report type.

use vstd::prelude::*;
use crate::driver::{Driver, ExtractionReport, OverwriteMode, ValidationMode};
use crate::error::Error;
use crate::limits::Limits;
use crate::policy::SymlinkBehavior;

verus! {

/// What to do when a file already exists at the extraction path.
#[derive(Debug, Clone, Copy, PartialEq, Eq, Structural)]
pub enum OverwritePolicy {
    Error,
    Skip,
    Overwrite,
}

impl Default for OverwritePolicy {
    fn default() -> (r: OverwritePolicy)
        ensures
            r == OverwritePolicy::Error,
    {
        OverwritePolicy::Error
    }
}

/// What to do with a link entry.
#[derive(Debug, Clone, Copy, PartialEq, Eq, Structural)]
pub enum SymlinkPolicy {
    Skip,
    Error,
}

impl Default for SymlinkPolicy {
    fn default() -> (r: SymlinkPolicy)
        ensures
            r == SymlinkPolicy::Skip,
    {
        SymlinkPolicy::Skip
    }
}

/// Extraction strategy.
#[derive(Debug, Clone, Copy, PartialEq, Eq, Structural)]
pub enum ExtractionMode {
    /// Extract entry by entry. Partial state on failure.
    Streaming,
    /// Validate all entries first, then extract.
    ValidateFirst,
}

impl Default for ExtractionMode {
    fn default() -> (r: ExtractionMode)
        ensures
            r == ExtractionMode::Streaming,
    {
        ExtractionMode::Streaming
    }
}

/// Outcome of a successful extraction.
#[derive(Debug, Clone, Copy, PartialEq, Eq)]
pub struct Report {
    pub files_extracted: usize,
    pub dirs_created: usize,
    pub bytes_written: u64,
    pub entries_skipped: usize,
}

impl Default for Report {
    fn default() -> (r: Report)
        ensures
            r == (Report { files_extracted: 0, dirs_created: 0, bytes_written: 0, entries_skipped: 0 }),
    {
        Report { files_extracted: 0, dirs_created: 0, bytes_written: 0, entries_skipped: 0 }
    }
}

pub open spec fn overwrite_mode_of(p: OverwritePolicy) -> OverwriteMode {
    match p {
        OverwritePolicy::Error => OverwriteMode::Error,
        OverwritePolicy::Skip => OverwriteMode::Skip,
        OverwritePolicy::Overwrite => OverwriteMode::Overwrite,
    }
}

pub open spec fn link_behavior_of(p: SymlinkPolicy) -> SymlinkBehavior {
    match p {
        SymlinkPolicy::Skip => SymlinkBehavior::Skip,
        SymlinkPolicy::Error => SymlinkBehavior::Error,
    }
}

pub open spec fn validation_of(m: ExtractionMode) -> ValidationMode {
    match m {
        ExtractionMode::Streaming => ValidationMode::Streaming,
        ExtractionMode::ValidateFirst => ValidationMode::ValidateFirst,
    }
}

/// The engine's overwrite mode for a policy.
pub fn convert_overwrite_policy(policy: OverwritePolicy) -> (r: OverwriteMode)
    ensures
        r == overwrite_mode_of(policy),
{
    match policy {
        OverwritePolicy::Error => OverwriteMode::Error,
        OverwritePolicy::Skip => OverwriteMode::Skip,
        OverwritePolicy::Overwrite => OverwriteMode::Overwrite,
    }
}

/// The engine's link behavior for a policy.
pub fn convert_symlink_policy(policy: SymlinkPolicy) -> (r: SymlinkBehavior)
    ensures
        r == link_behavior_of(policy),
{
    match policy {
        SymlinkPolicy::Skip => SymlinkBehavior::Skip,
        SymlinkPolicy::Error => SymlinkBehavior::Error,
    }
}

/// The engine's validation mode for a strategy.
pub fn convert_extraction_mode(mode: ExtractionMode) -> (r: ValidationMode)
    ensures
        r == validation_of(mode),
{
    match mode {
        ExtractionMode::Streaming => ValidationMode::Streaming,
        ExtractionMode::ValidateFirst => ValidationMode::ValidateFirst,
    }
}

/// The same counters as a [`Report`].
pub fn extraction_report_to_report(report: ExtractionReport) -> (r: Report)
    ensures
        r == (Report {
            files_extracted: report.files_extracted,
            dirs_created: report.dirs_created,
            bytes_written: report.bytes_written,
            entries_skipped: report.entries_skipped,
        }),
{
    Report {
        files_extracted: report.files_extracted,
        dirs_created: report.dirs_created,
        bytes_written: report.bytes_written,
        entries_skipped: report.entries_skipped,
    }
}

/// Extraction settings for one destination.
#[derive(Debug, Clone)]
pub struct Extractor {
    destination: String,
    limits: Limits,
    overwrite: OverwritePolicy,
    symlinks: SymlinkPolicy,
    mode: ExtractionMode,
}

impl Extractor {
    pub closed spec fn destination_view(&self) -> Seq<char> {
        self.destination@
    }

    pub closed spec fn limits_view(&self) -> Limits {
        self.limits
    }

    pub closed spec fn overwrite_view(&self) -> OverwritePolicy {
        self.overwrite
    }

    pub closed spec fn symlinks_view(&self) -> SymlinkPolicy {
        self.symlinks
    }

    pub closed spec fn mode_view(&self) -> ExtractionMode {
        self.mode
    }

    pub open spec fn has_defaults(&self) -> bool {
        &&& self.limits_view() == Limits::spec_default()
        &&& self.overwrite_view() == OverwritePolicy::Error
        &&& self.symlinks_view() == SymlinkPolicy::Skip
        &&& self.mode_view() == ExtractionMode::Streaming
    }

    /// Settings over the canonical root `destination`, which must exist:
    /// `DestinationNotFound` where it does not.
    pub fn new(destination: &str, exists: bool) -> (r: Result<Extractor, Error>)
        ensures
            exists <==> r is Ok,
            r matches Ok(x) ==> x.destination_view() == destination@ && x.has_defaults(),
            r matches Err(e) ==> (e matches Error::DestinationNotFound { path } && path@
                == destination@),
    {
        if !exists {
            return Err(Error::DestinationNotFound { path: destination.to_owned() });
        }
        Ok(Extractor::new_or_create(destination))
    }

    /// Settings over the canonical root `destination`, which the caller has
    /// created where it was missing.
    pub fn new_or_create(destination: &str) -> (r: Extractor)
        ensures
            r.destination_view() == destination@,
            r.has_defaults(),
    {
        Extractor {
            destination: destination.to_owned(),
            limits: Limits::default(),
            overwrite: OverwritePolicy::default(),
            symlinks: SymlinkPolicy::default(),
            mode: ExtractionMode::default(),
        }
    }

    /// Sets the limits.
    pub fn limits(self, limits: Limits) -> (r: Extractor)
        ensures
            r.limits_view() == limits,
            r.destination_view() == self.destination_view(),
            r.overwrite_view() == self.overwrite_view(),
            r.symlinks_view() == self.symlinks_view(),
            r.mode_view() == self.mode_view(),
    {
        Extractor { limits, ..self }
    }

    /// Sets the overwrite policy.
    pub fn overwrite(self, policy: OverwritePolicy) -> (r: Extractor)
        ensures
            r.overwrite_view() == policy,
            r.destination_view() == self.destination_view(),
            r.limits_view() == self.limits_view(),
            r.symlinks_view() == self.symlinks_view(),
            r.mode_view() == self.mode_view(),
    {
        Extractor { overwrite: policy, ..self }
    }

    /// Sets the link policy.
    pub fn symlinks(self, policy: SymlinkPolicy) -> (r: Extractor)
        ensures
            r.symlinks_view() == policy,
            r.destination_view() == self.destination_view(),
            r.limits_view() == self.limits_view(),
            r.overwrite_view() == self.overwrite_view(),
            r.mode_view() == self.mode_view(),
    {
        Extractor { symlinks: policy, ..self }
    }

    /// Sets the strategy.
    pub fn mode(self, mode: ExtractionMode) -> (r: Extractor)
        ensures
            r.mode_view() == mode,
            r.destination_view() == self.destination_view(),
            r.limits_view() == self.limits_view(),
            r.overwrite_view() == self.overwrite_view(),
            r.symlinks_view() == self.symlinks_view(),
    {
        Extractor { mode, ..self }
    }

    /// The engine configured with these settings.
    pub fn driver(&self) -> (r: Driver)
        ensures
            r.destination_view() == self.destination_view(),
            r.limits_view() == self.limits_view(),
            r.overwrite_view() == overwrite_mode_of(self.overwrite_view()),
            r.symlinks_view() == link_behavior_of(self.symlinks_view()),
            r.validation_view() == validation_of(self.mode_view()),
    {
        Driver::new_or_create(self.destination.as_str()).limits(self.limits).overwrite(
            convert_overwrite_policy(self.overwrite),
        ).symlinks(convert_symlink_policy(self.symlinks)).validation(
            convert_extraction_mode(self.mode),
        )
    }
}

} // verus!

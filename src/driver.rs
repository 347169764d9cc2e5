//! The extraction engine: the per-entry state machine and the validate-first
//! pre-pass.
//!
//! The engine decides; the caller acts. For each entry in archive order the
//! caller asks [`Driver::begin_entry`] what to do, performs it on the
//! filesystem, and reports back what it saw ([`Driver::dir_created`],
//! [`Driver::file_exists`], [`Driver::finish_file`]). Every counter lives in
//! the [`ExtractionState`] that these calls update.

use vstd::prelude::*;
use crate::entry::{EntryInfo, EntryKind};
use crate::error::Error;
use crate::filename::{filename_verdict, issue_text, name_bytes, validate_filename, FilenameIssue};
use crate::jail::{jail_text, jail_verdict, JailIssue, PathJail};
use crate::limits::Limits;
use crate::policy::{
    name_depth, path_depth, sat_add, sat_inc, CountPolicy, DepthPolicy, ExtractionState, PolicyChain,
    PolicyConfig, Rule, SizePolicy, SymlinkBehavior, SymlinkPolicy,
};

verus! {

/// What to do when a file already exists at the extraction path.
#[derive(Debug, Clone, Copy, PartialEq, Eq, Structural)]
pub enum OverwriteMode {
    /// Fail the extraction. The default.
    Error,
    /// Leave the existing file and skip the entry.
    Skip,
    /// Replace the existing file; a link there is removed first.
    Overwrite,
}

impl Default for OverwriteMode {
    fn default() -> (r: OverwriteMode)
        ensures
            r == OverwriteMode::Error,
    {
        OverwriteMode::Error
    }
}

/// Whether the archive is validated as a whole before anything is written.
#[derive(Debug, Clone, Copy, PartialEq, Eq, Structural)]
pub enum ValidationMode {
    /// Validate and write entry by entry; earlier files stay on failure.
    Streaming,
    /// Validate every entry first; nothing is written when that fails.
    ValidateFirst,
}

impl Default for ValidationMode {
    fn default() -> (r: ValidationMode)
        ensures
            r == ValidationMode::Streaming,
    {
        ValidationMode::Streaming
    }
}

/// Outcome of a successful extraction.
#[derive(Debug, Clone, Copy, PartialEq, Eq)]
pub struct ExtractionReport {
    /// Number of files extracted.
    pub files_extracted: usize,
    /// Number of directory entries created.
    pub dirs_created: usize,
    /// Total bytes written.
    pub bytes_written: u64,
    /// Number of entries skipped (links, filtered, existing).
    pub entries_skipped: usize,
}

/// Why the engine refuses an entry.
#[derive(Debug, Clone, Copy, PartialEq, Eq, Structural)]
pub enum Fault {
    Filename(FilenameIssue),
    Jail(JailIssue),
    Link,
    Depth,
    Count,
    TooLarge,
    Total,
}

/// Where an entry goes in the streaming pipeline.
#[derive(Debug, Clone, Copy, PartialEq, Eq, Structural)]
pub enum Stage {
    Fail(Fault),
    Skip,
    Dir,
    File,
}

/// What the caller must do with an entry.
#[derive(Debug, Clone, Copy, PartialEq, Eq, Structural)]
pub enum Action {
    /// Nothing; the entry was counted as skipped.
    Skip,
    /// Create the directory `root/name`, with its parents.
    CreateDir,
    /// Create the parents of `root/name` and open it for writing.
    /// With `exclusive`, open with create-new semantics (fail if it exists);
    /// otherwise, with `replace_link`, remove a symlink found there, then
    /// create or truncate.
    OpenFile { exclusive: bool, replace_link: bool },
}

pub open spec fn within(state: ExtractionState, limits: Limits) -> bool {
    state.bytes_written <= limits.max_total_bytes && state.files_extracted
        <= limits.max_file_count
}

/// The permission bits kept of a recorded mode: `rwx` for user, group and
/// others; setuid, setgid and sticky are dropped.
pub open spec fn safe_mode(mode: u32) -> u32 {
    mode & 0o777u32
}

/// The streaming pipeline, in its fixed order: filename, jail, link policy,
/// depth, filter, count; then, for a file, per-file size and cumulative
/// size. A directory writes no bytes, so the size checks are the file
/// entries' alone; the count check refuses any entry once the file limit is
/// reached.
pub open spec fn stream_stage(
    limits: Limits,
    links: SymlinkBehavior,
    entry: EntryInfo,
    state: ExtractionState,
    selected: bool,
) -> Stage {
    let b = name_bytes(entry.name@);
    if filename_verdict(b) is Err {
        Stage::Fail(Fault::Filename(filename_verdict(b)->Err_0))
    } else if jail_verdict(b) is Err {
        Stage::Fail(Fault::Jail(jail_verdict(b)->Err_0))
    } else if entry.is_link() {
        if links == SymlinkBehavior::Error {
            Stage::Fail(Fault::Link)
        } else {
            Stage::Skip
        }
    } else if name_depth(entry.name@) > limits.max_path_depth {
        Stage::Fail(Fault::Depth)
    } else if !selected {
        Stage::Skip
    } else if state.files_extracted >= limits.max_file_count {
        Stage::Fail(Fault::Count)
    } else if entry.is_dir() {
        Stage::Dir
    } else if entry.size > limits.max_single_file {
        Stage::Fail(Fault::TooLarge)
    } else if state.bytes_written + entry.size > limits.max_total_bytes {
        Stage::Fail(Fault::Total)
    } else {
        Stage::File
    }
}

/// `e` is the error that reports `fault` for `entry`.
pub open spec fn fault_error(
    limits: Limits,
    entry: EntryInfo,
    state: ExtractionState,
    fault: Fault,
    e: Error,
) -> bool {
    match fault {
        Fault::Filename(issue) => match e {
            Error::InvalidFilename { entry: n, reason } => n@ == entry.name@ && reason@
                == issue_text(issue),
            _ => false,
        },
        Fault::Jail(j) => match e {
            Error::PathEscape { entry: n, detail } => n@ == entry.name@ && detail@ == jail_text(j),
            _ => false,
        },
        Fault::Link => match (entry.kind, e) {
            (EntryKind::Symlink { target }, Error::SymlinkNotAllowed { entry: n, target: t }) => n@
                == entry.name@ && t@ == target@,
            _ => false,
        },
        Fault::Depth => match e {
            Error::PathTooDeep { entry: n, depth, limit } => n@ == entry.name@ && depth
                == name_depth(entry.name@) && limit == limits.max_path_depth,
            _ => false,
        },
        Fault::Count => e == Error::FileCountExceeded {
            limit: limits.max_file_count,
            attempted: sat_inc(state.files_extracted),
        },
        Fault::TooLarge => match e {
            Error::FileTooLarge { entry: n, limit, size } => n@ == entry.name@ && limit
                == limits.max_single_file && size == entry.size,
            _ => false,
        },
        Fault::Total => e == Error::TotalSizeExceeded {
            limit: limits.max_total_bytes,
            would_be: sat_add(state.bytes_written, entry.size),
        },
    }
}

/// The read limit of a file entry: the least of its declared size, the
/// per-file limit and what is left of the total budget.
pub open spec fn read_limit_of(limits: Limits, entry: EntryInfo, state: ExtractionState) -> u64 {
    let left = if state.bytes_written <= limits.max_total_bytes {
        (limits.max_total_bytes - state.bytes_written) as u64
    } else {
        0u64
    };
    let a = if entry.size <= limits.max_single_file {
        entry.size
    } else {
        limits.max_single_file
    };
    if a <= left {
        a
    } else {
        left
    }
}

// ---------------------------------------------------------------------------
// Validate-first pre-pass
// ---------------------------------------------------------------------------

/// The checks the pre-pass makes on each entry alone, in order: filename,
/// jail, link policy, depth, per-file size.
pub open spec fn static_fault(limits: Limits, links: SymlinkBehavior, entry: EntryInfo) -> Option<
    Fault,
> {
    let b = name_bytes(entry.name@);
    if filename_verdict(b) is Err {
        Some(Fault::Filename(filename_verdict(b)->Err_0))
    } else if jail_verdict(b) is Err {
        Some(Fault::Jail(jail_verdict(b)->Err_0))
    } else if entry.is_link() && links == SymlinkBehavior::Error {
        Some(Fault::Link)
    } else if name_depth(entry.name@) > limits.max_path_depth {
        Some(Fault::Depth)
    } else if entry.is_file() && entry.size > limits.max_single_file {
        Some(Fault::TooLarge)
    } else {
        None
    }
}

/// Sum of the declared sizes of the file entries.
pub open spec fn declared_total(entries: Seq<EntryInfo>) -> int
    decreases entries.len(),
{
    if entries.len() == 0 {
        0
    } else {
        declared_total(entries.drop_last()) + if entries.last().is_file() {
            entries.last().size as int
        } else {
            0
        }
    }
}

/// Number of file entries.
pub open spec fn file_total(entries: Seq<EntryInfo>) -> int
    decreases entries.len(),
{
    if entries.len() == 0 {
        0
    } else {
        file_total(entries.drop_last()) + if entries.last().is_file() {
            1int
        } else {
            0
        }
    }
}

pub open spec fn sat_u64(x: int) -> u64 {
    if x > u64::MAX {
        u64::MAX
    } else {
        x as u64
    }
}

pub open spec fn sat_usize(x: int) -> usize {
    if x > usize::MAX {
        usize::MAX
    } else {
        x as usize
    }
}

/// No entry of `entries[0..n]` fails a check on its own.
pub open spec fn clean_prefix(
    limits: Limits,
    links: SymlinkBehavior,
    entries: Seq<EntryInfo>,
    n: int,
) -> bool {
    forall|j: int| 0 <= j < n ==> (#[trigger] static_fault(limits, links, entries[j])) is None
}

/// The archive passes the validate-first checks: no entry fails a check on
/// its own, and the file entries' totals stay within the limits.
pub open spec fn prepass_ok(limits: Limits, links: SymlinkBehavior, entries: Seq<EntryInfo>) -> bool {
    &&& clean_prefix(limits, links, entries, entries.len() as int)
    &&& declared_total(entries) <= limits.max_total_bytes
    &&& file_total(entries) <= limits.max_file_count
}

/// The error of the validate-first checks: that of the first entry failing
/// a check on its own, else that of the totals.
pub open spec fn prepass_error(
    limits: Limits,
    links: SymlinkBehavior,
    entries: Seq<EntryInfo>,
    e: Error,
) -> bool {
    if !clean_prefix(limits, links, entries, entries.len() as int) {
        exists|i: int|
            #![trigger static_fault(limits, links, entries[i])]
            0 <= i < entries.len() && clean_prefix(limits, links, entries, i) && static_fault(
                limits,
                links,
                entries[i],
            ) is Some && fault_error(
                limits,
                entries[i],
                ExtractionState::zero(),
                static_fault(limits, links, entries[i])->0,
                e,
            )
    } else if declared_total(entries) > limits.max_total_bytes {
        e == Error::TotalSizeExceeded {
            limit: limits.max_total_bytes,
            would_be: sat_u64(declared_total(entries)),
        }
    } else {
        e == Error::FileCountExceeded {
            limit: limits.max_file_count,
            attempted: sat_usize(file_total(entries)),
        }
    }
}

// ---------------------------------------------------------------------------
// Driver
// ---------------------------------------------------------------------------

/// Extraction settings over a destination root, and the engine's decisions.
#[derive(Debug, Clone)]
pub struct Driver {
    /// The canonical destination root.
    destination: String,
    /// Resource limits.
    limits: Limits,
    /// What to do on existing files.
    overwrite: OverwriteMode,
    /// What to do with links.
    symlinks: SymlinkBehavior,
    /// Validation strategy.
    validation: ValidationMode,
}

impl Driver {
    pub closed spec fn destination_view(&self) -> Seq<char> {
        self.destination@
    }

    pub closed spec fn limits_view(&self) -> Limits {
        self.limits
    }

    pub closed spec fn overwrite_view(&self) -> OverwriteMode {
        self.overwrite
    }

    pub closed spec fn symlinks_view(&self) -> SymlinkBehavior {
        self.symlinks
    }

    pub closed spec fn validation_view(&self) -> ValidationMode {
        self.validation
    }

    pub open spec fn has_defaults(&self) -> bool {
        &&& self.limits_view() == Limits::spec_default()
        &&& self.overwrite_view() == OverwriteMode::Error
        &&& self.symlinks_view() == SymlinkBehavior::Skip
        &&& self.validation_view() == ValidationMode::Streaming
    }

    /// A driver over `destination` with the default settings, where the
    /// destination exists; `DestinationNotFound` where it does not.
    pub fn new(destination: &str, exists: bool) -> (r: Result<Driver, Error>)
        ensures
            exists <==> r is Ok,
            r matches Ok(d) ==> d.destination_view() == destination@ && d.has_defaults(),
            r matches Err(e) ==> (e matches Error::DestinationNotFound { path } && path@
                == destination@),
    {
        if !exists {
            return Err(Error::DestinationNotFound { path: destination.to_owned() });
        }
        Ok(Driver::new_or_create(destination))
    }

    /// A driver over `destination`, which the caller has just created where
    /// it was missing, with the default settings.
    pub fn new_or_create(destination: &str) -> (r: Driver)
        ensures
            r.destination_view() == destination@,
            r.has_defaults(),
    {
        Driver {
            destination: destination.to_owned(),
            limits: Limits::default(),
            overwrite: OverwriteMode::default(),
            symlinks: SymlinkBehavior::default(),
            validation: ValidationMode::default(),
        }
    }

    /// Sets the limits.
    pub fn limits(self, limits: Limits) -> (r: Driver)
        ensures
            r.destination_view() == self.destination_view(),
            r.overwrite_view() == self.overwrite_view(),
            r.symlinks_view() == self.symlinks_view(),
            r.validation_view() == self.validation_view(),
            r.limits_view() == limits,
    {
        Driver { limits, ..self }
    }

    /// Sets the overwrite mode.
    pub fn overwrite(self, mode: OverwriteMode) -> (r: Driver)
        ensures
            r.destination_view() == self.destination_view(),
            r.limits_view() == self.limits_view(),
            r.symlinks_view() == self.symlinks_view(),
            r.validation_view() == self.validation_view(),
            r.overwrite_view() == mode,
    {
        Driver { overwrite: mode, ..self }
    }

    /// Sets the link handling.
    pub fn symlinks(self, behavior: SymlinkBehavior) -> (r: Driver)
        ensures
            r.destination_view() == self.destination_view(),
            r.limits_view() == self.limits_view(),
            r.overwrite_view() == self.overwrite_view(),
            r.validation_view() == self.validation_view(),
            r.symlinks_view() == behavior,
    {
        Driver { symlinks: behavior, ..self }
    }

    /// Sets the validation mode.
    pub fn validation(self, mode: ValidationMode) -> (r: Driver)
        ensures
            r.destination_view() == self.destination_view(),
            r.limits_view() == self.limits_view(),
            r.overwrite_view() == self.overwrite_view(),
            r.symlinks_view() == self.symlinks_view(),
            r.validation_view() == mode,
    {
        Driver { validation: mode, ..self }
    }

    /// The canonical destination root.
    pub fn destination(&self) -> (r: &str)
        ensures
            r@ == self.destination_view(),
    {
        self.destination.as_str()
    }

    /// The limits in force.
    pub fn current_limits(&self) -> (r: Limits)
        ensures
            r == self.limits_view(),
    {
        self.limits
    }

    /// The validation mode in force.
    pub fn current_validation(&self) -> (r: ValidationMode)
        ensures
            r == self.validation_view(),
    {
        self.validation
    }

    /// The standard policy chain for these settings: path, size, count,
    /// depth, link.
    pub fn build_policies(&self) -> (r: PolicyChain)
        ensures
            r.rules().len() == 5,
            r.rules()[0] matches Rule::Path(p) && p.jail.root_view() == self.destination_view(),
            r.rules()[1] == Rule::Size(
                SizePolicy {
                    max_single_file: self.limits_view().max_single_file,
                    max_total: self.limits_view().max_total_bytes,
                },
            ),
            r.rules()[2] == Rule::Count(CountPolicy { max_files: self.limits_view().max_file_count }),
            r.rules()[3] == Rule::Depth(DepthPolicy { max_depth: self.limits_view().max_path_depth }),
            r.rules()[4] == Rule::Symlink(SymlinkPolicy { behavior: self.symlinks_view() }),
    {
        let config = PolicyConfig {
            destination: self.destination.clone(),
            max_single_file: self.limits.max_single_file,
            max_total: self.limits.max_total_bytes,
            max_files: self.limits.max_file_count,
            max_depth: self.limits.max_path_depth,
            symlink_behavior: self.symlinks,
        };
        config.build()
    }

    /// The error that reports `fault` for `entry`.
    fn fault_to_error(&self, entry: &EntryInfo, state: &ExtractionState, fault: Fault) -> (e: Error)
        requires
            fault is Link ==> entry.is_link(),
        ensures
            fault_error(self.limits_view(), *entry, *state, fault, e),
    {
        match fault {
            Fault::Filename(issue) => Error::InvalidFilename {
                entry: entry.name.clone(),
                reason: issue.reason(),
            },
            Fault::Jail(j) => Error::PathEscape { entry: entry.name.clone(), detail: j.detail() },
            Fault::Link => {
                let target = match &entry.kind {
                    EntryKind::Symlink { target } => target.clone(),
                    _ => String::new(),
                };
                Error::SymlinkNotAllowed { entry: entry.name.clone(), target }
            },
            Fault::Depth => Error::PathTooDeep {
                entry: entry.name.clone(),
                depth: path_depth(entry.name.as_str()),
                limit: self.limits.max_path_depth,
            },
            Fault::Count => Error::FileCountExceeded {
                limit: self.limits.max_file_count,
                attempted: state.files_extracted.saturating_add(1),
            },
            Fault::TooLarge => Error::FileTooLarge {
                entry: entry.name.clone(),
                limit: self.limits.max_single_file,
                size: entry.size,
            },
            Fault::Total => Error::TotalSizeExceeded {
                limit: self.limits.max_total_bytes,
                would_be: state.bytes_written.saturating_add(entry.size),
            },
        }
    }

    /// Where `entry` goes in the streaming pipeline; `selected` is the
    /// caller's filter verdict on it.
    pub fn stage(&self, entry: &EntryInfo, state: &ExtractionState, selected: bool) -> (r: Stage)
        ensures
            r == stream_stage(self.limits_view(), self.symlinks_view(), *entry, *state, selected),
    {
        match validate_filename(entry.name.as_str()) {
            Err(issue) => return Stage::Fail(Fault::Filename(issue)),
            Ok(()) => {},
        }
        let root = PathJail::new(self.destination.clone());
        match root.check(entry.name.as_str()) {
            Err(j) => return Stage::Fail(Fault::Jail(j)),
            Ok(()) => {},
        }
        match &entry.kind {
            EntryKind::Symlink { .. } => {
                return match self.symlinks {
                    SymlinkBehavior::Error => Stage::Fail(Fault::Link),
                    SymlinkBehavior::Skip => Stage::Skip,
                };
            },
            _ => {},
        }
        if path_depth(entry.name.as_str()) > self.limits.max_path_depth {
            return Stage::Fail(Fault::Depth);
        }
        if !selected {
            return Stage::Skip;
        }
        if state.files_extracted >= self.limits.max_file_count {
            return Stage::Fail(Fault::Count);
        }
        match &entry.kind {
            EntryKind::Directory => {
                return Stage::Dir;
            },
            _ => {},
        }
        if entry.size > self.limits.max_single_file {
            return Stage::Fail(Fault::TooLarge);
        }
        if state.bytes_written > self.limits.max_total_bytes || entry.size
            > self.limits.max_total_bytes - state.bytes_written {
            return Stage::Fail(Fault::Total);
        }
        Stage::File
    }

    /// Runs the streaming checks on `entry` and says what to do with it.
    /// A skipped entry is counted; a refused one gives the error of the first
    /// check it fails. A link is never materialized; under `Overwrite` a
    /// file is opened only after any link at its path is removed.
    pub fn begin_entry(&self, entry: &EntryInfo, state: &mut ExtractionState, selected: bool) -> (r:
        Result<Action, Error>)
        ensures
            match stream_stage(self.limits_view(), self.symlinks_view(), *entry, *old(state), selected) {
                Stage::Fail(f) => r matches Err(e) && fault_error(
                    self.limits_view(),
                    *entry,
                    *old(state),
                    f,
                    e,
                ) && *final(state) == *old(state),
                Stage::Skip => r == Ok::<Action, Error>(Action::Skip) && *final(state) == (
                ExtractionState { entries_skipped: sat_inc(old(state).entries_skipped), ..*old(state) }),
                Stage::Dir => r == Ok::<Action, Error>(Action::CreateDir) && *final(state) == *old(state),
                Stage::File => r == Ok::<Action, Error>(
                    Action::OpenFile {
                        exclusive: self.overwrite_view() != OverwriteMode::Overwrite,
                        replace_link: self.overwrite_view() == OverwriteMode::Overwrite,
                    },
                ) && *final(state) == *old(state),
            },
            entry.is_link() ==> r == Ok::<Action, Error>(Action::Skip) || r is Err,
            r matches Ok(a) && a != Action::Skip ==> jail_verdict(name_bytes(entry.name@)) is Ok,
            within(*old(state), self.limits_view()) ==> within(*final(state), self.limits_view()),
            within(*old(state), self.limits_view()) ==> engine_step(
                self.limits_view(),
                *old(state),
                *final(state),
            ),
    {
        let stage = self.stage(entry, state, selected);
        match stage {
            Stage::Fail(f) => {
                Err(self.fault_to_error(entry, state, f))
            },
            Stage::Skip => {
                state.entries_skipped = state.entries_skipped.saturating_add(1);
                Ok(Action::Skip)
            },
            Stage::Dir => Ok(Action::CreateDir),
            Stage::File => Ok(
                Action::OpenFile {
                    exclusive: self.overwrite != OverwriteMode::Overwrite,
                    replace_link: self.overwrite == OverwriteMode::Overwrite,
                },
            ),
        }
    }

    /// Records a directory entry that the caller has created.
    pub fn dir_created(&self, state: &mut ExtractionState)
        ensures
            *final(state) == (ExtractionState {
                dirs_created: sat_inc(old(state).dirs_created),
                ..*old(state)
            }),
            within(*old(state), self.limits_view()) ==> within(*final(state), self.limits_view()),
            within(*old(state), self.limits_view()) ==> engine_step(
                self.limits_view(),
                *old(state),
                *final(state),
            ),
    {
        state.dirs_created = state.dirs_created.saturating_add(1);
    }

    /// The exclusive open of a file entry found the path taken: under
    /// `Error` the extraction fails with `AlreadyExists`, under `Skip` the
    /// entry is counted as skipped.
    pub fn file_exists(&self, entry: &EntryInfo, state: &mut ExtractionState) -> (r: Result<(), Error>)
        requires
            self.overwrite_view() != OverwriteMode::Overwrite,
        ensures
            self.overwrite_view() == OverwriteMode::Error ==> (r matches Err(
                Error::AlreadyExists { entry: n },
            ) && n@ == entry.name@ && *final(state) == *old(state)),
            self.overwrite_view() == OverwriteMode::Skip ==> (r is Ok && *final(state) == (
            ExtractionState { entries_skipped: sat_inc(old(state).entries_skipped), ..*old(state) })),
            within(*old(state), self.limits_view()) ==> within(*final(state), self.limits_view()),
            within(*old(state), self.limits_view()) ==> engine_step(
                self.limits_view(),
                *old(state),
                *final(state),
            ),
    {
        match self.overwrite {
            OverwriteMode::Skip => {
                state.entries_skipped = state.entries_skipped.saturating_add(1);
                Ok(())
            },
            _ => Err(Error::AlreadyExists { entry: entry.name.clone() }),
        }
    }

    pub open spec fn spec_read_limit(&self, entry: EntryInfo, state: ExtractionState) -> u64 {
        read_limit_of(self.limits_view(), entry, state)
    }

    /// How many bytes of the entry's stream may be copied: the least of its
    /// declared size, the per-file limit and the budget left.
    pub fn read_limit(&self, entry: &EntryInfo, state: &ExtractionState) -> (r: u64)
        ensures
            r == self.spec_read_limit(*entry, *state),
            r <= entry.size,
            r <= self.limits_view().max_single_file,
            state.bytes_written + r <= self.limits_view().max_total_bytes || r == 0,
    {
        let left = self.limits.max_total_bytes.saturating_sub(state.bytes_written);
        let a = if entry.size <= self.limits.max_single_file {
            entry.size
        } else {
            self.limits.max_single_file
        };
        if a <= left {
            a
        } else {
            left
        }
    }

    /// Settles a file entry after the copy: `copied` bytes were written,
    /// and `excess` says whether the one-byte probe that followed found more.
    /// More bytes than declared fail with `SizeMismatch`; otherwise the
    /// counters advance and the permission bits to apply, if the entry
    /// records a mode, are returned with setuid, setgid and sticky cleared.
    pub fn finish_file(
        &self,
        entry: &EntryInfo,
        state: &mut ExtractionState,
        copied: u64,
        excess: bool,
    ) -> (r: Result<Option<u32>, Error>)
        requires
            copied <= self.spec_read_limit(*entry, *old(state)),
            old(state).files_extracted < self.limits_view().max_file_count,
        ensures
            excess ==> (r matches Err(Error::SizeMismatch { entry: n, declared, actual }) && n@
                == entry.name@ && declared == entry.size && actual == sat_add(copied, 1)
                && *final(state) == *old(state)),
            !excess ==> r == Ok::<Option<u32>, Error>(
                match entry.mode {
                    Some(m) => Some(safe_mode(m)),
                    None => None,
                },
            ) && *final(state) == (ExtractionState {
                files_extracted: (old(state).files_extracted + 1) as usize,
                bytes_written: (old(state).bytes_written + copied) as u64,
                ..*old(state)
            }),
            within(*old(state), self.limits_view()) ==> within(*final(state), self.limits_view()),
            within(*old(state), self.limits_view()) ==> engine_step(
                self.limits_view(),
                *old(state),
                *final(state),
            ),
    {
        if excess {
            return Err(
                Error::SizeMismatch {
                    entry: entry.name.clone(),
                    declared: entry.size,
                    actual: copied.saturating_add(1),
                },
            );
        }
        state.bytes_written = state.bytes_written + copied;
        state.files_extracted = state.files_extracted + 1;
        match entry.mode {
            Some(m) => Ok(Some(m & 0o777)),
            None => Ok(None),
        }
    }

    /// The validate-first pre-pass over the archive's metadata: every entry
    /// passes the filename, jail, link, depth and per-file size checks, and
    /// the file entries' declared sizes and count stay within the limits.
    /// Otherwise the error of the first entry that fails, else of the totals.
    pub fn validate_all(&self, entries: &Vec<EntryInfo>) -> (r: Result<(), Error>)
        ensures
            r is Ok <==> prepass_ok(self.limits_view(), self.symlinks_view(), entries@),
            r matches Err(e) ==> prepass_error(self.limits_view(), self.symlinks_view(), entries@, e),
    {
        let mut i: usize = 0;
        let mut total: u64 = 0;
        let mut total_overflowed = false;
        let mut count: usize = 0;
        let mut count_overflowed = false;
        while i < entries.len()
            invariant
                i <= entries@.len(),
                clean_prefix(self.limits_view(), self.symlinks_view(), entries@, i as int),
                total == sat_u64(declared_total(entries@.take(i as int))),
                total_overflowed <==> declared_total(entries@.take(i as int)) > u64::MAX,
                count == sat_usize(file_total(entries@.take(i as int))),
                count_overflowed <==> file_total(entries@.take(i as int)) > usize::MAX,
                declared_total(entries@.take(i as int)) >= 0,
                file_total(entries@.take(i as int)) >= 0,
            decreases entries@.len() - i,
        {
            let e = &entries[i];
            let fault = self.static_check(e);
            match fault {
                Some(f) => {
                    let err = self.fault_to_error(e, &ExtractionState::default(), f);
                    return Err(err);
                },
                None => {},
            }
            proof {
                assert(entries@.take(i + 1).drop_last() =~= entries@.take(i as int));
                assert(entries@.take(i + 1).last() == entries@[i as int]);
            }
            match &e.kind {
                EntryKind::File => {
                    match total.checked_add(e.size) {
                        Some(t) => {
                            total = t;
                        },
                        None => {
                            total = u64::MAX;
                            total_overflowed = true;
                        },
                    }
                    match count.checked_add(1) {
                        Some(c) => {
                            count = c;
                        },
                        None => {
                            count = usize::MAX;
                            count_overflowed = true;
                        },
                    }
                },
                _ => {},
            }
            i += 1;
        }
        proof {
            assert(entries@.take(i as int) =~= entries@);
        }
        if total_overflowed || total > self.limits.max_total_bytes {
            return Err(
                Error::TotalSizeExceeded { limit: self.limits.max_total_bytes, would_be: total },
            );
        }
        if count_overflowed || count > self.limits.max_file_count {
            return Err(
                Error::FileCountExceeded { limit: self.limits.max_file_count, attempted: count },
            );
        }
        Ok(())
    }

    /// The pre-pass checks on one entry alone.
    fn static_check(&self, entry: &EntryInfo) -> (r: Option<Fault>)
        ensures
            r == static_fault(self.limits_view(), self.symlinks_view(), *entry),
    {
        match validate_filename(entry.name.as_str()) {
            Err(issue) => return Some(Fault::Filename(issue)),
            Ok(()) => {},
        }
        let root = PathJail::new(self.destination.clone());
        match root.check(entry.name.as_str()) {
            Err(j) => return Some(Fault::Jail(j)),
            Ok(()) => {},
        }
        match &entry.kind {
            EntryKind::Symlink { .. } => {
                if self.symlinks == SymlinkBehavior::Error {
                    return Some(Fault::Link);
                }
            },
            _ => {},
        }
        if path_depth(entry.name.as_str()) > self.limits.max_path_depth {
            return Some(Fault::Depth);
        }
        match &entry.kind {
            EntryKind::File => {
                if entry.size > self.limits.max_single_file {
                    return Some(Fault::TooLarge);
                }
            },
            _ => {},
        }
        None
    }

    /// The report of an extraction that ended in `state`.
    pub fn report(&self, state: &ExtractionState) -> (r: ExtractionReport)
        ensures
            r == (ExtractionReport {
                files_extracted: state.files_extracted,
                dirs_created: state.dirs_created,
                bytes_written: state.bytes_written,
                entries_skipped: state.entries_skipped,
            }),
    {
        ExtractionReport {
            files_extracted: state.files_extracted,
            dirs_created: state.dirs_created,
            bytes_written: state.bytes_written,
            entries_skipped: state.entries_skipped,
        }
    }
}

/// A fresh extraction starts within every limit; each step of the engine
/// ([`Driver::begin_entry`], [`Driver::dir_created`], [`Driver::file_exists`],
/// [`Driver::finish_file`]) keeps it there, so `bytes_written` never exceeds
/// `max_total_bytes` and `files_extracted` never exceeds `max_file_count`.
pub proof fn lemma_fresh_state_within(limits: Limits)
    ensures
        within(ExtractionState::zero(), limits),
{
}

/// One step of the engine on the counters, as its functions' contracts
/// give it: a skip ([`Driver::begin_entry`], [`Driver::file_exists`]), a
/// directory ([`Driver::dir_created`]), or a committed file
/// ([`Driver::finish_file`]), which needs a file left under the count limit
/// and adds at most the read limit, so at most the per-file limit and the
/// budget left.
pub open spec fn engine_step(limits: Limits, before: ExtractionState, after: ExtractionState) -> bool {
    ||| after == before
    ||| after == (ExtractionState { entries_skipped: sat_inc(before.entries_skipped), ..before })
    ||| after == (ExtractionState { dirs_created: sat_inc(before.dirs_created), ..before })
    ||| (before.files_extracted < limits.max_file_count && after == (ExtractionState {
        files_extracted: (before.files_extracted + 1) as usize,
        bytes_written: after.bytes_written,
        ..before
    }) && after.bytes_written - before.bytes_written <= limits.max_single_file
        && before.bytes_written <= after.bytes_written && after.bytes_written
        <= limits.max_total_bytes)
}

/// Every run of the engine from a fresh state stays within the limits: the
/// bytes written never exceed `max_total_bytes`, the files never exceed
/// `max_file_count`, and no file adds more than `max_single_file` bytes.
pub proof fn lemma_run_within_limits(limits: Limits, states: Seq<ExtractionState>)
    requires
        states.len() > 0,
        states[0] == ExtractionState::zero(),
        forall|k: int| 0 <= k < states.len() - 1 ==> engine_step(limits, states[k], #[trigger] states[k + 1]),
    ensures
        forall|k: int| 0 <= k < states.len() ==> within(#[trigger] states[k], limits),
    decreases states.len(),
{
    if states.len() > 1 {
        let init = states.drop_last();
        assert forall|k: int| 0 <= k < init.len() - 1 implies engine_step(limits, init[k], #[trigger] init[k + 1]) by {
            assert(init[k + 1] == states[k + 1]);
            assert(engine_step(limits, states[k], states[k + 1]));
        }
        lemma_run_within_limits(limits, init);
        let n = states.len() - 1;
        assert(within(init[n - 1], limits));
        assert(engine_step(limits, states[n - 1], states[(n - 1) + 1]));
        assert forall|k: int| 0 <= k < states.len() implies within(#[trigger] states[k], limits) by {
            if k < n {
                assert(states[k] == init[k]);
            }
        }
    }
}

/// A state the streaming pass can have reached before entry `i`: no more
/// files and bytes than the file entries before `i` declare.
pub open spec fn bounded_by_prefix(entries: Seq<EntryInfo>, i: int, state: ExtractionState) -> bool {
    state.files_extracted <= file_total(entries.take(i)) && state.bytes_written <= declared_total(
        entries.take(i),
    )
}

proof fn lemma_totals_step(entries: Seq<EntryInfo>, i: int)
    requires
        0 <= i < entries.len(),
    ensures
        file_total(entries.take(i + 1)) == file_total(entries.take(i)) + if entries[i].is_file() {
            1int
        } else {
            0
        },
        declared_total(entries.take(i + 1)) == declared_total(entries.take(i)) + if entries[i].is_file() {
            entries[i].size as int
        } else {
            0
        },
{
    assert(entries.take(i + 1).drop_last() =~= entries.take(i));
}

proof fn lemma_totals_monotone(entries: Seq<EntryInfo>, i: int)
    requires
        0 <= i <= entries.len(),
    ensures
        0 <= file_total(entries.take(i)) <= file_total(entries),
        0 <= declared_total(entries.take(i)) <= declared_total(entries),
    decreases entries.len() - i,
{
    if i == entries.len() {
        assert(entries.take(i) =~= entries);
        lemma_totals_nonnegative(entries);
    } else {
        lemma_totals_monotone(entries, i + 1);
        lemma_totals_step(entries, i);
        lemma_totals_nonnegative(entries.take(i));
    }
}

proof fn lemma_totals_nonnegative(entries: Seq<EntryInfo>)
    ensures
        file_total(entries) >= 0,
        declared_total(entries) >= 0,
    decreases entries.len(),
{
    if entries.len() > 0 {
        lemma_totals_nonnegative(entries.drop_last());
    }
}

/// Once the validate-first pre-pass accepts an archive, no check of the
/// streaming pass refuses any of its entries, whatever the filter selects,
/// as long as the state stays within what the earlier file entries declare.
/// So every policy violation is caught by the pre-pass, before anything is
/// written. The one exception is a directory entry that comes once the file
/// entries before it have used up the file limit: the count check refuses
/// it in the streaming pass, while the pre-pass counts files only.
pub proof fn lemma_prepass_admits_stream(
    limits: Limits,
    links: SymlinkBehavior,
    entries: Seq<EntryInfo>,
    i: int,
    state: ExtractionState,
    selected: bool,
)
    requires
        prepass_ok(limits, links, entries),
        0 <= i < entries.len(),
        bounded_by_prefix(entries, i, state),
        entries[i].is_dir() ==> file_total(entries.take(i)) < limits.max_file_count,
    ensures
        !(stream_stage(limits, links, entries[i], state, selected) is Fail),
{
    assert(static_fault(limits, links, entries[i]) is None);
    lemma_totals_step(entries, i);
    lemma_totals_monotone(entries, i + 1);
}

/// A streaming step that adds at most one file and at most the entry's
/// declared size, and only for a file entry, keeps the state within what the
/// file entries up to and including `i` declare. [`Driver::finish_file`]
/// adds one file and at most [`Driver::read_limit`] bytes, which is never
/// more than the declared size; the other steps add neither.
pub proof fn lemma_stream_step_bounded(
    entries: Seq<EntryInfo>,
    i: int,
    before: ExtractionState,
    after: ExtractionState,
)
    requires
        0 <= i < entries.len(),
        bounded_by_prefix(entries, i, before),
        after.files_extracted <= before.files_extracted + if entries[i].is_file() {
            1int
        } else {
            0
        },
        after.bytes_written <= before.bytes_written + if entries[i].is_file() {
            entries[i].size as int
        } else {
            0
        },
    ensures
        bounded_by_prefix(entries, i + 1, after),
{
    lemma_totals_step(entries, i);
}

/// The read limit never exceeds the declared size: a stream that runs past
/// its declaration is cut at the declared length and the probe reports it.
pub proof fn lemma_read_limit_within_declared(limits: Limits, entry: EntryInfo, state: ExtractionState)
    ensures
        read_limit_of(limits, entry, state) <= entry.size,
        read_limit_of(limits, entry, state) <= limits.max_single_file,
{
}

/// The permission bits that [`Driver::finish_file`] hands back never carry
/// setuid, setgid or sticky.
pub proof fn lemma_safe_mode_clears_special_bits(mode: u32)
    ensures
        safe_mode(mode) & 0o7000u32 == 0,
        safe_mode(mode) <= 0o777,
{
    assert((mode & 0o777u32) & 0o7000u32 == 0) by (bit_vector);
    assert((mode & 0o777u32) <= 0o777u32) by (bit_vector);
}

} // verus!

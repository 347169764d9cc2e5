//! Security policies, checked per entry against the running extraction state.

use vstd::prelude::*;
use crate::entry::{EntryInfo, EntryKind};
use crate::error::Error;
use crate::filename::{
    filename_verdict, issue_text, name_bytes, slash_free, validate_filename, DOT, SLASH,
};
use crate::jail::{is_cur_dir, is_parent_dir, jail_text, jail_verdict, PathJail};

verus! {

/// State tracked during one extraction for the cumulative limits.
#[derive(Debug, Clone, Copy, PartialEq, Eq)]
pub struct ExtractionState {
    /// Number of files extracted so far.
    pub files_extracted: usize,
    /// Number of directories created.
    pub dirs_created: usize,
    /// Total bytes written so far.
    pub bytes_written: u64,
    /// Entries skipped (links, filtered, existing).
    pub entries_skipped: usize,
}

impl ExtractionState {
    pub open spec fn zero() -> ExtractionState {
        ExtractionState { files_extracted: 0, dirs_created: 0, bytes_written: 0, entries_skipped: 0 }
    }
}

impl Default for ExtractionState {
    fn default() -> (r: ExtractionState)
        ensures
            r == ExtractionState::zero(),
    {
        ExtractionState { files_extracted: 0, dirs_created: 0, bytes_written: 0, entries_skipped: 0 }
    }
}

/// `a + b`, or `u64::MAX` where the sum does not fit.
pub open spec fn sat_add(a: u64, b: u64) -> u64 {
    if a + b > u64::MAX {
        u64::MAX
    } else {
        (a + b) as u64
    }
}

/// `a + 1`, or `usize::MAX` where the sum does not fit.
pub open spec fn sat_inc(a: usize) -> usize {
    if a + 1 > usize::MAX {
        usize::MAX
    } else {
        (a + 1) as usize
    }
}

/// A security policy that validates entries before extraction.
pub trait Policy: Sized {
    /// The entry passes this policy in the given state.
    spec fn admits(&self, entry: EntryInfo, state: ExtractionState) -> bool;

    /// `e` is the error this policy reports for a refused entry.
    spec fn refusal(&self, entry: EntryInfo, state: ExtractionState, e: Error) -> bool;

    /// The policy as a member of a chain.
    spec fn as_rule(&self) -> Rule;

    /// `Ok` exactly when the policy admits the entry; else its error.
    fn check(&self, entry: &EntryInfo, state: &ExtractionState) -> (r: Result<(), Error>)
        ensures
            r is Ok <==> self.admits(*entry, *state),
            r is Err ==> self.refusal(*entry, *state, r->Err_0),
    ;

    /// Turns the policy into a chain member.
    fn into_rule(self) -> (r: Rule)
        ensures
            r == self.as_rule(),
    ;
}

// ---------------------------------------------------------------------------
// Path
// ---------------------------------------------------------------------------

/// Filename rules plus the path jail: refuses syntactically dangerous names
/// and names that leave the destination.
#[derive(Debug, Clone)]
pub struct PathPolicy {
    pub jail: PathJail,
}

pub open spec fn path_admits(name: Seq<char>) -> bool {
    filename_verdict(name_bytes(name)) is Ok && jail_verdict(name_bytes(name)) is Ok
}

pub open spec fn path_refusal(name: Seq<char>, e: Error) -> bool {
    match filename_verdict(name_bytes(name)) {
        Err(issue) => match e {
            Error::InvalidFilename { entry, reason } => entry@ == name && reason@ == issue_text(
                issue,
            ),
            _ => false,
        },
        Ok(_) => match jail_verdict(name_bytes(name)) {
            Err(j) => match e {
                Error::PathEscape { entry, detail } => entry@ == name && detail@ == jail_text(j),
                _ => false,
            },
            Ok(_) => false,
        },
    }
}

impl PathPolicy {
    /// A path policy over the canonical destination root.
    pub fn new(root: String) -> (r: PathPolicy)
        ensures
            r.jail.root_view() == root@,
    {
        PathPolicy { jail: PathJail::new(root) }
    }
}

impl Policy for PathPolicy {
    open spec fn admits(&self, entry: EntryInfo, state: ExtractionState) -> bool {
        path_admits(entry.name@)
    }

    open spec fn refusal(&self, entry: EntryInfo, state: ExtractionState, e: Error) -> bool {
        path_refusal(entry.name@, e)
    }

    open spec fn as_rule(&self) -> Rule {
        Rule::Path(*self)
    }

    fn check(&self, entry: &EntryInfo, state: &ExtractionState) -> (r: Result<(), Error>) {
        match validate_filename(entry.name.as_str()) {
            Err(issue) => {
                return Err(Error::InvalidFilename { entry: entry.name.clone(), reason: issue.reason() });
            },
            Ok(()) => {},
        }
        match self.jail.check(entry.name.as_str()) {
            Err(j) => Err(Error::PathEscape { entry: entry.name.clone(), detail: j.detail() }),
            Ok(()) => Ok(()),
        }
    }

    fn into_rule(self) -> (r: Rule) {
        Rule::Path(self)
    }
}

// ---------------------------------------------------------------------------
// Size
// ---------------------------------------------------------------------------

/// Refuses an entry larger than the per-file limit, or one whose declared
/// size would take the cumulative bytes past the total limit.
#[derive(Debug, Clone, Copy, PartialEq, Eq)]
pub struct SizePolicy {
    /// Maximum size of a single file.
    pub max_single_file: u64,
    /// Maximum total bytes across all files.
    pub max_total: u64,
}

pub open spec fn size_admits(p: SizePolicy, size: u64, written: u64) -> bool {
    size <= p.max_single_file && written + size <= p.max_total
}

pub open spec fn size_refusal(p: SizePolicy, name: Seq<char>, size: u64, written: u64, e: Error) -> bool {
    if size > p.max_single_file {
        match e {
            Error::FileTooLarge { entry, limit, size: s } => entry@ == name && limit
                == p.max_single_file && s == size,
            _ => false,
        }
    } else {
        e == Error::TotalSizeExceeded { limit: p.max_total, would_be: sat_add(written, size) }
    }
}

impl SizePolicy {
    /// A size policy with the given limits.
    pub fn new(max_single_file: u64, max_total: u64) -> (r: SizePolicy)
        ensures
            r == (SizePolicy { max_single_file, max_total }),
    {
        SizePolicy { max_single_file, max_total }
    }
}

impl Policy for SizePolicy {
    open spec fn admits(&self, entry: EntryInfo, state: ExtractionState) -> bool {
        size_admits(*self, entry.size, state.bytes_written)
    }

    open spec fn refusal(&self, entry: EntryInfo, state: ExtractionState, e: Error) -> bool {
        size_refusal(*self, entry.name@, entry.size, state.bytes_written, e)
    }

    open spec fn as_rule(&self) -> Rule {
        Rule::Size(*self)
    }

    fn check(&self, entry: &EntryInfo, state: &ExtractionState) -> (r: Result<(), Error>) {
        if entry.size > self.max_single_file {
            return Err(
                Error::FileTooLarge {
                    entry: entry.name.clone(),
                    limit: self.max_single_file,
                    size: entry.size,
                },
            );
        }
        let would_be = state.bytes_written.saturating_add(entry.size);
        if state.bytes_written > self.max_total || entry.size > self.max_total - state.bytes_written {
            return Err(Error::TotalSizeExceeded { limit: self.max_total, would_be });
        }
        Ok(())
    }

    fn into_rule(self) -> (r: Rule) {
        Rule::Size(self)
    }
}

// ---------------------------------------------------------------------------
// Count
// ---------------------------------------------------------------------------

/// Refuses an entry once the file count has reached the limit.
#[derive(Debug, Clone, Copy, PartialEq, Eq)]
pub struct CountPolicy {
    /// Maximum number of files.
    pub max_files: usize,
}

impl CountPolicy {
    /// A count policy with the given limit.
    pub fn new(max_files: usize) -> (r: CountPolicy)
        ensures
            r == (CountPolicy { max_files }),
    {
        CountPolicy { max_files }
    }
}

impl Policy for CountPolicy {
    open spec fn admits(&self, entry: EntryInfo, state: ExtractionState) -> bool {
        state.files_extracted < self.max_files
    }

    open spec fn refusal(&self, entry: EntryInfo, state: ExtractionState, e: Error) -> bool {
        e == Error::FileCountExceeded {
            limit: self.max_files,
            attempted: sat_inc(state.files_extracted),
        }
    }

    open spec fn as_rule(&self) -> Rule {
        Rule::Count(*self)
    }

    fn check(&self, entry: &EntryInfo, state: &ExtractionState) -> (r: Result<(), Error>) {
        if state.files_extracted >= self.max_files {
            return Err(
                Error::FileCountExceeded {
                    limit: self.max_files,
                    attempted: state.files_extracted.saturating_add(1),
                },
            );
        }
        Ok(())
    }

    fn into_rule(self) -> (r: Rule) {
        Rule::Count(self)
    }
}

// ---------------------------------------------------------------------------
// Depth
// ---------------------------------------------------------------------------

/// A component that names a directory level: not empty, not `.`, not `..`.
pub open spec fn is_normal(c: Seq<u8>) -> bool {
    !is_cur_dir(c) && !is_parent_dir(c)
}

/// The number of normal components of `b`, scanning from byte `i`; the
/// current component began at `start`.
pub open spec fn normal_count_at(b: Seq<u8>, i: int, start: int) -> nat
    decreases b.len() - i,
{
    if i >= b.len() {
        if is_normal(b.subrange(start, b.len() as int)) {
            1
        } else {
            0
        }
    } else if b[i] == SLASH {
        (if is_normal(b.subrange(start, i)) {
            1nat
        } else {
            0nat
        }) + normal_count_at(b, i + 1, i + 1)
    } else {
        normal_count_at(b, i + 1, start)
    }
}

/// The depth of a name: its number of normal components.
pub open spec fn name_depth(name: Seq<char>) -> nat {
    normal_count_at(name_bytes(name), 0, 0)
}

proof fn lemma_count_skip_run(b: Seq<u8>, i: int, e: int, start: int)
    requires
        0 <= i <= e <= b.len(),
        slash_free(b, i, e),
    ensures
        normal_count_at(b, i, start) == normal_count_at(b, e, start),
    decreases e - i,
{
    if i < e {
        lemma_count_skip_run(b, i + 1, e, start);
    }
}

proof fn lemma_count_bound(b: Seq<u8>, i: int, start: int)
    requires
        0 <= start <= i <= b.len(),
    ensures
        normal_count_at(b, i, start) <= b.len() - start + 1,
    decreases b.len() - i,
{
    if i < b.len() {
        if b[i] == SLASH {
            lemma_count_bound(b, i + 1, i + 1);
        } else {
            lemma_count_bound(b, i + 1, start);
        }
    }
}

/// Counts the normal components of `name`.
pub fn path_depth(name: &str) -> (r: usize)
    ensures
        r == name_depth(name@),
{
    let b = name.as_bytes();
    let _ = b.len();
    let mut s: usize = 0;
    let mut count: usize = 0;
    proof {
        lemma_count_bound(b@, 0, 0);
    }
    loop
        invariant
            s <= b@.len() <= usize::MAX,
            b@ == name_bytes(name@),
            count + normal_count_at(b@, s as int, s as int) == name_depth(name@),
            name_depth(name@) <= b@.len() + 1,
            count <= s,
        decreases b@.len() - s,
    {
        let e = crate::filename::slash_at_or_after(b, s);
        proof {
            lemma_count_skip_run(b@, s as int, e as int, s as int);
        }
        let ghost c = b@.subrange(s as int, e as int);
        let n = e - s;
        let cur = n == 0 || (n == 1 && b[s] == DOT);
        let parent = n == 2 && b[s] == DOT && b[s + 1] == DOT;
        proof {
            if n == 1 && b[s as int] == DOT {
                assert(c =~= seq![DOT]);
            }
            if n == 1 && b[s as int] != DOT {
                assert(c[0] != DOT);
            }
            if parent {
                assert(c =~= seq![DOT, DOT]);
            }
            if n == 2 && !parent {
                assert(c[0] != DOT || c[1] != DOT);
            }
            lemma_count_bound(b@, s as int, s as int);
        }
        if !cur && !parent {
            count += 1;
        }
        if e == b.len() {
            return count;
        }
        s = e + 1;
    }
}

/// Refuses an entry whose name has more directory levels than the limit.
#[derive(Debug, Clone, Copy, PartialEq, Eq)]
pub struct DepthPolicy {
    /// Maximum directory depth.
    pub max_depth: usize,
}

impl DepthPolicy {
    /// A depth policy with the given limit.
    pub fn new(max_depth: usize) -> (r: DepthPolicy)
        ensures
            r == (DepthPolicy { max_depth }),
    {
        DepthPolicy { max_depth }
    }
}

impl Policy for DepthPolicy {
    open spec fn admits(&self, entry: EntryInfo, state: ExtractionState) -> bool {
        name_depth(entry.name@) <= self.max_depth
    }

    open spec fn refusal(&self, entry: EntryInfo, state: ExtractionState, e: Error) -> bool {
        match e {
            Error::PathTooDeep { entry: n, depth, limit } => n@ == entry.name@ && depth
                == name_depth(entry.name@) && limit == self.max_depth,
            _ => false,
        }
    }

    open spec fn as_rule(&self) -> Rule {
        Rule::Depth(*self)
    }

    fn check(&self, entry: &EntryInfo, state: &ExtractionState) -> (r: Result<(), Error>) {
        let depth = path_depth(entry.name.as_str());
        if depth > self.max_depth {
            return Err(
                Error::PathTooDeep { entry: entry.name.clone(), depth, limit: self.max_depth },
            );
        }
        Ok(())
    }

    fn into_rule(self) -> (r: Rule) {
        Rule::Depth(self)
    }
}

// ---------------------------------------------------------------------------
// Links
// ---------------------------------------------------------------------------

/// What to do with a link entry.
#[derive(Debug, Clone, Copy, PartialEq, Eq, Structural)]
pub enum SymlinkBehavior {
    /// Skip links silently.
    Skip,
    /// Refuse the archive.
    Error,
}

impl Default for SymlinkBehavior {
    fn default() -> (r: SymlinkBehavior)
        ensures
            r == SymlinkBehavior::Skip,
    {
        SymlinkBehavior::Skip
    }
}

/// Refuses link entries under the `Error` behavior; under `Skip` it admits
/// them and the driver skips them.
#[derive(Debug, Clone, Copy, PartialEq, Eq)]
pub struct SymlinkPolicy {
    /// What to do with links.
    pub behavior: SymlinkBehavior,
}

impl SymlinkPolicy {
    /// A link policy with the given behavior.
    pub fn new(behavior: SymlinkBehavior) -> (r: SymlinkPolicy)
        ensures
            r == (SymlinkPolicy { behavior }),
    {
        SymlinkPolicy { behavior }
    }
}

pub open spec fn link_refusal(entry: EntryInfo, e: Error) -> bool {
    match entry.kind {
        EntryKind::Symlink { target } => match e {
            Error::SymlinkNotAllowed { entry: n, target: t } => n@ == entry.name@ && t@
                == target@,
            _ => false,
        },
        _ => false,
    }
}

impl Policy for SymlinkPolicy {
    open spec fn admits(&self, entry: EntryInfo, state: ExtractionState) -> bool {
        !(entry.is_link() && self.behavior == SymlinkBehavior::Error)
    }

    open spec fn refusal(&self, entry: EntryInfo, state: ExtractionState, e: Error) -> bool {
        link_refusal(entry, e)
    }

    open spec fn as_rule(&self) -> Rule {
        Rule::Symlink(*self)
    }

    fn check(&self, entry: &EntryInfo, state: &ExtractionState) -> (r: Result<(), Error>) {
        match &entry.kind {
            EntryKind::Symlink { target } => match self.behavior {
                SymlinkBehavior::Skip => Ok(()),
                SymlinkBehavior::Error => Err(
                    Error::SymlinkNotAllowed { entry: entry.name.clone(), target: target.clone() },
                ),
            },
            _ => Ok(()),
        }
    }

    fn into_rule(self) -> (r: Rule) {
        Rule::Symlink(self)
    }
}

// ---------------------------------------------------------------------------
// Chain
// ---------------------------------------------------------------------------

/// One member of a policy chain.
#[derive(Debug, Clone)]
pub enum Rule {
    Path(PathPolicy),
    Size(SizePolicy),
    Count(CountPolicy),
    Depth(DepthPolicy),
    Symlink(SymlinkPolicy),
}

impl Policy for Rule {
    open spec fn admits(&self, entry: EntryInfo, state: ExtractionState) -> bool {
        match self {
            Rule::Path(p) => p.admits(entry, state),
            Rule::Size(p) => p.admits(entry, state),
            Rule::Count(p) => p.admits(entry, state),
            Rule::Depth(p) => p.admits(entry, state),
            Rule::Symlink(p) => p.admits(entry, state),
        }
    }

    open spec fn refusal(&self, entry: EntryInfo, state: ExtractionState, e: Error) -> bool {
        match self {
            Rule::Path(p) => p.refusal(entry, state, e),
            Rule::Size(p) => p.refusal(entry, state, e),
            Rule::Count(p) => p.refusal(entry, state, e),
            Rule::Depth(p) => p.refusal(entry, state, e),
            Rule::Symlink(p) => p.refusal(entry, state, e),
        }
    }

    open spec fn as_rule(&self) -> Rule {
        *self
    }

    fn check(&self, entry: &EntryInfo, state: &ExtractionState) -> (r: Result<(), Error>) {
        match self {
            Rule::Path(p) => p.check(entry, state),
            Rule::Size(p) => p.check(entry, state),
            Rule::Count(p) => p.check(entry, state),
            Rule::Depth(p) => p.check(entry, state),
            Rule::Symlink(p) => p.check(entry, state),
        }
    }

    fn into_rule(self) -> (r: Rule) {
        self
    }
}

/// Every rule of `rules` admits the entry.
pub open spec fn chain_admits(rules: Seq<Rule>, entry: EntryInfo, state: ExtractionState) -> bool {
    forall|i: int| 0 <= i < rules.len() ==> #[trigger] rules[i].admits(entry, state)
}

/// `e` is the error of the first rule that refuses the entry.
pub open spec fn chain_refusal(
    rules: Seq<Rule>,
    entry: EntryInfo,
    state: ExtractionState,
    e: Error,
) -> bool {
    exists|i: int|
        0 <= i < rules.len() && chain_admits(rules.take(i), entry, state) && !rules[i].admits(
            entry,
            state,
        ) && #[trigger] rules[i].refusal(entry, state, e)
}

/// An ordered list of policies; checking stops at the first refusal.
pub struct PolicyChain {
    rules: Vec<Rule>,
}

impl PolicyChain {
    pub closed spec fn rules(&self) -> Seq<Rule> {
        self.rules@
    }

    /// An empty chain, which admits every entry.
    pub fn new() -> (r: PolicyChain)
        ensures
            r.rules() == Seq::<Rule>::empty(),
    {
        PolicyChain { rules: Vec::new() }
    }

    /// The chain with `policy` appended.
    pub fn with<P: Policy>(self, policy: P) -> (r: PolicyChain)
        ensures
            r.rules() == self.rules().push(policy.as_rule()),
    {
        let mut rules = self.rules;
        rules.push(policy.into_rule());
        PolicyChain { rules }
    }

    /// Checks the rules in order: `Ok` when all admit the entry, else the
    /// error of the first that refuses it.
    pub fn check_all(&self, entry: &EntryInfo, state: &ExtractionState) -> (r: Result<(), Error>)
        ensures
            r is Ok <==> chain_admits(self.rules(), *entry, *state),
            r is Err ==> chain_refusal(self.rules(), *entry, *state, r->Err_0),
    {
        let mut i: usize = 0;
        while i < self.rules.len()
            invariant
                i <= self.rules@.len(),
                chain_admits(self.rules@.take(i as int), *entry, *state),
            decreases self.rules@.len() - i,
        {
            match self.rules[i].check(entry, state) {
                Err(e) => {
                    proof {
                        assert(!self.rules@[i as int].admits(*entry, *state));
                        assert(self.rules@[i as int].refusal(*entry, *state, e));
                    }
                    return Err(e);
                },
                Ok(()) => {},
            }
            proof {
                assert forall|j: int| 0 <= j < i + 1 implies #[trigger] self.rules@.take(
                    i + 1,
                )[j].admits(*entry, *state) by {
                    if j < i {
                        assert(self.rules@.take(i as int)[j] == self.rules@.take(i + 1)[j]);
                    }
                }
            }
            i += 1;
        }
        proof {
            assert(self.rules@.take(i as int) =~= self.rules@);
        }
        Ok(())
    }
}

impl Default for PolicyChain {
    fn default() -> (r: PolicyChain)
        ensures
            r.rules() == Seq::<Rule>::empty(),
    {
        PolicyChain::new()
    }
}

/// Configuration of the standard chain.
#[derive(Debug, Clone)]
pub struct PolicyConfig {
    /// The canonical destination root.
    pub destination: String,
    pub max_single_file: u64,
    pub max_total: u64,
    pub max_files: usize,
    pub max_depth: usize,
    pub symlink_behavior: SymlinkBehavior,
}

impl PolicyConfig {
    /// The standard chain, in its fixed order: path, size, count, depth, link.
    pub fn build(&self) -> (r: PolicyChain)
        ensures
            r.rules().len() == 5,
            r.rules()[0] matches Rule::Path(p) && p.jail.root_view() == self.destination@,
            r.rules()[1] == Rule::Size(
                SizePolicy { max_single_file: self.max_single_file, max_total: self.max_total },
            ),
            r.rules()[2] == Rule::Count(CountPolicy { max_files: self.max_files }),
            r.rules()[3] == Rule::Depth(DepthPolicy { max_depth: self.max_depth }),
            r.rules()[4] == Rule::Symlink(SymlinkPolicy { behavior: self.symlink_behavior }),
    {
        PolicyChain::new().with(PathPolicy::new(self.destination.clone())).with(
            SizePolicy::new(self.max_single_file, self.max_total),
        ).with(CountPolicy::new(self.max_files)).with(DepthPolicy::new(self.max_depth)).with(
            SymlinkPolicy::new(self.symlink_behavior),
        )
    }
}

} // verus!

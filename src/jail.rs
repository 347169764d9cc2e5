//! The path jail: an entry name, joined to the destination root and
//! normalized lexically, must stay under the root.
//!
//! Only the root is canonical (the caller resolves it once); the joined path
//! is never resolved against the filesystem, so a symlink inside the
//! destination cannot redirect the check.

use vstd::prelude::*;
use vstd::string::*;
use crate::filename::{name_bytes, slash_free, SLASH, DOT};

verus! {

pub open spec fn is_cur_dir(c: Seq<u8>) -> bool {
    c.len() == 0 || c =~= seq![DOT]
}

pub open spec fn is_parent_dir(c: Seq<u8>) -> bool {
    c =~= seq![DOT, DOT]
}

/// One component applied to the normalized stack: `.` and empty components
/// are dropped, `..` pops, anything else is pushed. `None` when a `..` would
/// pop past the bottom of the stack.
pub open spec fn apply_component(stack: Seq<Seq<u8>>, c: Seq<u8>) -> Option<Seq<Seq<u8>>> {
    if is_cur_dir(c) {
        Some(stack)
    } else if is_parent_dir(c) {
        if stack.len() == 0 {
            None
        } else {
            Some(stack.drop_last())
        }
    } else {
        Some(stack.push(c))
    }
}

/// Normalizes the `/`-separated components of `b` onto `stack`, scanning
/// from byte `i`; the current component began at `start`.
pub open spec fn walk_at(b: Seq<u8>, i: int, start: int, stack: Seq<Seq<u8>>) -> Option<
    Seq<Seq<u8>>,
>
    decreases b.len() - i,
{
    if i >= b.len() {
        apply_component(stack, b.subrange(start, b.len() as int))
    } else if b[i] == SLASH {
        match apply_component(stack, b.subrange(start, i)) {
            None => None,
            Some(st) => walk_at(b, i + 1, i + 1, st),
        }
    } else {
        walk_at(b, i + 1, start, stack)
    }
}

/// All components of `b` normalized onto `stack`.
pub open spec fn walk(b: Seq<u8>, stack: Seq<Seq<u8>>) -> Option<Seq<Seq<u8>>> {
    walk_at(b, 0, 0, stack)
}

pub open spec fn is_absolute(b: Seq<u8>) -> bool {
    b.len() > 0 && b[0] == SLASH
}

/// Why the jail refused a name.
#[derive(Debug, Clone, Copy, PartialEq, Eq, Structural)]
pub enum JailIssue {
    /// The name is an absolute path.
    Absolute,
    /// A `..` leads above the root.
    Escapes,
}

/// The jail's verdict on the bytes of a name.
pub open spec fn jail_verdict(b: Seq<u8>) -> Result<(), JailIssue> {
    if is_absolute(b) {
        Err(JailIssue::Absolute)
    } else if walk(b, Seq::empty()) is None {
        Err(JailIssue::Escapes)
    } else {
        Ok(())
    }
}

pub open spec fn jail_text(issue: JailIssue) -> Seq<char> {
    match issue {
        JailIssue::Absolute => "absolute paths not allowed"@,
        JailIssue::Escapes => "path escapes the destination root"@,
    }
}

impl JailIssue {
    /// A short human-readable reason.
    pub fn detail(&self) -> (r: String)
        ensures
            r@ == jail_text(*self),
    {
        match self {
            JailIssue::Absolute => String::from_str("absolute paths not allowed"),
            JailIssue::Escapes => String::from_str("path escapes the destination root"),
        }
    }
}

/// A destination root, already canonical, that entry names are checked against.
#[derive(Debug, Clone)]
pub struct PathJail {
    root: String,
}

proof fn lemma_skip_run(b: Seq<u8>, i: int, e: int, start: int, stack: Seq<Seq<u8>>)
    requires
        0 <= i <= e <= b.len(),
        slash_free(b, i, e),
    ensures
        walk_at(b, i, start, stack) == walk_at(b, e, start, stack),
    decreases e - i,
{
    if i < e {
        lemma_skip_run(b, i + 1, e, start, stack);
    }
}

/// Walking from a stack that has `root` below it gives `root` below the
/// result of walking from the stack alone.
pub proof fn lemma_walk_keeps_root(
    b: Seq<u8>,
    i: int,
    start: int,
    root: Seq<Seq<u8>>,
    stack: Seq<Seq<u8>>,
)
    requires
        walk_at(b, i, start, stack) is Some,
    ensures
        walk_at(b, i, start, root + stack) == Some(root + walk_at(b, i, start, stack)->0),
    decreases b.len() - i,
{
    let c = if i >= b.len() {
        b.subrange(start, b.len() as int)
    } else {
        b.subrange(start, i)
    };
    if is_parent_dir(c) && stack.len() > 0 {
        assert((root + stack).drop_last() =~= root + stack.drop_last());
    } else if !is_cur_dir(c) && !is_parent_dir(c) {
        assert((root + stack).push(c) =~= root + stack.push(c));
    }
    if i < b.len() {
        if b[i] == SLASH {
            let st = apply_component(stack, c)->0;
            lemma_walk_keeps_root(b, i + 1, i + 1, root, st);
        } else {
            lemma_walk_keeps_root(b, i + 1, start, root, stack);
        }
    }
}

/// A name that the jail admits, joined to any root and normalized, keeps the
/// whole root as its prefix: it never resolves outside the root.
pub proof fn lemma_admitted_name_stays_under_root(root: Seq<Seq<u8>>, name: Seq<char>)
    requires
        jail_verdict(name_bytes(name)) is Ok,
    ensures
        walk(name_bytes(name), root) is Some,
        root.is_prefix_of(walk(name_bytes(name), root)->0),
{
    let b = name_bytes(name);
    assert(root + Seq::<Seq<u8>>::empty() =~= root);
    lemma_walk_keeps_root(b, 0, 0, root, Seq::empty());
    let st = walk(b, Seq::<Seq<u8>>::empty())->0;
    assert((root + st).subrange(0, root.len() as int) =~= root);
}

impl PathJail {
    pub closed spec fn root_view(&self) -> Seq<char> {
        self.root@
    }

    /// A jail over `root`, which the caller has canonicalized.
    pub fn new(root: String) -> (r: PathJail)
        ensures
            r.root_view() == root@,
    {
        PathJail { root }
    }

    /// The canonical root.
    pub fn root(&self) -> (r: &str)
        ensures
            r@ == self.root_view(),
    {
        self.root.as_str()
    }

    /// Checks that `name`, joined to the root and normalized lexically, stays
    /// under the root at every step.
    pub fn check(&self, name: &str) -> (r: Result<(), JailIssue>)
        ensures
            r == jail_verdict(name_bytes(name@)),
    {
        let b = name.as_bytes();
        if b.len() > 0 && b[0] == SLASH {
            return Err(JailIssue::Absolute);
        }
        let mut s: usize = 0;
        let mut depth: usize = 0;
        let ghost mut stack: Seq<Seq<u8>> = Seq::empty();
        loop
            invariant
                s <= b@.len(),
                b@ == name_bytes(name@),
                !is_absolute(b@),
                stack.len() == depth,
                depth <= s,
                walk(b@, Seq::empty()) == walk_at(b@, s as int, s as int, stack),
            decreases b@.len() - s,
        {
            let e = crate::filename::slash_at_or_after(b, s);
            proof {
                lemma_skip_run(b@, s as int, e as int, s as int, stack);
            }
            let ghost c = b@.subrange(s as int, e as int);
            let n = e - s;
            let cur = n == 0 || (n == 1 && b[s] == DOT);
            let parent = n == 2 && b[s] == DOT && b[s + 1] == DOT;
            proof {
                if n == 1 && b[s as int] == DOT {
                    assert(c =~= seq![DOT]);
                }
                if n == 1 && b[s as int] != DOT {
                    assert(c[0] != DOT);
                }
                if parent {
                    assert(c =~= seq![DOT, DOT]);
                }
                if n == 2 && !parent {
                    assert(c[0] != DOT || c[1] != DOT);
                }
            }
            if cur {
            } else if parent {
                if depth == 0 {
                    return Err(JailIssue::Escapes);
                }
                depth -= 1;
                proof {
                    stack = stack.drop_last();
                }
            } else {
                depth += 1;
                proof {
                    stack = stack.push(c);
                }
            }
            if e == b.len() {
                return Ok(());
            }
            s = e + 1;
        }
    }
}

} // verus!

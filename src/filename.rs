//! Syntactic rules on entry names, checked before any path work.
//!
//! Names are read as the bytes of their UTF-8 encoding: no decoding, no
//! normalization.

use vstd::prelude::*;
use vstd::string::*;
use vstd::utf8::encode_utf8;

verus! {

pub const SLASH: u8 = 0x2f;

pub const DOT: u8 = 0x2e;

pub const BACKSLASH: u8 = 0x5c;

/// Longest accepted name, in bytes.
pub const MAX_NAME_BYTES: usize = 1024;

/// Longest accepted `/`-separated component, in bytes.
pub const MAX_COMPONENT_BYTES: usize = 255;

/// The bytes of a name as it is stored in the archive.
pub open spec fn name_bytes(name: Seq<char>) -> Seq<u8> {
    encode_utf8(name)
}

/// A code point of the Unicode "control" category starts at byte `i`:
/// U+0000..U+001F and U+007F are one byte, U+0080..U+009F are `C2 80`..`C2 9F`.
pub open spec fn control_at(b: Seq<u8>, i: int) -> bool {
    b[i] < 0x20 || b[i] == 0x7f || (b[i] == 0xc2 && i + 1 < b.len() && 0x80 <= b[i + 1]
        <= 0x9f)
}

pub open spec fn has_control(b: Seq<u8>) -> bool {
    exists|i: int| 0 <= i < b.len() && #[trigger] control_at(b, i)
}

pub open spec fn has_backslash(b: Seq<u8>) -> bool {
    exists|i: int| 0 <= i < b.len() && #[trigger] b[i] == BACKSLASH
}

/// No slash in `b[s..e]`.
pub open spec fn slash_free(b: Seq<u8>, s: int, e: int) -> bool {
    forall|j: int| s <= j < e ==> #[trigger] b[j] != SLASH
}

/// Some component is longer than 255 bytes: 256 bytes in a row hold no slash.
pub open spec fn has_long_component(b: Seq<u8>) -> bool {
    exists|s: int|
        0 <= s && s + MAX_COMPONENT_BYTES + 1 <= b.len() && #[trigger] slash_free(
            b,
            s,
            s + MAX_COMPONENT_BYTES + 1,
        )
}

/// A component begins at `s`.
pub open spec fn component_start(b: Seq<u8>, s: int) -> bool {
    0 <= s <= b.len() && (s == 0 || b[s - 1] == SLASH)
}

pub open spec fn stem_byte(x: u8) -> bool {
    x != SLASH && x != DOT
}

/// `b[s..k]` is the stem of the component that begins at `s`: the part
/// before its first dot.
pub open spec fn stem_at(b: Seq<u8>, s: int, k: int) -> bool {
    &&& component_start(b, s)
    &&& s <= k <= b.len()
    &&& forall|j: int| s <= j < k ==> #[trigger] stem_byte(b[j])
    &&& (k == b.len() || !stem_byte(b[k]))
}

pub open spec fn ascii_upper(x: u8) -> u8 {
    if 0x61 <= x <= 0x7a {
        (x - 0x20) as u8
    } else {
        x
    }
}

/// The Windows device names `CON PRN AUX NUL COM1..COM9 LPT1..LPT9`,
/// compared without regard to ASCII case.
pub open spec fn reserved_stem(t: Seq<u8>) -> bool {
    let u = t.map_values(|x: u8| ascii_upper(x));
    ||| u =~= seq![0x43u8, 0x4f, 0x4e]
    ||| u =~= seq![0x50u8, 0x52, 0x4e]
    ||| u =~= seq![0x41u8, 0x55, 0x58]
    ||| u =~= seq![0x4eu8, 0x55, 0x4c]
    ||| (u.len() == 4 && 0x31 <= u[3] <= 0x39 && (u.subrange(0, 3) =~= seq![0x43u8, 0x4f, 0x4d]
        || u.subrange(0, 3) =~= seq![0x4cu8, 0x50, 0x54]))
}

pub open spec fn has_reserved_component(b: Seq<u8>) -> bool {
    exists|s: int, k: int| #[trigger] stem_at(b, s, k) && reserved_stem(b.subrange(s, k))
}

/// Why a name was refused.
#[derive(Debug, Clone, Copy, PartialEq, Eq, Structural)]
pub enum FilenameIssue {
    Empty,
    Control,
    Backslash,
    TooLong,
    ComponentTooLong,
    Reserved,
}

/// The first rule, in the fixed order of the checks, that `b` breaks.
pub open spec fn filename_verdict(b: Seq<u8>) -> Result<(), FilenameIssue> {
    if b.len() == 0 {
        Err(FilenameIssue::Empty)
    } else if has_control(b) {
        Err(FilenameIssue::Control)
    } else if has_backslash(b) {
        Err(FilenameIssue::Backslash)
    } else if b.len() > MAX_NAME_BYTES {
        Err(FilenameIssue::TooLong)
    } else if has_long_component(b) {
        Err(FilenameIssue::ComponentTooLong)
    } else if has_reserved_component(b) {
        Err(FilenameIssue::Reserved)
    } else {
        Ok(())
    }
}

pub open spec fn issue_text(issue: FilenameIssue) -> Seq<char> {
    match issue {
        FilenameIssue::Empty => "empty filename"@,
        FilenameIssue::Control => "contains control characters"@,
        FilenameIssue::Backslash => "contains backslash"@,
        FilenameIssue::TooLong => "path too long (>1024 bytes)"@,
        FilenameIssue::ComponentTooLong => "path component too long (>255 bytes)"@,
        FilenameIssue::Reserved => "Windows reserved name"@,
    }
}

impl FilenameIssue {
    /// A short human-readable reason.
    pub fn reason(&self) -> (r: String)
        ensures
            r@ == issue_text(*self),
    {
        match self {
            FilenameIssue::Empty => String::from_str("empty filename"),
            FilenameIssue::Control => String::from_str("contains control characters"),
            FilenameIssue::Backslash => String::from_str("contains backslash"),
            FilenameIssue::TooLong => String::from_str("path too long (>1024 bytes)"),
            FilenameIssue::ComponentTooLong => String::from_str(
                "path component too long (>255 bytes)",
            ),
            FilenameIssue::Reserved => String::from_str("Windows reserved name"),
        }
    }
}

fn find_control(b: &[u8]) -> (r: bool)
    ensures
        r == has_control(b@),
{
    let mut i: usize = 0;
    while i < b.len()
        invariant
            i <= b@.len(),
            forall|j: int| 0 <= j < i ==> !#[trigger] control_at(b@, j),
        decreases b@.len() - i,
    {
        let x = b[i];
        if x < 0x20 || x == 0x7f || (x == 0xc2 && i + 1 < b.len() && 0x80 <= b[i + 1] && b[i + 1]
            <= 0x9f) {
            assert(control_at(b@, i as int));
            return true;
        }
        i += 1;
    }
    false
}

fn find_backslash(b: &[u8]) -> (r: bool)
    ensures
        r == has_backslash(b@),
{
    let mut i: usize = 0;
    while i < b.len()
        invariant
            i <= b@.len(),
            forall|j: int| 0 <= j < i ==> #[trigger] b@[j] != BACKSLASH,
        decreases b@.len() - i,
    {
        if b[i] == BACKSLASH {
            return true;
        }
        i += 1;
    }
    false
}

fn find_long_component(b: &[u8]) -> (r: bool)
    ensures
        r == has_long_component(b@),
{
    let mut i: usize = 0;
    let mut run: usize = 0;
    while i < b.len()
        invariant
            i <= b@.len(),
            run <= i,
            run <= MAX_COMPONENT_BYTES,
            slash_free(b@, i - run, i as int),
            i - run > 0 ==> b@[i - run - 1] == SLASH,
            forall|s: int|
                0 <= s && s + MAX_COMPONENT_BYTES + 1 <= i ==> !#[trigger] slash_free(
                    b@,
                    s,
                    s + MAX_COMPONENT_BYTES + 1,
                ),
        decreases b@.len() - i,
    {
        if b[i] == SLASH {
            proof {
                assert forall|s: int|
                    0 <= s && s + MAX_COMPONENT_BYTES + 1 <= i + 1 implies !#[trigger] slash_free(
                    b@,
                    s,
                    s + MAX_COMPONENT_BYTES + 1,
                ) by {
                    if s + MAX_COMPONENT_BYTES + 1 == i + 1 {
                        assert(b@[i as int] == SLASH);
                    }
                }
            }
            run = 0;
        } else {
            let ghost before = run;
            if run == MAX_COMPONENT_BYTES {
                proof {
                    let s = i - MAX_COMPONENT_BYTES;
                    assert(slash_free(b@, s, s + MAX_COMPONENT_BYTES + 1));
                }
                return true;
            }
            run += 1;
            proof {
                assert forall|s: int|
                    0 <= s && s + MAX_COMPONENT_BYTES + 1 <= i + 1 implies !#[trigger] slash_free(
                    b@,
                    s,
                    s + MAX_COMPONENT_BYTES + 1,
                ) by {
                    if s + MAX_COMPONENT_BYTES + 1 == i + 1 {
                        let w = i - before - 1;
                        assert(b@[w] == SLASH);
                        assert(s <= w < s + MAX_COMPONENT_BYTES + 1);
                    }
                }
            }
        }
        i += 1;
    }
    false
}

/// First index at or after `from` that is not a stem byte, or the length.
fn stem_end(b: &[u8], from: usize) -> (k: usize)
    requires
        from <= b@.len(),
    ensures
        from <= k <= b@.len(),
        forall|j: int| from <= j < k ==> #[trigger] stem_byte(b@[j]),
        k == b@.len() || !stem_byte(b@[k as int]),
{
    let mut k = from;
    while k < b.len() && b[k] != SLASH && b[k] != DOT
        invariant
            from <= k <= b@.len(),
            forall|j: int| from <= j < k ==> #[trigger] stem_byte(b@[j]),
        decreases b@.len() - k,
    {
        k += 1;
    }
    k
}

/// First slash at or after `from`, or the length.
pub(crate) fn slash_at_or_after(b: &[u8], from: usize) -> (e: usize)
    requires
        from <= b@.len(),
    ensures
        from <= e <= b@.len(),
        slash_free(b@, from as int, e as int),
        e == b@.len() || b@[e as int] == SLASH,
{
    let mut e = from;
    while e < b.len() && b[e] != SLASH
        invariant
            from <= e <= b@.len(),
            slash_free(b@, from as int, e as int),
        decreases b@.len() - e,
    {
        e += 1;
    }
    e
}

fn upper_is(b: &[u8], s: usize, t: &[u8]) -> (r: bool)
    requires
        s + t@.len() <= b@.len(),
    ensures
        r == (b@.subrange(s as int, s + t@.len()).map_values(|x: u8| ascii_upper(x)) =~= t@),
{
    let _ = b.len();
    let mut j: usize = 0;
    while j < t.len()
        invariant
            s + t@.len() <= b@.len() <= usize::MAX,
            j <= t@.len(),
            forall|m: int| 0 <= m < j ==> ascii_upper(#[trigger] b@[s + m]) == t@[m],
        decreases t@.len() - j,
    {
        let x = b[s + j];
        let u = if 0x61 <= x && x <= 0x7a {
            x - 0x20
        } else {
            x
        };
        if u != t[j] {
            assert(b@.subrange(s as int, s + t@.len()).map_values(|x: u8| ascii_upper(x))[j as int]
                != t@[j as int]);
            return false;
        }
        j += 1;
    }
    let ghost u = b@.subrange(s as int, s + t@.len()).map_values(|x: u8| ascii_upper(x));
    assert forall|m: int| 0 <= m < t@.len() implies u[m] == t@[m] by {
        assert(u[m] == ascii_upper(b@[s + m]));
    }
    assert(u =~= t@);
    true
}

fn is_reserved_stem(b: &[u8], s: usize, k: usize) -> (r: bool)
    requires
        s <= k <= b@.len(),
    ensures
        r == reserved_stem(b@.subrange(s as int, k as int)),
{
    let ghost t = b@.subrange(s as int, k as int);
    let ghost u = t.map_values(|x: u8| ascii_upper(x));
    let n = k - s;
    if n == 3 {
        assert(b@.subrange(s as int, s + 3) == t);
        upper_is(b, s, &[0x43u8, 0x4f, 0x4e]) || upper_is(b, s, &[0x50u8, 0x52, 0x4e])
            || upper_is(b, s, &[0x41u8, 0x55, 0x58]) || upper_is(b, s, &[0x4eu8, 0x55, 0x4c])
    } else if n == 4 {
        let x = b[s + 3];
        let d = if 0x61 <= x && x <= 0x7a {
            x - 0x20
        } else {
            x
        };
        assert(u[3] == d);
        assert(b@.subrange(s as int, s + 3).map_values(|x: u8| ascii_upper(x)) =~= u.subrange(
            0,
            3,
        ));
        0x31 <= d && d <= 0x39 && (upper_is(b, s, &[0x43u8, 0x4f, 0x4d]) || upper_is(
            b,
            s,
            &[0x4cu8, 0x50, 0x54],
        ))
    } else {
        false
    }
}

fn find_reserved_component(b: &[u8]) -> (r: bool)
    ensures
        r == has_reserved_component(b@),
{
    let mut s: usize = 0;
    loop
        invariant
            component_start(b@, s as int),
            forall|s2: int, k2: int|
                #[trigger] stem_at(b@, s2, k2) && s2 < s ==> !reserved_stem(b@.subrange(s2, k2)),
        decreases b@.len() - s,
    {
        let k = stem_end(b, s);
        assert(stem_at(b@, s as int, k as int));
        if is_reserved_stem(b, s, k) {
            return true;
        }
        let e = slash_at_or_after(b, k);
        proof {
            assert forall|s2: int, k2: int| #[trigger]
                stem_at(b@, s2, k2) && s2 < e + 1 implies !reserved_stem(b@.subrange(s2, k2)) by {
                if s2 == s {
                    if k2 < k {
                        assert(stem_byte(b@[k2]));
                    }
                    if k < k2 {
                        assert(stem_byte(b@[k as int]));
                    }
                } else if s < s2 {
                    assert(b@[s2 - 1] == SLASH);
                    assert(!stem_byte(b@[s2 - 1]));
                    if s2 - 1 < k {
                        assert(stem_byte(b@[s2 - 1]));
                    }
                }
            }
        }
        if e == b.len() {
            proof {
                assert forall|s2: int, k2: int| #[trigger]
                    stem_at(b@, s2, k2) implies !reserved_stem(b@.subrange(s2, k2)) by {
                    if s2 > s && s2 <= e {
                        assert(b@[s2 - 1] == SLASH);
                        if s2 - 1 < k {
                            assert(stem_byte(b@[s2 - 1]));
                        }
                    }
                }
            }
            return false;
        }
        s = e + 1;
    }
}

/// Checks the syntactic filename rules, in order: not empty, no control
/// character, no backslash, at most 1024 bytes, no component over 255 bytes,
/// no component whose stem is a Windows device name.
pub fn validate_filename(name: &str) -> (r: Result<(), FilenameIssue>)
    ensures
        r == filename_verdict(name_bytes(name@)),
{
    let b = name.as_bytes();
    if b.len() == 0 {
        Err(FilenameIssue::Empty)
    } else if find_control(b) {
        Err(FilenameIssue::Control)
    } else if find_backslash(b) {
        Err(FilenameIssue::Backslash)
    } else if b.len() > MAX_NAME_BYTES {
        Err(FilenameIssue::TooLong)
    } else if find_long_component(b) {
        Err(FilenameIssue::ComponentTooLong)
    } else if find_reserved_component(b) {
        Err(FilenameIssue::Reserved)
    } else {
        Ok(())
    }
}

} // verus!

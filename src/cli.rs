//! Parsing of command-line values: human-readable sizes and the archive
//! format a file name implies. Both read ASCII.

use vstd::prelude::*;
use vstd::string::*;
use crate::filename::{ascii_upper, name_bytes};

verus! {

/// The archive formats the command line handles.
#[derive(Debug, Clone, Copy, PartialEq, Eq, Structural)]
pub enum ArchiveFormat {
    Zip,
    Tar,
    TarGz,
    SevenZ,
}

pub open spec fn ascii_lower(x: u8) -> u8 {
    if 0x41 <= x <= 0x5a {
        (x + 0x20) as u8
    } else {
        x
    }
}

/// `b` ends with `suffix`, ignoring ASCII case (`suffix` is lower case).
pub open spec fn ends_with_ci(b: Seq<u8>, suffix: Seq<u8>) -> bool {
    b.len() >= suffix.len() && forall|j: int|
        0 <= j < suffix.len() ==> ascii_lower(#[trigger] b[b.len() - suffix.len() + j])
            == suffix[j]
}

pub open spec fn format_of(b: Seq<u8>) -> ArchiveFormat {
    if ends_with_ci(b, seq![0x2eu8, 0x74, 0x61, 0x72, 0x2e, 0x67, 0x7a]) || ends_with_ci(
        b,
        seq![0x2eu8, 0x74, 0x67, 0x7a],
    ) {
        ArchiveFormat::TarGz
    } else if ends_with_ci(b, seq![0x2eu8, 0x74, 0x61, 0x72]) {
        ArchiveFormat::Tar
    } else if ends_with_ci(b, seq![0x2eu8, 0x37, 0x7a]) {
        ArchiveFormat::SevenZ
    } else {
        ArchiveFormat::Zip
    }
}

fn ends_with_ci_exec(b: &[u8], suffix: &[u8]) -> (r: bool)
    ensures
        r == ends_with_ci(b@, suffix@),
{
    if b.len() < suffix.len() {
        return false;
    }
    let base = b.len() - suffix.len();
    let mut j: usize = 0;
    while j < suffix.len()
        invariant
            base == b@.len() - suffix@.len(),
            b@.len() <= usize::MAX,
            j <= suffix@.len(),
            forall|m: int| 0 <= m < j ==> ascii_lower(#[trigger] b@[base + m]) == suffix@[m],
        decreases suffix@.len() - j,
    {
        let x = b[base + j];
        let l = if 0x41 <= x && x <= 0x5a {
            x + 0x20
        } else {
            x
        };
        if l != suffix[j] {
            return false;
        }
        j += 1;
    }
    true
}

/// The format a file name implies: `.tar.gz` and `.tgz` are gzip-compressed
/// TAR, `.tar` is TAR, `.7z` is 7z, anything else is read as ZIP. Case is
/// ignored.
pub fn detect_format(file_name: &str) -> (r: ArchiveFormat)
    ensures
        r == format_of(name_bytes(file_name@)),
{
    let b = file_name.as_bytes();
    if ends_with_ci_exec(b, &[0x2eu8, 0x74, 0x61, 0x72, 0x2e, 0x67, 0x7a]) || ends_with_ci_exec(
        b,
        &[0x2eu8, 0x74, 0x67, 0x7a],
    ) {
        ArchiveFormat::TarGz
    } else if ends_with_ci_exec(b, &[0x2eu8, 0x74, 0x61, 0x72]) {
        ArchiveFormat::Tar
    } else if ends_with_ci_exec(b, &[0x2eu8, 0x37, 0x7a]) {
        ArchiveFormat::SevenZ
    } else {
        ArchiveFormat::Zip
    }
}

pub open spec fn is_ascii_space(x: u8) -> bool {
    x == 0x20 || (0x09 <= x <= 0x0d)
}

/// `b` with ASCII white space removed at both ends.
pub open spec fn trim_start(b: Seq<u8>) -> Seq<u8>
    decreases b.len(),
{
    if b.len() > 0 && is_ascii_space(b[0]) {
        trim_start(b.drop_first())
    } else {
        b
    }
}

pub open spec fn trim_end(b: Seq<u8>) -> Seq<u8>
    decreases b.len(),
{
    if b.len() > 0 && is_ascii_space(b.last()) {
        trim_end(b.drop_last())
    } else {
        b
    }
}

pub open spec fn upper_all(b: Seq<u8>) -> Seq<u8> {
    b.map_values(|x: u8| ascii_upper(x))
}

/// `b` without every trailing repetition of `p`.
pub open spec fn strip_all(b: Seq<u8>, p: Seq<u8>) -> Seq<u8>
    decreases b.len(),
{
    if p.len() > 0 && b.len() >= p.len() && b.subrange(b.len() - p.len(), b.len() as int) == p {
        strip_all(b.subrange(0, b.len() - p.len()), p)
    } else {
        b
    }
}

pub open spec fn ends_with(b: Seq<u8>, p: Seq<u8>) -> bool {
    b.len() >= p.len() && b.subrange(b.len() - p.len(), b.len() as int) == p
}

/// The number part and the multiplier of an upper-cased size.
pub open spec fn size_parts(u: Seq<u8>) -> (Seq<u8>, u64) {
    if ends_with(u, seq![0x47u8]) || ends_with(u, seq![0x47u8, 0x42]) {
        (strip_all(strip_all(u, seq![0x47u8, 0x42]), seq![0x47u8]), 1073741824)
    } else if ends_with(u, seq![0x4du8]) || ends_with(u, seq![0x4du8, 0x42]) {
        (strip_all(strip_all(u, seq![0x4du8, 0x42]), seq![0x4du8]), 1048576)
    } else if ends_with(u, seq![0x4bu8]) || ends_with(u, seq![0x4bu8, 0x42]) {
        (strip_all(strip_all(u, seq![0x4bu8, 0x42]), seq![0x4bu8]), 1024)
    } else {
        (u, 1)
    }
}

pub open spec fn all_digits(d: Seq<u8>) -> bool {
    forall|j: int| 0 <= j < d.len() ==> 0x30 <= #[trigger] d[j] <= 0x39
}

pub open spec fn decimal_value(d: Seq<u8>) -> int
    decreases d.len(),
{
    if d.len() == 0 {
        0
    } else {
        decimal_value(d.drop_last()) * 10 + (d.last() - 0x30)
    }
}

/// The digits of an unsigned number: an optional `+`, then at least one digit.
pub open spec fn digits_of(n: Seq<u8>) -> Seq<u8> {
    if n.len() > 0 && n[0] == 0x2b {
        n.drop_first()
    } else {
        n
    }
}

/// The byte count a size denotes: a decimal number, optionally followed by
/// `K`/`KB`, `M`/`MB` or `G`/`GB` (binary multiples, any case), with white
/// space around. `None` where it is malformed or does not fit in 64 bits.
pub open spec fn size_value(s: Seq<u8>) -> Option<u64> {
    let parts = size_parts(upper_all(trim_end(trim_start(s))));
    let d = digits_of(parts.0);
    if d.len() > 0 && all_digits(d) && decimal_value(d) * parts.1 <= u64::MAX {
        Some((decimal_value(d) * parts.1) as u64)
    } else {
        None
    }
}

fn trim_ascii(b: &[u8]) -> (r: (usize, usize))
    ensures
        r.0 <= r.1 <= b@.len(),
        b@.subrange(r.0 as int, r.1 as int) == trim_end(trim_start(b@)),
{
    let mut s: usize = 0;
    proof {
        assert(b@.subrange(0, b@.len() as int) =~= b@);
    }
    while s < b.len() && (b[s] == 0x20 || (0x09 <= b[s] && b[s] <= 0x0d))
        invariant
            s <= b@.len(),
            trim_start(b@) == trim_start(b@.subrange(s as int, b@.len() as int)),
        decreases b@.len() - s,
    {
        proof {
            assert(b@.subrange(s + 1, b@.len() as int) =~= b@.subrange(s as int, b@.len() as int).drop_first());
        }
        s += 1;
    }
    assert(trim_start(b@) == b@.subrange(s as int, b@.len() as int));
    let mut e: usize = b.len();
    while e > s && (b[e - 1] == 0x20 || (0x09 <= b[e - 1] && b[e - 1] <= 0x0d))
        invariant
            s <= e <= b@.len(),
            trim_start(b@) == b@.subrange(s as int, b@.len() as int),
            trim_end(trim_start(b@)) == trim_end(b@.subrange(s as int, e as int)),
        decreases e,
    {
        proof {
            assert(b@.subrange(s as int, e - 1) =~= b@.subrange(s as int, e as int).drop_last());
        }
        e -= 1;
    }
    (s, e)
}

fn tail_is(u: &Vec<u8>, p: &[u8]) -> (r: bool)
    ensures
        r == ends_with(u@, p@),
{
    if u.len() < p.len() {
        return false;
    }
    let base = u.len() - p.len();
    let mut j: usize = 0;
    while j < p.len()
        invariant
            base == u@.len() - p@.len(),
            u@.len() <= usize::MAX,
            j <= p@.len(),
            forall|m: int| 0 <= m < j ==> #[trigger] u@[base + m] == p@[m],
        decreases p@.len() - j,
    {
        if u[base + j] != p[j] {
            assert(u@.subrange(base as int, u@.len() as int)[j as int] != p@[j as int]);
            return false;
        }
        j += 1;
    }
    assert forall|m: int| 0 <= m < p@.len() implies u@.subrange(base as int, u@.len() as int)[m]
        == p@[m] by {
        assert(u@[base + m] == p@[m]);
    }
    assert(u@.subrange(base as int, u@.len() as int) =~= p@);
    true
}

fn strip_all_exec(u: &mut Vec<u8>, p: &[u8])
    requires
        p@.len() > 0,
    ensures
        final(u)@ == strip_all(old(u)@, p@),
{
    while tail_is(u, p)
        invariant
            p@.len() > 0,
            strip_all(old(u)@, p@) == strip_all(u@, p@),
        decreases u@.len(),
    {
        let n = u.len() - p.len();
        u.truncate(n);
    }
}

proof fn lemma_decimal_prefix(d: Seq<u8>, k: int)
    requires
        0 <= k <= d.len(),
        all_digits(d),
    ensures
        0 <= decimal_value(d.take(k)) <= decimal_value(d),
    decreases d.len() - k,
{
    if k == d.len() {
        assert(d.take(k) =~= d);
        lemma_decimal_nonneg(d);
    } else {
        lemma_decimal_prefix(d, k + 1);
        assert(d.take(k + 1).drop_last() =~= d.take(k));
        lemma_decimal_nonneg(d.take(k));
    }
}

proof fn lemma_decimal_nonneg(d: Seq<u8>)
    requires
        all_digits(d),
    ensures
        decimal_value(d) >= 0,
    decreases d.len(),
{
    if d.len() > 0 {
        lemma_decimal_nonneg(d.drop_last());
    }
}

/// The value of the decimal digits `d[from..]`, or `None` where they are not
/// all digits or the value exceeds 64 bits.
fn parse_digits(d: &Vec<u8>, from: usize) -> (r: Option<u64>)
    requires
        from <= d@.len(),
    ensures
        all_digits(d@.subrange(from as int, d@.len() as int)) && decimal_value(
            d@.subrange(from as int, d@.len() as int),
        ) <= u64::MAX ==> r == Some(
            decimal_value(d@.subrange(from as int, d@.len() as int)) as u64,
        ),
        !(all_digits(d@.subrange(from as int, d@.len() as int)) && decimal_value(
            d@.subrange(from as int, d@.len() as int),
        ) <= u64::MAX) ==> r is None,
{
    let ghost ds = d@.subrange(from as int, d@.len() as int);
    let mut v: u64 = 0;
    let mut i: usize = from;
    while i < d.len()
        invariant
            from <= i <= d@.len(),
            ds == d@.subrange(from as int, d@.len() as int),
            all_digits(ds.take(i - from)),
            v == decimal_value(ds.take(i - from)),
        decreases d@.len() - i,
    {
        let x = d[i];
        proof {
            assert(ds.take(i - from + 1).drop_last() =~= ds.take(i - from));
            assert(ds.take(i - from + 1).last() == x);
        }
        if x < 0x30 || x > 0x39 {
            assert(!all_digits(ds));
            return None;
        }
        let next = match v.checked_mul(10) {
            Some(t) => t.checked_add((x - 0x30) as u64),
            None => None,
        };
        match next {
            Some(n) => {
                v = n;
            },
            None => {
                proof {
                    assert(all_digits(ds.take(i - from + 1)));
                    if all_digits(ds) {
                        assert(ds.take(i - from + 1) =~= ds.take(i - from + 1));
                        lemma_decimal_prefix(ds, i - from + 1);
                    }
                }
                return None;
            },
        }
        i += 1;
    }
    assert(ds.take(i - from) =~= ds);
    Some(v)
}

pub open spec fn invalid_size_text(s: Seq<char>) -> Seq<char> {
    "Invalid size: "@ + s
}

/// Parses a human-readable size such as `100M`, `1GB` or `1024K` into a
/// byte count; `Invalid size: <input>` where [`size_value`] has none.
pub fn parse_size(s: &str) -> (r: Result<u64, String>)
    ensures
        size_value(name_bytes(s@)) matches Some(v) ==> r == Ok::<u64, String>(v),
        size_value(name_bytes(s@)) is None ==> (r matches Err(m) && m@ == invalid_size_text(s@)),
{
    let b = s.as_bytes();
    let (st, en) = trim_ascii(b);
    let mut u: Vec<u8> = Vec::new();
    let mut i: usize = st;
    while i < en
        invariant
            st <= i <= en <= b@.len(),
            u@ == upper_all(b@.subrange(st as int, i as int)),
        decreases en - i,
    {
        let x = b[i];
        let y = if 0x61 <= x && x <= 0x7a {
            x - 0x20
        } else {
            x
        };
        u.push(y);
        proof {
            assert(u@ =~= upper_all(b@.subrange(st as int, i + 1)));
        }
        i += 1;
    }
    let ghost up = u@;
    assert(up == upper_all(trim_end(trim_start(name_bytes(s@)))));
    let g: &[u8] = &[0x47u8];
    let gb: &[u8] = &[0x47u8, 0x42];
    let m: &[u8] = &[0x4du8];
    let mb: &[u8] = &[0x4du8, 0x42];
    let k: &[u8] = &[0x4bu8];
    let kb: &[u8] = &[0x4bu8, 0x42];
    assert(g@ =~= seq![0x47u8] && gb@ =~= seq![0x47u8, 0x42]);
    assert(m@ =~= seq![0x4du8] && mb@ =~= seq![0x4du8, 0x42]);
    assert(k@ =~= seq![0x4bu8] && kb@ =~= seq![0x4bu8, 0x42]);
    let mult: u64;
    if tail_is(&u, g) || tail_is(&u, gb) {
        strip_all_exec(&mut u, gb);
        strip_all_exec(&mut u, g);
        mult = 1073741824;
    } else if tail_is(&u, m) || tail_is(&u, mb) {
        strip_all_exec(&mut u, mb);
        strip_all_exec(&mut u, m);
        mult = 1048576;
    } else if tail_is(&u, k) || tail_is(&u, kb) {
        strip_all_exec(&mut u, kb);
        strip_all_exec(&mut u, k);
        mult = 1024;
    } else {
        mult = 1;
    }
    assert(u@ == size_parts(up).0 && mult == size_parts(up).1);
    let from: usize = if u.len() > 0 && u[0] == 0x2b {
        1
    } else {
        0
    };
    proof {
        assert(u@.subrange(from as int, u@.len() as int) =~= digits_of(u@));
    }
    let parsed = if from < u.len() {
        parse_digits(&u, from)
    } else {
        None
    };
    proof {
        let d = digits_of(u@);
        if all_digits(d) {
            lemma_decimal_nonneg(d);
            let v = decimal_value(d);
            assert(mult >= 1);
            assert(v * mult >= v) by (nonlinear_arith)
                requires
                    mult >= 1,
                    v >= 0,
            ;
        }
    }
    match parsed {
        Some(n) => match n.checked_mul(mult) {
            Some(v) => Ok(v),
            None => Err(invalid_size(s)),
        },
        None => Err(invalid_size(s)),
    }
}

fn invalid_size(s: &str) -> (r: String)
    ensures
        r@ == invalid_size_text(s@),
{
    let mut m = String::from_str("Invalid size: ");
    m.append(s);
    m
}

} // verus!

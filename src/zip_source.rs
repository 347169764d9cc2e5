//! ZIP archives held in memory: metadata, bounded content reads, listing and
//! integrity verification. Parsing and decompression are the zip crate's.

use vstd::prelude::*;
use std::io::Read;
use crate::entry::{EntryInfo, EntryKind};
use crate::driver::sat_u64;
use crate::error::Error;

verus! {

/// `std::io::Cursor`, the in-memory reader under a [`MemArchive`].
#[verifier::external_type_specification]
#[verifier::external_body]
#[verifier::reject_recursive_types(T)]
pub struct ExCursor<T>(std::io::Cursor<T>);

/// `zip::ZipArchive`, an opened archive; Verus sees nothing inside it.
#[verifier::external_type_specification]
#[verifier::external_body]
#[verifier::reject_recursive_types(R)]
pub struct ExZipArchive<R>(zip::ZipArchive<R>);

/// An archive read from bytes in memory.
pub type MemArchive = zip::ZipArchive<std::io::Cursor<Vec<u8>>>;

/// What the central directory records of one member.
#[derive(Debug, Clone)]
pub struct ZipMeta {
    pub name: String,
    pub size: u64,
    pub is_dir: bool,
    pub is_symlink: bool,
    pub encrypted: bool,
    pub mode: Option<u32>,
}

/// Integrity-check outcome.
#[derive(Debug, Clone, Copy, PartialEq, Eq)]
pub struct VerifyReport {
    /// Members whose whole stream was read and checked.
    pub entries_verified: usize,
    /// Decompressed bytes read.
    pub bytes_verified: u64,
}

/// What the central directory records of one member, as plain values:
/// name, declared size, directory, link, encrypted, mode.
pub type Record = (Seq<char>, u64, bool, bool, bool, Option<u32>);

/// One member of an archive: its central directory record; whether its
/// local header reads; and its decompressed stream, where reading the member
/// whole succeeds (local header, compression method, decompression and CRC
/// all good; never for an encrypted member, which asks for a password).
pub type MemberView = (Record, bool, Option<Seq<u8>>);

/// The members of an opened archive, in index order.
pub uninterp spec fn zip_members(archive: MemArchive) -> Seq<MemberView>;

/// The members of the archive in these bytes; `None` where the bytes do not
/// parse as a ZIP archive.
pub uninterp spec fn zip_directory(data: Seq<u8>) -> Option<Seq<MemberView>>;

pub open spec fn meta_view(m: ZipMeta) -> Record {
    (m.name@, m.size, m.is_dir, m.is_symlink, m.encrypted, m.mode)
}

/// `r` is what [`entry_from_meta`] makes of a member: `EncryptedEntry` for an
/// encrypted one; otherwise its metadata, a link when the mode says so, else
/// a directory when the name ends in `/`, else a file.
pub open spec fn maps_member(m: Record, r: Result<EntryInfo, Error>) -> bool {
    if m.4 {
        r matches Err(Error::EncryptedEntry { entry }) && entry@ == m.0
    } else {
        r matches Ok(e) && e.name@ == m.0 && e.size == m.1 && e.mode == m.5 && (if m.3 {
            e.kind matches EntryKind::Symlink { target } && target@.len() == 0
        } else if m.2 {
            e.kind == EntryKind::Directory
        } else {
            e.kind == EntryKind::File
        })
    }
}

/// The first `n` bytes of `s`, or all of it where it is shorter.
pub open spec fn prefix(s: Seq<u8>, n: int) -> Seq<u8> {
    if s.len() <= n {
        s
    } else {
        s.take(n)
    }
}

/// A member whose stream is checked: neither a directory nor a link.
pub open spec fn checked_member(m: MemberView) -> bool {
    !m.0.2 && !m.0.3
}

pub open spec fn checked_count(ms: Seq<MemberView>) -> nat
    decreases ms.len(),
{
    if ms.len() == 0 {
        0
    } else {
        checked_count(ms.drop_last()) + if checked_member(ms.last()) {
            1nat
        } else {
            0
        }
    }
}

/// Total length of the streams of the checked members.
pub open spec fn stream_total(ms: Seq<MemberView>) -> int
    decreases ms.len(),
{
    if ms.len() == 0 {
        0
    } else {
        stream_total(ms.drop_last()) + if checked_member(ms.last()) && ms.last().2 is Some {
            ms.last().2->0.len() as int
        } else {
            0
        }
    }
}

/// Listing refuses a member whose local header does not read, or that is
/// encrypted.
pub open spec fn list_bad(m: MemberView) -> bool {
    !m.1 || m.0.4
}

/// Verification refuses a member whose local header does not read, and a
/// checked member that is encrypted or whose stream does not read whole.
pub open spec fn verify_bad(m: MemberView) -> bool {
    !m.1 || (checked_member(m) && (m.0.4 || m.2 is None))
}

/// The listing of `ms`: every entry, when no member is refused; else the
/// error of the first refused member, `EncryptedEntry` with its name where
/// its header reads (so it is encrypted), a ZIP error otherwise.
pub open spec fn listing_outcome(ms: Seq<MemberView>, r: Result<Vec<EntryInfo>, Error>) -> bool {
    &&& (r is Ok <==> forall|i: int| 0 <= i < ms.len() ==> !#[trigger] list_bad(ms[i]))
    &&& (r matches Ok(v) ==> v@.len() == ms.len() && forall|i: int|
        0 <= i < v@.len() ==> maps_member(ms[i].0, Ok::<EntryInfo, Error>(#[trigger] v@[i])))
    &&& (r matches Err(e) ==> exists|i: int|
        0 <= i < ms.len() && #[trigger] list_bad(ms[i]) && (forall|j: int|
            0 <= j < i ==> !#[trigger] list_bad(ms[j])) && if ms[i].1 {
            maps_member(ms[i].0, Err::<EntryInfo, Error>(e))
        } else {
            e is Zip
        })
}

/// The verification of `ms`: success when no member is refused, counting
/// the checked members and (saturating) their stream bytes; else the error of
/// the first refused member, `EncryptedEntry` with its name for an encrypted
/// checked member whose header reads, a ZIP error otherwise.
pub open spec fn verify_outcome(ms: Seq<MemberView>, r: Result<VerifyReport, Error>) -> bool {
    &&& (r is Ok <==> forall|i: int| 0 <= i < ms.len() ==> !#[trigger] verify_bad(ms[i]))
    &&& (r matches Ok(rep) ==> rep.entries_verified == checked_count(ms) && rep.bytes_verified
        == sat_u64(stream_total(ms)))
    &&& (r matches Err(e) ==> exists|i: int|
        0 <= i < ms.len() && #[trigger] verify_bad(ms[i]) && (forall|j: int|
            0 <= j < i ==> !#[trigger] verify_bad(ms[j])) && if ms[i].1 && ms[i].0.4 {
            e matches Error::EncryptedEntry { entry } && entry@ == ms[i].0.0
        } else {
            e is Zip
        })
}

/// Relies on `zip::ZipArchive::new`: parses the central directory of the
/// bytes; it fails exactly where they do not parse.
#[verifier::external_body]
fn zip_open(data: Vec<u8>) -> (r: Result<MemArchive, zip::result::ZipError>)
    ensures
        r is Ok <==> zip_directory(data@) is Some,
        r matches Ok(a) ==> zip_members(a) == zip_directory(data@)->0,
{
    zip::ZipArchive::new(std::io::Cursor::new(data))
}

/// Relies on `zip::ZipArchive::len`: the number of members.
#[verifier::external_body]
fn zip_len(archive: &MemArchive) -> (r: usize)
    ensures
        r == zip_members(*archive).len(),
{
    archive.len()
}

/// Relies on `zip::ZipArchive::by_index_raw` and the member's metadata
/// getters: reads the local header of member `index` (an index past the end
/// is `FileNotFound`) and hands back its central directory record; nothing
/// is decompressed and the members are left as they were.
#[verifier::external_body]
fn zip_meta(archive: &mut MemArchive, index: usize) -> (r: Result<ZipMeta, zip::result::ZipError>)
    ensures
        zip_members(*final(archive)) == zip_members(*old(archive)),
        r is Ok <==> index < zip_members(*old(archive)).len() && zip_members(
            *old(archive),
        )[index as int].1,
        r matches Ok(m) ==> meta_view(m) == zip_members(*old(archive))[index as int].0,
{
    let f = archive.by_index_raw(index)?;
    Ok(
        ZipMeta {
            name: f.name().to_string(),
            size: f.size(),
            is_dir: f.is_dir(),
            is_symlink: f.is_symlink(),
            encrypted: f.encrypted(),
            mode: f.unix_mode(),
        },
    )
}

/// Relies on `zip::ZipArchive::by_index` and `std::io::Read::take`: at most
/// `max` decompressed bytes of the member, the start of its stream where the
/// stream reads whole. A read that reaches the end of the member checks its
/// CRC; a mismatch is an `InvalidData` I/O error.
#[verifier::external_body]
fn zip_read_at_most(archive: &mut MemArchive, index: usize, max: u64) -> (r: Result<
    Vec<u8>,
    std::io::Error,
>)
    ensures
        zip_members(*final(archive)) == zip_members(*old(archive)),
        r matches Ok(v) ==> v@.len() <= max,
        index < zip_members(*old(archive)).len() && zip_members(*old(archive))[index as int].2
            is Some ==> (r matches Ok(v) && v@ == prefix(
            zip_members(*old(archive))[index as int].2->0,
            max as int,
        )),
{
    let f = archive.by_index(index)?;
    let mut buf = Vec::new();
    f.take(max).read_to_end(&mut buf)?;
    Ok(buf)
}

/// Relies on `zip::ZipArchive::by_index` and `std::io::copy` into a sink:
/// reads the whole member, which checks its CRC, and counts the bytes; it
/// succeeds exactly where the stream reads whole. The members are left as
/// they were.
#[verifier::external_body]
fn zip_drain(archive: &mut MemArchive, index: usize) -> (r: Result<u64, zip::result::ZipError>)
    ensures
        zip_members(*final(archive)) == zip_members(*old(archive)),
        r is Ok <==> index < zip_members(*old(archive)).len() && zip_members(
            *old(archive),
        )[index as int].2 is Some,
        r matches Ok(n) ==> n == zip_members(*old(archive))[index as int].2->0.len(),
{
    let mut f = archive.by_index(index)?;
    Ok(std::io::copy(&mut f, &mut std::io::sink())?)
}

/// The entry metadata of a member, or `EncryptedEntry` for an encrypted one.
/// A member is a link when its mode says so, else a directory when its name
/// ends in `/`, else a file.
pub fn entry_from_meta(meta: ZipMeta) -> (r: Result<EntryInfo, Error>)
    ensures
        maps_member(meta_view(meta), r),
{
    if meta.encrypted {
        return Err(Error::EncryptedEntry { entry: meta.name });
    }
    let kind = if meta.is_symlink {
        EntryKind::Symlink { target: String::new() }
    } else if meta.is_dir {
        EntryKind::Directory
    } else {
        EntryKind::File
    };
    Ok(EntryInfo { name: meta.name, size: meta.size, kind, mode: meta.mode })
}

/// Splits what a read of at most `limit + 1` bytes returned into the bytes
/// to keep (at most `limit`) and whether the stream went past the limit.
pub fn split_probe(data: Vec<u8>, limit: u64) -> (r: (Vec<u8>, bool))
    ensures
        data@.len() > limit ==> r.0@ == data@.take(limit as int) && r.1,
        data@.len() <= limit ==> r.0@ == data@ && !r.1,
{
    let mut data = data;
    if data.len() as u64 > limit {
        data.truncate(limit as usize);
        (data, true)
    } else {
        (data, false)
    }
}

/// A ZIP archive read from bytes.
pub struct ZipSource {
    archive: MemArchive,
}

impl ZipSource {
    /// The members of the archive.
    pub closed spec fn members(&self) -> Seq<MemberView> {
        zip_members(self.archive)
    }

    /// Reads the central directory of `data`; fails exactly where the bytes
    /// do not parse as a ZIP archive.
    pub fn from_bytes(data: Vec<u8>) -> (r: Result<ZipSource, Error>)
        ensures
            r is Ok <==> zip_directory(data@) is Some,
            r matches Ok(src) ==> src.members() == zip_directory(data@)->0,
            r matches Err(e) ==> e is Zip,
    {
        match zip_open(data) {
            Ok(archive) => Ok(ZipSource { archive }),
            Err(e) => Err(Error::Zip(e)),
        }
    }

    /// Number of members.
    pub fn len(&self) -> (r: usize)
        ensures
            r == self.members().len(),
    {
        zip_len(&self.archive)
    }

    /// Whether the archive has no member.
    pub fn is_empty(&self) -> (r: bool)
        ensures
            r == (self.members().len() == 0),
    {
        zip_len(&self.archive) == 0
    }

    /// The metadata of member `index`, as [`entry_from_meta`] derives it,
    /// where it exists and its local header reads; a ZIP error otherwise.
    pub fn entry_info(&mut self, index: usize) -> (r: Result<EntryInfo, Error>)
        ensures
            final(self).members() == old(self).members(),
            index < old(self).members().len() && old(self).members()[index as int].1
                ==> maps_member(old(self).members()[index as int].0, r),
            !(index < old(self).members().len() && old(self).members()[index as int].1) ==> (
            r matches Err(e) && e is Zip),
    {
        match zip_meta(&mut self.archive, index) {
            Ok(meta) => entry_from_meta(meta),
            Err(e) => Err(Error::Zip(e)),
        }
    }

    /// Reads at most `limit` decompressed bytes of member `index`, and
    /// probes one byte more: the flag says whether the stream holds more
    /// than `limit` bytes. Where the stream reads whole, these are its first
    /// bytes.
    pub fn read_entry(&mut self, index: usize, limit: u64) -> (r: Result<(Vec<u8>, bool), Error>)
        ensures
            final(self).members() == old(self).members(),
            r matches Ok(p) ==> p.0@.len() <= limit,
            r matches Err(e) ==> e is Io,
            index < old(self).members().len() && old(self).members()[index as int].2 is Some ==> (
            r matches Ok(p) && p.0@ == prefix(old(self).members()[index as int].2->0, limit as int)
                && (limit < u64::MAX ==> p.1 == (old(self).members()[index as int].2->0.len()
                > limit))),
    {
        let want = match limit.checked_add(1) {
            Some(w) => w,
            None => u64::MAX,
        };
        match zip_read_at_most(&mut self.archive, index, want) {
            Ok(data) => {
                proof {
                    if index < old(self).members().len() && old(self).members()[index as int].2 is Some {
                        let st = old(self).members()[index as int].2->0;
                        if st.len() > want {
                            assert(st.take(want as int).take(limit as int) =~= st.take(limit as int));
                        }
                    }
                }
                Ok(split_probe(data, limit))
            },
            Err(e) => Err(Error::Io(e)),
        }
    }

    /// Metadata of every member, in archive order; fails at the first member
    /// whose header does not read or that is encrypted.
    pub fn entries_metadata(&mut self) -> (r: Result<Vec<EntryInfo>, Error>)
        ensures
            final(self).members() == old(self).members(),
            listing_outcome(old(self).members(), r),
    {
        let ghost ms = old(self).members();
        let n = zip_len(&self.archive);
        let mut out: Vec<EntryInfo> = Vec::new();
        let mut i: usize = 0;
        while i < n
            invariant
                i <= n,
                n == ms.len(),
                ms == old(self).members(),
                self.members() == ms,
                out@.len() == i,
                forall|j: int| 0 <= j < i ==> !#[trigger] list_bad(ms[j]),
                forall|j: int|
                    0 <= j < i ==> maps_member(ms[j].0, Ok::<EntryInfo, Error>(#[trigger] out@[j])),
            decreases n - i,
        {
            let r = self.entry_info(i);
            match r {
                Ok(e) => {
                    let ghost before = out@;
                    out.push(e);
                    proof {
                        assert(!list_bad(ms[i as int]));
                        assert forall|j: int| 0 <= j < i + 1 implies maps_member(
                            ms[j].0,
                            Ok::<EntryInfo, Error>(#[trigger] out@[j]),
                        ) by {
                            if j < i {
                                assert(out@[j] == before[j]);
                            }
                        }
                    }
                },
                Err(e) => {
                    proof {
                        assert(list_bad(ms[i as int]));
                        assert(!(forall|j: int| 0 <= j < ms.len() ==> !#[trigger] list_bad(ms[j])));
                    }
                    return Err(e);
                },
            }
            i += 1;
        }
        Ok(out)
    }

    /// Reads every file member whole, checking its CRC, and writes nothing.
    /// Fails on the first member whose header does not read, and on the first
    /// file member that is encrypted or corrupt.
    pub fn verify(&mut self) -> (r: Result<VerifyReport, Error>)
        ensures
            final(self).members() == old(self).members(),
            verify_outcome(old(self).members(), r),
    {
        let ghost ms = old(self).members();
        let n = zip_len(&self.archive);
        let mut entries: usize = 0;
        let mut bytes: u64 = 0;
        let mut i: usize = 0;
        while i < n
            invariant
                i <= n,
                n == ms.len(),
                ms == old(self).members(),
                self.members() == ms,
                entries == checked_count(ms.take(i as int)),
                entries <= i,
                bytes == sat_u64(stream_total(ms.take(i as int))),
                stream_total(ms.take(i as int)) >= 0,
                forall|j: int| 0 <= j < i ==> !#[trigger] verify_bad(ms[j]),
            decreases n - i,
        {
            proof {
                assert(ms.take(i + 1).drop_last() =~= ms.take(i as int));
                assert(ms.take(i + 1).last() == ms[i as int]);
            }
            let meta = match zip_meta(&mut self.archive, i) {
                Ok(m) => m,
                Err(e) => {
                    proof {
                        assert(verify_bad(ms[i as int]));
                    }
                    return Err(Error::Zip(e));
                },
            };
            if !meta.is_dir && !meta.is_symlink {
                if meta.encrypted {
                    proof {
                        assert(verify_bad(ms[i as int]));
                    }
                    return Err(Error::EncryptedEntry { entry: meta.name });
                }
                let n_read = match zip_drain(&mut self.archive, i) {
                    Ok(c) => c,
                    Err(e) => {
                        proof {
                            assert(verify_bad(ms[i as int]));
                        }
                        return Err(Error::Zip(e));
                    },
                };
                entries += 1;
                bytes = bytes.saturating_add(n_read);
            }
            i += 1;
        }
        proof {
            assert(ms.take(i as int) =~= ms);
        }
        Ok(VerifyReport { entries_verified: entries, bytes_verified: bytes })
    }
}

/// Lists the members of the ZIP archive in `data`; writes nothing. A ZIP
/// error where the bytes do not parse; otherwise as [`listing_outcome`] says.
pub fn list_zip(data: Vec<u8>) -> (r: Result<Vec<EntryInfo>, Error>)
    ensures
        match zip_directory(data@) {
            None => r matches Err(e) && e is Zip,
            Some(ms) => listing_outcome(ms, r),
        },
{
    let mut src = match ZipSource::from_bytes(data) {
        Ok(s) => s,
        Err(e) => return Err(e),
    };
    src.entries_metadata()
}

/// Checks the integrity of every file member of the ZIP archive in `data`.
/// A ZIP error where the bytes do not parse; otherwise as
/// [`verify_outcome`] says.
pub fn verify_bytes(data: Vec<u8>) -> (r: Result<VerifyReport, Error>)
    ensures
        match zip_directory(data@) {
            None => r matches Err(e) && e is Zip,
            Some(ms) => verify_outcome(ms, r),
        },
{
    let mut src = match ZipSource::from_bytes(data) {
        Ok(s) => s,
        Err(e) => return Err(e),
    };
    src.verify()
}

} // verus!

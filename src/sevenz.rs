//! 7z archives, decoded whole into memory by the caller and held here as
//! entries with their contents.

use vstd::prelude::*;
use crate::entry::{EntryInfo, EntryKind};

verus! {

struct SevenZEntry {
    info: EntryInfo,
    data: Vec<u8>,
}

/// The decoded members of a 7z archive, in archive order.
pub struct SevenZAdapter {
    entries: Vec<SevenZEntry>,
}

/// The metadata recorded for a decoded member: its size is the length of
/// its content; 7z keeps no POSIX mode.
pub open spec fn member_info(name: Seq<char>, is_dir: bool, len: nat, e: EntryInfo) -> bool {
    &&& e.name@ == name
    &&& e.size == len
    &&& e.kind == if is_dir {
        EntryKind::Directory
    } else {
        EntryKind::File
    }
    &&& e.mode is None
}

impl SevenZAdapter {
    pub closed spec fn infos(&self) -> Seq<EntryInfo> {
        self.entries@.map_values(|e: SevenZEntry| e.info)
    }

    pub closed spec fn contents(&self) -> Seq<Seq<u8>> {
        self.entries@.map_values(|e: SevenZEntry| e.data@)
    }

    /// Every member is a file or a directory, without a mode, and declares
    /// the length of its content: a 7z archive never yields a link.
    pub open spec fn well_formed(&self) -> bool {
        &&& self.infos().len() == self.contents().len()
        &&& forall|i: int|
            0 <= i < self.infos().len() ==> #[trigger] self.infos()[i].size
                == self.contents()[i].len()
        &&& forall|i: int|
            0 <= i < self.infos().len() ==> (#[trigger] self.infos()[i].is_file()
                || self.infos()[i].is_dir()) && self.infos()[i].mode is None
    }

    /// An adapter with no member.
    pub fn new() -> (r: SevenZAdapter)
        ensures
            r.infos().len() == 0,
            r.well_formed(),
    {
        SevenZAdapter { entries: Vec::new() }
    }

    /// Appends a decoded member. A directory keeps no content.
    pub fn push_member(&mut self, name: String, is_dir: bool, data: Vec<u8>)
        requires
            old(self).well_formed(),
            data@.len() <= u64::MAX,
        ensures
            final(self).well_formed(),
            final(self).infos().len() == old(self).infos().len() + 1,
            final(self).infos().take(old(self).infos().len() as int) == old(self).infos(),
            member_info(name@, is_dir, if is_dir { 0 } else { data@.len() }, final(self).infos().last()),
            final(self).contents().last() == if is_dir { Seq::<u8>::empty() } else { data@ },
    {
        let data = if is_dir {
            Vec::new()
        } else {
            data
        };
        let kind = if is_dir {
            EntryKind::Directory
        } else {
            EntryKind::File
        };
        let info = EntryInfo { name, size: data.len() as u64, kind, mode: None };
        self.entries.push(SevenZEntry { info, data });
        proof {
            assert(self.infos().take(old(self).infos().len() as int) =~= old(self).infos());
            assert forall|i: int| 0 <= i < self.infos().len() implies #[trigger] self.infos()[i].size
                == self.contents()[i].len() by {
                if i < old(self).infos().len() {
                    assert(self.infos()[i] == old(self).infos()[i]);
                    assert(self.contents()[i] == old(self).contents()[i]);
                }
            }
            assert forall|i: int| 0 <= i < self.infos().len() implies (#[trigger] self.infos()[i].is_file()
                || self.infos()[i].is_dir()) && self.infos()[i].mode is None by {
                if i < old(self).infos().len() {
                    assert(self.infos()[i] == old(self).infos()[i]);
                }
            }
        }
    }

    /// Metadata of every member, in archive order.
    pub fn entries_metadata(&self) -> (r: Vec<EntryInfo>)
        ensures
            r@ == self.infos(),
    {
        let mut out: Vec<EntryInfo> = Vec::new();
        let mut i: usize = 0;
        while i < self.entries.len()
            invariant
                i <= self.entries@.len(),
                out@ == self.infos().take(i as int),
            decreases self.entries@.len() - i,
        {
            out.push(self.entries[i].info.duplicate());
            proof {
                assert(out@ =~= self.infos().take(i + 1));
            }
            i += 1;
        }
        proof {
            assert(self.infos().take(i as int) =~= self.infos());
        }
        out
    }

    /// Number of members.
    pub fn len(&self) -> (r: usize)
        ensures
            r == self.infos().len(),
    {
        self.entries.len()
    }

    /// Whether there is no member.
    pub fn is_empty(&self) -> (r: bool)
        ensures
            r == (self.infos().len() == 0),
    {
        self.entries.len() == 0
    }

    /// The metadata of member `i`.
    pub fn info(&self, i: usize) -> (r: &EntryInfo)
        requires
            i < self.infos().len(),
        ensures
            *r == self.infos()[i as int],
    {
        &self.entries[i].info
    }

    /// The content of member `i` where it is a file; `None` otherwise.
    pub fn content(&self, i: usize) -> (r: Option<&[u8]>)
        requires
            i < self.infos().len(),
        ensures
            self.infos()[i as int].is_file() ==> (r matches Some(d) && d@ == self.contents()[i as int]),
            !self.infos()[i as int].is_file() ==> r is None,
    {
        match self.entries[i].info.kind {
            EntryKind::File => Some(self.entries[i].data.as_slice()),
            _ => None,
        }
    }
}

} // verus!

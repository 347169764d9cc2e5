use vstd::prelude::*;

verus! {

/// What an archive member is.
#[derive(Debug, Clone, PartialEq, Eq)]
pub enum EntryKind {
    /// A regular file with content.
    File,
    /// A directory.
    Directory,
    /// A symbolic or hard link; the engine never materializes it.
    Symlink { target: String },
}

/// Metadata of one archive member, as a format reader reports it.
#[derive(Debug, Clone)]
pub struct EntryInfo {
    /// The raw in-archive path, slash-separated and not yet validated.
    pub name: String,
    /// Declared uncompressed size in bytes (0 for non-files).
    pub size: u64,
    /// File, directory or link.
    pub kind: EntryKind,
    /// POSIX mode bits, where the format records them.
    pub mode: Option<u32>,
}

impl EntryInfo {
    pub open spec fn is_file(&self) -> bool {
        self.kind is File
    }

    pub open spec fn is_dir(&self) -> bool {
        self.kind is Directory
    }

    pub open spec fn is_link(&self) -> bool {
        self.kind is Symlink
    }

    /// A copy of the metadata.
    pub fn duplicate(&self) -> (r: EntryInfo)
        ensures
            r == *self,
    {
        let kind = match &self.kind {
            EntryKind::File => EntryKind::File,
            EntryKind::Directory => EntryKind::Directory,
            EntryKind::Symlink { target } => EntryKind::Symlink { target: target.clone() },
        };
        EntryInfo { name: self.name.clone(), size: self.size, kind, mode: self.mode }
    }
}

} // verus!

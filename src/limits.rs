use vstd::prelude::*;

verus! {

/// Default cap on the bytes written by one extraction (1 GiB).
pub const DEFAULT_MAX_TOTAL_BYTES: u64 = 1073741824;

/// Default cap on the size of one file (100 MiB).
pub const DEFAULT_MAX_SINGLE_FILE: u64 = 104857600;

/// Default cap on the number of files written by one extraction.
pub const DEFAULT_MAX_FILE_COUNT: usize = 10000;

/// Default cap on the number of directory levels of an entry name.
pub const DEFAULT_MAX_PATH_DEPTH: usize = 32;

/// Resource limits of one extraction.
#[derive(Debug, Clone, Copy, PartialEq, Eq)]
pub struct Limits {
    /// Cap on the bytes written over the whole extraction.
    pub max_total_bytes: u64,
    /// Cap on the number of files written.
    pub max_file_count: usize,
    /// Cap on the size of a single file.
    pub max_single_file: u64,
    /// Cap on the number of directory levels of an entry name.
    pub max_path_depth: usize,
}

impl Limits {
    /// The default profile: 1 GiB in total, 100 MiB per file, 10 000 files,
    /// 32 directory levels.
    pub open spec fn spec_default() -> Limits {
        Limits {
            max_total_bytes: DEFAULT_MAX_TOTAL_BYTES,
            max_file_count: DEFAULT_MAX_FILE_COUNT,
            max_single_file: DEFAULT_MAX_SINGLE_FILE,
            max_path_depth: DEFAULT_MAX_PATH_DEPTH,
        }
    }
}

impl Default for Limits {
    fn default() -> (r: Limits)
        ensures
            r == Limits::spec_default(),
    {
        Limits {
            max_total_bytes: DEFAULT_MAX_TOTAL_BYTES,
            max_file_count: DEFAULT_MAX_FILE_COUNT,
            max_single_file: DEFAULT_MAX_SINGLE_FILE,
            max_path_depth: DEFAULT_MAX_PATH_DEPTH,
        }
    }
}

} // verus!

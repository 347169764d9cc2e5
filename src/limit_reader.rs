//! Byte accounting for a bounded read: how much the next read may ask for,
//! and whether the bound was reached.

use vstd::prelude::*;

verus! {

/// Counts the bytes read from a source and cuts reads at `limit`.
#[derive(Debug, Clone, Copy, PartialEq, Eq)]
pub struct LimitReader {
    limit: u64,
    bytes_read: u64,
    hit_limit: bool,
}

impl LimitReader {
    pub closed spec fn limit_view(&self) -> u64 {
        self.limit
    }

    pub closed spec fn read_view(&self) -> u64 {
        self.bytes_read
    }

    pub closed spec fn hit_view(&self) -> bool {
        self.hit_limit
    }

    pub open spec fn well_formed(&self) -> bool {
        self.read_view() <= self.limit_view()
    }

    /// A counter with nothing read yet.
    pub fn new(limit: u64) -> (r: LimitReader)
        ensures
            r.limit_view() == limit,
            r.read_view() == 0,
            !r.hit_view(),
            r.well_formed(),
    {
        LimitReader { limit, bytes_read: 0, hit_limit: false }
    }

    /// How many bytes the next read into a buffer of `buf_len` bytes may
    /// ask for: `min(buf_len, limit - bytes_read)`. Once the limit is
    /// reached this is zero, which ends the read, and the limit is marked as hit.
    pub fn grant(&mut self, buf_len: usize) -> (r: usize)
        requires
            old(self).well_formed(),
        ensures
            final(self).well_formed(),
            final(self).limit_view() == old(self).limit_view(),
            final(self).read_view() == old(self).read_view(),
            r as int == if buf_len as int <= old(self).limit_view() - old(self).read_view() {
                buf_len as int
            } else {
                old(self).limit_view() - old(self).read_view()
            },
            final(self).hit_view() == (old(self).hit_view() || old(self).read_view()
                >= old(self).limit_view()),
    {
        let left = self.limit - self.bytes_read;
        if left == 0 {
            self.hit_limit = true;
            return 0;
        }
        if (buf_len as u64) <= left {
            buf_len
        } else {
            left as usize
        }
    }

    /// Records `n` bytes returned by a read that asked for a granted amount.
    pub fn record(&mut self, n: usize)
        requires
            old(self).well_formed(),
            old(self).read_view() + n <= old(self).limit_view(),
        ensures
            final(self).well_formed(),
            final(self).limit_view() == old(self).limit_view(),
            final(self).read_view() == old(self).read_view() + n,
            final(self).hit_view() == old(self).hit_view(),
    {
        self.bytes_read = self.bytes_read + n as u64;
    }

    /// Bytes read so far.
    pub fn bytes_read(&self) -> (r: u64)
        ensures
            r == self.read_view(),
    {
        self.bytes_read
    }

    /// Whether a read was cut because the limit was reached.
    pub fn hit_limit(&self) -> (r: bool)
        ensures
            r == self.hit_view(),
    {
        self.hit_limit
    }

    /// What is left before the limit.
    pub fn remaining(&self) -> (r: u64)
        requires
            self.well_formed(),
        ensures
            r == self.limit_view() - self.read_view(),
    {
        self.limit - self.bytes_read
    }
}

} // verus!

use vstd::prelude::*;

verus! {

/// Seek origins understood by `DataSource::seek`, as the decode engine
/// passes them.
pub const SEEK_START: i32 = 0;
pub const SEEK_CURRENT: i32 = 1;
pub const SEEK_END: i32 = 2;

/// `v` clamped into `[0, hi]`.
pub open spec fn clamp(v: int, hi: int) -> int {
    if v < 0 {
        0
    } else if v > hi {
        hi
    } else {
        v
    }
}

/// The embedded stream as the decode engine reads it: the bytes and a read
/// position that never leaves `[0, len]`.
pub struct DataSource {
    data: Vec<u8>,
    pos: usize,
}

impl DataSource {
    pub closed spec fn spec_data(&self) -> Seq<u8> {
        self.data@
    }

    pub closed spec fn spec_pos(&self) -> int {
        self.pos as int
    }

    /// The position lies within the data.
    pub open spec fn wf(&self) -> bool {
        0 <= self.spec_pos() <= self.spec_data().len()
    }

    pub fn new(data: Vec<u8>) -> (r: Self)
        ensures
            r.wf(),
            r.spec_data() == data@,
            r.spec_pos() == 0,
    {
        DataSource { data, pos: 0 }
    }

    pub fn position(&self) -> (r: usize)
        ensures
            r == self.spec_pos(),
    {
        self.pos
    }

    /// Moves the position to `offset` from the start, the current position or
    /// the end, clamped into the data; returns 0. Another origin returns -1
    /// and leaves the position alone.
    pub fn seek(&mut self, offset: i64, origin: i32) -> (r: i32)
        requires
            old(self).wf(),
        ensures
            final(self).wf(),
            final(self).spec_data() == old(self).spec_data(),
            origin == SEEK_START ==> r == 0 && final(self).spec_pos() == clamp(
                offset as int,
                old(self).spec_data().len() as int,
            ),
            origin == SEEK_CURRENT ==> r == 0 && final(self).spec_pos() == clamp(
                old(self).spec_pos() + offset,
                old(self).spec_data().len() as int,
            ),
            origin == SEEK_END ==> r == 0 && final(self).spec_pos() == clamp(
                old(self).spec_data().len() + offset,
                old(self).spec_data().len() as int,
            ),
            origin != SEEK_START && origin != SEEK_CURRENT && origin != SEEK_END ==> r == -1
                && final(self).spec_pos() == old(self).spec_pos(),
    {
        let len = self.data.len();
        let base: i128 = if origin == SEEK_START {
            0
        } else if origin == SEEK_CURRENT {
            self.pos as i128
        } else if origin == SEEK_END {
            len as i128
        } else {
            return -1;
        };
        let target: i128 = base + offset as i128;
        self.pos = if target < 0 {
            0
        } else if target > len as i128 {
            len
        } else {
            target as usize
        };
        0
    }

    /// Hands out up to `size * nmemb` bytes from the position on and moves
    /// past them; nothing is read beyond the end.
    pub fn read(&mut self, size: usize, nmemb: usize) -> (r: Vec<u8>)
        requires
            old(self).wf(),
        ensures
            final(self).wf(),
            final(self).spec_data() == old(self).spec_data(),
            r@.len() == if (size * nmemb) < old(self).spec_data().len() - old(self).spec_pos() {
                size * nmemb
            } else {
                old(self).spec_data().len() - old(self).spec_pos()
            },
            r@ == old(self).spec_data().subrange(
                old(self).spec_pos(),
                old(self).spec_pos() + r@.len(),
            ),
            final(self).spec_pos() == old(self).spec_pos() + r@.len(),
    {
        let remaining = self.data.len() - self.pos;
        assert(size as int * nmemb as int <= u128::MAX) by (nonlinear_arith)
            requires
                size <= u64::MAX,
                nmemb <= u64::MAX,
        ;
        let wanted: u128 = size as u128 * nmemb as u128;
        let count: usize = if wanted < remaining as u128 {
            wanted as usize
        } else {
            remaining
        };
        let start = self.pos;
        let n = self.data.len();
        let mut out: Vec<u8> = Vec::new();
        let mut i: usize = 0;
        while i < count
            invariant
                i <= count,
                n == self.data@.len(),
                start + count <= self.data@.len(),
                self.pos == start,
                out@ == self.data@.subrange(start as int, start + i),
            decreases count - i,
        {
            out.push(self.data[start + i]);
            i += 1;
            assert(out@ =~= self.data@.subrange(start as int, start + i));
        }
        self.pos = start + count;
        out
    }

    /// Nothing to release; always succeeds.
    pub fn close(&mut self) -> (r: i32)
        ensures
            r == 0,
            *final(self) == *old(self),
    {
        0
    }
}

} // verus!

//! Fixed-capacity GPU buffer contents, modeled as the bytes the renderer has
//! written so far.
//!
//! Every upload starts at offset 0 and overwrites the front of the buffer;
//! bytes beyond the upload keep their prior contents.  A buffer's capacity is
//! chosen once at creation and never grows — a frame whose data would not fit
//! is rejected before any byte is written.

use vstd::prelude::*;

verus! {

/// The contents of `buf` after writing `src` at offset 0: `src`, then
/// whatever of `buf` lies beyond it.
pub open spec fn overwrite_prefix(buf: Seq<u8>, src: Seq<u8>) -> Seq<u8> {
    if src.len() >= buf.len() {
        src
    } else {
        src + buf.skip(src.len() as int)
    }
}

/// Writing the same bytes twice leaves the buffer exactly as one write does;
/// two uploads of identical frame data are byte-identical.
pub proof fn lemma_overwrite_prefix_idempotent(buf: Seq<u8>, src: Seq<u8>)
    ensures
        overwrite_prefix(overwrite_prefix(buf, src), src) == overwrite_prefix(buf, src),
{
    if src.len() < buf.len() {
        assert(overwrite_prefix(overwrite_prefix(buf, src), src) =~= overwrite_prefix(buf, src));
    }
}

/// A write that fills the whole buffer replaces its contents outright.
pub proof fn lemma_overwrite_prefix_full(buf: Seq<u8>, src: Seq<u8>)
    requires
        src.len() >= buf.len(),
    ensures
        overwrite_prefix(buf, src) == src,
{
}

/// One fixed-capacity GPU-resident byte region.
#[derive(Debug)]
pub struct GpuBuffer {
    /// Bytes written so far, from offset 0.
    pub data: Vec<u8>,
    /// Fixed capacity in bytes, set at creation.
    pub capacity: usize,
}

impl GpuBuffer {
    /// The written contents never exceed the capacity.
    pub open spec fn wf(self) -> bool {
        self.data@.len() <= self.capacity
    }

    /// A fresh buffer with nothing written yet.
    pub fn new(capacity: usize) -> (b: GpuBuffer)
        ensures
            b.wf(),
            b.capacity == capacity,
            b.data@ == Seq::<u8>::empty(),
    {
        GpuBuffer { data: Vec::new(), capacity }
    }

    /// A buffer created with initial contents.
    pub fn with_contents(capacity: usize, data: Vec<u8>) -> (b: GpuBuffer)
        requires
            data@.len() <= capacity,
        ensures
            b.wf(),
            b.capacity == capacity,
            b.data@ == data@,
    {
        GpuBuffer { data, capacity }
    }

    /// Uploads `src` at offset 0, overwriting the front of the buffer and
    /// keeping prior contents beyond it.
    pub fn write_from_start(&mut self, src: &Vec<u8>)
        requires
            old(self).wf(),
            src@.len() <= old(self).capacity,
        ensures
            final(self).wf(),
            final(self).capacity == old(self).capacity,
            final(self).data@ == overwrite_prefix(old(self).data@, src@),
    {
        let src_len: usize = src.len();
        let old_len: usize = self.data.len();
        let mut out: Vec<u8> = Vec::new();
        let mut i: usize = 0;
        proof {
            assert(out@ =~= src@.take(0));
        }
        while i < src_len
            invariant
                src_len == src@.len(),
                i <= src_len,
                out@ == src@.take(i as int),
            decreases src_len - i,
        {
            out.push(src[i]);
            proof {
                assert(out@ =~= src@.take(i + 1));
            }
            i = i + 1;
        }
        proof {
            assert(out@ =~= src@);
        }
        if src_len < old_len {
            let mut j: usize = src_len;
            proof {
                assert(out@ =~= src@ + self.data@.subrange(src_len as int, src_len as int));
            }
            while j < old_len
                invariant
                    old_len == self.data@.len(),
                    src_len <= j <= old_len,
                    src_len == src@.len(),
                    out@ == src@ + self.data@.subrange(src_len as int, j as int),
                    self == old(self),
                decreases old_len - j,
            {
                out.push(self.data[j]);
                proof {
                    assert(out@ =~= src@ + self.data@.subrange(src_len as int, j + 1));
                }
                j = j + 1;
            }
            proof {
                assert(self.data@.subrange(src_len as int, old_len as int) =~= self.data@.skip(
                    src_len as int,
                ));
                assert(out@ =~= overwrite_prefix(self.data@, src@));
            }
        } else {
            proof {
                assert(out@ =~= overwrite_prefix(self.data@, src@));
            }
        }
        self.data = out;
    }
}

} // verus!

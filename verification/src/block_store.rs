//! An in-memory block store: the data model of one replica child.  The
//! nexus data path is verified against it — what a write puts at a block
//! range is exactly what a later read of that range returns.

use vstd::prelude::*;
use vstd::arithmetic::mul::{lemma_mul_inequality, lemma_mul_nonnegative};

verus! {

/// The bytes after writing `bytes` at byte offset `start`.
pub open spec fn spec_write_bytes(data: Seq<u8>, start: int, bytes: Seq<u8>) -> Seq<u8> {
    Seq::new(data.len(), |i: int| if start <= i < start + bytes.len() {
        bytes[i - start]
    } else {
        data[i]
    })
}

/// A block-addressed byte store.
pub struct BlockStore {
    /// The stored bytes.
    pub data: Vec<u8>,
    /// Size of a block in bytes.
    pub block_len: usize,
}

impl BlockStore {
    /// Well-formedness: blocks are non-empty and the store holds a whole
    /// number of them.
    pub open spec fn wf(self) -> bool {
        &&& self.block_len > 0
        &&& self.data@.len() as int % self.block_len as int == 0
    }

    /// Number of blocks held.
    pub open spec fn spec_num_blocks(self) -> int {
        self.data@.len() as int / self.block_len as int
    }


    /// A zero-filled store of `num_blocks` blocks.
    pub fn new(num_blocks: usize, block_len: usize) -> (r: BlockStore)
        requires
            block_len > 0,
            num_blocks * block_len <= usize::MAX,
        ensures
            r.wf(),
            r.block_len == block_len,
            r.data@ == Seq::new((num_blocks * block_len) as nat, |i: int| 0u8),
    {
        proof {
            lemma_mul_nonnegative(num_blocks as int, block_len as int);
        }
        let data = vec_filled(num_blocks * block_len, 0u8);
        proof {
            vstd::arithmetic::div_mod::lemma_mod_multiples_basic(
                num_blocks as int,
                block_len as int,
            );
        }
        BlockStore { data, block_len }
    }

    /// Writes whole blocks: `buf` lands at block offset `offset_blocks`.
    pub fn write_blocks(&mut self, offset_blocks: usize, buf: &Vec<u8>)
        requires
            old(self).wf(),
            offset_blocks * old(self).block_len + buf@.len() <= old(self).data@.len(),
        ensures
            final(self).wf(),
            final(self).block_len == old(self).block_len,
            final(self).data@ == spec_write_bytes(
                old(self).data@,
                offset_blocks * old(self).block_len,
                buf@,
            ),
    {
        proof {
            lemma_mul_nonnegative(offset_blocks as int, self.block_len as int);
        }
        let total = self.data.len();
        let start = offset_blocks * self.block_len;
        let n = buf.len();
        let mut i: usize = 0;
        while i < n
            invariant
                0 <= i <= n,
                n == buf@.len(),
                start + n <= self.data@.len(),
                self.data@.len() <= usize::MAX,
                start == offset_blocks * old(self).block_len,
                self.block_len == old(self).block_len,
                self.data@.len() == old(self).data@.len(),
                forall|k: int|
                    0 <= k < self.data@.len() ==> self.data@[k] == if start <= k < start + i {
                        buf@[k - start]
                    } else {
                        old(self).data@[k]
                    },
            decreases n - i,
        {
            self.data.set(start + i, buf[i]);
            i = i + 1;
        }
        proof {
            assert(self.data@ =~= spec_write_bytes(
                old(self).data@,
                offset_blocks as int * old(self).block_len as int,
                buf@,
            ));
        }
    }

    /// Reads whole blocks: the bytes at block offset `offset_blocks`.
    pub fn read_blocks(&self, offset_blocks: usize, num_blocks: usize) -> (r: Vec<u8>)
        requires
            self.wf(),
            num_blocks * self.block_len <= usize::MAX,
            offset_blocks * self.block_len + num_blocks * self.block_len <= self.data@.len(),
        ensures
            r@ == self.data@.subrange(
                offset_blocks * self.block_len,
                offset_blocks * self.block_len + num_blocks * self.block_len,
            ),
    {
        proof {
            lemma_mul_nonnegative(offset_blocks as int, self.block_len as int);
            lemma_mul_nonnegative(num_blocks as int, self.block_len as int);
        }
        let total = self.data.len();
        let start = offset_blocks * self.block_len;
        let count = num_blocks * self.block_len;
        let mut out: Vec<u8> = Vec::new();
        let mut i: usize = 0;
        while i < count
            invariant
                0 <= i <= count,
                start + count <= self.data@.len(),
                self.data@.len() <= usize::MAX,
                out@.len() == i,
                forall|k: int| 0 <= k < i ==> out@[k] == self.data@[start + k],
            decreases count - i,
        {
            out.push(self.data[start + i]);
            i = i + 1;
        }
        proof {
            assert(out@ =~= self.data@.subrange(start as int, start as int + count as int));
        }
        out
    }

    /// Fills whole blocks with one byte, as write-zeroes and unmap do with
    /// zero.
    pub fn fill_blocks(&mut self, offset_blocks: usize, num_blocks: usize, value: u8)
        requires
            old(self).wf(),
            num_blocks * old(self).block_len <= usize::MAX,
            offset_blocks * old(self).block_len + num_blocks * old(self).block_len <= old(
                self,
            ).data@.len(),
        ensures
            final(self).wf(),
            final(self).block_len == old(self).block_len,
            final(self).data@ == spec_write_bytes(
                old(self).data@,
                offset_blocks * old(self).block_len,
                Seq::new((num_blocks * old(self).block_len) as nat, |i: int| value),
            ),
    {
        proof {
            lemma_mul_nonnegative(offset_blocks as int, self.block_len as int);
            lemma_mul_nonnegative(num_blocks as int, self.block_len as int);
        }
        let buf = vec_filled(num_blocks * self.block_len, value);
        self.write_blocks(offset_blocks, &buf);
    }
}

/// A vector of `len` copies of `value`.
fn vec_filled(len: usize, value: u8) -> (r: Vec<u8>)
    ensures
        r@ == Seq::new(len as nat, |i: int| value),
{
    let mut out: Vec<u8> = Vec::new();
    let mut i: usize = 0;
    while i < len
        invariant
            0 <= i <= len,
            out@.len() == i,
            forall|k: int| 0 <= k < i ==> out@[k] == value,
        decreases len - i,
    {
        out.push(value);
        i = i + 1;
    }
    proof {
        assert(out@ =~= Seq::new(len as nat, |i: int| value));
    }
    out
}

/// Round trip: a read at the offset just written returns the bytes
/// written.  The nexus shifts both the write and the read by the same
/// metadata prefix, so the round trip holds through the nexus address
/// space too.
pub proof fn lemma_read_after_write(data: Seq<u8>, start: int, bytes: Seq<u8>)
    requires
        0 <= start,
        start + bytes.len() <= data.len(),
    ensures
        spec_write_bytes(data, start, bytes).subrange(start, start + bytes.len()) == bytes,
{
    assert(spec_write_bytes(data, start, bytes).subrange(start, start + bytes.len()) =~= bytes);
}

/// Bytes outside a written range are untouched.
pub proof fn lemma_write_preserves_rest(data: Seq<u8>, start: int, bytes: Seq<u8>, k: int)
    requires
        0 <= start,
        start + bytes.len() <= data.len(),
        0 <= k < data.len(),
        !(start <= k < start + bytes.len()),
    ensures
        spec_write_bytes(data, start, bytes)[k] == data[k],
{
}

} // verus!

//! Dirty-segment bitmap over a block device.
//!
//! The map partitions the device into fixed-size segments and keeps one bit
//! per segment: `true` marks a dirty segment (it must still be copied during
//! a rebuild), `false` a clean one.  All rounding is toward "more dirty": a
//! block range is widened to every segment it touches.

use vstd::prelude::*;
use vstd::arithmetic::div_mod::{
    lemma_div_is_ordered, lemma_div_pos_is_pos, lemma_fundamental_div_mod,
    lemma_fundamental_div_mod_converse, lemma_div_by_multiple, lemma_mod_bound,
};
use vstd::arithmetic::mul::{
    lemma_mul_basics, lemma_mul_inequality, lemma_mul_is_commutative,
    lemma_mul_is_distributive_add, lemma_mul_is_distributive_add_other_way,
    lemma_mul_nonnegative,
};
use bit_vec::BitVec;

verus! {

#[verifier::external_type_specification]
#[verifier::external_body]
#[verifier::reject_recursive_types(B)]
pub struct ExBitVec<B>(BitVec<B>);

/// The bits held by a bitmap of the outside crate, in index order.
pub uninterp spec fn bits_of(bv: BitVec) -> Seq<bool>;

/// Relies on bit_vec::BitVec::from_elem: a bitmap of `len` bits, each equal
/// to `bit`.
#[verifier::external_body]
fn bits_from_elem(len: usize, bit: bool) -> (r: BitVec)
    ensures
        bits_of(r) == Seq::new(len as nat, |i: int| bit),
{
    BitVec::from_elem(len, bit)
}

/// Relies on bit_vec::BitVec::set: writes one bit in place; it panics on an
/// index at or past the length, which the precondition rules out.
#[verifier::external_body]
fn bits_set(bv: &mut BitVec, i: usize, x: bool)
    requires
        i < bits_of(*old(bv)).len(),
    ensures
        bits_of(*final(bv)) == bits_of(*old(bv)).update(i as int, x),
{
    bv.set(i, x)
}

/// Relies on bit_vec::BitVec::get: the bit at `i`, or `None` at or past the
/// length.
#[verifier::external_body]
fn bits_get(bv: &BitVec, i: usize) -> (r: Option<bool>)
    ensures
        r == if i < bits_of(*bv).len() {
            Some(bits_of(*bv)[i as int])
        } else {
            None::<bool>
        },
{
    bv.get(i)
}

/// Relies on bit_vec::BitVec::or: bitwise or, in place, of two bitmaps of
/// one length; it panics on differing lengths, which the precondition rules
/// out.  The returned flag says whether any bit changed.
#[verifier::external_body]
fn bits_or(bv: &mut BitVec, other: &BitVec) -> (changed: bool)
    requires
        bits_of(*old(bv)).len() == bits_of(*other).len(),
    ensures
        bits_of(*final(bv)) == or_bits(bits_of(*old(bv)), bits_of(*other)),
{
    bv.or(other)
}

/// Elementwise or of two bit sequences of one length.
pub open spec fn or_bits(x: Seq<bool>, y: Seq<bool>) -> Seq<bool> {
    Seq::new(x.len(), |i: int| x[i] || y[i])
}

/// Number of `true` bits in a sequence.
pub open spec fn count_trues(s: Seq<bool>) -> int
    decreases s.len(),
{
    if s.len() == 0 {
        0
    } else {
        count_trues(s.drop_last()) + if s.last() {
            1int
        } else {
            0int
        }
    }
}

/// Number of segments needed to cover `num_blocks` blocks of `block_len`
/// bytes when each segment covers `segment_size` bytes, rounding up.
pub open spec fn spec_num_segments(num_blocks: int, block_len: int, segment_size: int) -> int {
    (num_blocks * block_len + segment_size - 1) / segment_size
}

/// Index of the segment that holds logical block `lbn`.
pub open spec fn spec_lbn_to_seg(lbn: int, block_len: int, segment_size: int) -> int {
    lbn * block_len / segment_size
}

/// Map of rebuild segments of a block device: one bit per segment, `true`
/// for dirty (must still be transferred), `false` for clean.
pub struct SegmentMap {
    /// Bitmap of rebuild segments of the device.
    segments: BitVec,
    /// Device size in segments.
    num_segments: u64,
    /// Device size in blocks.
    num_blocks: u64,
    /// Size of a block in bytes.
    block_len: u64,
    /// Segment size in bytes.
    segment_size: u64,
}

impl SegmentMap {
    /// The segment bits, dirty as `true`, in segment order.
    pub closed spec fn bits(self) -> Seq<bool> {
        bits_of(self.segments)
    }

    /// Device size in blocks.
    pub closed spec fn spec_num_blocks(self) -> u64 {
        self.num_blocks
    }

    /// Size of a block in bytes.
    pub closed spec fn spec_block_len(self) -> u64 {
        self.block_len
    }

    /// Segment size in bytes.
    pub closed spec fn spec_segment_size(self) -> u64 {
        self.segment_size
    }

    /// Device size in segments.
    pub closed spec fn spec_num_segments(self) -> u64 {
        self.num_segments
    }

    /// Well-formedness: the geometry is consistent and small enough for the
    /// block arithmetic to stay within the machine integers.
    pub open spec fn wf(self) -> bool {
        &&& self.spec_block_len() > 0
        &&& self.spec_segment_size() > 0
        &&& self.spec_num_segments() == spec_num_segments(
            self.spec_num_blocks() as int,
            self.spec_block_len() as int,
            self.spec_segment_size() as int,
        )
        &&& self.bits().len() == self.spec_num_segments()
        &&& self.spec_num_segments() <= usize::MAX
        &&& self.spec_num_blocks() * self.spec_block_len() + self.spec_segment_size()
            <= u64::MAX
    }

    /// Two maps of one geometry.
    pub open spec fn same_dims(self, other: SegmentMap) -> bool {
        &&& self.spec_num_blocks() == other.spec_num_blocks()
        &&& self.spec_block_len() == other.spec_block_len()
        &&& self.spec_segment_size() == other.spec_segment_size()
    }

    /// Index of the segment that holds logical block `lbn`.
    pub open spec fn seg_of(self, lbn: int) -> int {
        spec_lbn_to_seg(lbn, self.spec_block_len() as int, self.spec_segment_size() as int)
    }

    /// Dirty size of the map in blocks.
    pub open spec fn spec_dirty_blocks(self) -> int {
        count_trues(self.bits()) * self.spec_segment_size() / self.spec_block_len() as int
    }

    /// Creates an all-clean segment map with the given geometry.
    pub fn new(num_blocks: u64, block_len: u64, segment_size: u64) -> (r: SegmentMap)
        requires
            block_len > 0,
            segment_size > 0,
            num_blocks * block_len + segment_size <= u64::MAX,
            spec_num_segments(num_blocks as int, block_len as int, segment_size as int)
                <= usize::MAX,
        ensures
            r.wf(),
            r.spec_num_blocks() == num_blocks,
            r.spec_block_len() == block_len,
            r.spec_segment_size() == segment_size,
            r.bits() =~= Seq::new(
                spec_num_segments(num_blocks as int, block_len as int, segment_size as int) as nat,
                |i: int| false,
            ),
    {
        SegmentMap::new_filled(num_blocks, block_len, segment_size, false)
    }

    /// Creates a segment map with the given geometry and every bit equal
    /// to `value`: an all-ones map lets a full rebuild share the partial
    /// rebuild's code path.
    pub fn new_filled(num_blocks: u64, block_len: u64, segment_size: u64, value: bool) -> (r:
        SegmentMap)
        requires
            block_len > 0,
            segment_size > 0,
            num_blocks * block_len + segment_size <= u64::MAX,
            spec_num_segments(num_blocks as int, block_len as int, segment_size as int)
                <= usize::MAX,
        ensures
            r.wf(),
            r.spec_num_blocks() == num_blocks,
            r.spec_block_len() == block_len,
            r.spec_segment_size() == segment_size,
            r.bits() =~= Seq::new(
                spec_num_segments(num_blocks as int, block_len as int, segment_size as int) as nat,
                |i: int| value,
            ),
    {
        proof {
            lemma_mul_nonnegative(num_blocks as int, block_len as int);
        }
        let bytes: u64 = num_blocks * block_len;
        let q: u64 = bytes / segment_size;
        let rem: u64 = bytes % segment_size;
        proof {
            lemma_ceil_div(bytes as int, segment_size as int);
        }
        let num_segments: u64 = if rem > 0 {
            q + 1
        } else {
            q
        };
        let segments = bits_from_elem(num_segments as usize, value);
        SegmentMap { segments, num_segments, num_blocks, block_len, segment_size }
    }

    /// Merges (bitwise or) this map with another of the same geometry: a
    /// segment is dirty in the result iff it is dirty in either input.
    pub fn merge(self, other: &SegmentMap) -> (r: SegmentMap)
        requires
            self.wf(),
            other.wf(),
            self.same_dims(*other),
        ensures
            r.wf(),
            r.same_dims(self),
            r.bits() == or_bits(self.bits(), other.bits()),
    {
        let mut r = self;
        let _ = bits_or(&mut r.segments, &other.segments);
        r
    }

    /// Sets every segment bit touched by the block range
    /// `[lbn, lbn + lbn_cnt)` to `value`.
    pub fn set(&mut self, lbn: u64, lbn_cnt: u64, value: bool)
        requires
            old(self).wf(),
            old(self).spec_num_blocks() > 0,
            lbn_cnt > 0,
            lbn + lbn_cnt <= old(self).spec_num_blocks(),
        ensures
            final(self).wf(),
            final(self).same_dims(*old(self)),
            final(self).bits().len() == old(self).bits().len(),
            forall|i: int|
                0 <= i < final(self).bits().len() ==> final(self).bits()[i] == if old(self).seg_of(
                    lbn as int,
                ) <= i <= old(self).seg_of(lbn + lbn_cnt - 1) {
                    value
                } else {
                    old(self).bits()[i]
                },
    {
        proof {
            lemma_mul_nonnegative(lbn as int, self.block_len as int);
            lemma_mul_inequality(lbn as int, self.num_blocks as int, self.block_len as int);
            lemma_mul_nonnegative((lbn + lbn_cnt - 1) as int, self.block_len as int);
            lemma_mul_inequality(
                (lbn + lbn_cnt - 1) as int,
                self.num_blocks as int,
                self.block_len as int,
            );
            lemma_div_pos_is_pos((lbn * self.block_len) as int, self.segment_size as int);
            lemma_div_pos_is_pos(
                ((lbn + lbn_cnt - 1) * self.block_len) as int,
                self.segment_size as int,
            );
            lemma_seg_in_range(
                (lbn + lbn_cnt - 1) as int,
                self.num_blocks as int,
                self.block_len as int,
                self.segment_size as int,
            );
            lemma_seg_monotonic(
                lbn as int,
                (lbn + lbn_cnt - 1) as int,
                self.block_len as int,
                self.segment_size as int,
            );
        }
        let start_seg: u64 = lbn * self.block_len / self.segment_size;
        let end_seg: u64 = (lbn + lbn_cnt - 1) * self.block_len / self.segment_size;
        let ghost orig = *self;
        let mut i: u64 = start_seg;
        while i <= end_seg
            invariant
                orig.wf(),
                self.num_segments == orig.num_segments,
                self.num_blocks == orig.num_blocks,
                self.block_len == orig.block_len,
                self.segment_size == orig.segment_size,
                start_seg == orig.seg_of(lbn as int),
                end_seg == orig.seg_of(lbn + lbn_cnt - 1),
                start_seg <= i <= end_seg + 1,
                end_seg < orig.spec_num_segments(),
                self.bits().len() == orig.bits().len(),
                forall|j: int|
                    0 <= j < self.bits().len() ==> self.bits()[j] == if start_seg <= j < i {
                        value
                    } else {
                        orig.bits()[j]
                    },
            decreases end_seg + 1 - i,
        {
            bits_set(&mut self.segments, i as usize, value);
            i = i + 1;
        }
    }

    /// Returns the bit of the segment that holds logical block `lbn`, or
    /// `None` when `lbn` maps beyond the bitmap.
    pub fn get(&self, lbn: u64) -> (r: Option<bool>)
        requires
            self.wf(),
            lbn * self.spec_block_len() <= u64::MAX,
        ensures
            r == if self.seg_of(lbn as int) < self.bits().len() {
                Some(self.bits()[self.seg_of(lbn as int)])
            } else {
                None::<bool>
            },
    {
        proof {
            lemma_mul_nonnegative(lbn as int, self.block_len as int);
            lemma_div_pos_is_pos((lbn * self.block_len) as int, self.segment_size as int);
        }
        let seg: u64 = lbn * self.block_len / self.segment_size;
        if seg >= self.num_segments {
            return None;
        }
        bits_get(&self.segments, seg as usize)
    }

    /// Counts the segment bits set to one.
    fn count_ones(&self) -> (r: u64)
        requires
            self.wf(),
        ensures
            r == count_trues(self.bits()),
            r <= self.spec_num_segments(),
    {
        let n: u64 = self.num_segments;
        let mut count: u64 = 0;
        let mut i: u64 = 0;
        proof {
            assert(self.bits().take(0) =~= Seq::<bool>::empty());
        }
        while i < n
            invariant
                self.wf(),
                n == self.spec_num_segments(),
                0 <= i <= n,
                count == count_trues(self.bits().take(i as int)),
                count <= i,
            decreases n - i,
        {
            let b = bits_get(&self.segments, i as usize);
            proof {
                assert(self.bits().take(i + 1).drop_last() =~= self.bits().take(i as int));
            }
            if b == Some(true) {
                count = count + 1;
            }
            i = i + 1;
        }
        proof {
            assert(self.bits().take(n as int) =~= self.bits());
        }
        count
    }

    /// Counts the total number of dirty blocks: dirty segments, scaled to
    /// blocks.
    pub fn count_dirty_blks(&self) -> (r: u64)
        requires
            self.wf(),
        ensures
            r == self.spec_dirty_blocks(),
    {
        let ones = self.count_ones();
        proof {
            lemma_count_trues_bounds(self.bits());
            lemma_ones_scaled_fits(
                ones as int,
                self.num_segments as int,
                self.num_blocks as int,
                self.block_len as int,
                self.segment_size as int,
            );
        }
        ones * self.segment_size / self.block_len
    }

    /// Returns the bit of a segment by segment index, or `None` past the
    /// bitmap.
    pub(crate) fn get_seg(&self, seg: u64) -> (r: Option<bool>)
        requires
            self.wf(),
        ensures
            r == if seg < self.bits().len() {
                Some(self.bits()[seg as int])
            } else {
                None::<bool>
            },
    {
        if seg >= self.num_segments {
            return None;
        }
        bits_get(&self.segments, seg as usize)
    }

    /// Writes the bit of a segment by segment index.
    pub(crate) fn set_seg(&mut self, seg: u64, value: bool)
        requires
            old(self).wf(),
            seg < old(self).bits().len(),
        ensures
            final(self).wf(),
            final(self).same_dims(*old(self)),
            final(self).bits() == old(self).bits().update(seg as int, value),
    {
        bits_set(&mut self.segments, seg as usize, value);
    }

    /// The segment size in blocks.
    pub fn segment_size_blks(&self) -> (r: u64)
        requires
            self.wf(),
        ensures
            r == self.spec_segment_size() / self.spec_block_len(),
    {
        self.segment_size / self.block_len
    }

    /// The full size covered by the bitmap, in blocks.
    pub fn size_blks(&self) -> (r: u64)
        requires
            self.wf(),
        ensures
            r == self.spec_num_blocks(),
    {
        self.num_blocks
    }

    /// The size of a block in bytes.
    pub fn block_len(&self) -> (r: u64)
        ensures
            r == self.spec_block_len(),
    {
        self.block_len
    }

    /// The size of a segment in bytes.
    pub fn segment_size(&self) -> (r: u64)
        ensures
            r == self.spec_segment_size(),
    {
        self.segment_size
    }

    /// The number of segments the bitmap holds.
    pub fn num_segments(&self) -> (r: u64)
        requires
            self.wf(),
        ensures
            r == self.spec_num_segments(),
            r == self.bits().len(),
    {
        self.num_segments
    }
}

/// Merging segment maps is commutative: dirtiness is the same, segment by
/// segment, whichever map is merged into which.
pub proof fn lemma_merge_commutative(a: SegmentMap, b: SegmentMap)
    requires
        a.wf(),
        b.wf(),
        a.same_dims(b),
    ensures
        or_bits(a.bits(), b.bits()) == or_bits(b.bits(), a.bits()),
{
    assert(or_bits(a.bits(), b.bits()) =~= or_bits(b.bits(), a.bits()));
}

/// Merging segment maps is associative: merging three maps marks the same
/// segments in whichever grouping.
pub proof fn lemma_merge_associative(a: SegmentMap, b: SegmentMap, c: SegmentMap)
    requires
        a.wf(),
        b.wf(),
        c.wf(),
        a.same_dims(b),
        b.same_dims(c),
    ensures
        or_bits(or_bits(a.bits(), b.bits()), c.bits()) == or_bits(
            a.bits(),
            or_bits(b.bits(), c.bits()),
        ),
{
    assert(or_bits(or_bits(a.bits(), b.bits()), c.bits()) =~= or_bits(
        a.bits(),
        or_bits(b.bits(), c.bits()),
    ));
}

/// Pointwise fewer set bits mean a count no larger.
pub proof fn lemma_count_trues_pointwise_le(a: Seq<bool>, b: Seq<bool>)
    requires
        a.len() == b.len(),
        forall|i: int| 0 <= i < a.len() ==> (a[i] ==> b[i]),
    ensures
        count_trues(a) <= count_trues(b),
    decreases a.len(),
{
    if a.len() > 0 {
        assert(forall|i: int|
            0 <= i < a.drop_last().len() ==> (a.drop_last()[i] ==> b.drop_last()[i]));
        lemma_count_trues_pointwise_le(a.drop_last(), b.drop_last());
        assert(a.last() ==> b.last());
    }
}

/// A count of trues never exceeds the length; exported for callers that
/// scale the count.
pub proof fn lemma_count_trues_le_len(s: Seq<bool>)
    ensures
        0 <= count_trues(s) <= s.len(),
{
    lemma_count_trues_bounds(s);
}

/// Rounding-up division agrees with quotient-plus-carry on the remainder.
proof fn lemma_ceil_div(x: int, d: int)
    requires
        x >= 0,
        d > 0,
    ensures
        (x + d - 1) / d == x / d + if x % d > 0 {
            1int
        } else {
            0int
        },
{
    let q = x / d;
    let r = x % d;
    lemma_fundamental_div_mod(x, d);
    lemma_mod_bound(x, d);
    lemma_mul_is_commutative(d, q);
    if r > 0 {
        lemma_mul_is_distributive_add(d, q, 1);
        lemma_mul_basics(d);
        lemma_mul_is_commutative(d, q + 1);
        lemma_fundamental_div_mod_converse(x + d - 1, d, q + 1, r - 1);
    } else {
        lemma_fundamental_div_mod_converse(x + d - 1, d, q, d - 1);
    }
}

/// A block inside the device maps to a segment inside the bitmap.
proof fn lemma_seg_in_range(lbn: int, num_blocks: int, block_len: int, segment_size: int)
    requires
        block_len > 0,
        segment_size > 0,
        num_blocks > 0,
        0 <= lbn < num_blocks,
    ensures
        0 <= spec_lbn_to_seg(lbn, block_len, segment_size) < spec_num_segments(
            num_blocks,
            block_len,
            segment_size,
        ),
{
    let x = lbn * block_len;
    let total = num_blocks * block_len;
    lemma_mul_nonnegative(lbn, block_len);
    // (lbn + 1) * block_len <= total, and it expands to x + block_len.
    lemma_mul_inequality(lbn + 1, num_blocks, block_len);
    lemma_mul_is_distributive_add_other_way(block_len, lbn, 1);
    lemma_mul_basics(block_len);
    assert(x + block_len <= total);
    lemma_div_pos_is_pos(x, segment_size);
    lemma_div_is_ordered(x, total - 1, segment_size);
    // (total - 1) / segment_size < num_segments.
    let q1 = (total - 1) / segment_size;
    lemma_fundamental_div_mod(total - 1, segment_size);
    lemma_mod_bound(total - 1, segment_size);
    lemma_mul_is_commutative(segment_size, q1);
    // segment_size * q1 <= total - 1, so (q1 + 1) * segment_size <= total + segment_size - 1.
    lemma_mul_is_distributive_add_other_way(segment_size, q1, 1);
    lemma_mul_basics(segment_size);
    lemma_div_pos_is_pos(total - 1, segment_size);
    lemma_div_by_multiple(q1 + 1, segment_size);
    lemma_div_is_ordered((q1 + 1) * segment_size, total + segment_size - 1, segment_size);
}

/// Segment index grows with the block index.
proof fn lemma_seg_monotonic(a: int, b: int, block_len: int, segment_size: int)
    requires
        block_len > 0,
        segment_size > 0,
        0 <= a <= b,
    ensures
        spec_lbn_to_seg(a, block_len, segment_size) <= spec_lbn_to_seg(b, block_len, segment_size),
{
    lemma_mul_inequality(a, b, block_len);
    lemma_div_is_ordered(a * block_len, b * block_len, segment_size);
}

/// A count of trues never exceeds the sequence length.
proof fn lemma_count_trues_bounds(s: Seq<bool>)
    ensures
        0 <= count_trues(s) <= s.len(),
    decreases s.len(),
{
    if s.len() > 0 {
        lemma_count_trues_bounds(s.drop_last());
    }
}

/// Scaling a count of at most all segments by the segment size stays
/// within `u64`.
pub proof fn lemma_scaled_count_fits(map: SegmentMap, ones: int)
    requires
        map.wf(),
        0 <= ones <= map.spec_num_segments(),
    ensures
        ones * map.spec_segment_size() <= u64::MAX,
{
    lemma_mul_nonnegative(map.spec_num_blocks() as int, map.spec_block_len() as int);
    lemma_ones_scaled_fits(
        ones,
        map.spec_num_segments() as int,
        map.spec_num_blocks() as int,
        map.spec_block_len() as int,
        map.spec_segment_size() as int,
    );
}

/// Scaling the dirty-segment count to bytes stays within `u64`.
proof fn lemma_ones_scaled_fits(
    ones: int,
    num_segments: int,
    num_blocks: int,
    block_len: int,
    segment_size: int,
)
    requires
        block_len > 0,
        segment_size > 0,
        0 <= ones <= num_segments,
        num_segments == spec_num_segments(num_blocks, block_len, segment_size),
        num_blocks * block_len + segment_size <= u64::MAX,
        num_blocks >= 0,
    ensures
        ones * segment_size <= u64::MAX,
{
    let total = num_blocks * block_len;
    let m = total + segment_size - 1;
    lemma_mul_nonnegative(num_blocks, block_len);
    lemma_fundamental_div_mod(m, segment_size);
    lemma_mod_bound(m, segment_size);
    lemma_mul_is_commutative(segment_size, m / segment_size);
    // num_segments * segment_size <= m.
    lemma_mul_inequality(ones, num_segments, segment_size);
}

} // verus!

//! The rebuild engine: drives the recovery of a destination child from a
//! source child, one dirty segment at a time, coordinated with live writes
//! through the per-channel I/O log.
//!
//! The actual byte movement is performed by the caller; the job decides
//! which segment to copy next, accounts for what was transferred, and keeps
//! the dirty map sound: a segment is closed as clean only when no logged
//! write overlapped it, so the map always covers every write since the
//! rebuild started.

use vstd::prelude::*;
use vstd::arithmetic::div_mod::lemma_div_is_ordered;
use vstd::arithmetic::mul::{lemma_mul_inequality, lemma_mul_nonnegative};
use crate::io_types::IoRecord;
use crate::segment_map::{count_trues, lemma_count_trues_le_len, lemma_count_trues_pointwise_le,
    SegmentMap};

verus! {

/// State of a rebuild job.  `Init` precedes the first start; `Running` and
/// `Paused` alternate; `Completed`, `Stopped` and `Failed` are terminal.
#[derive(Clone, Copy, Debug, PartialEq, Eq, Structural)]
pub enum RebuildState {
    Init,
    Running,
    Paused,
    Stopped,
    Failed,
    Completed,
}

impl RebuildState {
    /// A terminal state is never left.
    pub open spec fn is_terminal(self) -> bool {
        self == RebuildState::Stopped || self == RebuildState::Failed || self
            == RebuildState::Completed
    }
}

/// Errors of rebuild-job construction.
#[derive(Clone, Copy, Debug, PartialEq, Eq, Structural)]
pub enum RebuildError {
    /// The supplied dirty bitmap does not match the rebuild range.
    InvalidBitmap,
}

/// Statistics of a rebuild job.
#[derive(Clone, Copy, Debug, PartialEq, Eq, Structural)]
pub struct RebuildStats {
    /// Size of the rebuild range in blocks.
    pub blocks_total: u64,
    /// Blocks copied so far, recopies included.
    pub blocks_transferred: u64,
    /// Blocks still marked dirty.
    pub blocks_remaining: u64,
    /// Percentage of the range no longer dirty.
    pub progress: u64,
    /// Size of a block in bytes.
    pub block_size: u64,
    /// Whether the rebuild started from a supplied bitmap.
    pub is_partial: bool,
}

/// Immutable snapshot of a finished job, appended to the rebuild history.
#[derive(Clone, Debug)]
pub struct RebuildHistory {
    /// URI of the rebuilt child.
    pub child_uri: String,
    /// URI of the source child.
    pub src_uri: String,
    /// Size of the rebuild range in blocks.
    pub blocks_total: u64,
    /// Blocks copied over the life of the job.
    pub blocks_transferred: u64,
    /// Terminal state of the job.
    pub state: RebuildState,
    /// Size of a block in bytes.
    pub block_size: u64,
    /// Whether the rebuild started from a supplied bitmap.
    pub is_partial: bool,
    /// When the job started, in the caller's clock.
    pub start_time: u64,
    /// When the job ended, in the caller's clock.
    pub end_time: u64,
}

/// A write record overlaps a segment's block range.
pub open spec fn record_overlaps_seg(rec: IoRecord, seg: int, seg_blks: int) -> bool {
    rec.offset < (seg + 1) * seg_blks && seg * seg_blks < rec.offset + rec.num_blocks
}

/// Some logged write overlaps the segment.
pub open spec fn log_overlaps_seg(log: Seq<IoRecord>, seg: int, seg_blks: int) -> bool {
    exists|i: int| 0 <= i < log.len() && record_overlaps_seg(log[i], seg, seg_blks)
}

/// A rebuild job: copies dirty segments of a range from a source child to
/// a destination child.
pub struct RebuildJob {
    /// URI of the source child.
    pub src_uri: String,
    /// URI of the destination child.
    pub dst_uri: String,
    /// Dirty map over the rebuild range.
    pub map: SegmentMap,
    /// State of the job.
    pub state: RebuildState,
    /// Blocks copied so far, recopies included.
    pub blocks_transferred: u64,
    /// Whether the job started from a supplied bitmap.
    pub is_partial: bool,
}

impl RebuildJob {
    /// Well-formedness: the map is sound for the range, segments are a
    /// whole number of blocks, and the counters stay in range.
    pub open spec fn wf(self) -> bool {
        &&& self.map.wf()
        &&& self.map.spec_num_blocks() > 0
        &&& self.map.spec_segment_size() as int % self.map.spec_block_len() as int == 0
        &&& self.map.spec_num_blocks() as int <= u64::MAX as int / 100
    }

    /// Size of the rebuild range in blocks.
    pub open spec fn spec_blocks_total(self) -> u64 {
        self.map.spec_num_blocks()
    }

    /// Blocks still dirty, as the map counts them.
    pub open spec fn spec_dirty_blocks(self) -> int {
        self.map.spec_dirty_blocks()
    }

    /// Size of a segment in blocks.
    pub open spec fn spec_seg_blks(self) -> int {
        self.map.spec_segment_size() as int / self.map.spec_block_len() as int
    }

    /// Everything of the job but the map, the state, and the transfer
    /// counter.
    pub open spec fn same_identity(self, other: RebuildJob) -> bool {
        &&& self.src_uri@ == other.src_uri@
        &&& self.dst_uri@ == other.dst_uri@
        &&& self.is_partial == other.is_partial
        &&& self.map.same_dims(other.map)
    }

    /// Creates a job over `num_blocks` blocks of `block_len` bytes with
    /// segments of `segment_size` bytes.  Without a bitmap every segment
    /// is dirty (a full rebuild); with one, only the marked segments are
    /// copied (a partial rebuild).  A bitmap of another geometry is
    /// rejected, and nothing else is.
    pub fn new(
        src_uri: String,
        dst_uri: String,
        num_blocks: u64,
        block_len: u64,
        segment_size: u64,
        bitmap: Option<SegmentMap>,
    ) -> (r: Result<RebuildJob, RebuildError>)
        requires
            block_len > 0,
            segment_size > 0,
            num_blocks > 0,
            segment_size % block_len == 0,
            num_blocks <= u64::MAX / 100,
            num_blocks * block_len + segment_size <= u64::MAX,
            crate::segment_map::spec_num_segments(
                num_blocks as int,
                block_len as int,
                segment_size as int,
            ) <= usize::MAX,
            bitmap matches Some(m) ==> m.wf(),
        ensures
            match r {
                Ok(job) => {
                    &&& job.wf()
                    &&& job.state == RebuildState::Init
                    &&& job.blocks_transferred == 0
                    &&& job.src_uri@ == src_uri@
                    &&& job.dst_uri@ == dst_uri@
                    &&& job.map.spec_num_blocks() == num_blocks
                    &&& job.map.spec_block_len() == block_len
                    &&& job.map.spec_segment_size() == segment_size
                    &&& match bitmap {
                        Some(m) => job.is_partial && job.map.bits() == m.bits(),
                        None => !job.is_partial && (forall|i: int|
                            0 <= i < job.map.bits().len() ==> #[trigger] job.map.bits()[i]),
                    }
                },
                Err(e) => {
                    &&& e == RebuildError::InvalidBitmap
                    &&& (bitmap matches Some(m) && !(m.spec_num_blocks() == num_blocks
                        && m.spec_block_len() == block_len && m.spec_segment_size()
                        == segment_size))
                },
            },
    {
        let (map, is_partial) = match bitmap {
            Some(m) => {
                if m.size_blks() != num_blocks || m.block_len() != block_len || m.segment_size()
                    != segment_size {
                    return Err(RebuildError::InvalidBitmap);
                }
                (m, true)
            },
            None => (SegmentMap::new_filled(num_blocks, block_len, segment_size, true), false),
        };
        Ok(
            RebuildJob {
                src_uri,
                dst_uri,
                map,
                state: RebuildState::Init,
                blocks_transferred: 0,
                is_partial,
            },
        )
    }

    /// Starts the job.
    pub fn start(&mut self)
        requires
            old(self).state == RebuildState::Init,
        ensures
            *final(self) == (RebuildJob { state: RebuildState::Running, ..*old(self) }),
    {
        self.state = RebuildState::Running;
    }

    /// Pauses a running job at a segment boundary; nothing is lost.
    pub fn pause(&mut self)
        requires
            old(self).state == RebuildState::Running,
        ensures
            *final(self) == (RebuildJob { state: RebuildState::Paused, ..*old(self) }),
    {
        self.state = RebuildState::Paused;
    }

    /// Resumes a paused job where it stood; nothing is retransferred.
    pub fn resume(&mut self)
        requires
            old(self).state == RebuildState::Paused,
        ensures
            *final(self) == (RebuildJob { state: RebuildState::Running, ..*old(self) }),
    {
        self.state = RebuildState::Running;
    }

    /// Stops the job; terminal.
    pub fn stop(&mut self)
        requires
            !old(self).state.is_terminal(),
        ensures
            *final(self) == (RebuildJob { state: RebuildState::Stopped, ..*old(self) }),
    {
        self.state = RebuildState::Stopped;
    }

    /// Records an unrecoverable child error; terminal.
    pub fn fail(&mut self)
        requires
            !old(self).state.is_terminal(),
        ensures
            *final(self) == (RebuildJob { state: RebuildState::Failed, ..*old(self) }),
    {
        self.state = RebuildState::Failed;
    }

    /// The next segment to copy: the first dirty one, or `None` when the
    /// map is clean.
    pub fn next_dirty_segment(&self) -> (r: Option<u64>)
        requires
            self.wf(),
        ensures
            match r {
                Some(seg) => {
                    &&& seg < self.map.bits().len()
                    &&& self.map.bits()[seg as int]
                    &&& forall|t: int| 0 <= t < seg ==> !self.map.bits()[t]
                },
                None => forall|t: int| 0 <= t < self.map.bits().len() ==> !self.map.bits()[t],
            },
    {
        let n = self.map.num_segments();
        let mut s: u64 = 0;
        while s < n
            invariant
                self.wf(),
                n == self.map.bits().len(),
                0 <= s <= n,
                forall|t: int| 0 <= t < s ==> !self.map.bits()[t],
            decreases n - s,
        {
            if let Some(bit) = self.map.get_seg(s) {
                if bit {
                    return Some(s);
                }
            }
            s = s + 1;
        }
        None
    }

    /// Closes a copied segment: the transfer counter grows by one segment
    /// of blocks, and the segment turns clean unless a logged write
    /// overlapped it, in which case it stays dirty and will be recopied.
    /// Either way the dirty size of the map does not grow.
    pub fn segment_copied(&mut self, seg: u64, io_log: &Vec<IoRecord>)
        requires
            old(self).wf(),
            old(self).state == RebuildState::Running,
            seg < old(self).map.bits().len(),
            old(self).blocks_transferred + old(self).spec_seg_blks() <= u64::MAX,
        ensures
            final(self).wf(),
            final(self).same_identity(*old(self)),
            final(self).state == old(self).state,
            final(self).blocks_transferred == old(self).blocks_transferred + old(
                self,
            ).spec_seg_blks(),
            final(self).map.bits() == if log_overlaps_seg(
                io_log@,
                seg as int,
                old(self).spec_seg_blks(),
            ) {
                old(self).map.bits()
            } else {
                old(self).map.bits().update(seg as int, false)
            },
            final(self).spec_dirty_blocks() <= old(self).spec_dirty_blocks(),
    {
        let seg_blks = self.map.segment_size_blks();
        proof {
            let ss = self.map.spec_segment_size() as int;
            let bl = self.map.spec_block_len() as int;
            let segs = self.map.spec_num_segments() as int;
            vstd::arithmetic::div_mod::lemma_div_nonincreasing(ss, bl);
            vstd::arithmetic::div_mod::lemma_div_pos_is_pos(ss, bl);
            vstd::arithmetic::mul::lemma_mul_upper_bound(seg as int + 1, segs, ss / bl, ss);
            crate::segment_map::lemma_scaled_count_fits(self.map, segs);
        }
        proof {
            vstd::arithmetic::div_mod::lemma_fundamental_div_mod(
                self.map.spec_segment_size() as int,
                self.map.spec_block_len() as int,
            );
        }
        let overlaps = log_overlaps(io_log, seg, seg_blks);
        if !overlaps {
            self.map.set_seg(seg, false);
        }
        self.blocks_transferred = self.blocks_transferred + seg_blks;
        proof {
            let a = self.map.bits();
            let b = old(self).map.bits();
            assert(a.len() == b.len());
            assert(forall|i: int| 0 <= i < a.len() ==> (a[i] ==> b[i]));
            lemma_count_trues_pointwise_le(a, b);
            lemma_mul_inequality(
                count_trues(a),
                count_trues(b),
                self.map.spec_segment_size() as int,
            );
            lemma_div_is_ordered(
                count_trues(a) * self.map.spec_segment_size(),
                count_trues(b) * self.map.spec_segment_size(),
                self.map.spec_block_len() as int,
            );
            lemma_count_trues_le_len(a);
            lemma_mul_nonnegative(count_trues(a), self.map.spec_segment_size() as int);
        }
    }

    /// Re-dirties the segments a live write touched, so the rebuild will
    /// copy them again: the map keeps covering every write since the
    /// rebuild started.
    pub fn mark_dirty(&mut self, lbn: u64, lbn_cnt: u64)
        requires
            old(self).wf(),
            lbn_cnt > 0,
            lbn + lbn_cnt <= old(self).spec_blocks_total(),
        ensures
            final(self).wf(),
            final(self).same_identity(*old(self)),
            final(self).state == old(self).state,
            final(self).blocks_transferred == old(self).blocks_transferred,
            final(self).map.bits().len() == old(self).map.bits().len(),
            forall|i: int|
                0 <= i < final(self).map.bits().len() ==> final(self).map.bits()[i] == if old(
                    self,
                ).map.seg_of(lbn as int) <= i <= old(self).map.seg_of(lbn + lbn_cnt - 1) {
                    true
                } else {
                    old(self).map.bits()[i]
                },
    {
        self.map.set(lbn, lbn_cnt, true);
    }

    /// Completes the job when nothing is dirty any more: returns whether
    /// it did.
    pub fn try_complete(&mut self) -> (done: bool)
        requires
            old(self).wf(),
            old(self).state == RebuildState::Running,
        ensures
            final(self).wf(),
            done == (old(self).spec_dirty_blocks() == 0),
            done ==> *final(self) == (RebuildJob {
                state: RebuildState::Completed,
                ..*old(self)
            }),
            !done ==> *final(self) == *old(self),
    {
        if self.map.count_dirty_blks() == 0 {
            self.state = RebuildState::Completed;
            true
        } else {
            false
        }
    }

    /// Statistics of the job as they stand.
    pub fn stats(&self) -> (r: RebuildStats)
        requires
            self.wf(),
        ensures
            r.blocks_total == self.spec_blocks_total(),
            r.blocks_transferred == self.blocks_transferred,
            r.blocks_remaining == self.spec_dirty_blocks(),
            r.block_size == self.map.spec_block_len(),
            r.is_partial == self.is_partial,
            r.progress == (self.spec_blocks_total() - (if self.spec_dirty_blocks()
                > self.spec_blocks_total() {
                self.spec_blocks_total() as int
            } else {
                self.spec_dirty_blocks()
            })) * 100 / (self.spec_blocks_total() as int),
    {
        let total = self.map.size_blks();
        let remaining = self.map.count_dirty_blks();
        let covered = if remaining > total {
            0
        } else {
            total - remaining
        };
        proof {
            lemma_mul_nonnegative(covered as int, 100);
            vstd::arithmetic::mul::lemma_mul_upper_bound(
                covered as int,
                u64::MAX as int / 100,
                100,
                100,
            );
            vstd::arithmetic::div_mod::lemma_div_pos_is_pos(covered as int * 100, total as int);
        }
        let progress = covered * 100 / total;
        RebuildStats {
            blocks_total: total,
            blocks_transferred: self.blocks_transferred,
            blocks_remaining: remaining,
            progress,
            block_size: self.map.block_len(),
            is_partial: self.is_partial,
        }
    }

    /// Snapshots a finished job for the rebuild history.
    pub fn history_record(&self, start_time: u64, end_time: u64) -> (r: RebuildHistory)
        requires
            self.wf(),
            self.state.is_terminal(),
        ensures
            r.child_uri@ == self.dst_uri@,
            r.src_uri@ == self.src_uri@,
            r.blocks_total == self.spec_blocks_total(),
            r.blocks_transferred == self.blocks_transferred,
            r.state == self.state,
            r.block_size == self.map.spec_block_len(),
            r.is_partial == self.is_partial,
            r.start_time == start_time,
            r.end_time == end_time,
    {
        RebuildHistory {
            child_uri: self.dst_uri.as_str().to_owned(),
            src_uri: self.src_uri.as_str().to_owned(),
            blocks_total: self.map.size_blks(),
            blocks_transferred: self.blocks_transferred,
            state: self.state,
            block_size: self.map.block_len(),
            is_partial: self.is_partial,
            start_time,
            end_time,
        }
    }
}

/// Whether any logged write overlaps the segment.
fn log_overlaps(io_log: &Vec<IoRecord>, seg: u64, seg_blks: u64) -> (r: bool)
    requires
        seg_blks > 0,
        (seg + 1) * seg_blks <= u64::MAX,
    ensures
        r == log_overlaps_seg(io_log@, seg as int, seg_blks as int),
{
    let n = io_log.len();
    let mut i: usize = 0;
    proof {
        lemma_mul_nonnegative(seg as int, seg_blks as int);
        lemma_mul_inequality(seg as int, seg as int + 1, seg_blks as int);
    }
    proof {
        vstd::arithmetic::mul::lemma_mul_is_distributive_add_other_way(
            seg_blks as int,
            seg as int,
            1,
        );
        vstd::arithmetic::mul::lemma_mul_basics(seg_blks as int);
    }
    let seg_start = seg * seg_blks;
    let seg_end = seg_start + seg_blks;
    while i < n
        invariant
            n == io_log@.len(),
            0 <= i <= n,
            seg_start == seg * seg_blks,
            seg_end == (seg + 1) * seg_blks,
            forall|t: int|
                0 <= t < i ==> !record_overlaps_seg(io_log@[t], seg as int, seg_blks as int),
        decreases n - i,
    {
        let rec = io_log[i];
        let hits_low = rec.offset < seg_end;
        let hits_high = if rec.num_blocks > u64::MAX - rec.offset {
            true
        } else {
            seg_start < rec.offset + rec.num_blocks
        };
        if hits_low && hits_high {
            proof {
                assert(record_overlaps_seg(io_log@[i as int], seg as int, seg_blks as int));
            }
            return true;
        }
        i = i + 1;
    }
    false
}

} // verus!

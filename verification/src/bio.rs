//! Per-I/O context of the nexus: fan-out over the channel's writers,
//! single-reader dispatch with failover, completion accounting, and the
//! fault pipeline driven from child completion statuses.
//!
//! Submission outcomes are inputs here: the caller performs the actual child
//! submissions and hands in, per candidate child, whether the submission was
//! accepted.  Everything that the nexus decides from those outcomes is
//! verified for every possible outcome.

use vstd::prelude::*;
use vstd::arithmetic::div_mod::lemma_add_mod_noop_right;
use crate::channel::NexusChannel;
use crate::io_types::{CoreError, Errno, FaultReason, GenericStatusCode, IoCompletionStatus,
    IoStatus, IoType, LvolFailure, NvmeStatus};
use crate::nexus::{Child, ChildRole, Nexus};

verus! {

/// Length of the longest prefix of `s` whose entries all equal `v`.
pub open spec fn leading_count(s: Seq<bool>, v: bool) -> int
    decreases s.len(),
{
    if s.len() == 0 {
        0
    } else if s[0] != v {
        0
    } else {
        1 + leading_count(s.subrange(1, s.len() as int), v)
    }
}

/// The child a read attempt lands on: attempt `j` picks the `j`-th reader
/// after the channel's cursor, round-robin.
pub open spec fn read_pick(ch: NexusChannel, j: int) -> usize {
    ch.readers@[(ch.prev_reader + 1 + j) % (ch.readers@.len() as int)]
}

/// Every child index the channel refers to lies inside the child table.
pub open spec fn ch_indices_bounded(ch: NexusChannel, n: int) -> bool {
    &&& (forall|x: usize| ch.readers@.contains(x) ==> x < n)
    &&& (forall|x: usize| ch.writers@.contains(x) ==> x < n)
}

/// The parts of a nexus an I/O never touches, and the queue only grows.
pub open spec fn nexus_io_frame(pre: Nexus, post: Nexus) -> bool {
    &&& post.name@ == pre.name@
    &&& post.num_blocks == pre.num_blocks
    &&& post.block_len == pre.block_len
    &&& post.data_ent_offset == pre.data_ent_offset
    &&& post.state == pre.state
    &&& post.children@.len() == pre.children@.len()
    &&& post.spec_queue().len() >= pre.spec_queue().len()
    &&& post.spec_queue().take(pre.spec_queue().len() as int) == pre.spec_queue()
}

/// The child was faulted with the given reason, or had been faulted before
/// and is untouched.
pub open spec fn child_faulted_from(pre: Child, post: Child, reason: FaultReason) -> bool {
    &&& post.uri@ == pre.uri@
    &&& post.device_name@ == pre.device_name@
    &&& post.role == ChildRole::Faulted
    &&& pre.role == ChildRole::Faulted ==> post == pre
    &&& pre.role != ChildRole::Faulted ==> post.fault_reason == Some(reason)
}

/// Why a child completion faults its device.
pub open spec fn fault_reason_of(status: IoCompletionStatus) -> FaultReason {
    if status == IoCompletionStatus::LvolError(LvolFailure::NoSpace) {
        FaultReason::NoSpace
    } else {
        FaultReason::IoError
    }
}

/// Per-I/O context: one exists for every in-flight logical I/O of a nexus.
pub struct NexusBio {
    /// Type of the logical I/O.
    pub io_type: IoType,
    /// Offset of the I/O in blocks, in the nexus address space.
    pub offset: u64,
    /// Length of the I/O in blocks.
    pub num_blocks: u64,
    /// Child submissions not yet completed.  The I/O may never be freed
    /// until this counter drops to zero.
    pub in_flight: u8,
    /// Intermediate status of the I/O.
    pub status: IoStatus,
    /// Sticky latch: once set, the I/O is never reported successful; it
    /// either fails or is resubmitted from a fresh context.
    pub must_fail: bool,
    /// Child submissions accepted over the life of this context.
    pub submitted: u8,
    /// Child completions that reported success.
    pub child_ok: u8,
    /// The logical completion: `None` until one is emitted, then
    /// `Some(true)` for success or `Some(false)` for failure, exactly once.
    pub completed: Option<bool>,
    /// A fresh resubmission of the same logical I/O was requested.
    pub retry: bool,
}

impl NexusBio {
    /// The completion-accounting invariant.  It carries the completion
    /// discipline: a logical completion is emitted only at `in_flight`
    /// zero, success is emitted only when no failure was latched, and a
    /// successful write-class I/O saw at least one child success while a
    /// successful read saw exactly one.
    pub open spec fn inv(self) -> bool {
        &&& self.completed is Some ==> self.in_flight == 0
        &&& self.completed == Some(true) ==> !self.must_fail
        &&& self.completed == Some(true) && self.io_type.is_write_class() ==> self.child_ok >= 1
        &&& self.completed == Some(true) && self.io_type == IoType::Read ==> self.child_ok == 1
        &&& self.child_ok + self.in_flight <= self.submitted
        &&& self.io_type == IoType::Read ==> self.submitted <= 1
        &&& self.retry ==> self.in_flight == 0 && self.completed is None
    }

    /// A context that has not submitted anything yet.
    pub open spec fn fresh(self) -> bool {
        &&& self.in_flight == 0
        &&& self.status == IoStatus::Pending
        &&& !self.must_fail
        &&& self.submitted == 0
        &&& self.child_ok == 0
        &&& self.completed is None
        &&& !self.retry
    }

    /// The fields that name the logical I/O.
    pub open spec fn same_io(self, other: NexusBio) -> bool {
        &&& self.io_type == other.io_type
        &&& self.offset == other.offset
        &&& self.num_blocks == other.num_blocks
    }

    /// A fresh per-I/O context.  A retry constructs a fresh context for the
    /// same logical I/O; the failure latch does not survive it.
    pub fn new(io_type: IoType, offset: u64, num_blocks: u64) -> (r: NexusBio)
        ensures
            r.inv(),
            r.fresh(),
            r.io_type == io_type,
            r.offset == offset,
            r.num_blocks == num_blocks,
    {
        NexusBio {
            io_type,
            offset,
            num_blocks,
            in_flight: 0,
            status: IoStatus::Pending,
            must_fail: false,
            submitted: 0,
            child_ok: 0,
            completed: None,
            retry: false,
        }
    }

    /// Dispatches the I/O by type: reads go to one reader with failover,
    /// write-class I/Os to every writer, a flush completes at once, and
    /// admin or unknown opcodes fail.
    ///
    /// `submit_ok[j]` is the outcome the `j`-th child submission would
    /// meet; entries beyond the ones used are ignored.
    pub fn submit_request(
        &mut self,
        nexus: &mut Nexus,
        ch: &mut NexusChannel,
        submit_ok: &Vec<bool>,
    ) -> (r: Result<(), CoreError>)
        requires
            old(self).inv(),
            old(self).fresh(),
            old(nexus).wf(),
            old(ch).wf(),
            ch_indices_bounded(*old(ch), old(nexus).spec_children().len() as int),
            old(self).io_type == IoType::Read ==> submit_ok@.len() == old(ch).readers@.len(),
            old(self).io_type.is_write_class() ==> submit_ok@.len() == old(ch).writers@.len(),
        ensures
            final(self).inv(),
            final(nexus).wf(),
            final(ch).wf(),
            final(self).same_io(*old(self)),
            old(self).io_type == IoType::Read ==> read_rel(
                *old(self),
                *final(self),
                *old(nexus),
                *final(nexus),
                *old(ch),
                *final(ch),
                submit_ok@,
                r,
            ),
            old(self).io_type.is_write_class() ==> write_rel(
                *old(self),
                *final(self),
                *old(nexus),
                *final(nexus),
                *old(ch),
                *final(ch),
                submit_ok@,
                r,
            ),
            old(self).io_type == IoType::Flush ==> r is Ok && *final(nexus) == *old(nexus)
                && *final(ch) == *old(ch) && final(self).completed == Some(true),
            old(self).io_type == IoType::NvmeAdmin ==> r == Err::<(), CoreError>(
                CoreError::NotSupported { source: Errno::Einval },
            ) && *final(nexus) == *old(nexus) && *final(ch) == *old(ch) && final(self).completed
                == Some(false),
            old(self).io_type == IoType::Unknown ==> r == Err::<(), CoreError>(
                CoreError::NotSupported { source: Errno::Eopnotsupp },
            ) && *final(nexus) == *old(nexus) && *final(ch) == *old(ch) && final(self).completed
                == Some(false),
    {
        match self.io_type {
            IoType::Read => self.do_readv(nexus, ch, submit_ok),
            IoType::Write => self.submit_all(nexus, ch, submit_ok),
            IoType::WriteZeros => self.submit_all(nexus, ch, submit_ok),
            IoType::Unmap => self.submit_all(nexus, ch, submit_ok),
            IoType::Reset => self.submit_all(nexus, ch, submit_ok),
            IoType::Flush => {
                self.completed = Some(true);
                Ok(())
            },
            IoType::NvmeAdmin => {
                self.completed = Some(false);
                Err(CoreError::NotSupported { source: Errno::Einval })
            },
            IoType::Unknown => {
                self.completed = Some(false);
                Err(CoreError::NotSupported { source: Errno::Eopnotsupp })
            },
        }
    }

    /// Submits a read to the reader after the cursor; on a submission
    /// error the chosen device is faulted and the next reader is tried, and
    /// when no reader accepts, the logical I/O fails.  With no reader at
    /// all it fails at once, without retrying.
    #[verifier::loop_isolation(false)]
    pub fn do_readv(
        &mut self,
        nexus: &mut Nexus,
        ch: &mut NexusChannel,
        submit_ok: &Vec<bool>,
    ) -> (r: Result<(), CoreError>)
        requires
            old(self).inv(),
            old(self).fresh(),
            old(self).io_type == IoType::Read,
            old(nexus).wf(),
            old(ch).wf(),
            ch_indices_bounded(*old(ch), old(nexus).spec_children().len() as int),
            submit_ok@.len() == old(ch).readers@.len(),
        ensures
            final(self).inv(),
            final(nexus).wf(),
            final(ch).wf(),
            final(self).same_io(*old(self)),
            read_rel(
                *old(self),
                *final(self),
                *old(nexus),
                *final(nexus),
                *old(ch),
                *final(ch),
                submit_ok@,
                r,
            ),
    {
        let r_cnt = ch.num_readers();
        if r_cnt == 0 {
            self.completed = Some(false);
            return Err(CoreError::NoDevicesAvailable);
        }
        let ghost ch0 = *ch;
        let ghost nx0 = *nexus;
        let ghost f = leading_count(submit_ok@, false);
        proof {
            vstd::arithmetic::div_mod::lemma_small_mod(ch0.prev_reader as nat, r_cnt as nat);
            assert(nx0.spec_queue().take(nx0.spec_queue().len() as int) =~= nx0.spec_queue());
        }
        let mut j: usize = 0;
        while j < r_cnt
            invariant
                self.inv(),
                self.fresh(),
                *self == *old(self),
                nexus.wf(),
                ch.wf(),
                ch0.wf(),
                0 <= j <= r_cnt,
                r_cnt == ch0.readers@.len(),
                submit_ok@.len() == r_cnt,
                ch0.prev_reader < r_cnt,
                *ch == (NexusChannel { prev_reader: ch.prev_reader, ..ch0 }),
                ch.prev_reader as int == (ch0.prev_reader + j) % (r_cnt as int),
                ch_indices_bounded(*ch, nexus.spec_children().len() as int),
                forall|t: int| 0 <= t < j ==> !submit_ok@[t],
                nexus.spec_children().len() == nx0.spec_children().len(),
                nexus_io_frame(nx0, *nexus),
                nexus.shutdown_requested == nx0.shutdown_requested,
                forall|t: int|
                    0 <= t < j ==> child_faulted_from(
                        nx0.spec_children()[read_pick(ch0, t) as int],
                        #[trigger] nexus.spec_children()[read_pick(ch0, t) as int],
                        FaultReason::IoError,
                    ),
                forall|c: int|
                    0 <= c < nx0.spec_children().len() && (forall|t: int|
                        0 <= t < j ==> read_pick(ch0, t) != c) ==> #[trigger] nexus.spec_children()[c]
                        == nx0.spec_children()[c],
            decreases r_cnt - j,
        {
            proof {
                lemma_add_mod_noop_right(1, ch0.prev_reader + j, r_cnt as int);
            }
            let picked = match ch.select_reader() {
                Some(p) => p,
                // Readers are non-empty and untouched here, so selection
                // cannot come back empty.
                None => vstd::pervasive::unreached(),
            };
            proof {
                assert(ch.readers@.contains(picked));
                assert(picked == read_pick(ch0, j as int));
            }
            if submit_ok[j] {
                self.in_flight = 1;
                self.submitted = 1;
                proof {
                    lemma_leading_count_from_prefix(submit_ok@, false, j as int);
                }
                return Ok(());
            }
            let ghost q_pre = nexus.spec_queue();
            let ghost nxp = *nexus;
            nexus.fault_child(picked, FaultReason::IoError);
            proof {
                assert(nexus.spec_queue().take(q_pre.len() as int) =~= q_pre);
                assert(nexus.spec_queue().take(nx0.spec_queue().len() as int)
                    =~= nx0.spec_queue());
                assert forall|t: int| 0 <= t <= j implies child_faulted_from(
                    nx0.spec_children()[read_pick(ch0, t) as int],
                    #[trigger] nexus.spec_children()[read_pick(ch0, t) as int],
                    FaultReason::IoError,
                ) by {
                    vstd::arithmetic::div_mod::lemma_mod_bound(
                        ch0.prev_reader + 1 + t,
                        r_cnt as int,
                    );
                    assert(ch0.readers@.contains(read_pick(ch0, t)));
                    let pt = read_pick(ch0, t) as int;
                    if t < j {
                        assert(child_faulted_from(
                            nx0.spec_children()[pt],
                            nxp.spec_children()[pt],
                            FaultReason::IoError,
                        ));
                        if pt == picked as int {
                            assert(nxp.spec_children()[pt].role == ChildRole::Faulted);
                        }
                    } else {
                        assert(pt == picked as int);
                        if (forall|u: int| 0 <= u < j ==> read_pick(ch0, u) != picked) {
                            assert(nxp.spec_children()[pt] == nx0.spec_children()[pt]);
                        } else {
                            let u = choose|u: int|
                                0 <= u < j && read_pick(ch0, u) == picked;
                            assert(child_faulted_from(
                                nx0.spec_children()[pt],
                                nxp.spec_children()[pt],
                                FaultReason::IoError,
                            ));
                            assert(nxp.spec_children()[pt].role == ChildRole::Faulted);
                        }
                    }
                }
                assert forall|c: int|
                    0 <= c < nx0.spec_children().len() && (forall|t: int|
                        0 <= t <= j ==> read_pick(ch0, t) != c)
                    implies #[trigger] nexus.spec_children()[c] == nx0.spec_children()[c] by {
                    assert(nxp.spec_children()[c] == nx0.spec_children()[c]);
                    assert(c != picked as int);
                }
            }
            j = j + 1;
        }
        proof {
            lemma_leading_count_from_prefix(submit_ok@, false, r_cnt as int);
        }
        self.completed = Some(false);
        Err(CoreError::ReadDispatch { source: Errno::Enxio })
    }

    /// Submits a write-class I/O to every writer, stopping at the first
    /// submission error.  On an error the offending device is disconnected
    /// from the channel and faulted, and the failure latch is set; child
    /// I/Os already accepted are still awaited before the logical I/O can
    /// complete.
    pub fn submit_all(
        &mut self,
        nexus: &mut Nexus,
        ch: &mut NexusChannel,
        submit_ok: &Vec<bool>,
    ) -> (r: Result<(), CoreError>)
        requires
            old(self).inv(),
            old(self).fresh(),
            old(self).io_type.is_write_class(),
            old(nexus).wf(),
            old(ch).wf(),
            ch_indices_bounded(*old(ch), old(nexus).spec_children().len() as int),
            submit_ok@.len() == old(ch).writers@.len(),
        ensures
            final(self).inv(),
            final(nexus).wf(),
            final(ch).wf(),
            final(self).same_io(*old(self)),
            write_rel(
                *old(self),
                *final(self),
                *old(nexus),
                *final(nexus),
                *old(ch),
                *final(ch),
                submit_ok@,
                r,
            ),
    {
        let n = ch.num_writers();
        let mut inflight: u8 = 0;
        let mut failed_at: Option<usize> = None;
        let mut i: usize = 0;
        while i < n && failed_at.is_none()
            invariant
                n == ch.writers@.len() <= 255,
                submit_ok@.len() == n,
                0 <= i <= n,
                inflight == i,
                forall|t: int| 0 <= t < i ==> submit_ok@[t],
                failed_at matches Some(k) ==> i < n && k == i && !submit_ok@[i as int],
            decreases n - i, (if failed_at.is_none() { 1int } else { 0int }),
        {
            if submit_ok[i] {
                inflight = inflight + 1;
                i = i + 1;
            } else {
                failed_at = Some(i);
            }
        }
        proof {
            if failed_at is None {
                lemma_leading_count_from_prefix(submit_ok@, true, n as int);
            }
            assert(old(nexus).spec_queue().take(old(nexus).spec_queue().len() as int)
                =~= old(nexus).spec_queue());
        }
        match failed_at {
            Some(k) => {
                proof {
                    lemma_leading_count_from_prefix(submit_ok@, true, k as int);
                }
                self.must_fail = true;
                let widx = ch.writers[k];
                proof {
                    assert(ch.writers@.contains(widx));
                }
                ch.disconnect_device(widx);
                nexus.fault_child(widx, FaultReason::IoError);
                proof {
                    assert(nexus.spec_queue().take(old(nexus).spec_queue().len() as int)
                        =~= old(nexus).spec_queue());
                }
                if inflight != 0 {
                    self.in_flight = inflight;
                    self.submitted = inflight;
                    self.status = IoStatus::Success;
                    Err(CoreError::WriteDispatch { source: Errno::Enxio })
                } else {
                    self.completed = Some(false);
                    Err(CoreError::WriteDispatch { source: Errno::Enxio })
                }
            },
            None => {
                if inflight != 0 {
                    self.in_flight = inflight;
                    self.submitted = inflight;
                    self.status = IoStatus::Success;
                    Ok(())
                } else {
                    self.completed = Some(false);
                    Ok(())
                }
            },
        }
    }

    /// Folds one child completion into the I/O.
    ///
    /// On success the I/O completes successfully once every child has
    /// answered and no failure was latched; a latched failure turns the
    /// last completion into a retry request instead.  On a failure the
    /// latch is set and the fault policy runs: an invalid opcode is
    /// ignored; a reservation conflict requests nexus self-shutdown and
    /// does not fault the child; a deleted submission queue faults the
    /// child and requests a retry; any other failure faults the child and
    /// the I/O fails once nothing is left in flight.
    pub fn complete(&mut self, nexus: &mut Nexus, child: usize, status: IoCompletionStatus)
        requires
            old(self).inv(),
            old(self).in_flight > 0,
            old(self).completed is None,
            old(self).retry == false,
            old(nexus).wf(),
            child < old(nexus).spec_children().len(),
        ensures
            final(self).inv(),
            final(nexus).wf(),
            final(self).same_io(*old(self)),
            complete_rel(*old(self), *final(self), *old(nexus), *final(nexus), child, status),
    {
        self.in_flight = self.in_flight - 1;
        if matches!(status, IoCompletionStatus::Success) {
            self.child_ok = self.child_ok + 1;
            if self.in_flight == 0 {
                if self.must_fail {
                    self.retry = true;
                } else {
                    self.completed = Some(true);
                }
            }
            return ;
        }
        self.status = IoStatus::Failed;
        self.must_fail = true;
        match status {
            IoCompletionStatus::NvmeError(
                NvmeStatus::Generic(GenericStatusCode::InvalidOpcode),
            ) => {
                // Log and ignore: the device is not retired and the I/O
                // waits for its other completions.
            },
            IoCompletionStatus::NvmeError(
                NvmeStatus::Generic(GenericStatusCode::ReservationConflict),
            ) => {
                let _ = nexus.try_self_shutdown();
                if self.in_flight == 0 {
                    self.completed = Some(false);
                }
            },
            IoCompletionStatus::NvmeError(
                NvmeStatus::Generic(GenericStatusCode::AbortedSubmissionQueueDeleted),
            ) => {
                nexus.fault_child(child, FaultReason::IoError);
                proof {
                    assert(nexus.spec_queue().take(old(nexus).spec_queue().len() as int)
                        =~= old(nexus).spec_queue());
                }
                if self.in_flight == 0 {
                    self.retry = true;
                }
            },
            _ => {
                let reason = if matches!(status, IoCompletionStatus::LvolError(LvolFailure::NoSpace)) {
                    FaultReason::NoSpace
                } else {
                    FaultReason::IoError
                };
                nexus.fault_child(child, reason);
                proof {
                    assert(nexus.spec_queue().take(old(nexus).spec_queue().len() as int)
                        =~= old(nexus).spec_queue());
                }
                if self.in_flight == 0 {
                    self.completed = Some(false);
                }
            },
        }
    }
}

/// What a read dispatch did, as a relation between the states before and
/// after: with no reader it fails at once; otherwise the first `f` readers
/// after the cursor fail to accept and are faulted, and either some reader
/// accepts (one child I/O in flight) or all fail and the I/O fails.
pub open spec fn read_rel(
    bio0: NexusBio,
    bio1: NexusBio,
    nx0: Nexus,
    nx1: Nexus,
    ch0: NexusChannel,
    ch1: NexusChannel,
    outcomes: Seq<bool>,
    r: Result<(), CoreError>,
) -> bool {
    let rd = ch0.readers@.len() as int;
    let f = leading_count(outcomes, false);
    if rd == 0 {
        &&& r == Err::<(), CoreError>(CoreError::NoDevicesAvailable)
        &&& bio1.completed == Some(false)
        &&& nx1 == nx0
        &&& ch1 == ch0
    } else {
        &&& ch1 == (NexusChannel { prev_reader: ch1.prev_reader, ..ch0 })
        &&& nexus_io_frame(nx0, nx1)
        &&& nx1.shutdown_requested == nx0.shutdown_requested
        &&& (forall|t: int|
            0 <= t < f && t < rd ==> child_faulted_from(
                nx0.spec_children()[read_pick(ch0, t) as int],
                #[trigger] nx1.spec_children()[read_pick(ch0, t) as int],
                FaultReason::IoError,
            ))
        &&& (forall|c: int|
            0 <= c < nx0.spec_children().len() && (forall|t: int|
                0 <= t < f && t < rd ==> read_pick(ch0, t) != c) ==> #[trigger] nx1.spec_children()[c]
                == nx0.spec_children()[c])
        &&& if f < rd {
            &&& r is Ok
            &&& bio1.in_flight == 1
            &&& bio1.submitted == 1
            &&& bio1.completed is None
            &&& !bio1.must_fail
            &&& !bio1.retry
        } else {
            &&& r == Err::<(), CoreError>(CoreError::ReadDispatch { source: Errno::Enxio })
            &&& bio1.completed == Some(false)
            &&& bio1.in_flight == 0
        }
    }
}

/// What a write-class dispatch did: the first `k` writers accept; if every
/// writer accepted and there is at least one, the I/O waits on `k` child
/// I/Os; with no writer it fails at once; and on a submission error the
/// offending writer is disconnected and faulted, the failure latch is set,
/// and the I/O waits for the accepted child I/Os (or fails at once when
/// none was accepted).
pub open spec fn write_rel(
    bio0: NexusBio,
    bio1: NexusBio,
    nx0: Nexus,
    nx1: Nexus,
    ch0: NexusChannel,
    ch1: NexusChannel,
    outcomes: Seq<bool>,
    r: Result<(), CoreError>,
) -> bool {
    let n = ch0.writers@.len() as int;
    let k = leading_count(outcomes, true);
    if k == n {
        // Every writer accepted.
        &&& ch1 == ch0
        &&& nx1 == nx0
        &&& r is Ok
        &&& !bio1.must_fail
        &&& !bio1.retry
        &&& if n > 0 {
            &&& bio1.in_flight == n
            &&& bio1.submitted == n
            &&& bio1.status == IoStatus::Success
            &&& bio1.completed is None
        } else {
            bio1.completed == Some(false)
        }
    } else {
        // Writer k rejected the submission.
        let widx = ch0.writers@[k];
        &&& r == Err::<(), CoreError>(CoreError::WriteDispatch { source: Errno::Enxio })
        &&& bio1.must_fail
        &&& ch1.readers@ == ch0.readers@.filter(|x: usize| x != widx)
        &&& ch1.writers@ == ch0.writers@.filter(|x: usize| x != widx)
        &&& ch1.io_log@ == ch0.io_log@
        &&& nexus_io_frame(nx0, nx1)
        &&& nx1.shutdown_requested == nx0.shutdown_requested
        &&& child_faulted_from(
            nx0.spec_children()[widx as int],
            nx1.spec_children()[widx as int],
            FaultReason::IoError,
        )
        &&& (forall|c: int|
            0 <= c < nx0.spec_children().len() && c != widx ==> #[trigger] nx1.spec_children()[c]
                == nx0.spec_children()[c])
        &&& if k > 0 {
            &&& bio1.in_flight == k
            &&& bio1.submitted == k
            &&& bio1.status == IoStatus::Success
            &&& bio1.completed is None
        } else {
            &&& bio1.completed == Some(false)
            &&& bio1.in_flight == 0
        }
    }
}

/// What folding one child completion did: the in-flight counter drops by
/// one; a success counts toward the child successes and, at zero in
/// flight, emits success or (after a latched failure) requests a retry; a
/// failure latches, and faults, shuts down, or retries per the fault
/// policy.
pub open spec fn complete_rel(
    bio0: NexusBio,
    bio1: NexusBio,
    nx0: Nexus,
    nx1: Nexus,
    child: usize,
    status: IoCompletionStatus,
) -> bool {
    &&& bio1.in_flight == bio0.in_flight - 1
    &&& if status == IoCompletionStatus::Success {
        &&& nx1 == nx0
        &&& bio1.child_ok == bio0.child_ok + 1
        &&& bio1.must_fail == bio0.must_fail
        &&& bio1.status == bio0.status
        &&& if bio0.in_flight == 1 {
            if bio0.must_fail {
                bio1.retry && bio1.completed is None
            } else {
                bio1.completed == Some(true)
            }
        } else {
            bio1.completed is None && !bio1.retry
        }
    } else {
        &&& bio1.must_fail
        &&& bio1.status == IoStatus::Failed
        &&& bio1.child_ok == bio0.child_ok
        &&& match status {
            IoCompletionStatus::NvmeError(
                NvmeStatus::Generic(GenericStatusCode::InvalidOpcode),
            ) => {
                // Ignored: no retire, no completion now.
                &&& nx1 == nx0
                &&& bio1.completed is None
                &&& !bio1.retry
            },
            IoCompletionStatus::NvmeError(
                NvmeStatus::Generic(GenericStatusCode::ReservationConflict),
            ) => {
                // Self-shutdown is requested; the child is not faulted.
                &&& nx1 == (Nexus { shutdown_requested: true, ..nx0 })
                &&& !bio1.retry
                &&& bio1.completed == if bio0.in_flight == 1 {
                    Some(false)
                } else {
                    None::<bool>
                }
            },
            IoCompletionStatus::NvmeError(
                NvmeStatus::Generic(GenericStatusCode::AbortedSubmissionQueueDeleted),
            ) => {
                // Fault the device and retry the I/O from scratch.
                &&& faulted_only(nx0, nx1, child as int, FaultReason::IoError)
                &&& bio1.completed is None
                &&& bio1.retry == (bio0.in_flight == 1)
            },
            _ => {
                &&& faulted_only(nx0, nx1, child as int, fault_reason_of(status))
                &&& !bio1.retry
                &&& bio1.completed == if bio0.in_flight == 1 {
                    Some(false)
                } else {
                    None::<bool>
                }
            },
        }
    }
}

/// Exactly one child was faulted (idempotently); everything else of the
/// nexus is as before, the retire queue apart, which only grows.
pub open spec fn faulted_only(nx0: Nexus, nx1: Nexus, child: int, reason: FaultReason) -> bool {
    &&& nexus_io_frame(nx0, nx1)
    &&& nx1.shutdown_requested == nx0.shutdown_requested
    &&& child_faulted_from(
        nx0.spec_children()[child],
        nx1.spec_children()[child],
        reason,
    )
    &&& (forall|c: int|
        0 <= c < nx0.spec_children().len() && c != child ==> #[trigger] nx1.spec_children()[c]
            == nx0.spec_children()[c])
}

/// At most one logical completion is emitted per I/O: every emitter
/// requires that none was emitted yet, and once one is emitted no child
/// completion is outstanding, so no code path can emit again.
pub proof fn lemma_completion_is_final(b: NexusBio)
    requires
        b.inv(),
        b.completed is Some,
    ensures
        b.in_flight == 0,
{
}

/// While child submissions are outstanding, no logical completion has been
/// emitted.
pub proof fn lemma_no_completion_while_in_flight(b: NexusBio)
    requires
        b.inv(),
        b.in_flight > 0,
    ensures
        b.completed is None,
{
}

/// A logical success was earned: the failure latch is clear, a successful
/// write-class I/O saw at least one successful child completion, and a
/// successful read saw exactly one.
pub proof fn lemma_success_had_child_success(b: NexusBio)
    requires
        b.inv(),
        b.completed == Some(true),
    ensures
        !b.must_fail,
        b.io_type.is_write_class() ==> b.child_ok >= 1,
        b.io_type == IoType::Read ==> b.child_ok == 1,
{
}

/// A pointwise-constant prefix pins the leading count: if the first `i`
/// entries equal `v` and entry `i` (if any) does not, the longest constant
/// prefix has length `i`.
proof fn lemma_leading_count_from_prefix(s: Seq<bool>, v: bool, i: int)
    requires
        0 <= i <= s.len(),
        forall|t: int| 0 <= t < i ==> s[t] == v,
        i < s.len() ==> s[i] != v,
    ensures
        leading_count(s, v) == i,
    decreases i,
{
    if i == 0 {
    } else {
        let tail = s.subrange(1, s.len() as int);
        assert(forall|t: int| 0 <= t < i - 1 ==> tail[t] == v);
        lemma_leading_count_from_prefix(tail, v, i - 1);
    }
}

} // verus!

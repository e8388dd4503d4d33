//! Per-core view of a nexus: the readers and writers materialised from the
//! child set, the round-robin reader cursor, and the I/O log that rebuild
//! coordination reads.
//!
//! Children are referred to by their index in the child table of the owning
//! nexus.

use vstd::prelude::*;
use crate::io_types::IoRecord;
use crate::nexus::{Child, ChildRole};

verus! {

broadcast use vstd::seq_lib::lemma_seq_contains_after_push;

/// Per-core channel of a nexus.
pub struct NexusChannel {
    /// Children open for reading, as indices into the child table.
    pub readers: Vec<usize>,
    /// Children open for writing, as indices into the child table.
    pub writers: Vec<usize>,
    /// Position in `readers` of the last reader handed out.
    pub prev_reader: usize,
    /// Writes logged while a rebuild is active.
    pub io_log: Vec<IoRecord>,
    /// Whether writes are being logged for a rebuild.
    pub rebuild_logging: bool,
}

impl NexusChannel {
    /// Well-formedness: every reader is also a writer, no index repeats,
    /// and the vectors fit the per-I/O `u8` accounting.
    pub open spec fn wf(self) -> bool {
        &&& self.readers@.no_duplicates()
        &&& self.writers@.no_duplicates()
        &&& (forall|x: usize| self.readers@.contains(x) ==> self.writers@.contains(x))
        &&& self.writers@.len() <= 255
        &&& self.readers@.len() == 0 || self.prev_reader < self.readers@.len()
    }

    /// The channel and the child table agree: readers hold exactly the
    /// healthy children, writers the healthy and the rebuilding ones.
    pub open spec fn matches_children(self, children: Seq<Child>) -> bool {
        &&& (forall|x: usize|
            self.writers@.contains(x) ==> x < children.len() && (children[x as int].role
                == ChildRole::Healthy || children[x as int].role == ChildRole::Rebuilding))
        &&& (forall|x: usize|
            self.readers@.contains(x) ==> x < children.len() && children[x as int].role
                == ChildRole::Healthy)
        &&& (forall|i: int|
            0 <= i < children.len() && children[i].role == ChildRole::Healthy
                ==> self.readers@.contains(i as usize) && self.writers@.contains(i as usize))
        &&& (forall|i: int|
            0 <= i < children.len() && children[i].role == ChildRole::Rebuilding
                ==> self.writers@.contains(i as usize) && !self.readers@.contains(i as usize))
    }

    /// Materialises a channel from the child table: one writer handle for
    /// every healthy or rebuilding child, one reader handle for every
    /// healthy child.  A rebuilding child appears only among the writers.
    pub fn new(children: &Vec<Child>) -> (r: NexusChannel)
        requires
            children@.len() <= 255,
        ensures
            r.wf(),
            r.matches_children(children@),
            r.readers@.len() <= r.writers@.len(),
            seq_strictly_increasing(r.readers@),
            seq_strictly_increasing(r.writers@),
            r.io_log@.len() == 0,
            !r.rebuild_logging,
            r.prev_reader == 0,
    {
        let n = children.len();
        let mut readers: Vec<usize> = Vec::new();
        let mut writers: Vec<usize> = Vec::new();
        let mut i: usize = 0;
        while i < n
            invariant
                n == children@.len() <= 255,
                0 <= i <= n,
                readers@.no_duplicates(),
                writers@.no_duplicates(),
                seq_strictly_increasing(readers@),
                seq_strictly_increasing(writers@),
                readers@.len() <= writers@.len() <= i,
                forall|x: usize| readers@.contains(x) ==> x < i,
                forall|x: usize| writers@.contains(x) ==> x < i,
                forall|x: usize| readers@.contains(x) ==> writers@.contains(x),
                forall|x: usize|
                    writers@.contains(x) ==> x < children@.len() && (children@[x as int].role
                        == ChildRole::Healthy || children@[x as int].role == ChildRole::Rebuilding),
                forall|x: usize|
                    readers@.contains(x) ==> x < children@.len() && children@[x as int].role
                        == ChildRole::Healthy,
                forall|j: int|
                    0 <= j < i && children@[j].role == ChildRole::Healthy ==> readers@.contains(
                        j as usize,
                    ) && writers@.contains(j as usize),
                forall|j: int|
                    0 <= j < i && children@[j].role == ChildRole::Rebuilding ==> writers@.contains(
                        j as usize,
                    ) && !readers@.contains(j as usize),
            decreases n - i,
        {
            let ghost r0 = readers@;
            let ghost w0 = writers@;
            match children[i].role {
                ChildRole::Healthy => {
                    writers.push(i);
                    readers.push(i);
                    proof {
                        lemma_push_larger_keeps_no_duplicates(w0, i);
                        lemma_push_larger_keeps_no_duplicates(r0, i);
                    }
                },
                ChildRole::Rebuilding => {
                    writers.push(i);
                    proof {
                        lemma_push_larger_keeps_no_duplicates(w0, i);
                    }
                },
                _ => (),
            }
            i = i + 1;
        }
        NexusChannel { readers, writers, prev_reader: 0, io_log: Vec::new(), rebuild_logging: false }
    }

    /// Number of children available for reading.
    pub fn num_readers(&self) -> (r: usize)
        ensures
            r == self.readers@.len(),
    {
        self.readers.len()
    }

    /// Number of children available for writing.
    pub fn num_writers(&self) -> (r: usize)
        ensures
            r == self.writers@.len(),
    {
        self.writers.len()
    }

    /// Position in `readers` that the next selection will return.
    pub open spec fn spec_next_reader_pos(self) -> int {
        (self.prev_reader + 1) % (self.readers@.len() as int)
    }

    /// Round-robin reader selection: the reader after the last-selected
    /// one, or `None` when no reader remains.
    pub fn select_reader(&mut self) -> (r: Option<usize>)
        requires
            old(self).wf(),
        ensures
            final(self).wf(),
            old(self).readers@.len() == 0 ==> r is None && *final(self) == *old(self),
            old(self).readers@.len() > 0 ==> {
                &&& r == Some(old(self).readers@[old(self).spec_next_reader_pos()])
                &&& final(self).prev_reader == old(self).spec_next_reader_pos()
                &&& *final(self) == (NexusChannel {
                    prev_reader: final(self).prev_reader,
                    ..*old(self)
                })
            },
    {
        let n = self.readers.len();
        if n == 0 {
            return None;
        }
        let pos = (self.prev_reader + 1) % n;
        self.prev_reader = pos;
        Some(self.readers[pos])
    }

    /// Removes a child from both vectors; selection starts over.  Calling
    /// it again for the same child changes nothing more.
    pub fn disconnect_device(&mut self, child: usize)
        requires
            old(self).wf(),
        ensures
            final(self).wf(),
            final(self).readers@ == old(self).readers@.filter(|x: usize| x != child),
            final(self).writers@ == old(self).writers@.filter(|x: usize| x != child),
            final(self).prev_reader == 0,
            final(self).io_log@ == old(self).io_log@,
            final(self).rebuild_logging == old(self).rebuild_logging,
    {
        let readers = remove_index(&self.readers, child);
        let writers = remove_index(&self.writers, child);
        proof {
            lemma_filter_keeps_no_duplicates(self.readers@, |x: usize| x != child);
            lemma_filter_keeps_no_duplicates(self.writers@, |x: usize| x != child);
            assert forall|x: usize| readers@.contains(x) implies writers@.contains(x) by {
                lemma_filter_membership(self.readers@, |x: usize| x != child, x);
                lemma_filter_membership(self.writers@, |x: usize| x != child, x);
            }
            lemma_subset_unique_seq_len(readers@, writers@);
        }
        self.readers = readers;
        self.writers = writers;
        self.prev_reader = 0;
    }

    /// Logs a write for rebuild coordination; outside an active rebuild
    /// the log stays empty.
    pub fn log_write(&mut self, offset: u64, num_blocks: u64)
        requires
            old(self).wf(),
        ensures
            final(self).wf(),
            old(self).rebuild_logging ==> final(self).io_log@ == old(self).io_log@.push(
                IoRecord { offset, num_blocks },
            ),
            !old(self).rebuild_logging ==> *final(self) == *old(self),
            *final(self) == (NexusChannel { io_log: final(self).io_log, ..*old(self) }),
    {
        if self.rebuild_logging {
            self.io_log.push(IoRecord { offset, num_blocks });
        }
    }

    /// Starts logging writes for a rebuild, with an empty log.
    pub fn start_rebuild_logging(&mut self)
        ensures
            *final(self) == (NexusChannel {
                io_log: final(self).io_log,
                rebuild_logging: true,
                ..*old(self)
            }),
            final(self).io_log@.len() == 0,
    {
        self.io_log = Vec::new();
        self.rebuild_logging = true;
    }

    /// Stops logging and hands the accumulated log over.
    pub fn stop_rebuild_logging(&mut self) -> (log: Vec<IoRecord>)
        ensures
            log@ == old(self).io_log@,
            *final(self) == (NexusChannel {
                io_log: final(self).io_log,
                rebuild_logging: false,
                ..*old(self)
            }),
            final(self).io_log@.len() == 0,
    {
        self.rebuild_logging = false;
        let mut log: Vec<IoRecord> = Vec::new();
        core::mem::swap(&mut log, &mut self.io_log);
        log
    }
}

/// Every writer covers a reader: there are at least as many writers as
/// readers on a well-formed channel.
pub proof fn lemma_writers_cover_readers(ch: NexusChannel)
    requires
        ch.wf(),
    ensures
        ch.readers@.len() <= ch.writers@.len(),
{
    lemma_subset_unique_seq_len(ch.readers@, ch.writers@);
}

/// A rebuilding child takes writes but serves no reads: it stands among
/// the writers and not among the readers.
pub proof fn lemma_rebuilding_child_writes_only(ch: NexusChannel, children: Seq<Child>, i: int)
    requires
        ch.matches_children(children),
        0 <= i < children.len(),
        children[i].role == ChildRole::Rebuilding,
    ensures
        ch.writers@.contains(i as usize),
        !ch.readers@.contains(i as usize),
{
}

/// A duplicate-free sequence contained in another duplicate-free sequence
/// is no longer than it.
proof fn lemma_subset_unique_seq_len(a: Seq<usize>, b: Seq<usize>)
    requires
        a.no_duplicates(),
        b.no_duplicates(),
        forall|x: usize| a.contains(x) ==> b.contains(x),
    ensures
        a.len() <= b.len(),
{
    broadcast use vstd::seq_lib::seq_to_set_is_finite;

    a.unique_seq_to_set();
    b.unique_seq_to_set();
    assert(a.to_set().subset_of(b.to_set()));
    vstd::set_lib::lemma_len_subset(a.to_set(), b.to_set());
}

/// Indices in strictly increasing order: the channel walks the child
/// table once, so the handles keep child order.
pub open spec fn seq_strictly_increasing(s: Seq<usize>) -> bool {
    forall|i: int, j: int| 0 <= i < j < s.len() ==> s[i] < s[j]
}

/// Appending a value larger than every element keeps a sequence
/// duplicate-free and keeps it strictly increasing.
proof fn lemma_push_larger_keeps_no_duplicates(s: Seq<usize>, v: usize)
    requires
        s.no_duplicates(),
        forall|x: usize| s.contains(x) ==> x < v,
    ensures
        s.push(v).no_duplicates(),
        seq_strictly_increasing(s) ==> seq_strictly_increasing(s.push(v)),
{
    assert forall|i: int, j: int|
        0 <= i < j < s.push(v).len() implies s.push(v)[i] != s.push(v)[j] by {
        if j == s.len() {
            assert(s.contains(s[i]));
        }
    }
    if seq_strictly_increasing(s) {
        assert forall|i: int, j: int|
            0 <= i < j < s.push(v).len() implies s.push(v)[i] < s.push(v)[j] by {
            if j == s.len() {
                assert(s.contains(s[i]));
            }
        }
    }
}

/// An element of a filtered sequence is an element of the original.
proof fn lemma_filter_subset(s: Seq<usize>, pred: spec_fn(usize) -> bool)
    ensures
        forall|x: usize| #[trigger] s.filter(pred).contains(x) ==> s.contains(x),
    decreases s.len(),
{
    reveal(Seq::filter);
    if s.len() > 0 {
        let d = s.drop_last();
        lemma_filter_subset(d, pred);
        assert forall|x: usize| #[trigger] s.filter(pred).contains(x) implies s.contains(x) by {
            if d.filter(pred).contains(x) {
                let i = choose|i: int| 0 <= i < d.len() && d[i] == x;
                assert(s[i] == x);
            } else {
                assert(x == s.last());
                assert(s[s.len() - 1] == x);
            }
        }
    }
}

/// Filtering keeps a sequence duplicate-free.
proof fn lemma_filter_keeps_no_duplicates(s: Seq<usize>, pred: spec_fn(usize) -> bool)
    requires
        s.no_duplicates(),
    ensures
        s.filter(pred).no_duplicates(),
    decreases s.len(),
{
    reveal(Seq::filter);
    if s.len() > 0 {
        let d = s.drop_last();
        assert(d.no_duplicates()) by {
            assert forall|i: int, j: int|
                0 <= i < j < d.len() implies d[i] != d[j] by {
                assert(s[i] == d[i] && s[j] == d[j]);
            }
        }
        lemma_filter_keeps_no_duplicates(d, pred);
        if pred(s.last()) {
            lemma_filter_subset(d, pred);
            assert(!d.contains(s.last())) by {
                if d.contains(s.last()) {
                    let i = choose|i: int| 0 <= i < d.len() && d[i] == s.last();
                    assert(s[i] == s[s.len() - 1]);
                }
            }
            assert(!d.filter(pred).contains(s.last()));
        }
    }
}

/// Membership in a filtered sequence.
proof fn lemma_filter_membership(s: Seq<usize>, pred: spec_fn(usize) -> bool, x: usize)
    ensures
        s.filter(pred).contains(x) <==> s.contains(x) && pred(x),
{
    broadcast use vstd::seq_lib::group_filter_ensures;

    if s.contains(x) && pred(x) {
        let i = choose|i: int| 0 <= i < s.len() && s[i] == x;
        s.lemma_filter_contains(pred, i);
    }
    if s.filter(pred).contains(x) {
        let j = choose|j: int| 0 <= j < s.filter(pred).len() && s.filter(pred)[j] == x;
        s.lemma_filter_pred(pred, j);
        lemma_filter_subset(s, pred);
    }
}

/// Builds the vector without the entries equal to `val`, keeping order.
fn remove_index(v: &Vec<usize>, val: usize) -> (r: Vec<usize>)
    ensures
        r@ == v@.filter(|x: usize| x != val),
{
    let n = v.len();
    let mut out: Vec<usize> = Vec::new();
    let mut i: usize = 0;
    proof {
        assert(v@.take(0) =~= Seq::<usize>::empty());
        reveal(Seq::filter);
    }
    while i < n
        invariant
            n == v@.len(),
            0 <= i <= n,
            out@ == v@.take(i as int).filter(|x: usize| x != val),
        decreases n - i,
    {
        proof {
            assert(v@.take(i + 1).drop_last() =~= v@.take(i as int));
            assert(v@.take(i + 1).last() == v@[i as int]);
            reveal(Seq::filter);
        }
        if v[i] != val {
            out.push(v[i]);
        }
        i = i + 1;
    }
    proof {
        assert(v@.take(n as int) =~= v@);
    }
    out
}

} // verus!

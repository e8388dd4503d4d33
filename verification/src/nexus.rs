//! The nexus: a named virtual block device over an ordered, append-only set
//! of replica children, with a lifecycle state, a single-shot self-shutdown
//! latch, and the retire-command queue that the fault pipeline feeds.

use vstd::prelude::*;
use crate::io_types::{DeviceCommand, FaultReason};

verus! {

/// Role of a child inside its nexus.
#[derive(Clone, Copy, Debug, PartialEq, Eq, Structural)]
pub enum ChildRole {
    Healthy,
    Degraded,
    Faulted,
    Rebuilding,
    Closed,
}

/// One replica child of a nexus.
#[derive(Clone, Debug)]
pub struct Child {
    /// URI the child was opened from.
    pub uri: String,
    /// Name of the underlying block device.
    pub device_name: String,
    /// Current role of the child.
    pub role: ChildRole,
    /// Why the child was faulted, when it was.
    pub fault_reason: Option<FaultReason>,
}

/// Two children that carry the same data, compared by the text of their
/// names rather than by string identity.
pub open spec fn child_view_eq(a: Child, b: Child) -> bool {
    &&& a.uri@ == b.uri@
    &&& a.device_name@ == b.device_name@
    &&& a.role == b.role
    &&& a.fault_reason == b.fault_reason
}

/// Lifecycle state of a nexus.
#[derive(Clone, Copy, Debug, PartialEq, Eq, Structural)]
pub enum NexusState {
    Init,
    Open,
    Reconfiguring,
    Degraded,
    Faulted,
    ShuttingDown,
    Shutdown,
}

/// Lifecycle errors surfaced to the control plane.
#[derive(Clone, Copy, Debug, PartialEq, Eq, Structural)]
pub enum NexusError {
    /// A child with the same URI is already part of the nexus.
    ChildAlreadyExists,
    /// No child with the given URI is part of the nexus.
    ChildNotFound,
    /// The nexus is shutting down or already shut down.
    NexusShuttingDown,
}

/// Queue of device-lifecycle commands, filled from any core and drained by
/// one task on the master reactor.
pub struct DeviceCmdQueue {
    cmds: Vec<DeviceCommand>,
}

impl DeviceCmdQueue {
    /// The queued commands, oldest first.
    pub closed spec fn view(self) -> Seq<DeviceCommand> {
        self.cmds@
    }

    /// An empty queue.
    pub fn new() -> (r: DeviceCmdQueue)
        ensures
            r@ == Seq::<DeviceCommand>::empty(),
    {
        DeviceCmdQueue { cmds: Vec::new() }
    }

    /// Appends a command; never blocks.
    pub fn enqueue(&mut self, cmd: DeviceCommand)
        ensures
            final(self)@ == old(self)@.push(cmd),
    {
        self.cmds.push(cmd);
    }

    /// Takes the oldest command, if any.
    pub fn dequeue(&mut self) -> (r: Option<DeviceCommand>)
        ensures
            old(self)@.len() == 0 ==> r is None && final(self)@ == old(self)@,
            old(self)@.len() > 0 ==> r == Some(old(self)@[0]) && final(self)@ == old(
                self,
            )@.subrange(1, old(self)@.len() as int),
    {
        if self.cmds.len() == 0 {
            None
        } else {
            Some(self.cmds.remove(0))
        }
    }

    /// Number of queued commands.
    pub fn len(&self) -> (r: usize)
        ensures
            r == self@.len(),
    {
        self.cmds.len()
    }
}

/// The compare-and-set step on the shutdown latch: the latch is set after
/// every call, everything else is untouched, and the call wins exactly when
/// it found the latch clear.
pub open spec fn shutdown_cas_step(pre: Nexus, post: Nexus, won: bool) -> bool {
    &&& post == Nexus { shutdown_requested: true, ..pre }
    &&& won == !pre.spec_shutdown_requested()
}

/// A nexus: virtual block device fanning I/O out across replica children.
pub struct Nexus {
    /// Stable name of the nexus.
    pub name: String,
    /// Consumer-visible size in blocks.
    pub num_blocks: u64,
    /// Block length in bytes.
    pub block_len: u64,
    /// Blocks reserved for nexus metadata at the head of every child.
    pub data_ent_offset: u64,
    /// The ordered child set.
    pub children: Vec<Child>,
    /// Lifecycle state.
    pub state: NexusState,
    /// The single-shot self-shutdown latch.
    pub shutdown_requested: bool,
    /// Queued device-lifecycle commands.
    pub cmd_queue: DeviceCmdQueue,
}

impl Nexus {
    /// The ordered child set.
    pub open spec fn spec_children(self) -> Seq<Child> {
        self.children@
    }

    /// Consumer-visible size in blocks.
    pub open spec fn spec_num_blocks(self) -> u64 {
        self.num_blocks
    }

    /// Block length in bytes.
    pub open spec fn spec_block_len(self) -> u64 {
        self.block_len
    }

    /// Blocks reserved for nexus metadata at the head of every child.
    pub open spec fn spec_data_ent_offset(self) -> u64 {
        self.data_ent_offset
    }

    /// Lifecycle state.
    pub open spec fn spec_state(self) -> NexusState {
        self.state
    }

    /// The single-shot self-shutdown latch.
    pub open spec fn spec_shutdown_requested(self) -> bool {
        self.shutdown_requested
    }

    /// The queued retire commands.
    pub closed spec fn spec_queue(self) -> Seq<DeviceCommand> {
        self.cmd_queue@
    }

    /// A child with this URI is part of the nexus.
    pub open spec fn spec_has_child_uri(self, uri: Seq<char>) -> bool {
        exists|i: int| 0 <= i < self.spec_children().len() && self.spec_children()[i].uri@ == uri
    }

    /// Well-formedness: the child table fits the per-I/O `u8` accounting.
    pub open spec fn wf(self) -> bool {
        self.children.len() <= 255
    }

    /// The product identifier the nexus reports on its block-device
    /// surface; descriptor checks discriminate nexus devices by it.
    pub fn product_id() -> (r: &'static str)
        ensures
            r@ == "Nexus CAS Driver v0.0.1"@,
    {
        "Nexus CAS Driver v0.0.1"
    }

    /// Creates an open nexus with no children yet.
    pub fn new(name: String, num_blocks: u64, block_len: u64, data_ent_offset: u64) -> (r: Nexus)
        ensures
            r.wf(),
            r.name@ == name@,
            r.spec_num_blocks() == num_blocks,
            r.spec_block_len() == block_len,
            r.spec_data_ent_offset() == data_ent_offset,
            r.spec_children().len() == 0,
            r.spec_state() == NexusState::Open,
            !r.spec_shutdown_requested(),
            r.spec_queue().len() == 0,
    {
        Nexus {
            name,
            num_blocks,
            block_len,
            data_ent_offset,
            children: Vec::new(),
            state: NexusState::Open,
            shutdown_requested: false,
            cmd_queue: DeviceCmdQueue::new(),
        }
    }

    /// Number of children.
    pub fn num_children(&self) -> (r: usize)
        ensures
            r == self.spec_children().len(),
    {
        self.children.len()
    }

    /// The child at an index.
    pub fn child_at(&self, i: usize) -> (r: &Child)
        requires
            i < self.spec_children().len(),
        ensures
            *r == self.spec_children()[i as int],
    {
        &self.children[i]
    }

    /// Looks a child up by URI, returning the first matching index.
    pub fn lookup_child(&self, uri: &str) -> (r: Option<usize>)
        ensures
            match r {
                Some(i) => {
                    &&& i < self.spec_children().len()
                    &&& self.spec_children()[i as int].uri@ == uri@
                    &&& forall|j: int| 0 <= j < i ==> self.spec_children()[j].uri@ != uri@
                },
                None => !self.spec_has_child_uri(uri@),
            },
    {
        let target = uri.to_owned();
        let n = self.children.len();
        let mut i: usize = 0;
        while i < n
            invariant
                n == self.spec_children().len(),
                0 <= i <= n,
                target@ == uri@,
                forall|j: int| 0 <= j < i ==> self.spec_children()[j].uri@ != uri@,
            decreases n - i,
        {
            if self.children[i].uri == target {
                return Some(i);
            }
            i = i + 1;
        }
        None
    }

    /// Adds a child to the tail of the child set.
    ///
    /// A second add of a URI already present returns
    /// `ChildAlreadyExists`, deterministically, and mutates nothing; an add
    /// during shutdown returns `NexusShuttingDown` and mutates nothing.
    pub fn add_child(&mut self, uri: String, device_name: String, role: ChildRole) -> (r: Result<
        usize,
        NexusError,
    >)
        requires
            old(self).wf(),
            old(self).spec_children().len() < 255,
        ensures
            final(self).wf(),
            old(self).spec_state() == NexusState::ShuttingDown || old(self).spec_state()
                == NexusState::Shutdown ==> r == Err::<usize, NexusError>(
                NexusError::NexusShuttingDown,
            ) && *final(self) == *old(self),
            old(self).spec_state() != NexusState::ShuttingDown && old(self).spec_state()
                != NexusState::Shutdown ==> {
                if old(self).spec_has_child_uri(uri@) {
                    r == Err::<usize, NexusError>(NexusError::ChildAlreadyExists) && *final(self)
                        == *old(self)
                } else {
                    &&& r == Ok::<usize, NexusError>(old(self).spec_children().len() as usize)
                    &&& final(self).spec_children().len() == old(self).spec_children().len() + 1
                    &&& final(self).spec_children().last().uri@ == uri@
                    &&& final(self).spec_children().last().device_name@ == device_name@
                    &&& final(self).spec_children().last().role == role
                    &&& final(self).spec_children().last().fault_reason is None
                    &&& final(self).spec_children().take(old(self).spec_children().len() as int)
                        == old(self).spec_children()
                    &&& *final(self) == (Nexus { children: final(self).children, ..*old(self) })
                }
            },
    {
        match self.state {
            NexusState::ShuttingDown => return Err(NexusError::NexusShuttingDown),
            NexusState::Shutdown => return Err(NexusError::NexusShuttingDown),
            _ => (),
        }
        if self.lookup_child(uri.as_str()).is_some() {
            return Err(NexusError::ChildAlreadyExists);
        }
        let idx = self.children.len();
        self.children.push(Child { uri, device_name, role, fault_reason: None });
        proof {
            assert(final(self).spec_children().take(old(self).spec_children().len() as int)
                =~= old(self).spec_children());
        }
        Ok(idx)
    }

    /// Removes the first child with the given URI.
    pub fn remove_child(&mut self, uri: &str) -> (r: Result<(), NexusError>)
        requires
            old(self).wf(),
        ensures
            final(self).wf(),
            !old(self).spec_has_child_uri(uri@) ==> r == Err::<(), NexusError>(
                NexusError::ChildNotFound,
            ) && *final(self) == *old(self),
            old(self).spec_has_child_uri(uri@) ==> {
                &&& r == Ok::<(), NexusError>(())
                &&& exists|i: int|
                    {
                        &&& 0 <= i < old(self).spec_children().len()
                        &&& old(self).spec_children()[i].uri@ == uri@
                        &&& final(self).spec_children() == old(self).spec_children().remove(i)
                    }
                &&& *final(self) == (Nexus { children: final(self).children, ..*old(self) })
            },
    {
        match self.lookup_child(uri) {
            None => Err(NexusError::ChildNotFound),
            Some(i) => {
                self.children.remove(i);
                Ok(())
            },
        }
    }

    /// Faults a child and schedules it for retirement, exactly once: an
    /// already-faulted child is left as it is and no second retire command
    /// is enqueued.
    pub fn fault_child(&mut self, idx: usize, reason: FaultReason)
        requires
            old(self).wf(),
            idx < old(self).spec_children().len(),
        ensures
            final(self).wf(),
            old(self).spec_children()[idx as int].role == ChildRole::Faulted ==> *final(self)
                == *old(self),
            old(self).spec_children()[idx as int].role != ChildRole::Faulted ==> {
                &&& final(self).spec_children().len() == old(self).spec_children().len()
                &&& (forall|j: int|
                    0 <= j < old(self).spec_children().len() && j != idx
                        ==> #[trigger] final(self).spec_children()[j] == old(
                        self,
                    ).spec_children()[j])
                &&& child_view_eq(
                    final(self).spec_children()[idx as int],
                    (Child {
                        role: ChildRole::Faulted,
                        fault_reason: Some(reason),
                        ..old(self).spec_children()[idx as int]
                    }),
                )
                &&& final(self).spec_queue().len() == old(self).spec_queue().len() + 1
                &&& final(self).spec_queue().take(old(self).spec_queue().len() as int) == old(
                    self,
                ).spec_queue()
                &&& final(self).spec_queue().last() matches DeviceCommand::RetireDevice {
                    nexus_name,
                    child_device,
                } && nexus_name@ == old(self).name@ && child_device@ == old(
                    self,
                ).spec_children()[idx as int].device_name@
                &&& *final(self) == (Nexus {
                    children: final(self).children,
                    cmd_queue: final(self).cmd_queue,
                    ..*old(self)
                })
            },
    {
        if matches!(self.children[idx].role, ChildRole::Faulted) {
            return ;
        }
        let device_name = self.children[idx].device_name.as_str().to_owned();
        let nexus_name = self.name.as_str().to_owned();
        let old_child = &self.children[idx];
        let updated = Child {
            uri: old_child.uri.as_str().to_owned(),
            device_name: old_child.device_name.as_str().to_owned(),
            role: ChildRole::Faulted,
            fault_reason: Some(reason),
        };
        self.children.set(idx, updated);
        self.cmd_queue.enqueue(DeviceCommand::RetireDevice { nexus_name, child_device: device_name });
        proof {
            assert(final(self).spec_queue().take(old(self).spec_queue().len() as int)
                =~= old(self).spec_queue());
        }
    }

    /// The single-shot self-shutdown latch: sets the latch and reports
    /// whether this call was the one that set it.
    pub fn try_self_shutdown(&mut self) -> (won: bool)
        ensures
            shutdown_cas_step(*old(self), *final(self), won),
            won == !old(self).spec_shutdown_requested(),
            final(self).spec_shutdown_requested(),
            final(self).spec_children() == old(self).spec_children(),
            final(self).spec_state() == old(self).spec_state(),
            final(self).spec_queue() == old(self).spec_queue(),
            final(self).name@ == old(self).name@,
            final(self).wf() == old(self).wf(),
    {
        let won = !self.shutdown_requested;
        self.shutdown_requested = true;
        won
    }

    /// First shutdown step, on the master reactor: marks the nexus as
    /// shutting down unless a shutdown is already under way.
    pub fn shutdown_begin(&mut self) -> (proceed: bool)
        ensures
            old(self).spec_state() == NexusState::ShuttingDown || old(self).spec_state()
                == NexusState::Shutdown ==> !proceed && *final(self) == *old(self),
            old(self).spec_state() != NexusState::ShuttingDown && old(self).spec_state()
                != NexusState::Shutdown ==> proceed && *final(self) == (Nexus {
                state: NexusState::ShuttingDown,
                ..*old(self)
            }),
    {
        match self.state {
            NexusState::ShuttingDown => false,
            NexusState::Shutdown => false,
            _ => {
                self.state = NexusState::ShuttingDown;
                true
            },
        }
    }

    /// Enqueues a retire command for every child, in child order.
    pub fn retire_all_children(&mut self)
        requires
            old(self).wf(),
        ensures
            final(self).wf(),
            final(self).spec_queue().len() == old(self).spec_queue().len() + old(
                self,
            ).spec_children().len(),
            final(self).spec_queue().take(old(self).spec_queue().len() as int) == old(
                self,
            ).spec_queue(),
            forall|i: int|
                0 <= i < old(self).spec_children().len()
                    ==> (#[trigger] final(self).spec_queue()[old(self).spec_queue().len() + i]
                    matches DeviceCommand::RetireDevice { nexus_name, child_device }
                    && nexus_name@ == old(self).name@
                    && child_device@ == old(self).spec_children()[i].device_name@),
            *final(self) == (Nexus { cmd_queue: final(self).cmd_queue, ..*old(self) }),
    {
        let n = self.children.len();
        let ghost q0 = self.cmd_queue@;
        let mut i: usize = 0;
        while i < n
            invariant
                self.wf(),
                n == self.spec_children().len(),
                0 <= i <= n,
                self.spec_queue().len() == q0.len() + i,
                self.spec_queue().take(q0.len() as int) == q0,
                forall|j: int|
                    0 <= j < i ==> (#[trigger] self.spec_queue()[q0.len() + j]
                        matches DeviceCommand::RetireDevice { nexus_name, child_device }
                        && nexus_name@ == self.name@
                        && child_device@ == self.spec_children()[j].device_name@),
                *self == (Nexus { cmd_queue: self.cmd_queue, ..*old(self) }),
            decreases n - i,
        {
            let nexus_name = self.name.as_str().to_owned();
            let child_device = self.children[i].device_name.as_str().to_owned();
            self.cmd_queue.enqueue(DeviceCommand::RetireDevice { nexus_name, child_device });
            proof {
                assert(self.spec_queue().take(q0.len() as int) =~= q0);
            }
            i = i + 1;
        }
    }

    /// Closes every child: after a shutdown no channel may hand I/O to them.
    pub fn close_children(&mut self)
        requires
            old(self).wf(),
        ensures
            final(self).wf(),
            final(self).spec_children().len() == old(self).spec_children().len(),
            forall|i: int|
                0 <= i < old(self).spec_children().len()
                    ==> child_view_eq(
                    #[trigger] final(self).spec_children()[i],
                    (Child { role: ChildRole::Closed, ..old(self).spec_children()[i] }),
                ),
            *final(self) == (Nexus { children: final(self).children, ..*old(self) }),
    {
        let n = self.children.len();
        let mut i: usize = 0;
        while i < n
            invariant
                self.wf(),
                n == self.spec_children().len(),
                old(self).spec_children().len() == n,
                0 <= i <= n,
                forall|j: int|
                    0 <= j < i ==> child_view_eq(
                        #[trigger] self.spec_children()[j],
                        (Child { role: ChildRole::Closed, ..old(self).spec_children()[j] }),
                    ),
                forall|j: int|
                    i <= j < n ==> #[trigger] self.spec_children()[j] == old(
                        self,
                    ).spec_children()[j],
                *self == (Nexus { children: self.children, ..*old(self) }),
            decreases n - i,
        {
            let c = &self.children[i];
            let updated = Child {
                uri: c.uri.as_str().to_owned(),
                device_name: c.device_name.as_str().to_owned(),
                role: ChildRole::Closed,
                fault_reason: c.fault_reason,
            };
            self.children.set(i, updated);
            i = i + 1;
        }
    }

    /// Final shutdown step: the nexus is shut down.  The state is not
    /// persisted; the control plane recreates the nexus elsewhere.
    pub fn shutdown_complete(&mut self)
        requires
            old(self).spec_state() == NexusState::ShuttingDown,
        ensures
            *final(self) == (Nexus { state: NexusState::Shutdown, ..*old(self) }),
    {
        self.state = NexusState::Shutdown;
    }

    /// Maps a consumer-visible block offset to the offset on a child: the
    /// metadata prefix of `data_ent_offset` blocks is skipped, so consumer
    /// block zero lands on child block `data_ent_offset`.
    pub fn child_offset(&self, io_offset: u64) -> (r: u64)
        requires
            io_offset + self.spec_data_ent_offset() <= u64::MAX,
        ensures
            r == io_offset + self.spec_data_ent_offset(),
    {
        io_offset + self.data_ent_offset
    }
}

/// At most one self-shutdown ever fires per nexus: of two consecutive
/// latch attempts, at most one wins.
pub proof fn lemma_self_shutdown_at_most_once(
    n0: Nexus,
    n1: Nexus,
    won1: bool,
    n2: Nexus,
    won2: bool,
)
    requires
        shutdown_cas_step(n0, n1, won1),
        shutdown_cas_step(n1, n2, won2),
    ensures
        !(won1 && won2),
{
}

/// A child just appended is found by its URI afterwards: a second
/// identical add is then bound by `add_child`'s contract to return
/// `ChildAlreadyExists` and to mutate nothing.
pub proof fn lemma_added_child_present(n: Nexus, uri: Seq<char>)
    requires
        n.spec_children().len() > 0,
        n.spec_children().last().uri@ == uri,
    ensures
        n.spec_has_child_uri(uri),
{
    assert(n.spec_children()[n.spec_children().len() - 1].uri@ == uri);
}

/// Once the shutdown latch is set, no later attempt wins it.
pub proof fn lemma_no_win_after_requested(pre: Nexus, post: Nexus, won: bool)
    requires
        pre.spec_shutdown_requested(),
        shutdown_cas_step(pre, post, won),
    ensures
        !won,
        post.spec_shutdown_requested(),
{
}

} // verus!

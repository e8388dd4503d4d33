//! Plain data carried through the I/O path: opcodes, completion statuses,
//! fault reasons, errors, and the device-lifecycle commands that the fault
//! pipeline enqueues.

use vstd::prelude::*;

verus! {

/// Type of a logical I/O submitted to the nexus.
#[derive(Clone, Copy, Debug, PartialEq, Eq, Structural)]
pub enum IoType {
    Read,
    Write,
    WriteZeros,
    Unmap,
    Reset,
    Flush,
    NvmeAdmin,
    Unknown,
}

impl IoType {
    /// A write-class I/O is fanned out to every writer.
    pub open spec fn is_write_class(self) -> bool {
        self == IoType::Write || self == IoType::WriteZeros || self == IoType::Unmap || self
            == IoType::Reset
    }
}

/// Intermediate status of a logical I/O.
#[derive(Clone, Copy, Debug, PartialEq, Eq, Structural)]
pub enum IoStatus {
    Pending,
    Success,
    Failed,
}

/// Generic NVMe status codes that the fault pipeline distinguishes.
#[derive(Clone, Copy, Debug, PartialEq, Eq, Structural)]
pub enum GenericStatusCode {
    InvalidOpcode,
    ReservationConflict,
    AbortedSubmissionQueueDeleted,
    InternalDeviceError,
}

/// NVMe media-class status codes.
#[derive(Clone, Copy, Debug, PartialEq, Eq, Structural)]
pub enum MediaErrorStatusCode {
    CompareFailure,
}

/// NVMe completion status of a child I/O.
#[derive(Clone, Copy, Debug, PartialEq, Eq, Structural)]
pub enum NvmeStatus {
    Generic(GenericStatusCode),
    Media(MediaErrorStatusCode),
}

/// Failure of a logical volume child.
#[derive(Clone, Copy, Debug, PartialEq, Eq, Structural)]
pub enum LvolFailure {
    NoSpace,
}

/// Which direction a submission failed in; kept for reporting only, both
/// directions retire the device identically.
#[derive(Clone, Copy, Debug, PartialEq, Eq, Structural)]
pub enum IoSubmissionFailure {
    Read,
    Write,
}

/// Completion status a child device reports for one child I/O.
#[derive(Clone, Copy, Debug, PartialEq, Eq, Structural)]
pub enum IoCompletionStatus {
    Success,
    NvmeError(NvmeStatus),
    LvolError(LvolFailure),
    IoSubmissionError(IoSubmissionFailure),
}

/// Why a child was faulted.
#[derive(Clone, Copy, Debug, PartialEq, Eq, Structural)]
pub enum FaultReason {
    IoError,
    NoSpace,
}

/// Errno values surfaced by the dispatch path.
#[derive(Clone, Copy, Debug, PartialEq, Eq, Structural)]
pub enum Errno {
    Einval,
    Eopnotsupp,
    Enxio,
}

/// Errors of the core I/O path.
#[derive(Clone, Copy, Debug, PartialEq, Eq, Structural)]
pub enum CoreError {
    /// The opcode is not supported by the nexus.
    NotSupported { source: Errno },
    /// No child is available to serve the I/O.
    NoDevicesAvailable,
    /// Dispatching a read to a child failed.
    ReadDispatch { source: Errno },
    /// Dispatching a write-class I/O to a child failed.
    WriteDispatch { source: Errno },
}

/// Device-lifecycle command enqueued by the fault pipeline and drained on
/// the master reactor.
#[derive(Clone, Debug)]
pub enum DeviceCommand {
    /// Fault the child and remove it from the active set of the nexus.
    RetireDevice { nexus_name: String, child_device: String },
    /// Remove the device outright.
    RemoveDevice { child_device: String },
}

/// One write recorded in a channel's I/O log while a rebuild is active.
#[derive(Clone, Copy, Debug, PartialEq, Eq, Structural)]
pub struct IoRecord {
    /// Offset of the write in blocks, in the nexus address space.
    pub offset: u64,
    /// Length of the write in blocks.
    pub num_blocks: u64,
}

} // verus!

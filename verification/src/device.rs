//! The narrow block-device surface the nexus consumes: cumulative I/O
//! statistics, read options, and the per-device I/O controller contract.

use vstd::prelude::*;
use crate::io_types::CoreError;

verus! {

/// Adds two counters, stopping at the largest representable value.
fn sat_add(a: u64, b: u64) -> (r: u64)
    ensures
        r == if a + b > u64::MAX {
            u64::MAX as int
        } else {
            a + b
        },
{
    if a > u64::MAX - b {
        u64::MAX
    } else {
        a + b
    }
}

/// Cumulative I/O statistics of one block device.
#[derive(Debug, Clone, Copy, PartialEq, Eq, Structural)]
pub struct BlockDeviceIoStats {
    pub num_read_ops: u64,
    pub num_write_ops: u64,
    pub bytes_read: u64,
    pub bytes_written: u64,
    pub num_unmap_ops: u64,
    pub bytes_unmapped: u64,
    pub read_latency_ticks: u64,
    pub write_latency_ticks: u64,
    pub unmap_latency_ticks: u64,
    pub max_read_latency_ticks: u64,
    pub min_read_latency_ticks: u64,
    pub max_write_latency_ticks: u64,
    pub min_write_latency_ticks: u64,
    pub max_unmap_latency_ticks: u64,
    pub min_unmap_latency_ticks: u64,
    pub tick_rate: u64,
}

/// The saturating sum of two counters, as a specification value.
pub open spec fn spec_sat_add(a: u64, b: u64) -> u64 {
    if a + b > u64::MAX {
        u64::MAX
    } else {
        (a + b) as u64
    }
}

impl BlockDeviceIoStats {
    /// All counters zero.
    pub fn zeroed() -> (r: BlockDeviceIoStats)
        ensures
            r == BlockDeviceIoStats::spec_zeroed(),
    {
        BlockDeviceIoStats {
            num_read_ops: 0,
            num_write_ops: 0,
            bytes_read: 0,
            bytes_written: 0,
            num_unmap_ops: 0,
            bytes_unmapped: 0,
            read_latency_ticks: 0,
            write_latency_ticks: 0,
            unmap_latency_ticks: 0,
            max_read_latency_ticks: 0,
            min_read_latency_ticks: 0,
            max_write_latency_ticks: 0,
            min_write_latency_ticks: 0,
            max_unmap_latency_ticks: 0,
            min_unmap_latency_ticks: 0,
            tick_rate: 0,
        }
    }

    /// All counters zero, as a specification value.
    pub open spec fn spec_zeroed() -> BlockDeviceIoStats {
        BlockDeviceIoStats {
            num_read_ops: 0,
            num_write_ops: 0,
            bytes_read: 0,
            bytes_written: 0,
            num_unmap_ops: 0,
            bytes_unmapped: 0,
            read_latency_ticks: 0,
            write_latency_ticks: 0,
            unmap_latency_ticks: 0,
            max_read_latency_ticks: 0,
            min_read_latency_ticks: 0,
            max_write_latency_ticks: 0,
            min_write_latency_ticks: 0,
            max_unmap_latency_ticks: 0,
            min_unmap_latency_ticks: 0,
            tick_rate: 0,
        }
    }

    /// Folds another device's statistics into this one, counter by counter,
    /// saturating at the largest representable value.
    pub fn merge(&mut self, other: &BlockDeviceIoStats)
        ensures
            *final(self) == old(self).spec_merged(*other),
    {
        self.num_read_ops = sat_add(self.num_read_ops, other.num_read_ops);
        self.num_write_ops = sat_add(self.num_write_ops, other.num_write_ops);
        self.bytes_read = sat_add(self.bytes_read, other.bytes_read);
        self.bytes_written = sat_add(self.bytes_written, other.bytes_written);
        self.num_unmap_ops = sat_add(self.num_unmap_ops, other.num_unmap_ops);
        self.bytes_unmapped = sat_add(self.bytes_unmapped, other.bytes_unmapped);
        self.read_latency_ticks = sat_add(self.read_latency_ticks, other.read_latency_ticks);
        self.write_latency_ticks = sat_add(self.write_latency_ticks, other.write_latency_ticks);
        self.unmap_latency_ticks = sat_add(self.unmap_latency_ticks, other.unmap_latency_ticks);
        self.max_read_latency_ticks = sat_add(
            self.max_read_latency_ticks,
            other.max_read_latency_ticks,
        );
        self.min_read_latency_ticks = sat_add(
            self.min_read_latency_ticks,
            other.min_read_latency_ticks,
        );
        self.max_write_latency_ticks = sat_add(
            self.max_write_latency_ticks,
            other.max_write_latency_ticks,
        );
        self.min_write_latency_ticks = sat_add(
            self.min_write_latency_ticks,
            other.min_write_latency_ticks,
        );
        self.max_unmap_latency_ticks = sat_add(
            self.max_unmap_latency_ticks,
            other.max_unmap_latency_ticks,
        );
        self.min_unmap_latency_ticks = sat_add(
            self.min_unmap_latency_ticks,
            other.min_unmap_latency_ticks,
        );
        self.tick_rate = sat_add(self.tick_rate, other.tick_rate);
    }

    /// The counter-by-counter saturating sum, as a specification value.
    pub open spec fn spec_merged(self, other: BlockDeviceIoStats) -> BlockDeviceIoStats {
        BlockDeviceIoStats {
            num_read_ops: spec_sat_add(self.num_read_ops, other.num_read_ops),
            num_write_ops: spec_sat_add(self.num_write_ops, other.num_write_ops),
            bytes_read: spec_sat_add(self.bytes_read, other.bytes_read),
            bytes_written: spec_sat_add(self.bytes_written, other.bytes_written),
            num_unmap_ops: spec_sat_add(self.num_unmap_ops, other.num_unmap_ops),
            bytes_unmapped: spec_sat_add(self.bytes_unmapped, other.bytes_unmapped),
            read_latency_ticks: spec_sat_add(self.read_latency_ticks, other.read_latency_ticks),
            write_latency_ticks: spec_sat_add(self.write_latency_ticks, other.write_latency_ticks),
            unmap_latency_ticks: spec_sat_add(self.unmap_latency_ticks, other.unmap_latency_ticks),
            max_read_latency_ticks: spec_sat_add(
                self.max_read_latency_ticks,
                other.max_read_latency_ticks,
            ),
            min_read_latency_ticks: spec_sat_add(
                self.min_read_latency_ticks,
                other.min_read_latency_ticks,
            ),
            max_write_latency_ticks: spec_sat_add(
                self.max_write_latency_ticks,
                other.max_write_latency_ticks,
            ),
            min_write_latency_ticks: spec_sat_add(
                self.min_write_latency_ticks,
                other.min_write_latency_ticks,
            ),
            max_unmap_latency_ticks: spec_sat_add(
                self.max_unmap_latency_ticks,
                other.max_unmap_latency_ticks,
            ),
            min_unmap_latency_ticks: spec_sat_add(
                self.min_unmap_latency_ticks,
                other.min_unmap_latency_ticks,
            ),
            tick_rate: spec_sat_add(self.tick_rate, other.tick_rate),
        }
    }
}

/// Bdev I/O statistics along with the name and uuid of the device.
#[derive(Debug, Clone)]
pub struct BdevStats {
    /// Name of the bdev.
    pub name: String,
    /// Uuid of the bdev.
    pub uuid: String,
    /// Stats of the bdev.
    pub stats: BlockDeviceIoStats,
}

impl BdevStats {
    /// Create a new `Self` from the given parts.
    pub fn new(name: String, uuid: String, stats: BlockDeviceIoStats) -> (r: BdevStats)
        ensures
            r.name@ == name@,
            r.uuid@ == uuid@,
            r.stats == stats,
    {
        BdevStats { name, uuid, stats }
    }
}

/// Read options.
#[derive(Debug, Copy, Clone, PartialEq, Eq, Structural)]
pub enum ReadOptions {
    /// Normal read operation.
    Normal,
    /// Fail when reading an unwritten block of a thin-provisioned device.
    UnwrittenFail,
    /// Fail when reading an unwritten block of a thin-provisioned device.
    CurrentUnwrittenFail,
}

impl Default for ReadOptions {
    fn default() -> (r: ReadOptions)
        ensures
            r == ReadOptions::Normal,
    {
        ReadOptions::Normal
    }
}

/// Controller of LBA-range claims on a device.
pub trait LbaRangeController {

}

/// Action a device takes when a command times out.
#[derive(Debug, PartialEq, Eq, Structural, Copy, Clone)]
pub enum DeviceTimeoutAction {
    /// Abort I/O operation that times out.
    Abort,
    /// Reset the whole device in case any single command times out.
    Reset,
    /// Do not take any actions on command timeout.
    Ignore,
    /// Remove the device from the configuration.
    HotRemove,
}

impl DeviceTimeoutAction {
    /// Name of the action.
    pub fn label(&self) -> (r: &'static str)
        ensures
            self == DeviceTimeoutAction::Abort ==> r@ == "Abort"@,
            self == DeviceTimeoutAction::Reset ==> r@ == "Reset"@,
            self == DeviceTimeoutAction::Ignore ==> r@ == "Ignore"@,
            self == DeviceTimeoutAction::HotRemove ==> r@ == "HotRemove"@,
    {
        match self {
            DeviceTimeoutAction::Abort => "Abort",
            DeviceTimeoutAction::Reset => "Reset",
            DeviceTimeoutAction::Ignore => "Ignore",
            DeviceTimeoutAction::HotRemove => "HotRemove",
        }
    }
}

/// Per-device I/O controller: devices that can adjust their timeout
/// behaviour implement this.
pub trait DeviceIoController {
    /// The action currently taken on command timeout.
    fn get_timeout_action(&self) -> Result<DeviceTimeoutAction, CoreError>;

    /// Sets the action taken on command timeout.
    fn set_timeout_action(&mut self, action: DeviceTimeoutAction) -> Result<(), CoreError>;
}

} // verus!

//! Snapshot descriptors and the attribute preparation that snapshot and
//! clone creation perform before handing off to the volume store.

use vstd::prelude::*;
use vstd::string::StringExecFnsIsAscii;

verus! {

/// Parameters of a snapshot, stored as extended attributes of its volume.
#[derive(Clone, Debug)]
pub struct SnapshotParams {
    /// Name of the snapshot volume.
    pub name: Option<String>,
    /// Entity the snapshot was taken for.
    pub entity_id: Option<String>,
    /// Volume the snapshot was taken of.
    pub parent_id: Option<String>,
    /// Transaction that created the snapshot.
    pub txn_id: Option<String>,
    /// UUID of the snapshot volume.
    pub snapshot_uuid: Option<String>,
    /// Creation time, as the control plane wrote it.
    pub create_time: Option<String>,
    /// Whether the snapshot is marked as discarded.
    pub discarded_snapshot: bool,
}

impl SnapshotParams {
    /// Parameters with every attribute given.
    pub fn new(
        name: Option<String>,
        entity_id: Option<String>,
        parent_id: Option<String>,
        txn_id: Option<String>,
        snapshot_uuid: Option<String>,
        create_time: Option<String>,
        discarded_snapshot: bool,
    ) -> (r: SnapshotParams)
        ensures
            r == (SnapshotParams {
                name,
                entity_id,
                parent_id,
                txn_id,
                snapshot_uuid,
                create_time,
                discarded_snapshot,
            }),
    {
        SnapshotParams {
            name,
            entity_id,
            parent_id,
            txn_id,
            snapshot_uuid,
            create_time,
            discarded_snapshot,
        }
    }
}

/// Parameters of a snapshot clone.
#[derive(Clone, Debug)]
pub struct CloneParams {
    /// Name of the clone volume.
    pub clone_name: Option<String>,
    /// UUID of the snapshot the clone descends from.
    pub source_uuid: Option<String>,
    /// Creation time, as the control plane wrote it.
    pub clone_create_time: Option<String>,
    /// UUID of the clone volume.
    pub clone_uuid: Option<String>,
}

/// Errors of the volume store's snapshot and clone paths.
#[derive(Clone, Debug)]
pub enum LvsError {
    /// Snapshot attributes were incomplete.
    SnapshotConfigFailed { name: String, msg: String },
    /// Clone attributes were incomplete.
    CloneConfigFailed { name: String, msg: String },
}

/// The label a boolean is stored under in an attribute.
pub fn bool_label(b: bool) -> (r: &'static str)
    ensures
        b ==> r@ == "true"@,
        !b ==> r@ == "false"@,
{
    if b {
        "true"
    } else {
        "false"
    }
}

/// The snapshot attribute values in storage order: transaction, entity,
/// parent, snapshot UUID, creation time, discarded flag.  Each missing
/// attribute is rejected with its own message, first one first.
pub fn snapshot_xattr_values(params: &SnapshotParams, bdev_name: &str) -> (r: Result<
    Vec<String>,
    LvsError,
>)
    ensures
        match r {
            Ok(vals) => {
                &&& params.txn_id is Some
                &&& params.entity_id is Some
                &&& params.parent_id is Some
                &&& params.snapshot_uuid is Some
                &&& params.create_time is Some
                &&& vals@.len() == 6
                &&& vals@[0]@ == params.txn_id->0@
                &&& vals@[1]@ == params.entity_id->0@
                &&& vals@[2]@ == params.parent_id->0@
                &&& vals@[3]@ == params.snapshot_uuid->0@
                &&& vals@[4]@ == params.create_time->0@
                &&& vals@[5]@ == if params.discarded_snapshot {
                    "true"@
                } else {
                    "false"@
                }
            },
            Err(e) => {
                &&& e matches LvsError::SnapshotConfigFailed { name, msg }
                &&& (e matches LvsError::SnapshotConfigFailed { name, msg } ==> name@
                    == bdev_name@ && msg@ == if params.txn_id is None {
                    "txn id not provided"@
                } else if params.entity_id is None {
                    "entity id not provided"@
                } else if params.parent_id is None {
                    "parent id not provided"@
                } else if params.snapshot_uuid is None {
                    "snapshot_uuid not provided"@
                } else {
                    "create_time not provided"@
                })
                &&& (params.txn_id is None || params.entity_id is None || params.parent_id
                    is None || params.snapshot_uuid is None || params.create_time is None)
            },
        },
{
    let txn = match &params.txn_id {
        Some(v) => v.clone(),
        None => {
            return Err(
                LvsError::SnapshotConfigFailed {
                    name: bdev_name.to_owned(),
                    msg: "txn id not provided".to_owned(),
                },
            );
        },
    };
    let entity = match &params.entity_id {
        Some(v) => v.clone(),
        None => {
            return Err(
                LvsError::SnapshotConfigFailed {
                    name: bdev_name.to_owned(),
                    msg: "entity id not provided".to_owned(),
                },
            );
        },
    };
    let parent = match &params.parent_id {
        Some(v) => v.clone(),
        None => {
            return Err(
                LvsError::SnapshotConfigFailed {
                    name: bdev_name.to_owned(),
                    msg: "parent id not provided".to_owned(),
                },
            );
        },
    };
    let uuid = match &params.snapshot_uuid {
        Some(v) => v.clone(),
        None => {
            return Err(
                LvsError::SnapshotConfigFailed {
                    name: bdev_name.to_owned(),
                    msg: "snapshot_uuid not provided".to_owned(),
                },
            );
        },
    };
    let created = match &params.create_time {
        Some(v) => v.clone(),
        None => {
            return Err(
                LvsError::SnapshotConfigFailed {
                    name: bdev_name.to_owned(),
                    msg: "create_time not provided".to_owned(),
                },
            );
        },
    };
    let mut vals: Vec<String> = Vec::new();
    vals.push(txn);
    vals.push(entity);
    vals.push(parent);
    vals.push(uuid);
    vals.push(created);
    vals.push(bool_label(params.discarded_snapshot).to_owned());
    Ok(vals)
}

/// The clone attribute values in storage order: source UUID, creation
/// time, clone UUID.  Each missing attribute is rejected with its own
/// message, first one first.
pub fn clone_xattr_values(params: &CloneParams, bdev_name: &str) -> (r: Result<
    Vec<String>,
    LvsError,
>)
    ensures
        match r {
            Ok(vals) => {
                &&& params.source_uuid is Some
                &&& params.clone_create_time is Some
                &&& params.clone_uuid is Some
                &&& vals@.len() == 3
                &&& vals@[0]@ == params.source_uuid->0@
                &&& vals@[1]@ == params.clone_create_time->0@
                &&& vals@[2]@ == params.clone_uuid->0@
            },
            Err(e) => {
                &&& e matches LvsError::CloneConfigFailed { name, msg }
                &&& (e matches LvsError::CloneConfigFailed { name, msg } ==> name@ == bdev_name@
                    && msg@ == if params.source_uuid is None {
                    "source uuid not provided"@
                } else if params.clone_create_time is None {
                    "create_time not provided"@
                } else {
                    "clone_uuid not provided"@
                })
                &&& (params.source_uuid is None || params.clone_create_time is None
                    || params.clone_uuid is None)
            },
        },
{
    let source = match &params.source_uuid {
        Some(v) => v.clone(),
        None => {
            return Err(
                LvsError::CloneConfigFailed {
                    name: bdev_name.to_owned(),
                    msg: "source uuid not provided".to_owned(),
                },
            );
        },
    };
    let created = match &params.clone_create_time {
        Some(v) => v.clone(),
        None => {
            return Err(
                LvsError::CloneConfigFailed {
                    name: bdev_name.to_owned(),
                    msg: "create_time not provided".to_owned(),
                },
            );
        },
    };
    let uuid = match &params.clone_uuid {
        Some(v) => v.clone(),
        None => {
            return Err(
                LvsError::CloneConfigFailed {
                    name: bdev_name.to_owned(),
                    msg: "clone_uuid not provided".to_owned(),
                },
            );
        },
    };
    let mut vals: Vec<String> = Vec::new();
    vals.push(source);
    vals.push(created);
    vals.push(uuid);
    Ok(vals)
}

/// What the snapshot-descriptor path reads of a logical volume.
#[derive(Clone, Debug)]
pub struct Lvol {
    /// Name of the volume.
    pub name: String,
    /// UUID of the volume.
    pub uuid: String,
    /// Bytes allocated to the volume.
    pub allocated_bytes: u64,
}

/// Information of one snapshot, as the listing surface reports it.
#[derive(Clone, Debug)]
pub struct SnapshotInfo {
    /// UUID of the volume the snapshot was taken of.
    pub source_uuid: String,
    /// Allocated size of the snapshot in bytes.
    pub snapshot_size: u64,
    /// The snapshot's stored parameters.
    pub snap_param: SnapshotParams,
    /// Number of clones taken of the snapshot.
    pub num_clones: u64,
    /// Whether every stored attribute was present.
    pub valid_snapshot: bool,
}

impl SnapshotInfo {
    /// Builds the listing entry from its parts.
    pub fn new(
        source_uuid: String,
        snapshot_size: u64,
        snap_param: SnapshotParams,
        num_clones: u64,
        valid_snapshot: bool,
    ) -> (r: SnapshotInfo)
        ensures
            r == (SnapshotInfo {
                source_uuid,
                snapshot_size,
                snap_param,
                num_clones,
                valid_snapshot,
            }),
    {
        SnapshotInfo { source_uuid, snapshot_size, snap_param, num_clones, valid_snapshot }
    }
}

/// The extended attributes fetched from a snapshot volume's blob, each
/// `None` when the blob does not carry it.
#[derive(Clone, Debug)]
pub struct FetchedSnapshotXattrs {
    /// Transaction that created the snapshot.
    pub txn_id: Option<String>,
    /// Entity the snapshot was taken for.
    pub entity_id: Option<String>,
    /// Volume the snapshot was taken of.
    pub parent_id: Option<String>,
    /// UUID of the snapshot volume.
    pub snapshot_uuid: Option<String>,
    /// Creation time, as stored.
    pub create_time: Option<String>,
    /// The stored discarded flag, as text.
    pub discarded: Option<String>,
}

/// Builds the listing entry of one snapshot from what was fetched of it.
///
/// A snapshot whose stored parent does not match the requested parent is
/// skipped.  A snapshot with missing attributes is still listed, marked
/// invalid.  The parent UUID reported is the requested parent's, or what
/// the volume lookup of the stored parent returned, or empty.
pub fn snapshot_descriptor_info(
    lvol: &Lvol,
    parent: Option<&Lvol>,
    attrs: &FetchedSnapshotXattrs,
    looked_up_parent_uuid: Option<String>,
    num_clones: u64,
) -> (r: Option<SnapshotInfo>)
    ensures
        match r {
            None => {
                &&& parent is Some
                &&& attrs.parent_id is Some
                &&& attrs.parent_id->0@ != parent->0.uuid@
            },
            Some(info) => {
                &&& !(parent is Some && attrs.parent_id is Some && attrs.parent_id->0@
                    != parent->0.uuid@)
                &&& info.valid_snapshot == (attrs.txn_id is Some && attrs.entity_id is Some
                    && attrs.parent_id is Some && attrs.snapshot_uuid is Some
                    && attrs.create_time is Some && attrs.discarded is Some)
                &&& info.snap_param.name matches Some(n) && n@ == lvol.name@
                &&& info.snap_param.txn_id == attrs.txn_id
                &&& info.snap_param.entity_id == attrs.entity_id
                &&& info.snap_param.parent_id == attrs.parent_id
                &&& info.snap_param.snapshot_uuid == attrs.snapshot_uuid
                &&& info.snap_param.create_time == attrs.create_time
                &&& info.snap_param.discarded_snapshot == (attrs.discarded matches Some(d) && d@
                    == "true"@)
                &&& info.snapshot_size == lvol.allocated_bytes
                &&& info.num_clones == num_clones
                &&& info.source_uuid@ == match parent {
                    Some(p) => p.uuid@,
                    None => match looked_up_parent_uuid {
                        Some(u) => u@,
                        None => Seq::<char>::empty(),
                    },
                }
            },
        },
{
    if let Some(p) = parent {
        if let Some(stored) = &attrs.parent_id {
            if *stored != p.uuid {
                return None;
            }
        }
    }
    let valid = attrs.txn_id.is_some() && attrs.entity_id.is_some() && attrs.parent_id.is_some()
        && attrs.snapshot_uuid.is_some() && attrs.create_time.is_some()
        && attrs.discarded.is_some();
    let truth = "true".to_owned();
    let discarded = match &attrs.discarded {
        Some(d) => *d == truth,
        None => false,
    };
    let params = SnapshotParams {
        name: Some(lvol.name.clone()),
        entity_id: attrs.entity_id.clone(),
        parent_id: attrs.parent_id.clone(),
        txn_id: attrs.txn_id.clone(),
        snapshot_uuid: attrs.snapshot_uuid.clone(),
        create_time: attrs.create_time.clone(),
        discarded_snapshot: discarded,
    };
    let source_uuid = match parent {
        Some(p) => p.uuid.clone(),
        None => match looked_up_parent_uuid {
            Some(u) => u,
            None => String::new(),
        },
    };
    Some(SnapshotInfo::new(source_uuid, lvol.allocated_bytes, params, num_clones, valid))
}

/// Snapshot descriptor to respond with as part of a snapshot listing.
#[derive(Clone, Debug)]
pub struct LvolSnapshotDescriptor {
    /// The snapshot volume itself.
    pub snapshot_lvol: Lvol,
    /// Its listing information.
    pub info: SnapshotInfo,
}

impl LvolSnapshotDescriptor {
    /// Creates a descriptor from the snapshot volume and its information.
    pub fn new(snapshot_lvol: Lvol, info: SnapshotInfo) -> (r: LvolSnapshotDescriptor)
        ensures
            r == (LvolSnapshotDescriptor { snapshot_lvol, info }),
    {
        LvolSnapshotDescriptor { snapshot_lvol, info }
    }

    /// Get the snapshot volume.
    pub fn snapshot_lvol(&self) -> (r: &Lvol)
        ensures
            *r == self.snapshot_lvol,
    {
        &self.snapshot_lvol
    }

    /// Get the snapshot information.
    pub fn info(&self) -> (r: &SnapshotInfo)
        ensures
            *r == self.info,
    {
        &self.info
    }
}

/// Walks a snapshot chain parent by parent.
pub trait AsyncParentIterator {
    /// What one step of the walk yields.
    type Item;

    /// The parent of the current position, or `None` at the root.
    fn parent(&mut self) -> Option<Self::Item>;
}

} // verus!

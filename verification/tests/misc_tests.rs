use io_engine::device::{BdevStats, BlockDeviceIoStats, DeviceTimeoutAction, ReadOptions};
use io_engine::logfmt::{basename, ellipsis, LogFormat, LogStyle};
use io_engine::services::{BdevService, BdevSvc};
use io_engine::snapshot::{clone_xattr_values, snapshot_descriptor_info, snapshot_xattr_values,
    CloneParams, FetchedSnapshotXattrs, Lvol, LvolSnapshotDescriptor, LvsError, SnapshotInfo,
    SnapshotParams};
use io_engine::wipe::{Resource, WipeMethod};

#[test]
fn stats_merge_saturates() {
    let mut a = BlockDeviceIoStats::zeroed();
    a.num_read_ops = 5;
    a.bytes_read = u64::MAX - 1;
    let mut b = BlockDeviceIoStats::zeroed();
    b.num_read_ops = 7;
    b.bytes_read = 10;
    b.tick_rate = 3;
    a.merge(&b);
    assert_eq!(a.num_read_ops, 12);
    assert_eq!(a.bytes_read, u64::MAX);
    assert_eq!(a.tick_rate, 3);
    assert_eq!(a.num_write_ops, 0);
}

#[test]
fn bdev_stats_new_keeps_parts() {
    let s = BdevStats::new("name".to_string(), "uuid".to_string(), BlockDeviceIoStats::zeroed());
    assert_eq!(s.name, "name");
    assert_eq!(s.uuid, "uuid");
    assert_eq!(s.stats.num_read_ops, 0);
}

#[test]
fn read_options_default_is_normal() {
    assert_eq!(ReadOptions::default(), ReadOptions::Normal);
}

#[test]
fn timeout_action_labels() {
    assert_eq!(DeviceTimeoutAction::Abort.label(), "Abort");
    assert_eq!(DeviceTimeoutAction::Reset.label(), "Reset");
    assert_eq!(DeviceTimeoutAction::Ignore.label(), "Ignore");
    assert_eq!(DeviceTimeoutAction::HotRemove.label(), "HotRemove");
}

#[test]
fn ellipsis_shortens_long_lines() {
    assert_eq!(ellipsis("short", 18), "short");
    assert_eq!(ellipsis("a-very-long-location-string", 18), "a-very-long-loc...");
    // Widths too small for an ellipsis keep the line whole.
    assert_eq!(ellipsis("something-long", 7), "something-long");
}

#[test]
fn basename_takes_last_component() {
    assert_eq!(basename("src/core/segment.rs"), "segment.rs");
    assert_eq!(basename("file.rs"), "file.rs");
    assert_eq!(basename("a/b/c"), "c");
}

#[test]
fn log_format_default() {
    let f = LogFormat::default();
    assert_eq!(f.style, LogStyle::Default);
    assert!(f.show_date);
    assert!(!f.show_host);
    assert!(!f.ansi);
    let g = LogFormat::new(true, LogStyle::Json, false, true);
    assert!(g.ansi);
    assert_eq!(g.style, LogStyle::Json);
}

#[test]
fn wipe_enumerations() {
    assert_eq!(Resource::resources(), vec!["replica"]);
    assert_eq!(
        WipeMethod::methods(),
        vec!["None", "WriteZeroes", "Unmap", "WritePattern", "CheckSum"]
    );
}

#[test]
fn services_construct() {
    let _ = BdevSvc::new();
    let _ = BdevService::new();
    let _ = BdevSvc::default();
    let _ = BdevService::default();
}

fn full_params() -> SnapshotParams {
    SnapshotParams::new(
        Some("snap1".to_string()),
        Some("entity1".to_string()),
        Some("parent1".to_string()),
        Some("txn1".to_string()),
        Some("uuid1".to_string()),
        Some("now".to_string()),
        false,
    )
}

#[test]
fn snapshot_xattrs_in_order() {
    let vals = snapshot_xattr_values(&full_params(), "bdev0").unwrap();
    assert_eq!(vals, vec!["txn1", "entity1", "parent1", "uuid1", "now", "false"]);
    let mut p = full_params();
    p.discarded_snapshot = true;
    let vals = snapshot_xattr_values(&p, "bdev0").unwrap();
    assert_eq!(vals[5], "true");
}

#[test]
fn snapshot_xattrs_reject_missing_fields() {
    let cases: [(fn(&mut SnapshotParams), &str); 5] = [
        (|p| p.txn_id = None, "txn id not provided"),
        (|p| p.entity_id = None, "entity id not provided"),
        (|p| p.parent_id = None, "parent id not provided"),
        (|p| p.snapshot_uuid = None, "snapshot_uuid not provided"),
        (|p| p.create_time = None, "create_time not provided"),
    ];
    for (strip, expected) in cases {
        let mut p = full_params();
        strip(&mut p);
        match snapshot_xattr_values(&p, "bdev0") {
            Err(LvsError::SnapshotConfigFailed { name, msg }) => {
                assert_eq!(name, "bdev0");
                assert_eq!(msg, expected);
            },
            other => panic!("expected config failure, got {:?}", other),
        }
    }
}

#[test]
fn clone_xattrs_in_order_and_rejections() {
    let full = CloneParams {
        clone_name: Some("clone1".to_string()),
        source_uuid: Some("source1".to_string()),
        clone_create_time: Some("now".to_string()),
        clone_uuid: Some("cloneuuid1".to_string()),
    };
    let vals = clone_xattr_values(&full, "bdev0").unwrap();
    assert_eq!(vals, vec!["source1", "now", "cloneuuid1"]);

    let mut p = full.clone();
    p.source_uuid = None;
    match clone_xattr_values(&p, "bdev0") {
        Err(LvsError::CloneConfigFailed { msg, .. }) => {
            assert_eq!(msg, "source uuid not provided")
        },
        other => panic!("expected clone config failure, got {:?}", other),
    }
    let mut p = full.clone();
    p.clone_uuid = None;
    match clone_xattr_values(&p, "bdev0") {
        Err(LvsError::CloneConfigFailed { msg, .. }) => {
            assert_eq!(msg, "clone_uuid not provided")
        },
        other => panic!("expected clone config failure, got {:?}", other),
    }
}

fn fetched(parent: &str) -> FetchedSnapshotXattrs {
    FetchedSnapshotXattrs {
        txn_id: Some("txn1".to_string()),
        entity_id: Some("entity1".to_string()),
        parent_id: Some(parent.to_string()),
        snapshot_uuid: Some("uuid1".to_string()),
        create_time: Some("now".to_string()),
        discarded: Some("false".to_string()),
    }
}

#[test]
fn descriptor_info_lists_valid_snapshot() {
    let snap = Lvol { name: "snap".to_string(), uuid: "su".to_string(), allocated_bytes: 4096 };
    let parent = Lvol { name: "vol".to_string(), uuid: "pu".to_string(), allocated_bytes: 0 };
    let info = snapshot_descriptor_info(&snap, Some(&parent), &fetched("pu"), None, 3).unwrap();
    assert!(info.valid_snapshot);
    assert_eq!(info.source_uuid, "pu");
    assert_eq!(info.snapshot_size, 4096);
    assert_eq!(info.num_clones, 3);
    assert_eq!(info.snap_param.name.as_deref(), Some("snap"));
    assert!(!info.snap_param.discarded_snapshot);
}

#[test]
fn descriptor_info_skips_mismatched_parent() {
    let snap = Lvol { name: "snap".to_string(), uuid: "su".to_string(), allocated_bytes: 4096 };
    let parent = Lvol { name: "vol".to_string(), uuid: "pu".to_string(), allocated_bytes: 0 };
    assert!(snapshot_descriptor_info(&snap, Some(&parent), &fetched("other"), None, 0).is_none());
}

#[test]
fn descriptor_info_marks_missing_attrs_invalid() {
    let snap = Lvol { name: "snap".to_string(), uuid: "su".to_string(), allocated_bytes: 1 };
    let mut attrs = fetched("pu");
    attrs.txn_id = None;
    attrs.discarded = Some("true".to_string());
    let info = snapshot_descriptor_info(&snap, None, &attrs, Some("lk".to_string()), 0).unwrap();
    assert!(!info.valid_snapshot);
    assert!(info.snap_param.discarded_snapshot);
    assert_eq!(info.source_uuid, "lk");
    // Without a lookup answer the reported parent is empty.
    let info = snapshot_descriptor_info(&snap, None, &fetched("pu"), None, 0).unwrap();
    assert_eq!(info.source_uuid, "");
}

#[test]
fn snapshot_descriptor_holds_parts() {
    let lvol = Lvol { name: "lvol1".to_string(), uuid: "uuid1".to_string(), allocated_bytes: 4096 };
    let info = SnapshotInfo::new("parent".to_string(), 4096, full_params(), 2, true);
    let d = LvolSnapshotDescriptor::new(lvol, info);
    assert_eq!(d.snapshot_lvol().name, "lvol1");
    assert_eq!(d.info().source_uuid, "parent");
    assert_eq!(d.info().num_clones, 2);
    assert!(d.info().valid_snapshot);
}

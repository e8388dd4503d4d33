use io_engine::channel::NexusChannel;
use io_engine::io_types::{DeviceCommand, FaultReason};
use io_engine::nexus::{ChildRole, Nexus, NexusError, NexusState};

fn nexus() -> Nexus {
    Nexus::new("nx".to_string(), 1024, 512, 2)
}

#[test]
fn add_child_is_idempotent_on_error() {
    let mut nx = nexus();
    let idx = nx
        .add_child("bdev:///a".to_string(), "a".to_string(), ChildRole::Healthy)
        .unwrap();
    assert_eq!(idx, 0);
    // A second identical add returns the deterministic error and mutates
    // nothing.
    let before = nx.children.len();
    let r = nx.add_child("bdev:///a".to_string(), "a2".to_string(), ChildRole::Healthy);
    assert_eq!(r, Err(NexusError::ChildAlreadyExists));
    assert_eq!(nx.children.len(), before);
    assert_eq!(nx.children[0].device_name, "a");
}

#[test]
fn add_child_rejected_while_shutting_down() {
    let mut nx = nexus();
    assert!(nx.shutdown_begin());
    let r = nx.add_child("bdev:///a".to_string(), "a".to_string(), ChildRole::Healthy);
    assert_eq!(r, Err(NexusError::NexusShuttingDown));
}

#[test]
fn remove_child_removes_first_match() {
    let mut nx = nexus();
    nx.add_child("bdev:///a".to_string(), "a".to_string(), ChildRole::Healthy).unwrap();
    nx.add_child("bdev:///b".to_string(), "b".to_string(), ChildRole::Healthy).unwrap();
    assert_eq!(nx.remove_child("bdev:///a"), Ok(()));
    assert_eq!(nx.children.len(), 1);
    assert_eq!(nx.children[0].uri, "bdev:///b");
    assert_eq!(nx.remove_child("bdev:///a"), Err(NexusError::ChildNotFound));
}

#[test]
fn fault_child_retires_exactly_once() {
    let mut nx = nexus();
    nx.add_child("bdev:///a".to_string(), "a".to_string(), ChildRole::Healthy).unwrap();
    nx.fault_child(0, FaultReason::IoError);
    assert_eq!(nx.children[0].role, ChildRole::Faulted);
    assert_eq!(nx.children[0].fault_reason, Some(FaultReason::IoError));
    assert_eq!(nx.cmd_queue.len(), 1);
    // Faulting again neither changes the child nor enqueues a second
    // retire command.
    nx.fault_child(0, FaultReason::NoSpace);
    assert_eq!(nx.children[0].fault_reason, Some(FaultReason::IoError));
    assert_eq!(nx.cmd_queue.len(), 1);
    match nx.cmd_queue.dequeue() {
        Some(DeviceCommand::RetireDevice { nexus_name, child_device }) => {
            assert_eq!(nexus_name, "nx");
            assert_eq!(child_device, "a");
        },
        other => panic!("unexpected command: {:?}", other),
    }
    assert!(nx.cmd_queue.dequeue().is_none());
}

#[test]
fn self_shutdown_fires_at_most_once() {
    let mut nx = nexus();
    assert!(nx.try_self_shutdown());
    assert!(!nx.try_self_shutdown());
    assert!(!nx.try_self_shutdown());
    assert!(nx.shutdown_requested);
}

#[test]
fn shutdown_begin_is_single_entry() {
    let mut nx = nexus();
    assert!(nx.shutdown_begin());
    assert_eq!(nx.state, NexusState::ShuttingDown);
    assert!(!nx.shutdown_begin());
    nx.shutdown_complete();
    assert_eq!(nx.state, NexusState::Shutdown);
    assert!(!nx.shutdown_begin());
}

#[test]
fn channel_covers_readers_with_writers() {
    let mut nx = nexus();
    nx.add_child("bdev:///a".to_string(), "a".to_string(), ChildRole::Healthy).unwrap();
    nx.add_child("bdev:///b".to_string(), "b".to_string(), ChildRole::Rebuilding).unwrap();
    nx.add_child("bdev:///c".to_string(), "c".to_string(), ChildRole::Faulted).unwrap();
    let ch = NexusChannel::new(&nx.children);
    // Writers at least cover the readers; the rebuilding child writes but
    // does not read; the faulted child is in neither.
    assert!(ch.num_writers() >= ch.num_readers());
    assert_eq!(ch.num_readers(), 1);
    assert_eq!(ch.num_writers(), 2);
    assert!(ch.readers.contains(&0));
    assert!(ch.writers.contains(&1));
    assert!(!ch.readers.contains(&1));
    assert!(!ch.writers.contains(&2));
}

#[test]
fn disconnect_is_idempotent() {
    let mut nx = nexus();
    for (u, d) in [("bdev:///a", "a"), ("bdev:///b", "b")] {
        nx.add_child(u.to_string(), d.to_string(), ChildRole::Healthy).unwrap();
    }
    let mut ch = NexusChannel::new(&nx.children);
    ch.disconnect_device(0);
    assert_eq!(ch.num_readers(), 1);
    assert_eq!(ch.num_writers(), 1);
    ch.disconnect_device(0);
    assert_eq!(ch.num_readers(), 1);
    assert_eq!(ch.num_writers(), 1);
}

#[test]
fn reader_selection_is_round_robin() {
    let mut nx = nexus();
    for (u, d) in [("bdev:///a", "a"), ("bdev:///b", "b"), ("bdev:///c", "c")] {
        nx.add_child(u.to_string(), d.to_string(), ChildRole::Healthy).unwrap();
    }
    let mut ch = NexusChannel::new(&nx.children);
    let picks: Vec<usize> = (0..6).map(|_| ch.select_reader().unwrap()).collect();
    assert_eq!(picks, vec![1, 2, 0, 1, 2, 0]);
}

#[test]
fn write_log_records_only_while_rebuilding() {
    let mut nx = nexus();
    nx.add_child("bdev:///a".to_string(), "a".to_string(), ChildRole::Healthy).unwrap();
    let mut ch = NexusChannel::new(&nx.children);
    ch.log_write(0, 8);
    assert_eq!(ch.io_log.len(), 0);
    ch.start_rebuild_logging();
    ch.log_write(16, 4);
    ch.log_write(64, 8);
    let log = ch.stop_rebuild_logging();
    assert_eq!(log.len(), 2);
    assert_eq!(log[0].offset, 16);
    assert_eq!(log[1].num_blocks, 8);
    assert_eq!(ch.io_log.len(), 0);
}

#[test]
fn product_id_is_fixed() {
    assert_eq!(Nexus::product_id(), "Nexus CAS Driver v0.0.1");
}

#[test]
fn child_offset_shifts_by_metadata_prefix() {
    let nx = Nexus::new("nx".to_string(), 1024, 512, 10);
    assert_eq!(nx.child_offset(0), 10);
    assert_eq!(nx.child_offset(5), 15);
}

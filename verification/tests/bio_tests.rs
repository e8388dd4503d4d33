use io_engine::bio::NexusBio;
use io_engine::block_store::BlockStore;
use io_engine::channel::NexusChannel;
use io_engine::io_types::{CoreError, Errno, GenericStatusCode, IoCompletionStatus, IoType,
    LvolFailure, NvmeStatus};
use io_engine::nexus::{ChildRole, Nexus, NexusState};

const BLOCK_LEN: u64 = 512;
const DATA_ENT_OFFSET: u64 = 2;

fn three_way_nexus() -> Nexus {
    let mut nx = Nexus::new("nx".to_string(), 1024, BLOCK_LEN, DATA_ENT_OFFSET);
    for i in 0..3 {
        nx.add_child(format!("bdev:///c{i}"), format!("c{i}"), ChildRole::Healthy)
            .unwrap();
    }
    nx
}

#[test]
fn three_way_write_success() {
    let mut nx = three_way_nexus();
    let mut ch = NexusChannel::new(&nx.children);
    let mut stores: Vec<BlockStore> = (0..3).map(|_| BlockStore::new(16, BLOCK_LEN as usize)).collect();

    let mut bio = NexusBio::new(IoType::Write, 0, 8);
    let outcomes = vec![true, true, true];
    let r = bio.submit_request(&mut nx, &mut ch, &outcomes);
    assert!(r.is_ok());
    assert_eq!(bio.in_flight, 3);
    assert!(bio.completed.is_none());

    // The caller performs the accepted child writes, each shifted by the
    // metadata prefix.
    let buf = vec![0xA5u8; 8 * BLOCK_LEN as usize];
    let child_off = nx.child_offset(0) as usize;
    assert_eq!(child_off, DATA_ENT_OFFSET as usize);
    for s in stores.iter_mut() {
        s.write_blocks(child_off, &buf);
    }

    for child in 0..3 {
        bio.complete(&mut nx, child, IoCompletionStatus::Success);
    }
    assert_eq!(bio.completed, Some(true));

    // Reading the same range on any replica returns the written fill.
    for s in stores.iter() {
        assert_eq!(s.read_blocks(child_off, 8), buf);
    }
}

#[test]
fn writer_submission_failure_latches_and_retries() {
    let mut nx = three_way_nexus();
    let mut ch = NexusChannel::new(&nx.children);

    let mut bio = NexusBio::new(IoType::Write, 0, 8);
    // The middle writer rejects the submission; fan-out stops there.
    let outcomes = vec![true, false, true];
    let r = bio.submit_request(&mut nx, &mut ch, &outcomes);
    assert!(matches!(r, Err(CoreError::WriteDispatch { source: Errno::Enxio })));
    assert!(bio.must_fail);
    assert_eq!(bio.in_flight, 1);
    assert!(bio.completed.is_none());

    // The offending child is faulted, retired exactly once, and gone from
    // the channel.
    assert_eq!(nx.children[1].role, ChildRole::Faulted);
    assert_eq!(nx.cmd_queue.len(), 1);
    assert_eq!(ch.num_writers(), 2);

    // The accepted child write completes; the latched failure turns the
    // final accounting into a retry from a fresh context.
    bio.complete(&mut nx, 0, IoCompletionStatus::Success);
    assert!(bio.retry);
    assert!(bio.completed.is_none());

    // The retried I/O, over the surviving writers, succeeds.
    let mut bio2 = NexusBio::new(IoType::Write, 0, 8);
    let outcomes2 = vec![true, true];
    let r2 = bio2.submit_request(&mut nx, &mut ch, &outcomes2);
    assert!(r2.is_ok());
    bio2.complete(&mut nx, 0, IoCompletionStatus::Success);
    bio2.complete(&mut nx, 2, IoCompletionStatus::Success);
    assert_eq!(bio2.completed, Some(true));
}

#[test]
fn reservation_conflict_triggers_self_shutdown() {
    let mut nx = three_way_nexus();
    let mut ch = NexusChannel::new(&nx.children);

    let mut bio = NexusBio::new(IoType::Write, 0, 8);
    let outcomes = vec![true, true, true];
    bio.submit_request(&mut nx, &mut ch, &outcomes).unwrap();

    bio.complete(
        &mut nx,
        1,
        IoCompletionStatus::NvmeError(NvmeStatus::Generic(GenericStatusCode::ReservationConflict)),
    );
    // Self-shutdown is requested; the offending replica is not faulted and
    // not retired.
    assert!(nx.shutdown_requested);
    assert_eq!(nx.children[1].role, ChildRole::Healthy);
    assert_eq!(nx.cmd_queue.len(), 0);

    bio.complete(&mut nx, 0, IoCompletionStatus::Success);
    bio.complete(&mut nx, 2, IoCompletionStatus::Success);

    // The master reactor then runs the shutdown sequence: mark, retire,
    // close, done.
    assert!(nx.shutdown_begin());
    assert_eq!(nx.state, NexusState::ShuttingDown);
    nx.retire_all_children();
    nx.close_children();
    nx.shutdown_complete();
    assert_eq!(nx.state, NexusState::Shutdown);
    for c in nx.children.iter() {
        assert_eq!(c.role, ChildRole::Closed);
    }
    assert!(nx.children[1].fault_reason.is_none());

    // A concurrent second conflict cannot shut the nexus down again.
    assert!(!nx.try_self_shutdown());
}

#[test]
fn read_failover_succeeds_with_second_reader() {
    let mut nx = Nexus::new("nx".to_string(), 1024, BLOCK_LEN, DATA_ENT_OFFSET);
    nx.add_child("bdev:///c0".to_string(), "c0".to_string(), ChildRole::Healthy).unwrap();
    nx.add_child("bdev:///c1".to_string(), "c1".to_string(), ChildRole::Healthy).unwrap();
    let mut ch = NexusChannel::new(&nx.children);
    assert_eq!(ch.num_readers(), 2);

    let mut bio = NexusBio::new(IoType::Read, 0, 8);
    // The first-selected reader rejects the submission; the next accepts.
    let outcomes = vec![false, true];
    let r = bio.submit_request(&mut nx, &mut ch, &outcomes);
    assert!(r.is_ok());
    assert_eq!(bio.in_flight, 1);

    // Exactly one reader was faulted, exactly once.
    let faulted: Vec<usize> = (0..2)
        .filter(|&i| nx.children[i].role == ChildRole::Faulted)
        .collect();
    assert_eq!(faulted.len(), 1);
    assert_eq!(nx.cmd_queue.len(), 1);

    let ok_child = 1 - faulted[0];
    bio.complete(&mut nx, ok_child, IoCompletionStatus::Success);
    assert_eq!(bio.completed, Some(true));
}

#[test]
fn read_with_no_readers_fails_at_once() {
    let mut nx = Nexus::new("nx".to_string(), 1024, BLOCK_LEN, DATA_ENT_OFFSET);
    nx.add_child("bdev:///c0".to_string(), "c0".to_string(), ChildRole::Rebuilding).unwrap();
    let mut ch = NexusChannel::new(&nx.children);
    assert_eq!(ch.num_readers(), 0);
    assert_eq!(ch.num_writers(), 1);

    let mut bio = NexusBio::new(IoType::Read, 0, 8);
    let outcomes: Vec<bool> = Vec::new();
    let r = bio.submit_request(&mut nx, &mut ch, &outcomes);
    assert!(matches!(r, Err(CoreError::NoDevicesAvailable)));
    assert_eq!(bio.completed, Some(false));
}

#[test]
fn flush_completes_at_once() {
    let mut nx = three_way_nexus();
    let mut ch = NexusChannel::new(&nx.children);
    let mut bio = NexusBio::new(IoType::Flush, 0, 0);
    let r = bio.submit_request(&mut nx, &mut ch, &Vec::new());
    assert!(r.is_ok());
    assert_eq!(bio.completed, Some(true));
}

#[test]
fn admin_and_unknown_opcodes_fail() {
    let mut nx = three_way_nexus();
    let mut ch = NexusChannel::new(&nx.children);
    let mut bio = NexusBio::new(IoType::NvmeAdmin, 0, 0);
    let r = bio.submit_request(&mut nx, &mut ch, &Vec::new());
    assert!(matches!(r, Err(CoreError::NotSupported { source: Errno::Einval })));
    assert_eq!(bio.completed, Some(false));

    let mut bio = NexusBio::new(IoType::Unknown, 0, 0);
    let r = bio.submit_request(&mut nx, &mut ch, &Vec::new());
    assert!(matches!(r, Err(CoreError::NotSupported { source: Errno::Eopnotsupp })));
    assert_eq!(bio.completed, Some(false));
}

#[test]
fn invalid_opcode_is_ignored() {
    let mut nx = three_way_nexus();
    let mut ch = NexusChannel::new(&nx.children);
    let mut bio = NexusBio::new(IoType::Write, 0, 8);
    bio.submit_request(&mut nx, &mut ch, &vec![true, true, true]).unwrap();

    bio.complete(
        &mut nx,
        0,
        IoCompletionStatus::NvmeError(NvmeStatus::Generic(GenericStatusCode::InvalidOpcode)),
    );
    // No retire, no completion; the failure is latched all the same.
    assert_eq!(nx.cmd_queue.len(), 0);
    assert_eq!(nx.children[0].role, ChildRole::Healthy);
    assert!(bio.must_fail);
    assert!(bio.completed.is_none());
}

#[test]
fn no_space_faults_without_retry() {
    let mut nx = three_way_nexus();
    let mut ch = NexusChannel::new(&nx.children);
    let mut bio = NexusBio::new(IoType::Write, 0, 8);
    bio.submit_request(&mut nx, &mut ch, &vec![true, true, true]).unwrap();

    bio.complete(&mut nx, 0, IoCompletionStatus::Success);
    bio.complete(&mut nx, 1, IoCompletionStatus::Success);
    bio.complete(&mut nx, 2, IoCompletionStatus::LvolError(LvolFailure::NoSpace));
    assert_eq!(bio.completed, Some(false));
    assert!(!bio.retry);
    assert_eq!(nx.children[2].role, ChildRole::Faulted);
    assert_eq!(
        nx.children[2].fault_reason,
        Some(io_engine::io_types::FaultReason::NoSpace)
    );
}

#[test]
fn aborted_submission_queue_requests_retry() {
    let mut nx = three_way_nexus();
    let mut ch = NexusChannel::new(&nx.children);
    let mut bio = NexusBio::new(IoType::Write, 0, 8);
    bio.submit_request(&mut nx, &mut ch, &vec![true, true, true]).unwrap();

    bio.complete(&mut nx, 0, IoCompletionStatus::Success);
    bio.complete(&mut nx, 1, IoCompletionStatus::Success);
    bio.complete(
        &mut nx,
        2,
        IoCompletionStatus::NvmeError(NvmeStatus::Generic(
            GenericStatusCode::AbortedSubmissionQueueDeleted,
        )),
    );
    assert!(bio.retry);
    assert!(bio.completed.is_none());
    assert_eq!(nx.children[2].role, ChildRole::Faulted);
}

#[test]
fn write_round_trip_through_offset_mapping() {
    // A write at consumer offset zero lands at the metadata prefix on the
    // replica, and a read through the same mapping returns it.
    let nx = three_way_nexus();
    let mut store = BlockStore::new(16, BLOCK_LEN as usize);
    let payload: Vec<u8> = (0..BLOCK_LEN as usize).map(|i| (i % 251) as u8).collect();
    let off = nx.child_offset(0) as usize;
    store.write_blocks(off, &payload);
    assert_eq!(store.read_blocks(off, 1), payload);
    // The metadata prefix itself is untouched.
    assert_eq!(store.read_blocks(0, 1), vec![0u8; BLOCK_LEN as usize]);
}

use io_engine::io_types::IoRecord;
use io_engine::rebuild::{RebuildError, RebuildJob, RebuildState};
use io_engine::segment_map::SegmentMap;

const BLK: u64 = 512;
const SEG: u64 = 64 * 1024;

fn run_to_completion(job: &mut RebuildJob) {
    let empty: Vec<IoRecord> = Vec::new();
    while let Some(seg) = job.next_dirty_segment() {
        job.segment_copied(seg, &empty);
    }
    assert!(job.try_complete());
}

#[test]
fn full_rebuild_transfers_whole_range() {
    // A 128 MiB destination: every block of the range is copied once.
    let num_blocks = 128 * 1024 * 1024 / BLK;
    let mut job = RebuildJob::new(
        "bdev:///src".to_string(),
        "bdev:///dst".to_string(),
        num_blocks,
        BLK,
        SEG,
        None,
    )
    .unwrap();
    assert!(!job.is_partial);
    job.start();
    run_to_completion(&mut job);
    assert_eq!(job.state, RebuildState::Completed);
    let stats = job.stats();
    assert_eq!(stats.blocks_transferred, num_blocks);
    assert_eq!(stats.blocks_remaining, 0);
    assert_eq!(stats.progress, 100);
}

#[test]
fn partial_rebuild_transfers_marked_segments() {
    // Segments {1, 2, 3, 10, 20} of 64 KiB over 512-byte blocks:
    // 5 segments of 128 blocks, 640 blocks in all.
    let num_blocks = 100 * 1024 * 1024 / BLK;
    let mut map = SegmentMap::new(num_blocks, BLK, SEG);
    for seg in [1u64, 2, 3, 10, 20] {
        map.set(seg * 128, 128, true);
    }
    let dirty = map.count_dirty_blks();
    assert_eq!(dirty, 640);
    let mut job = RebuildJob::new(
        "bdev:///src".to_string(),
        "bdev:///dst".to_string(),
        num_blocks,
        BLK,
        SEG,
        Some(map),
    )
    .unwrap();
    assert!(job.is_partial);
    job.start();
    run_to_completion(&mut job);
    assert_eq!(job.state, RebuildState::Completed);
    assert_eq!(job.stats().blocks_transferred, 640);
}

#[test]
fn rebuild_bdev() {
    // A full rebuild of a 100 MiB device transfers its whole block count.
    let num_blocks = 100 * 1024 * 1024 / BLK;
    let mut job = RebuildJob::new(
        "malloc:///d?size_mb=100".to_string(),
        "malloc:///d2?size_mb=100".to_string(),
        num_blocks,
        BLK,
        SEG,
        None,
    )
    .unwrap();
    job.start();
    run_to_completion(&mut job);
    assert_eq!(job.state, RebuildState::Completed, "Rebuild should succeed");
    assert_eq!(job.stats().blocks_transferred, 100 * 1024 * 2);
}

#[test]
fn rebuild_bdev_partial() {
    let num_blocks = 100 * 1024 * 1024 / BLK;
    let seg_blks = SEG / BLK;
    let mk = |segs: &[(u64, u64)]| {
        let mut m = SegmentMap::new(num_blocks, BLK, SEG);
        for &(seg, cnt) in segs {
            assert!(cnt > 0, "Must set something!");
            m.set(seg * seg_blks, seg_blks * cnt, true);
        }
        m
    };
    let test_table = vec![
        mk(&[(1, 1), (2, 1)]),
        mk(&[(1, 1), (2, 1), (1, 1), (2, 1)]),
        mk(&[(20, 1), (3, 1), (10, 1)]),
        mk(&[(20, 1), (3, 1), (10, 2)]),
    ];
    for (i, map) in test_table.into_iter().enumerate() {
        let dirty = map.count_dirty_blks();
        let mut job = RebuildJob::new(
            "malloc:///d?size_mb=100".to_string(),
            "malloc:///d2?size_mb=100".to_string(),
            num_blocks,
            BLK,
            SEG,
            Some(map),
        )
        .unwrap();
        job.start();
        run_to_completion(&mut job);
        assert_eq!(job.state, RebuildState::Completed, "Rebuild should succeed");
        assert_eq!(job.stats().blocks_transferred, dirty, "Test {} failed", i);
    }
}

#[test]
fn mismatched_bitmap_is_rejected() {
    let map = SegmentMap::new(1024, BLK, SEG);
    let r = RebuildJob::new(
        "bdev:///src".to_string(),
        "bdev:///dst".to_string(),
        2048,
        BLK,
        SEG,
        Some(map),
    );
    assert!(matches!(r, Err(RebuildError::InvalidBitmap)));
}

#[test]
fn overlapping_write_keeps_segment_dirty() {
    let mut map = SegmentMap::new(1024, BLK, SEG);
    map.set(0, 256, true);
    let mut job = RebuildJob::new(
        "bdev:///src".to_string(),
        "bdev:///dst".to_string(),
        1024,
        BLK,
        SEG,
        Some(map),
    )
    .unwrap();
    job.start();
    // A live write overlapped segment 0 while it was being copied: the
    // segment goes back to dirty, and the transfer still counts.
    let log = vec![IoRecord { offset: 10, num_blocks: 4 }];
    job.segment_copied(0, &log);
    assert_eq!(job.stats().blocks_transferred, 128);
    assert_eq!(job.stats().blocks_remaining, 256);
    // Without an overlap the segment closes clean.
    let empty: Vec<IoRecord> = Vec::new();
    job.segment_copied(0, &empty);
    assert_eq!(job.stats().blocks_remaining, 128);
}

#[test]
fn dirty_count_never_grows_under_copying() {
    let num_blocks = 4096;
    let mut job = RebuildJob::new(
        "bdev:///src".to_string(),
        "bdev:///dst".to_string(),
        num_blocks,
        BLK,
        SEG,
        None,
    )
    .unwrap();
    job.start();
    let empty: Vec<IoRecord> = Vec::new();
    let mut last = job.stats().blocks_remaining;
    while let Some(seg) = job.next_dirty_segment() {
        job.segment_copied(seg, &empty);
        let now = job.stats().blocks_remaining;
        assert!(now <= last);
        last = now;
    }
}

#[test]
fn live_write_redirties_segments() {
    let map = SegmentMap::new(1024, BLK, SEG);
    let mut job = RebuildJob::new(
        "bdev:///src".to_string(),
        "bdev:///dst".to_string(),
        1024,
        BLK,
        SEG,
        Some(map),
    )
    .unwrap();
    assert_eq!(job.stats().blocks_remaining, 0);
    job.mark_dirty(130, 4);
    assert_eq!(job.stats().blocks_remaining, 128);
}

#[test]
fn pause_and_resume_lose_nothing() {
    let mut job = RebuildJob::new(
        "bdev:///src".to_string(),
        "bdev:///dst".to_string(),
        1024,
        BLK,
        SEG,
        None,
    )
    .unwrap();
    job.start();
    let empty: Vec<IoRecord> = Vec::new();
    let seg = job.next_dirty_segment().unwrap();
    job.segment_copied(seg, &empty);
    let transferred = job.stats().blocks_transferred;
    job.pause();
    assert_eq!(job.state, RebuildState::Paused);
    job.resume();
    assert_eq!(job.state, RebuildState::Running);
    assert_eq!(job.stats().blocks_transferred, transferred);
    run_to_completion(&mut job);
}

#[test]
fn history_snapshots_terminal_job() {
    let mut job = RebuildJob::new(
        "bdev:///src".to_string(),
        "bdev:///dst".to_string(),
        1024,
        BLK,
        SEG,
        None,
    )
    .unwrap();
    job.start();
    job.stop();
    assert_eq!(job.state, RebuildState::Stopped);
    let rec = job.history_record(7, 11);
    assert_eq!(rec.child_uri, "bdev:///dst");
    assert_eq!(rec.src_uri, "bdev:///src");
    assert_eq!(rec.state, RebuildState::Stopped);
    assert_eq!(rec.blocks_total, 1024);
    assert_eq!(rec.block_size, BLK);
    assert!(!rec.is_partial);
    assert_eq!(rec.start_time, 7);
    assert_eq!(rec.end_time, 11);
}

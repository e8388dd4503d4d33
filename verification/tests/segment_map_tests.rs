use io_engine::segment_map::SegmentMap;

// 1024 blocks of 512 bytes with 64 KiB segments: 128 blocks per segment,
// 8 segments in all.
fn small_map() -> SegmentMap {
    SegmentMap::new(1024, 512, 65536)
}

#[test]
fn new_map_is_clean() {
    let map = small_map();
    assert_eq!(map.count_dirty_blks(), 0);
    assert_eq!(map.size_blks(), 1024);
    assert_eq!(map.segment_size_blks(), 128);
    assert_eq!(map.get(0), Some(false));
    assert_eq!(map.get(1023), Some(false));
    assert_eq!(map.get(1024), None);
}

#[test]
fn set_single_block_marks_exactly_one_segment() {
    let mut map = small_map();
    map.set(0, 1, true);
    assert_eq!(map.count_dirty_blks(), 128);
    assert_eq!(map.get(0), Some(true));
    assert_eq!(map.get(127), Some(true));
    assert_eq!(map.get(128), Some(false));
}

#[test]
fn set_across_boundary_marks_two_segments() {
    let mut map = small_map();
    map.set(127, 2, true);
    assert_eq!(map.count_dirty_blks(), 256);
    assert_eq!(map.get(0), Some(true));
    assert_eq!(map.get(128), Some(true));
    assert_eq!(map.get(256), Some(false));
}

#[test]
fn set_clears_too() {
    let mut map = small_map();
    map.set(0, 1024, true);
    assert_eq!(map.count_dirty_blks(), 1024);
    map.set(0, 128, false);
    assert_eq!(map.count_dirty_blks(), 1024 - 128);
}

#[test]
fn merge_is_bitwise_or() {
    let mut a = small_map();
    a.set(0, 1, true);
    let mut b = small_map();
    b.set(300, 1, true);
    let merged = a.merge(&b);
    assert_eq!(merged.count_dirty_blks(), 256);
    assert_eq!(merged.get(0), Some(true));
    assert_eq!(merged.get(300), Some(true));
    assert_eq!(merged.get(500), Some(false));
}

#[test]
fn merge_commutes_on_values() {
    let mut a = small_map();
    a.set(0, 1, true);
    a.set(600, 10, true);
    let mut b = small_map();
    b.set(300, 1, true);
    let ab = a.merge(&b);
    let mut a2 = small_map();
    a2.set(0, 1, true);
    a2.set(600, 10, true);
    let mut b2 = small_map();
    b2.set(300, 1, true);
    let ba = b2.merge(&a2);
    for lbn in 0..1024u64 {
        assert_eq!(ab.get(lbn), ba.get(lbn));
    }
}

#[test]
fn merge_associates_on_values() {
    let mk = |segs: &[u64]| {
        let mut m = small_map();
        for &s in segs {
            m.set(s * 128, 128, true);
        }
        m
    };
    let left = mk(&[0]).merge(&mk(&[2])).merge(&mk(&[5]));
    let right = mk(&[0]).merge(&mk(&[2]).merge(&mk(&[5])));
    for lbn in 0..1024u64 {
        assert_eq!(left.get(lbn), right.get(lbn));
    }
}

#[test]
fn partial_dirty_count_formula() {
    // 64 KiB segments over 512-byte blocks: 128 blocks per segment, so
    // five dirty segments count 640 dirty blocks.
    let mut map = SegmentMap::new(204800, 512, 65536);
    for seg in [1u64, 2, 3, 10, 20] {
        map.set(seg * 128, 128, true);
    }
    assert_eq!(map.count_dirty_blks(), 640);
}

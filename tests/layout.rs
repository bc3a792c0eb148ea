use ps_datachunk::layout::{
    layout_fits, offsets, round_down, round_up, HASH_SIZE, SIZE_ALIGNMENT, SIZE_SIZE,
};

#[test]
fn rounding_values() {
    assert_eq!(round_up(0, 3), 0);
    assert_eq!(round_up(1, 3), 8);
    assert_eq!(round_up(8, 3), 8);
    assert_eq!(round_up(9, 3), 16);
    assert_eq!(round_up(17, 4), 32);
    assert_eq!(round_down(0, 3), 0);
    assert_eq!(round_down(15, 3), 8);
    assert_eq!(round_down(16, 3), 16);
    assert_eq!(round_down(31, 4), 16);
}

#[test]
fn offsets_values() {
    assert_eq!(offsets(0), (0, 64, 72));
    assert_eq!(offsets(5), (8, 72, 80));
    assert_eq!(offsets(16), (16, 80, 88));
    assert_eq!(offsets(17), (24, 88, 96));
}

#[test]
fn offsets_alignment_sweep() {
    for i in 12..=256usize {
        let (hash_offset, size_offset, total) = offsets(i);
        assert_eq!(hash_offset % 8, 0);
        assert_eq!(size_offset % (1 << SIZE_ALIGNMENT), 0);
        assert_eq!(total % 8, 0);
        assert!(hash_offset >= i);
        assert!(size_offset >= hash_offset + HASH_SIZE);
    }
}

#[test]
fn offsets_invariants_broad_range() {
    for n in 0..10000usize {
        let (hash_offset, size_offset, total) = offsets(n);
        assert_eq!(hash_offset % 8, 0);
        assert_eq!(size_offset % 8, 0);
        assert_eq!(total % 8, 0);
        assert!(hash_offset >= n && hash_offset < n + 8);
        assert!(size_offset >= hash_offset + HASH_SIZE);
        assert_eq!(total, size_offset + SIZE_SIZE);
    }
}

#[test]
fn layout_fits_edges() {
    assert!(layout_fits(0));
    assert!(layout_fits(1 << 20));
    assert!(!layout_fits(usize::MAX));
    assert!(!layout_fits(usize::MAX - 72));
    assert!(layout_fits(usize::MAX - 79));
}

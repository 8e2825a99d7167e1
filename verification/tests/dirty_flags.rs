use khzeb::dirty::{DirtyFlags, DIRTY_FLAG_BITS_PER_BLOCK};

#[test]
fn new_flags_are_all_clear() {
    let flags = DirtyFlags::<4>::new();
    assert_eq!(DirtyFlags::<4>::size(), 256);
    assert_eq!(DirtyFlags::<4>::size(), 4 * DIRTY_FLAG_BITS_PER_BLOCK);
    assert_eq!(flags.iter_bits(), vec![false; 256]);
    assert_eq!(flags.iter_marked(), Vec::<usize>::new());
}

#[test]
fn mark_sets_one_flag() {
    for idx in [0usize, 1, 62, 63, 64, 65, 127, 128, 200, 255] {
        let mut flags = DirtyFlags::<4>::new();
        flags.mark(idx);
        assert_eq!(flags.iter_marked(), vec![idx]);
        let bits = flags.iter_bits();
        assert_eq!(bits.len(), 256);
        for (i, bit) in bits.iter().enumerate() {
            assert_eq!(*bit, i == idx);
            assert_eq!(flags.is_marked(i), i == idx);
        }
    }
}

#[test]
fn marked_flags_come_out_ascending() {
    let mut flags = DirtyFlags::<4>::new();
    for idx in [200usize, 3, 64, 63, 255, 0, 128, 3, 64] {
        flags.mark(idx);
    }
    assert_eq!(flags.iter_marked(), vec![0, 3, 63, 64, 128, 200, 255]);
}

#[test]
fn marking_twice_is_marking_once() {
    let mut once = DirtyFlags::<2>::new();
    once.mark(77);
    let mut twice = DirtyFlags::<2>::new();
    twice.mark(77);
    twice.mark(77);
    assert_eq!(once.iter_bits(), twice.iter_bits());
}

#[test]
fn reading_flags_does_not_use_them_up() {
    let mut flags = DirtyFlags::<1>::new();
    flags.mark(5);
    flags.mark(9);
    assert_eq!(flags.iter_marked(), vec![5, 9]);
    assert_eq!(flags.iter_marked(), vec![5, 9]);
    assert_eq!(flags.iter_bits(), flags.iter_bits());
}

#[test]
fn clear_resets_every_flag() {
    let mut flags = DirtyFlags::<4>::new();
    for idx in 0..256 {
        flags.mark(idx);
    }
    assert_eq!(flags.iter_marked(), (0..256).collect::<Vec<usize>>());
    flags.clear();
    assert_eq!(flags.iter_marked(), Vec::<usize>::new());
    assert_eq!(flags.iter_bits(), vec![false; 256]);
}

#[test]
fn flags_without_blocks_hold_nothing() {
    let mut flags = DirtyFlags::<0>::new();
    assert_eq!(DirtyFlags::<0>::size(), 0);
    assert_eq!(flags.iter_bits(), Vec::<bool>::new());
    flags.clear();
    assert_eq!(flags.iter_marked(), Vec::<usize>::new());
}

#[test]
fn copied_flags_are_independent() {
    let mut flags = DirtyFlags::<1>::new();
    flags.mark(1);
    let copy = flags;
    flags.mark(2);
    assert_eq!(copy.iter_marked(), vec![1]);
    assert_eq!(flags.iter_marked(), vec![1, 2]);
}

#[test]
fn default_flags_are_new_flags() {
    let flags = DirtyFlags::<3>::default();
    assert_eq!(flags.iter_bits(), DirtyFlags::<3>::new().iter_bits());
    assert_eq!(flags.iter_bits(), vec![false; 192]);
}

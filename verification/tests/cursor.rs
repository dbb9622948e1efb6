use spsc_ring::cursor::{
    index_moved, next_idx, pop_target, push_target, ring_empty, ring_full, take_target,
    write_target,
};

#[test]
fn next_idx_wraps_after_the_last_slot() {
    assert_eq!(next_idx(0, 4), 1);
    assert_eq!(next_idx(2, 4), 3);
    assert_eq!(next_idx(3, 4), 0);
    assert_eq!(next_idx(0, 1), 0);
    assert_eq!(next_idx(1, 3), 2);
    assert_eq!(next_idx(2, 3), 0);
    assert_eq!(next_idx(usize::MAX - 1, usize::MAX), 0);
}

#[test]
fn push_target_stops_before_the_tail() {
    assert_eq!(push_target(0, 0, 4), Some(1));
    assert_eq!(push_target(2, 0, 4), Some(3));
    assert_eq!(push_target(3, 0, 4), None);
    assert_eq!(push_target(3, 1, 4), Some(0));
    assert_eq!(push_target(0, 1, 4), None);
    assert_eq!(push_target(0, 0, 1), None);
}

#[test]
fn pop_target_stops_at_the_head() {
    assert_eq!(pop_target(0, 0, 4), None);
    assert_eq!(pop_target(1, 0, 4), Some(1));
    assert_eq!(pop_target(0, 3, 4), Some(0));
    assert_eq!(pop_target(2, 2, 4), None);
}

#[test]
fn ring_full_when_head_is_just_behind_tail() {
    assert!(ring_full(3, 0, 4));
    assert!(ring_full(0, 1, 4));
    assert!(!ring_full(0, 0, 4));
    assert!(!ring_full(1, 0, 4));
    assert!(ring_full(0, 0, 1));
    assert!(!ring_full(9, 0, 4));
}

#[test]
fn write_target_skips_the_claimed_slot() {
    assert_eq!(write_target(0, 0, 3), 1);
    assert_eq!(write_target(1, 0, 3), 2);
    assert_eq!(write_target(2, 0, 3), 1);
    assert_eq!(write_target(2, 1, 3), 0);
    assert_eq!(write_target(0, 1, 3), 2);
    assert_eq!(write_target(0, 1, 2), 0);
    assert_eq!(write_target(1, 0, 2), 1);
    assert_eq!(write_target(0, 0, 2), 1);
}

#[test]
fn ring_empty_when_the_cursors_meet() {
    assert!(ring_empty(0, 0));
    assert!(ring_empty(3, 3));
    assert!(!ring_empty(1, 0));
    assert!(!ring_empty(0, 3));
}

#[test]
fn index_moved_when_the_newest_is_unclaimed() {
    assert!(!index_moved(0, 0));
    assert!(!index_moved(2, 2));
    assert!(index_moved(1, 0));
    assert!(index_moved(0, 2));
}

#[test]
fn take_target_claims_only_a_new_slot_in_range() {
    assert_eq!(take_target(0, 0, 4), None);
    assert_eq!(take_target(1, 0, 4), Some(1));
    assert_eq!(take_target(3, 1, 4), Some(3));
    assert_eq!(take_target(0, 3, 4), Some(0));
    assert_eq!(take_target(2, 2, 4), None);
    assert_eq!(take_target(4, 0, 4), None);
    assert_eq!(take_target(9, 1, 4), None);
}

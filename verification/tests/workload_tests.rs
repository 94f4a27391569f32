use frame_timing::workload::work_value;

#[test]
fn workload_recurrence_matches_fibonacci() {
    assert_eq!(work_value(0), 1);
    assert_eq!(work_value(1), 1);
    assert_eq!(work_value(2), 2);
    assert_eq!(work_value(3), 3);
    assert_eq!(work_value(4), 5);
    assert_eq!(work_value(10), 89);
}

#[test]
fn workload_wraps_instead_of_overflowing() {
    // Far past the 93rd step the recurrence no longer fits in 64 bits; it
    // must keep wrapping rather than panic.
    let v = work_value(10_000);
    let w = work_value(10_000);
    assert_eq!(v, w);
}

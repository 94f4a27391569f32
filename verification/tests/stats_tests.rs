use frame_timing::stats::run_test;
use frame_timing::stats::StatsError;
use frame_timing::time::as_nanos;
use frame_timing::time::from_nanos;
use frame_timing::time::Duration;
use frame_timing::time::PrettyDuration;

fn ms(n: u64) -> Duration {
    Duration::from_millis(n)
}

#[test]
fn uniform_sequence_has_zero_std() {
    let times = vec![ms(10), ms(10), ms(10), ms(10)];
    let results = run_test(&times, &ms(16)).unwrap();
    assert_eq!(results.mean, ms(10));
    assert_eq!(results.std, ms(0));
    assert_eq!(results.min, ms(10));
    assert_eq!(results.max, ms(10));
    assert_eq!(results.long_frames, 0);
}

#[test]
fn two_point_sequence_mean_and_std() {
    let times = vec![ms(8), ms(12)];
    let results = run_test(&times, &ms(16)).unwrap();
    assert_eq!(results.mean, ms(10));
    // Both deviations are 2ms, so the mean squared deviation is (2ms)^2 and
    // the standard deviation is exactly 2ms.
    assert_eq!(results.std, ms(2));
    assert_eq!(results.min, ms(8));
    assert_eq!(results.max, ms(12));
}

#[test]
fn long_frames_counts_strict_overruns() {
    let times = vec![ms(10), ms(20), ms(15)];
    let results = run_test(&times, &ms(16)).unwrap();
    assert_eq!(results.long_frames, 1);
    assert_eq!(results.min, ms(10));
    assert_eq!(results.max, ms(20));
    assert_eq!(results.mean, ms(15));
}

#[test]
fn long_frames_excludes_exact_target() {
    // A frame exactly at the target is not a long frame.
    let times = vec![ms(16), ms(16), ms(17)];
    let results = run_test(&times, &ms(16)).unwrap();
    assert_eq!(results.long_frames, 1);
}

#[test]
fn empty_sequence_is_rejected() {
    let times: Vec<Duration> = Vec::new();
    assert_eq!(run_test(&times, &ms(16)), Err(StatsError::EmptySequence));
}

#[test]
fn pathological_durations_are_rejected_as_overflow() {
    // Deviations of half the representable range square to well beyond the
    // 128-bit accumulator.
    let huge = Duration::new(u64::MAX, 999_999_999);
    let times = vec![Duration::new(0, 0), huge];
    assert_eq!(run_test(&times, &ms(16)), Err(StatsError::Overflow));
}

#[test]
fn mean_lies_between_min_and_max() {
    let times = vec![ms(3), ms(31), ms(14), ms(7), ms(25)];
    let results = run_test(&times, &ms(16)).unwrap();
    assert!(results.min.le(&results.mean));
    assert!(results.mean.le(&results.max));
    assert_eq!(results.min, ms(3));
    assert_eq!(results.max, ms(31));
    // total 80ms over 5 frames
    assert_eq!(results.mean, ms(16));
}

#[test]
fn mean_truncates_toward_zero() {
    let times = vec![from_nanos(3), from_nanos(4)];
    let results = run_test(&times, &ms(16)).unwrap();
    // (3 + 4) / 2 truncates to 3 nanoseconds.
    assert_eq!(results.mean, from_nanos(3));
}

#[test]
fn std_is_exact_on_perfect_squares() {
    // Deviations 1ns and 1ns from mean 3ns of [2ns, 4ns]: msd 1, std 1ns.
    let times = vec![from_nanos(2), from_nanos(4)];
    let results = run_test(&times, &ms(16)).unwrap();
    assert_eq!(results.mean, from_nanos(3));
    assert_eq!(results.std, from_nanos(1));
}

#[test]
fn std_rounds_to_nearest_nanosecond() {
    // [0ns, 3ns]: truncated mean 1ns, deviations 1ns and 2ns, msd 5/2, and
    // sqrt(2.5) = 1.58..., which rounds up to 2ns rather than truncating
    // to 1ns.
    let times = vec![from_nanos(0), from_nanos(3)];
    let results = run_test(&times, &ms(16)).unwrap();
    assert_eq!(results.mean, from_nanos(1));
    assert_eq!(results.std, from_nanos(2));
}

#[test]
fn nanos_round_trip() {
    let d = from_nanos(16_666_667);
    assert_eq!(as_nanos(d), 16_666_667);
    assert_eq!(d, Duration::new(0, 16_666_667));
    let long = Duration::new(3, 250_000_000);
    assert_eq!(as_nanos(long), 3_250_000_000);
    assert_eq!(from_nanos(3_250_000_000), long);
}

#[test]
fn duration_arithmetic_is_checked() {
    let a = ms(16);
    let b = ms(20);
    assert_eq!(a.checked_sub(&b), None);
    assert_eq!(b.checked_sub(&a), Some(ms(4)));
    assert_eq!(a.checked_add(&b), Some(ms(36)));
    let top = Duration::new(u64::MAX, 999_999_999);
    assert_eq!(top.checked_add(&from_nanos(1)), None);
    assert!(a.lt(&b));
    assert!(!b.lt(&a));
    assert!(a.le(&a));
}

#[test]
fn pretty_duration_splits_millis_and_micros() {
    // The target frame period of a 60 Hz run renders as "16.666ms".
    let p = PrettyDuration(Duration::new(0, 16_666_667));
    assert_eq!(p.millis(), 16);
    assert_eq!(p.micros(), 666);
    let q = PrettyDuration(Duration::new(0, 1_002_003));
    assert_eq!(q.millis(), 1);
    assert_eq!(q.micros(), 2);
}

#[test]
fn pretty_duration_counts_whole_seconds() {
    // Whole seconds count toward the millisecond part: 2.5s is "2500.000ms".
    let p = PrettyDuration(Duration::new(2, 500_000_000));
    assert_eq!(p.millis(), 2500);
    assert_eq!(p.micros(), 0);
}

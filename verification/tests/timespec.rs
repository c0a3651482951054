use std::time::Duration;
use sync_linux_no_libc::timespec::{KernelTimespec, Timespec, NSEC_PER_SEC};

#[test]
fn new_keeps_fields() {
    let t = Timespec::new(12, 345);
    assert_eq!(t.seconds(), 12);
    assert_eq!(t.nanoseconds(), 345);
    let n = Timespec::new(-3, 999_999_999);
    assert_eq!(n.seconds(), -3);
    assert_eq!(n.nanoseconds(), 999_999_999);
}

#[test]
fn add_duration_without_carry() {
    let t = Timespec::new(10, 100);
    let u = t.checked_add_duration(&Duration::new(2, 500)).unwrap();
    assert_eq!(u.seconds(), 12);
    assert_eq!(u.nanoseconds(), 600);
}

#[test]
fn add_duration_with_carry() {
    let t = Timespec::new(10, 999_999_000);
    let u = t.checked_add_duration(&Duration::new(1, 2_000)).unwrap();
    assert_eq!(u.seconds(), 12);
    assert_eq!(u.nanoseconds(), 1_000);
}

#[test]
fn add_duration_carry_to_exact_second() {
    let t = Timespec::new(0, 600_000_000);
    let u = t.checked_add_duration(&Duration::from_millis(400)).unwrap();
    assert_eq!(u.seconds(), 1);
    assert_eq!(u.nanoseconds(), 0);
}

#[test]
fn add_zero_duration_is_identity() {
    let t = Timespec::new(42, 7);
    assert_eq!(t.checked_add_duration(&Duration::ZERO), Some(t));
}

#[test]
fn add_duration_from_negative_seconds() {
    let t = Timespec::new(-5, 500_000_000);
    let u = t.checked_add_duration(&Duration::from_secs(3)).unwrap();
    assert_eq!(u.seconds(), -2);
    assert_eq!(u.nanoseconds(), 500_000_000);
}

#[test]
fn add_duration_overflowing_seconds() {
    let t = Timespec::new(i64::MAX, 0);
    assert_eq!(t.checked_add_duration(&Duration::from_secs(1)), None);
    let huge = Timespec::new(1, 0);
    assert_eq!(huge.checked_add_duration(&Duration::from_secs(u64::MAX)), None);
    let from_min = Timespec::new(i64::MIN, 0);
    let u = from_min.checked_add_duration(&Duration::from_secs(u64::MAX)).unwrap();
    assert_eq!(u.seconds(), i64::MAX);
}

#[test]
fn add_duration_overflowing_only_through_carry() {
    let t = Timespec::new(i64::MAX, 999_999_999);
    assert_eq!(t.checked_add_duration(&Duration::new(0, 0)), Some(t));
    assert_eq!(t.checked_add_duration(&Duration::new(0, 1)), None);
    let s = Timespec::new(i64::MAX - 1, 999_999_999);
    let u = s.checked_add_duration(&Duration::new(0, 1)).unwrap();
    assert_eq!(u.seconds(), i64::MAX);
    assert_eq!(u.nanoseconds(), 0);
}

#[test]
fn add_parts_matches_duration() {
    let t = Timespec::new(3, 900_000_000);
    assert_eq!(
        t.checked_add_parts(4, 200_000_000),
        t.checked_add_duration(&Duration::new(4, 200_000_000))
    );
    let u = t.checked_add_parts(4, 200_000_000).unwrap();
    assert_eq!((u.seconds(), u.nanoseconds()), (8, 100_000_000));
}

#[test]
fn sum_is_exact_in_nanoseconds() {
    let t = Timespec::new(7, 123_456_789);
    let d = Duration::new(98, 987_654_321);
    let u = t.checked_add_duration(&d).unwrap();
    let before = t.seconds() as i128 * NSEC_PER_SEC as i128 + t.nanoseconds() as i128;
    let after = u.seconds() as i128 * NSEC_PER_SEC as i128 + u.nanoseconds() as i128;
    assert_eq!(after - before, d.as_nanos() as i128);
    assert!(u.nanoseconds() < 1_000_000_000);
}

#[test]
fn to_timespec_keeps_fields() {
    let t = Timespec::new(1_700_000_000, 250);
    assert_eq!(
        t.to_timespec(),
        Some(KernelTimespec { tv_sec: 1_700_000_000, tv_nsec: 250 })
    );
    let n = Timespec::new(i64::MIN, 999_999_999);
    assert_eq!(
        n.to_timespec(),
        Some(KernelTimespec { tv_sec: i64::MIN as isize, tv_nsec: 999_999_999 })
    );
}

#[test]
fn field_order_is_time_order() {
    let a = Timespec::new(1, 999_999_999);
    let b = Timespec::new(2, 0);
    let c = Timespec::new(2, 1);
    assert!(a < b);
    assert!(b < c);
    assert!(a < c);
    assert_eq!(b, Timespec::new(2, 0));
}

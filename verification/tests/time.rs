use cleaner::time::{Duration, Timestamp};

#[test]
fn duration_since_subtracts_with_borrow() {
    let later = Timestamp::new(10, 200_000_000);
    let earlier = Timestamp::new(8, 700_000_000);
    assert_eq!(
        later.duration_since(&earlier),
        Some(Duration::new(1, 500_000_000))
    );
}

#[test]
fn duration_since_of_equal_times_is_zero() {
    let t = Timestamp::new(42, 7);
    assert_eq!(t.duration_since(&t), Some(Duration::new(0, 0)));
}

#[test]
fn duration_since_fails_when_earlier_is_later() {
    let t = Timestamp::new(10, 0);
    let future = Timestamp::new(10, 1);
    assert_eq!(t.duration_since(&future), None);
}

#[test]
fn exceeds_is_strict() {
    let a = Duration::new(5, 0);
    let b = Duration::new(5, 0);
    assert!(!a.exceeds(&b));
    assert!(Duration::new(5, 1).exceeds(&b));
    assert!(!Duration::new(4, 999_999_999).exceeds(&b));
}

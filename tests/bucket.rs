use twilight_bucket::{Bucket, Limit, LimitError, Usage};

const SECOND: u128 = 1_000_000_000;

fn bucket(window: u128, count: u64) -> Bucket {
    Bucket::new(Limit::new(window, count).unwrap())
}

#[test]
fn limit_count_1() {
    let bucket = bucket(2 * SECOND, 1);
    let id = 123;

    assert!(bucket.limit_duration_at(id, 0).is_none());

    bucket.register_at(id, 0);
    assert!(bucket.limit_duration_at(id, 0).unwrap() > bucket.limit().window() - SECOND / 10);
    assert!(bucket.limit_duration_at(id, bucket.limit().window()).is_none());
}

#[test]
fn limit_count_5() {
    let bucket = bucket(5 * SECOND, 5);
    let id = 123;

    for i in 0_u128..5 {
        assert!(bucket.limit_duration_at(id, i).is_none());
        bucket.register_at(id, i);
    }

    assert!(bucket.limit_duration_at(id, 5).unwrap() > bucket.limit().window() - SECOND / 10);
    assert!(bucket.limit_duration_at(id, 4 + bucket.limit().window()).is_none());
}

#[test]
fn clock_limits_right_after_a_use() {
    let bucket = bucket(2 * SECOND, 1);
    assert!(bucket.limit_duration(123).is_none());
    let stored = bucket.register(123);
    assert_eq!(stored.count, 1);
    let wait = bucket.limit_duration(123).unwrap();
    assert!(wait > 2 * SECOND - SECOND / 10);
    assert!(wait <= 2 * SECOND);
}

#[test]
fn clock_counts_each_use() {
    let bucket = bucket(60 * SECOND, 3);
    assert_eq!(bucket.register(7).count, 1);
    assert_eq!(bucket.register(7).count, 2);
    assert!(bucket.limit_duration(7).is_none());
    assert_eq!(bucket.register(7).count, 3);
    assert!(bucket.limit_duration(7).is_some());
}

#[test]
fn zero_count_is_refused() {
    assert_eq!(Limit::new(SECOND, 0), Err(LimitError::ZeroCount));
}

#[test]
fn limit_keeps_its_values() {
    let limit = Limit::new(3 * SECOND, 10).unwrap();
    assert_eq!(limit.window(), 3 * SECOND);
    assert_eq!(limit.count(), 10);
    assert_eq!(bucket(3 * SECOND, 10).limit(), limit);
}

#[test]
fn fresh_identifier_is_not_limited() {
    let bucket = bucket(SECOND, 1);
    bucket.register_at(1, 0);
    assert_eq!(bucket.limit_duration_at(2, 0), None);
    assert_eq!(bucket.limit().limit_duration(None, 0), None);
}

#[test]
fn single_use_wait_shrinks_then_ends() {
    let bucket = bucket(10, 1);
    bucket.register_at(5, 100);
    assert_eq!(bucket.limit_duration_at(5, 100), Some(10));
    assert_eq!(bucket.limit_duration_at(5, 103), Some(7));
    assert_eq!(bucket.limit_duration_at(5, 109), Some(1));
    assert_eq!(bucket.limit_duration_at(5, 110), None);
    assert_eq!(bucket.limit_duration_at(5, 111), None);
}

#[test]
fn count_n_allows_n_uses() {
    let bucket = bucket(100, 4);
    for t in [10_u128, 20, 30, 40] {
        assert_eq!(bucket.limit_duration_at(9, t), None);
        bucket.register_at(9, t);
    }
    assert_eq!(bucket.limit_duration_at(9, 45), Some(95));
}

#[test]
fn window_reset_starts_over_at_one() {
    let bucket = bucket(100, 2);
    bucket.register_at(4, 0);
    bucket.register_at(4, 10);
    assert_eq!(bucket.limit_duration_at(4, 60), Some(50));
    assert_eq!(bucket.limit_duration_at(4, 111), None);
    let stored = bucket.register_at(4, 111);
    assert_eq!(stored, Usage { time: 111, count: 1 });
    assert_eq!(bucket.limit_duration_at(4, 112), None);
}

#[test]
fn use_at_window_edge_still_counts() {
    let bucket = bucket(100, 2);
    bucket.register_at(4, 0);
    assert_eq!(bucket.register_at(4, 100).count, 2);
}

#[test]
fn each_use_moves_the_window_start() {
    let bucket = bucket(100, 3);
    bucket.register_at(8, 0);
    bucket.register_at(8, 90);
    assert_eq!(bucket.register_at(8, 180), Usage { time: 180, count: 3 });
    assert_eq!(bucket.limit_duration_at(8, 200), Some(80));
}

#[test]
fn identifiers_are_independent() {
    let bucket = bucket(100, 1);
    for t in 0_u128..50 {
        bucket.register_at(1, t);
    }
    assert!(bucket.limit_duration_at(1, 50).is_some());
    assert_eq!(bucket.limit_duration_at(2, 50), None);
    assert_eq!(bucket.register_at(2, 50).count, 1);
}

#[test]
fn uses_within_window_are_all_counted() {
    let bucket = bucket(10, 1000);
    let mut last = Usage { time: 0, count: 0 };
    for k in 0_u128..200 {
        last = bucket.register_at(3, k * 10);
    }
    assert_eq!(last, Usage { time: 1990, count: 200 });
}

#[test]
fn clock_going_back_counts_as_no_time() {
    let bucket = bucket(100, 1);
    bucket.register_at(6, 500);
    assert_eq!(bucket.limit_duration_at(6, 400), Some(100));
    assert_eq!(bucket.register_at(6, 400).count, 2);
}

#[test]
fn zero_window_never_limits() {
    let bucket = bucket(0, 1);
    bucket.register_at(1, 0);
    assert_eq!(bucket.limit_duration_at(1, 0), None);
    assert_eq!(bucket.register_at(1, 1).count, 1);
}

#[test]
fn count_saturates_at_the_largest_value() {
    let limit = Limit::new(100, 1).unwrap();
    let full = Usage { time: 0, count: u64::MAX };
    assert_eq!(Usage::registered(Some(full), limit, 1), Usage { time: 1, count: u64::MAX });
}

#[test]
fn largest_window_and_times() {
    let limit = Limit::new(u128::MAX, u64::MAX).unwrap();
    let full = Usage { time: 0, count: u64::MAX };
    assert_eq!(limit.limit_duration(Some(full), u128::MAX), None);
    assert_eq!(limit.limit_duration(Some(full), u128::MAX - 1), Some(1));
}

#[test]
fn first_use_record() {
    assert_eq!(Usage::new(77), Usage { time: 77, count: 1 });
    let limit = Limit::new(10, 2).unwrap();
    assert_eq!(Usage::registered(None, limit, 77), Usage::new(77));
}

use shaide::backoff::{
    pow_u64, BackoffBucketAttempt, ExponentialBackoffBucket, BACKOFF_JITTER_MS_MAX, BACKOFF_MAX_EXPONENT,
};

#[test]
fn powers_are_computed_exactly() {
    assert_eq!(pow_u64(2, 0), 1);
    assert_eq!(pow_u64(2, 5), 32);
    assert_eq!(pow_u64(10, 3), 1000);
    assert_eq!(pow_u64(0, 3), 0);
}

#[test]
fn attempts_raise_the_delay_up_to_the_maximum_exponent() {
    let mut a = BackoffBucketAttempt::default_at(1_000);
    assert_eq!(a.increase_next_deadline(2, 5, 1_000), 1_200);
    assert_eq!(a.current_attempt, 1);
    assert_eq!(a.increase_next_deadline(2, 5, 1_000), 1_400);
    for _ in 0..10 {
        a.increase_next_deadline(2, 5, 1_000);
    }
    assert_eq!(a.current_attempt, 5);
    assert_eq!(a.increase_next_deadline(2, 5, 1_000), 1_000 + 3_200);
    a.clear_backoff();
    assert_eq!(a.current_attempt, 0);
}

#[test]
fn a_rate_limited_model_waits_for_its_deadline_plus_jitter() {
    let mut bucket = ExponentialBackoffBucket::new();
    assert_eq!(bucket.wait_model_backoff("m", 1_000), None);
    bucket.increase_model_wait_time("m", 999, 1_000);
    let wake = bucket.wait_model_backoff("m", 1_000).expect("the model should wait");
    assert!((1_200..1_200 + BACKOFF_JITTER_MS_MAX).contains(&wake));
    assert_eq!(bucket.wait_model_backoff("other", 1_000), None);
    // The deadline has passed once its time is reached and gone.
    assert_eq!(bucket.wait_model_backoff("m", 1_201), None);
}

#[test]
fn concurrent_rate_limits_count_once() {
    let mut bucket = ExponentialBackoffBucket::new();
    bucket.increase_model_wait_time("m", 0, 10);
    bucket.increase_model_wait_time("m", 0, 10);
    let wake = bucket.wait_model_backoff("m", 10).unwrap();
    assert!((210..410).contains(&wake));
    // After the deadline, the next rate limit doubles the delay.
    bucket.increase_model_wait_time("m", 0, 300);
    let wake = bucket.wait_model_backoff("m", 300).unwrap();
    assert!((700..900).contains(&wake));
}

#[test]
fn success_after_the_deadline_resets_the_delay() {
    let mut bucket = ExponentialBackoffBucket::new();
    for now in [10u64, 300, 1_000, 2_000] {
        bucket.increase_model_wait_time("m", 0, now);
    }
    // Still waiting: a success now changes nothing.
    bucket.clear_model_backoff("m", 2_001);
    bucket.increase_model_wait_time("m", 0, 2_001);
    assert!(bucket.wait_model_backoff("m", 2_001).unwrap() >= 2_000 + 1_600);
    // Once the deadline has passed, a success resets the count.
    bucket.clear_model_backoff("m", 10_000);
    bucket.increase_model_wait_time("m", 0, 10_000);
    let wake = bucket.wait_model_backoff("m", 10_000).unwrap();
    assert!((10_200..10_400).contains(&wake));
    assert_eq!(BACKOFF_MAX_EXPONENT, 5);
}

#[test]
fn a_new_record_stamped_now_does_not_move_its_deadline() {
    let mut bucket = ExponentialBackoffBucket::new();
    bucket.increase_model_wait_time("m", 50, 50);
    // The record's deadline is its creation time, which has not passed.
    assert_eq!(bucket.wait_model_backoff("m", 50).map(|w| w < 50 + BACKOFF_JITTER_MS_MAX), Some(true));
    assert_eq!(bucket.wait_model_backoff("m", 51), None);
}

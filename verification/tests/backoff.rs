use teleser::backoff::{MAX_BACKOFF_EXPONENT, MAX_BACKOFF_SECS};
use teleser::{backoff_delay, RetryState};

#[test]
fn delay_doubles_up_to_the_tenth_failure() {
    let expected: [u64; 11] = [1, 2, 4, 8, 16, 32, 64, 128, 256, 512, 1024];
    for (failures, secs) in expected.iter().enumerate() {
        assert_eq!(backoff_delay(failures as u64), *secs);
    }
}

#[test]
fn delay_is_capped_behind_the_tenth_failure() {
    assert_eq!(backoff_delay(10), 1024);
    assert_eq!(backoff_delay(11), 1024);
    assert_eq!(backoff_delay(12), 1024);
    assert_eq!(backoff_delay(1_000), 1024);
    assert_eq!(backoff_delay(u64::MAX), 1024);
}

#[test]
fn cap_constants_agree() {
    assert_eq!(MAX_BACKOFF_EXPONENT, 10);
    assert_eq!(MAX_BACKOFF_SECS, 1024);
    assert_eq!(backoff_delay(MAX_BACKOFF_EXPONENT), MAX_BACKOFF_SECS);
}

#[test]
fn fresh_streak_is_empty() {
    let retry = RetryState::new();
    assert_eq!(retry.failures, 0);
    assert_eq!(retry.delay_secs(), 1);
}

#[test]
fn consecutive_failures_give_powers_of_two() {
    let mut retry = RetryState::new();
    for n in 1..=10u32 {
        let secs = retry.record_failure();
        assert_eq!(retry.failures, n as u64);
        assert_eq!(secs, 2u64.pow(n));
        assert_eq!(retry.delay_secs(), secs);
    }
    for n in 11..=40u64 {
        let secs = retry.record_failure();
        assert_eq!(retry.failures, n);
        assert_eq!(secs, 1024);
    }
}

#[test]
fn success_resets_any_streak() {
    let mut retry = RetryState { failures: 37 };
    retry.record_success();
    assert_eq!(retry.failures, 0);
    assert_eq!(retry.record_failure(), 2);

    let mut huge = RetryState { failures: u64::MAX };
    huge.record_success();
    assert_eq!(huge, RetryState::new());
}

#[test]
fn streak_counter_stops_at_its_limit() {
    let mut retry = RetryState { failures: u64::MAX - 1 };
    assert_eq!(retry.record_failure(), 1024);
    assert_eq!(retry.failures, u64::MAX);
    assert_eq!(retry.record_failure(), 1024);
    assert_eq!(retry.failures, u64::MAX);
}

use groqai::rate_limit::RateLimiter;

#[test]
fn default_policy_doubles_up_to_a_minute() {
    let mut limiter = RateLimiter::new();
    let mut waits = Vec::new();
    for _ in 0..8 {
        waits.push(limiter.next_backoff_at(None, 0).unwrap());
    }
    assert_eq!(waits, vec![2000, 4000, 8000, 16000, 32000, 60000, 60000, 60000]);
}

#[test]
fn waits_never_shrink_and_never_pass_the_longest() {
    let mut limiter = RateLimiter::new().with_intervals(7, 1000).with_multiplier(3, 2);
    let mut last = 0u64;
    for _ in 0..40 {
        let wait = limiter.next_backoff_at(None, 0).unwrap();
        assert!(wait >= last);
        assert!(wait <= 1000);
        last = wait;
    }
    assert_eq!(last, 1000);
}

#[test]
fn multiplier_rounds_down() {
    let mut limiter = RateLimiter::new().with_intervals(7, 1000).with_multiplier(3, 2);
    assert_eq!(limiter.next_backoff_at(None, 0), Some(10));
    assert_eq!(limiter.next_backoff_at(None, 0), Some(15));
    assert_eq!(limiter.next_backoff_at(None, 0), Some(22));
}

#[test]
fn multiplier_below_one_is_not_taken() {
    let mut limiter = RateLimiter::new().with_multiplier(1, 2).with_multiplier(5, 0);
    assert_eq!(limiter.next_backoff_at(None, 0), Some(2000));
}

#[test]
fn server_hint_is_returned_as_it_is() {
    let mut limiter = RateLimiter::new();
    assert_eq!(limiter.next_backoff_at(Some(1234), 0), Some(1234));
    assert_eq!(limiter.next_backoff_at(Some(0), 0), Some(0));
    assert_eq!(limiter.next_backoff_at(Some(u64::MAX), 0), Some(u64::MAX));
    assert_eq!(limiter.next_backoff_at(None, 0), Some(2000));
    assert_eq!(limiter.next_backoff_at(Some(5), 0), Some(5));
    assert_eq!(limiter.next_backoff_at(None, 0), Some(4000));
}

#[test]
fn server_hint_is_returned_even_past_the_limit() {
    let mut limiter = RateLimiter::new();
    assert_eq!(limiter.next_backoff_at(None, 3_600_001), None);
    assert_eq!(limiter.next_backoff_at(Some(250), 3_600_001), Some(250));
}

#[test]
fn policy_gives_up_after_the_limit() {
    let mut limiter = RateLimiter::new();
    assert_eq!(limiter.next_backoff_at(None, 3_600_001), None);
    assert_eq!(limiter.next_backoff_at(None, 4_000_000), None);
    assert_eq!(limiter.next_backoff_at(None, u64::MAX), None);
}

#[test]
fn policy_gives_up_when_the_wait_would_pass_the_limit() {
    let mut limiter = RateLimiter::new();
    assert_eq!(limiter.next_backoff_at(None, 3_598_000), Some(2000));
    assert_eq!(limiter.next_backoff_at(None, 3_598_000), None);
    assert_eq!(limiter.next_backoff_at(None, 3_596_000), Some(4000));
}

#[test]
fn giving_up_leaves_the_interval_alone() {
    let mut limiter = RateLimiter::new();
    assert_eq!(limiter.next_backoff_at(None, 3_599_999), None);
    assert_eq!(limiter.next_backoff_at(None, 0), Some(2000));
}

#[test]
fn no_limit_means_no_giving_up() {
    let mut limiter = RateLimiter::new().with_max_elapsed_time(None);
    assert_eq!(limiter.next_backoff_at(None, u64::MAX), Some(2000));
}

#[test]
fn max_attempts_allow_five_seconds_each() {
    let mut limiter = RateLimiter::new().with_max_attempts(3);
    assert_eq!(limiter.next_backoff_at(None, 13_000), Some(2000));
    assert_eq!(limiter.next_backoff_at(None, 13_000), None);
    let mut none = RateLimiter::new().with_max_attempts(0);
    assert_eq!(none.next_backoff_at(None, 0), None);
}

#[test]
fn reset_goes_back_to_the_first_interval() {
    let mut limiter = RateLimiter::new();
    for _ in 0..5 {
        limiter.next_backoff_at(None, 0);
    }
    limiter.reset();
    assert_eq!(limiter.next_backoff_at(None, 0), Some(2000));
}

#[test]
fn clock_driven_call_hands_out_the_next_interval() {
    let mut limiter = RateLimiter::default();
    assert_eq!(limiter.next_backoff(Some(77)), Some(77));
    assert_eq!(limiter.next_backoff(None), Some(2000));
    assert!(limiter.elapsed() < 60_000);
    let mut spent = RateLimiter::new().with_max_elapsed_time(Some(0));
    assert_eq!(spent.next_backoff(None), None);
}

#[test]
fn large_intervals_do_not_overflow() {
    let mut limiter = RateLimiter::new()
        .with_intervals(u64::MAX, u64::MAX)
        .with_multiplier(u32::MAX, 1)
        .with_max_elapsed_time(None);
    assert_eq!(limiter.next_backoff_at(None, 0), Some(u64::MAX));
    assert_eq!(limiter.next_backoff_at(None, u64::MAX), Some(u64::MAX));
}

#[test]
fn reset_counts_time_from_the_given_moment() {
    let mut limiter = RateLimiter::new();
    assert_eq!(limiter.elapsed_at(0), 0);
    assert_eq!(limiter.elapsed_at(250), 250);
    for _ in 0..3 {
        limiter.next_backoff_at(None, 0);
    }
    limiter.reset_at(5_000);
    assert_eq!(limiter.elapsed_at(5_000), 0);
    assert_eq!(limiter.elapsed_at(5_750), 750);
    assert_eq!(limiter.elapsed_at(4_000), 0);
    assert_eq!(limiter.elapsed_at(u64::MAX), u64::MAX - 5_000);
    assert_eq!(limiter.next_backoff_at(None, limiter.elapsed_at(5_000)), Some(2000));
}

#[test]
fn reset_starts_the_clock_again() {
    let mut limiter = RateLimiter::new().with_max_elapsed_time(Some(3_000));
    limiter.reset_at(0);
    assert_eq!(limiter.next_backoff_at(None, limiter.elapsed_at(2_500)), None);
    limiter.reset();
    assert!(limiter.elapsed() < 1_000);
    assert!(limiter.now() < 60_000);
    assert_eq!(limiter.next_backoff(None), Some(2000));
}

#[test]
fn limit_is_passed_only_beyond_it() {
    let limiter = RateLimiter::new().with_max_elapsed_time(Some(3_000));
    assert!(!limiter.past_limit_at(0));
    assert!(!limiter.past_limit_at(3_000));
    assert!(limiter.past_limit_at(3_001));
    assert!(!RateLimiter::new().with_max_elapsed_time(None).past_limit_at(u64::MAX));
}

#[test]
fn policy_without_limit_always_hands_out_its_interval() {
    let mut limiter = RateLimiter::new().with_max_elapsed_time(None);
    assert_eq!(limiter.next_backoff(None), Some(2000));
    assert_eq!(limiter.next_backoff(None), Some(4000));
}

use aws_smithy_async::rt::sleep::{AsyncSleep, Sleep};
use aws_smithy_types::retry::{ErrorKind, RetryConfig, RetryKind};
use smithy_retry::{
    calculate_exponential_backoff, check_send, duration_from_nanos, total_nanos, Config, Jitter,
    JitterBase, NewRequestPolicy, NoRetry, RequestLocalRetryState, RetryHandler, Standard,
    JITTER_SCALE, MAX_ATTEMPTS,
};
use std::sync::Arc;
use std::time::Duration;

type Sleeper = Arc<dyn AsyncSleep>;

#[derive(Debug)]
struct InstantSleep;

impl AsyncSleep for InstantSleep {
    fn sleep(&self, _duration: Duration) -> Sleep {
        Sleep::new(std::future::ready(()))
    }
}

fn unit_jitter() -> Config {
    Config::default().with_base(JitterBase::Fixed(Jitter::one()))
}

fn handler(conf: Config) -> RetryHandler<Sleeper> {
    Standard::new(conf).new_request_policy(None)
}

fn handler_with_sleeper(conf: Config) -> (RetryHandler<Sleeper>, Sleeper) {
    let sleeper: Sleeper = Arc::new(InstantSleep);
    let handler = Standard::new(conf).new_request_policy(Some(sleeper.clone()));
    (handler, sleeper)
}

fn server_error() -> RetryKind {
    RetryKind::Error(ErrorKind::ServerError)
}

#[test]
fn attempts_grow_by_one_per_granted_retry() {
    let mut policy = handler(unit_jitter().with_max_attempts(6));
    assert_eq!(policy.attempts(), 1);
    let mut expected: u32 = 1;
    while let Some((next, _)) = policy.should_retry(&server_error()) {
        expected += 1;
        assert_eq!(next.attempts(), expected);
        assert_eq!(next.attempts(), policy.attempts() + 1);
        policy = next;
    }
    assert_eq!(policy.attempts(), 6);
}

#[test]
fn explicit_delay_leaves_the_attempts_as_they_are() {
    let policy = handler(unit_jitter());
    let (policy, _) = policy.should_retry(&server_error()).expect("should retry");
    assert_eq!(policy.attempts(), 2);
    let (after, dur) = policy
        .should_retry(&RetryKind::Explicit(Duration::from_millis(1500)))
        .expect("should retry");
    assert_eq!(dur, Duration::from_millis(1500));
    assert_eq!(after.attempts(), 2);

    // the next retryable error is decided as if the explicit delay had not been there
    let (with_explicit, dur_with) = after.should_retry(&server_error()).expect("should retry");
    let (without, dur_without) = policy.should_retry(&server_error()).expect("should retry");
    assert_eq!(dur_with, Duration::from_secs(2));
    assert_eq!(dur_with, dur_without);
    assert_eq!(with_explicit.attempts(), without.attempts());
}

#[test]
fn explicit_delay_is_granted_to_an_exhausted_handler() {
    let policy = handler(unit_jitter().with_max_attempts(1));
    assert!(policy.should_retry(&server_error()).is_none());
    let (after, dur) = policy
        .should_retry(&RetryKind::Explicit(Duration::from_secs(40)))
        .expect("an explicit delay is always granted");
    // longer than the ceiling of twenty seconds, and still returned as given
    assert_eq!(dur, Duration::from_secs(40));
    assert_eq!(after.attempts(), 1);
    assert!(after.should_retry(&server_error()).is_none());
}

#[test]
fn zero_explicit_delay_is_returned_as_given() {
    let policy = handler(Config::default());
    let (_, dur) = policy
        .should_retry(&RetryKind::Explicit(Duration::ZERO))
        .expect("should retry");
    assert_eq!(dur, Duration::ZERO);
}

#[test]
fn exhausted_handler_refuses_a_retryable_error() {
    for max_attempts in [1u32, 2, 3, 10] {
        let conf = Config::default()
            .with_max_attempts(max_attempts)
            .with_initial_backoff(Duration::from_millis(7))
            .with_max_backoff(Duration::from_secs(1));
        let mut policy = handler(conf);
        while policy.attempts() < max_attempts {
            let (next, _) = policy.should_retry(&server_error()).expect("should retry");
            policy = next;
        }
        assert!(policy.should_retry(&server_error()).is_none());
        assert!(policy
            .should_retry(&RetryKind::Error(ErrorKind::ThrottlingError))
            .is_none());
        assert!(policy.should_retry_error().is_none());
        assert!(policy.should_retry_error_with(Jitter::one()).is_none());
    }
}

#[test]
fn retries_are_disabled_with_one_attempt() {
    let conf = Config::default().with_max_attempts(1);
    assert!(!conf.has_retry());
    let policy = handler(conf);
    assert!(policy.should_retry(&server_error()).is_none());
}

#[test]
fn unit_jitter_delays_double() {
    let conf = unit_jitter()
        .with_max_attempts(8)
        .with_max_backoff(Duration::from_secs(1000));
    let mut policy = handler(conf);
    for secs in [1u64, 2, 4, 8, 16, 32, 64] {
        let (next, dur) = policy.should_retry(&server_error()).expect("should retry");
        assert_eq!(dur, Duration::from_secs(secs));
        policy = next;
    }
    assert!(policy.should_retry(&server_error()).is_none());
}

#[test]
fn unit_jitter_delays_double_from_another_unit() {
    let conf = unit_jitter()
        .with_max_attempts(4)
        .with_initial_backoff(Duration::from_millis(30));
    let mut policy = handler(conf);
    for millis in [30u64, 60, 120] {
        let (next, dur) = policy.should_retry(&server_error()).expect("should retry");
        assert_eq!(dur, Duration::from_millis(millis));
        policy = next;
    }
}

#[test]
fn ceiling_below_the_unit_caps_the_first_delay() {
    let conf = unit_jitter()
        .with_initial_backoff(Duration::from_secs(30))
        .with_max_backoff(Duration::from_secs(20));
    let (_, dur) = handler(conf).should_retry(&server_error()).expect("should retry");
    assert_eq!(dur, Duration::from_secs(20));
}

#[test]
fn unneeded_results_are_never_retried() {
    let mut policy = handler(unit_jitter().with_max_attempts(4));
    loop {
        assert!(policy.should_retry(&RetryKind::Unnecessary).is_none());
        assert!(policy.should_retry(&RetryKind::UnretryableFailure).is_none());
        match policy.should_retry(&server_error()) {
            Some((next, _)) => policy = next,
            None => break,
        }
    }
    assert_eq!(policy.attempts(), 4);
}

#[test]
fn refusal_is_final() {
    let standard = Standard::new(unit_jitter().with_max_attempts(2));
    let policy: RetryHandler<Sleeper> = standard.new_request_policy(None);
    let (policy, _) = policy.should_retry(&server_error()).expect("should retry");
    for _ in 0..3 {
        assert!(policy.should_retry(&server_error()).is_none());
        assert!(policy.should_retry(&RetryKind::Unnecessary).is_none());
        assert!(policy.should_retry(&RetryKind::UnretryableFailure).is_none());
    }
    // an explicit delay is still granted, but gives no attempts back
    let (after, _) = policy
        .should_retry(&RetryKind::Explicit(Duration::from_secs(1)))
        .expect("should retry");
    assert!(after.should_retry(&server_error()).is_none());

    // a new handler from the same factory starts over
    let fresh: RetryHandler<Sleeper> = standard.new_request_policy(None);
    assert_eq!(fresh.attempts(), 1);
    assert!(fresh.should_retry(&server_error()).is_some());
}

#[test]
fn half_jitter_halves_the_backoff() {
    let half = Jitter::from_parts_per_billion(500_000_000);
    assert_eq!(
        calculate_exponential_backoff(half, Duration::from_secs(3), 2),
        Some(Duration::from_secs(6))
    );
    assert_eq!(
        calculate_exponential_backoff(half, Duration::from_secs(1), 0),
        Some(Duration::from_millis(500))
    );
}

#[test]
fn jitter_above_one_lengthens_the_backoff() {
    let twice = Jitter::from_parts_per_billion(2_000_000_000);
    assert_eq!(
        calculate_exponential_backoff(twice, Duration::from_secs(1), 0),
        Some(Duration::from_secs(2))
    );
    let most = Jitter::from_parts_per_billion(u32::MAX);
    assert_eq!(
        calculate_exponential_backoff(most, Duration::from_secs(1), 1),
        Some(Duration::new(8, 589_934_590))
    );
}

#[test]
fn backoff_rounds_down_to_whole_nanoseconds() {
    let third = Jitter::from_parts_per_billion(333_333_333);
    assert_eq!(
        calculate_exponential_backoff(third, Duration::from_nanos(10), 0),
        Some(Duration::from_nanos(3))
    );
    assert_eq!(
        calculate_exponential_backoff(third, Duration::from_nanos(10), 1),
        Some(Duration::from_nanos(6))
    );
    assert_eq!(
        calculate_exponential_backoff(third, Duration::from_nanos(1), 1),
        Some(Duration::ZERO)
    );
    assert_eq!(
        calculate_exponential_backoff(third, Duration::from_nanos(1), 2),
        Some(Duration::from_nanos(1))
    );
}

#[test]
fn zero_backoff_stays_zero_for_any_count_of_retries() {
    let none = Jitter::from_parts_per_billion(0);
    assert_eq!(
        calculate_exponential_backoff(none, Duration::from_secs(1), u32::MAX),
        Some(Duration::ZERO)
    );
    assert_eq!(
        calculate_exponential_backoff(Jitter::one(), Duration::ZERO, u32::MAX),
        Some(Duration::ZERO)
    );
    assert_eq!(
        calculate_exponential_backoff(none, Duration::MAX, 0),
        Some(Duration::ZERO)
    );
}

#[test]
fn backoff_longer_than_any_duration_is_none() {
    let one = Jitter::one();
    assert_eq!(
        calculate_exponential_backoff(one, Duration::MAX, 0),
        Some(Duration::MAX)
    );
    assert_eq!(calculate_exponential_backoff(one, Duration::MAX, 1), None);
    // 2^93 nanoseconds fit, 2^94 do not
    assert_eq!(
        calculate_exponential_backoff(one, Duration::from_nanos(1), 93),
        Some(Duration::new(9_903_520_314_283_042_199, 192_993_792))
    );
    assert_eq!(
        calculate_exponential_backoff(one, Duration::from_nanos(1), 94),
        None
    );
    assert_eq!(
        calculate_exponential_backoff(one, Duration::from_secs(1), u32::MAX),
        None
    );
    assert_eq!(
        calculate_exponential_backoff(
            Jitter::from_parts_per_billion(u32::MAX),
            Duration::MAX,
            0
        ),
        None
    );
}

#[test]
fn delay_stays_at_the_ceiling_when_the_backoff_outgrows_every_duration() {
    let conf = unit_jitter().with_max_attempts(200);
    let mut policy = handler(conf);
    let mut granted: u32 = 0;
    while let Some((next, dur)) = policy.should_retry(&server_error()) {
        let uncapped: u128 = 1u128.checked_shl(granted).unwrap_or(u128::MAX);
        if uncapped <= 20 {
            assert_eq!(dur, Duration::from_secs(uncapped as u64));
        } else {
            assert_eq!(dur, Duration::from_secs(20));
        }
        granted += 1;
        policy = next;
    }
    assert_eq!(granted, 199);
}

#[test]
fn random_jitter_is_below_one() {
    for _ in 0..2000 {
        let jitter = JitterBase::Random.draw();
        assert!(jitter.parts_per_billion() < JITTER_SCALE);
    }
}

#[test]
fn random_jitter_shortens_the_backoff() {
    for _ in 0..500 {
        let policy = handler(Config::default());
        let (policy, first) = policy.should_retry(&server_error()).expect("should retry");
        assert!(first < Duration::from_secs(1));
        let (_, second) = policy.should_retry(&server_error()).expect("should retry");
        assert!(second < Duration::from_secs(2));
    }
}

#[test]
fn fixed_jitter_is_drawn_as_given() {
    let fixed = Jitter::from_parts_per_billion(123_456_789);
    for _ in 0..10 {
        assert_eq!(JitterBase::Fixed(fixed).draw(), fixed);
    }
}

#[test]
fn jitter_keeps_its_parts() {
    assert_eq!(Jitter::one().parts_per_billion(), 1_000_000_000);
    assert_eq!(Jitter::one().parts_per_billion(), JITTER_SCALE);
    assert_eq!(Jitter::from_parts_per_billion(0).parts_per_billion(), 0);
    assert_eq!(
        Jitter::from_parts_per_billion(u32::MAX).parts_per_billion(),
        u32::MAX
    );
    assert_eq!(Jitter::from_parts_per_billion(1_000_000_000), Jitter::one());
}

#[test]
fn should_retry_error_with_uses_the_given_jitter() {
    let conf = Config::default().with_max_backoff(Duration::from_secs(3));
    let policy = handler(conf);
    let (policy, dur) = policy
        .should_retry_error_with(Jitter::from_parts_per_billion(250_000_000))
        .expect("should retry");
    assert_eq!(dur, Duration::from_millis(250));
    assert_eq!(policy.attempts(), 2);
    let (policy, dur) = policy
        .should_retry_error_with(Jitter::from_parts_per_billion(2_000_000_000))
        .expect("should retry");
    // 2 * 1s * 2^1, cut off at the ceiling
    assert_eq!(dur, Duration::from_secs(3));
    assert_eq!(policy.attempts(), 3);
    assert!(policy.should_retry_error_with(Jitter::one()).is_none());
}

#[test]
fn default_config_has_the_documented_values() {
    let conf = Config::default();
    assert_eq!(conf.max_attempts(), 3);
    assert_eq!(conf.max_attempts(), MAX_ATTEMPTS);
    assert_eq!(conf.initial_backoff(), Duration::from_secs(1));
    assert_eq!(conf.max_backoff(), Duration::from_secs(20));
    assert_eq!(conf.base(), JitterBase::Random);
    assert!(conf.has_retry());
}

#[test]
fn builders_replace_one_setting() {
    let conf = Config::default().with_max_attempts(9);
    assert_eq!(conf.max_attempts(), 9);
    assert_eq!(conf.initial_backoff(), Duration::from_secs(1));
    assert_eq!(conf.max_backoff(), Duration::from_secs(20));
    assert_eq!(conf.base(), JitterBase::Random);

    let conf = conf.with_initial_backoff(Duration::from_millis(30));
    assert_eq!(conf.max_attempts(), 9);
    assert_eq!(conf.initial_backoff(), Duration::from_millis(30));
    assert_eq!(conf.max_backoff(), Duration::from_secs(20));

    let conf = conf.with_max_backoff(Duration::from_secs(5));
    assert_eq!(conf.initial_backoff(), Duration::from_millis(30));
    assert_eq!(conf.max_backoff(), Duration::from_secs(5));

    let conf = conf.with_base(JitterBase::Fixed(Jitter::one()));
    assert_eq!(conf.base(), JitterBase::Fixed(Jitter::one()));
    assert_eq!(conf.max_attempts(), 9);
    assert_eq!(conf.max_backoff(), Duration::from_secs(5));
}

#[test]
fn has_retry_needs_more_than_one_attempt() {
    assert!(!Config::default().with_max_attempts(1).has_retry());
    assert!(Config::default().with_max_attempts(2).has_retry());
    assert!(Config::default().with_max_attempts(u32::MAX).has_retry());
}

#[test]
fn config_from_retry_config_takes_attempts_and_unit() {
    let conf = Config::from_retry_config(&RetryConfig::standard()).expect("three attempts");
    assert_eq!(conf.max_attempts(), 3);
    assert_eq!(conf.initial_backoff(), Duration::from_secs(1));
    assert_eq!(conf.max_backoff(), Duration::from_secs(20));
    assert_eq!(conf.base(), JitterBase::Random);

    let given = RetryConfig::standard()
        .with_max_attempts(7)
        .with_initial_backoff(Duration::from_millis(30));
    let conf = Config::from_retry_config(&given).expect("seven attempts");
    assert_eq!(conf.max_attempts(), 7);
    assert_eq!(conf.initial_backoff(), Duration::from_millis(30));
    assert_eq!(conf.max_backoff(), Duration::from_secs(20));

    let conf = Config::from_retry_config(&RetryConfig::disabled()).expect("one attempt");
    assert_eq!(conf.max_attempts(), 1);
    assert!(!conf.has_retry());
}

#[test]
fn config_from_retry_config_without_attempts_is_none() {
    let given = RetryConfig::standard().with_max_attempts(0);
    assert!(Config::from_retry_config(&given).is_none());
}

#[test]
fn retry_for_without_sleeper_makes_no_retry() {
    let policy = handler(unit_jitter());
    assert!(policy.sleep_impl().is_none());
    assert_eq!(
        policy.retry_for(&server_error()).err(),
        Some(NoRetry::NoSleeper)
    );
    assert_eq!(
        policy
            .retry_for(&RetryKind::Explicit(Duration::from_secs(1)))
            .err(),
        Some(NoRetry::NoSleeper)
    );
    assert_eq!(
        policy.retry_for(&RetryKind::Unnecessary).err(),
        Some(NoRetry::NotWarranted)
    );
    assert_eq!(
        policy.retry_for(&RetryKind::UnretryableFailure).err(),
        Some(NoRetry::NotWarranted)
    );
}

#[test]
fn retry_for_with_sleeper_retries_as_decided() {
    let (policy, sleeper) = handler_with_sleeper(unit_jitter());
    let (policy, dur) = policy.retry_for(&server_error()).expect("should retry");
    assert_eq!(dur, Duration::from_secs(1));
    assert_eq!(policy.attempts(), 2);
    assert!(Arc::ptr_eq(
        policy.sleep_impl().expect("the sleeper is handed on"),
        &sleeper
    ));

    let (policy, dur) = policy
        .retry_for(&RetryKind::Explicit(Duration::from_secs(9)))
        .expect("should retry");
    assert_eq!(dur, Duration::from_secs(9));
    assert_eq!(policy.attempts(), 2);
    assert!(Arc::ptr_eq(
        policy.sleep_impl().expect("the sleeper is handed on"),
        &sleeper
    ));

    let (policy, dur) = policy.retry_for(&server_error()).expect("should retry");
    assert_eq!(dur, Duration::from_secs(2));
    assert_eq!(
        policy.retry_for(&server_error()).err(),
        Some(NoRetry::NotWarranted)
    );
    assert_eq!(
        policy.retry_for(&RetryKind::Unnecessary).err(),
        Some(NoRetry::NotWarranted)
    );
    assert_eq!(
        policy.retry_for(&RetryKind::UnretryableFailure).err(),
        Some(NoRetry::NotWarranted)
    );
}

#[test]
fn clone_is_the_same_handler() {
    let (policy, sleeper) = handler_with_sleeper(unit_jitter().with_max_attempts(5));
    let (policy, _) = policy.should_retry(&server_error()).expect("should retry");
    let copy = policy.clone();
    assert_eq!(copy.attempts(), policy.attempts());
    assert_eq!(copy.config().max_attempts(), 5);
    assert_eq!(copy.config().base(), JitterBase::Fixed(Jitter::one()));
    assert!(Arc::ptr_eq(copy.sleep_impl().expect("cloned"), &sleeper));
    let (_, from_copy) = copy.should_retry(&server_error()).expect("should retry");
    let (_, from_first) = policy.should_retry(&server_error()).expect("should retry");
    assert_eq!(from_copy, from_first);
}

#[test]
fn new_request_policy_starts_at_one_attempt() {
    let conf = unit_jitter().with_max_attempts(4);
    let standard = Standard::new(conf);
    let first: RetryHandler<Sleeper> = standard.new_request_policy(None);
    let (advanced, _) = first.should_retry(&server_error()).expect("should retry");
    assert_eq!(advanced.attempts(), 2);
    let second: RetryHandler<Sleeper> = standard.new_request_policy(None);
    assert_eq!(second.attempts(), 1);
    assert_eq!(second.config().max_attempts(), 4);
    assert_eq!(second.config().base(), JitterBase::Fixed(Jitter::one()));
}

#[test]
fn with_config_applies_to_later_handlers() {
    let mut standard = Standard::default();
    let before: RetryHandler<Sleeper> = standard.new_request_policy(None);
    assert_eq!(before.config().max_attempts(), 3);
    standard
        .with_config(unit_jitter().with_max_attempts(1))
        .with_config(unit_jitter().with_max_attempts(2));
    let after: RetryHandler<Sleeper> = standard.new_request_policy(None);
    assert_eq!(after.config().max_attempts(), 2);
    assert_eq!(before.config().max_attempts(), 3);
    assert!(before.should_retry(&server_error()).is_some());
    let (after, _) = after.should_retry(&server_error()).expect("should retry");
    assert!(after.should_retry(&server_error()).is_none());
}

#[test]
fn request_state_starts_at_one_attempt() {
    assert_eq!(RequestLocalRetryState::new().attempts(), 1);
    assert_eq!(RequestLocalRetryState::default().attempts(), 1);
}

#[test]
fn total_nanos_counts_seconds_and_nanoseconds() {
    assert_eq!(total_nanos(Duration::ZERO), 0);
    assert_eq!(total_nanos(Duration::new(2, 5)), 2_000_000_005);
    assert_eq!(total_nanos(Duration::from_millis(30)), 30_000_000);
    assert_eq!(
        total_nanos(Duration::MAX),
        18_446_744_073_709_551_615_999_999_999
    );
}

#[test]
fn duration_from_nanos_is_the_inverse_of_total_nanos() {
    assert_eq!(duration_from_nanos(0), Some(Duration::ZERO));
    assert_eq!(
        duration_from_nanos(2_000_000_005),
        Some(Duration::new(2, 5))
    );
    assert_eq!(
        duration_from_nanos(999_999_999),
        Some(Duration::new(0, 999_999_999))
    );
    assert_eq!(
        duration_from_nanos(18_446_744_073_709_551_615_999_999_999),
        Some(Duration::MAX)
    );
    assert_eq!(
        duration_from_nanos(18_446_744_073_709_551_616_000_000_000),
        None
    );
    assert_eq!(duration_from_nanos(u128::MAX), None);
}

#[test]
fn check_send_hands_its_argument_back() {
    assert_eq!(check_send(41u32), 41);
    let sleeper: Sleeper = Arc::new(InstantSleep);
    assert!(Arc::ptr_eq(&check_send(sleeper.clone()), &sleeper));
}

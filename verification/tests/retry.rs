use danube_connect_core::{jittered_backoff_ms, ConnectorError, RetryConfig, RetryDecision, RetryStrategy};
use std::time::Duration;

#[test]
fn test_retry_config_exponential() {
    let config = RetryConfig::exponential(5);
    assert_eq!(config.max_retries(), 5);
    assert_eq!(config.base_backoff_ms(), 1000);
    assert_eq!(config.max_backoff_ms(), 30000);
    assert_eq!(config.multiplier() as f64, 2.0);
    assert!(config.jitter());
}

#[test]
fn test_retry_config_linear() {
    let config = RetryConfig::linear(3, 500);
    assert_eq!(config.max_retries(), 3);
    assert_eq!(config.base_backoff_ms(), 500);
    assert_eq!(config.max_backoff_ms(), 500);
    assert_eq!(config.multiplier() as f64, 1.0);
    assert!(!config.jitter());
}

#[test]
fn test_retry_config_fixed() {
    let config = RetryConfig::fixed(10, 1000);
    assert_eq!(config.max_retries(), 10);
    assert_eq!(config.base_backoff_ms(), 1000);
    assert_eq!(config.max_backoff_ms(), 1000);
}

#[test]
fn test_retry_strategy_exponential() {
    let strategy = RetryStrategy::new(RetryConfig::exponential(5).without_jitter());

    let backoff1 = strategy.calculate_backoff(1);
    let backoff2 = strategy.calculate_backoff(2);
    let backoff3 = strategy.calculate_backoff(3);

    assert_eq!(backoff1, Duration::from_millis(1000));
    assert_eq!(backoff2, Duration::from_millis(2000));
    assert_eq!(backoff3, Duration::from_millis(4000));
}

#[test]
fn test_retry_strategy_linear() {
    let strategy = RetryStrategy::linear_backoff(3, 500);

    let backoff1 = strategy.calculate_backoff(1);
    let backoff2 = strategy.calculate_backoff(2);
    let backoff3 = strategy.calculate_backoff(3);

    assert_eq!(backoff1, Duration::from_millis(500));
    assert_eq!(backoff2, Duration::from_millis(500));
    assert_eq!(backoff3, Duration::from_millis(500));
}

#[test]
fn test_retry_strategy_max_backoff() {
    let strategy = RetryStrategy::new(RetryConfig {
        max_retries: 10,
        base_backoff_ms: 1000,
        max_backoff_ms: 5000,
        multiplier: 2,
        jitter: false,
    });

    let backoff10 = strategy.calculate_backoff(10);
    assert_eq!(backoff10, Duration::from_millis(5000));
}

#[test]
fn test_retry_strategy_should_retry() {
    let strategy = RetryStrategy::exponential_backoff(3);

    assert!(strategy.should_retry(0));
    assert!(strategy.should_retry(1));
    assert!(strategy.should_retry(2));
    assert!(!strategy.should_retry(3));
    assert!(!strategy.should_retry(4));
}

#[test]
fn test_retry_strategy_with_jitter() {
    let strategy = RetryStrategy::exponential_backoff(5);

    let backoff1 = strategy.calculate_backoff(2);
    let backoff2 = strategy.calculate_backoff(2);

    assert!(backoff1.as_millis() >= 500);
    assert!(backoff1.as_millis() <= 3000);
    assert!(backoff2.as_millis() >= 500);
    assert!(backoff2.as_millis() <= 3000);
}

#[test]
fn attempt_zero_waits_nothing() {
    let strategy = RetryStrategy::exponential_backoff(5);
    assert_eq!(strategy.calculate_backoff(0), Duration::from_millis(0));
    assert_eq!(strategy.calculate_backoff_ms(0), 0);
}

#[test]
fn backoff_stays_at_cap_for_huge_attempts() {
    let strategy = RetryStrategy::new(RetryConfig::from_parts(3, 1000, 30000, 2, false));
    assert_eq!(strategy.plain_backoff_ms(5), 16000);
    assert_eq!(strategy.plain_backoff_ms(6), 30000);
    assert_eq!(strategy.plain_backoff_ms(u32::MAX), 30000);
    let tripling = RetryStrategy::new(RetryConfig::from_parts(3, 10, 1000, 1, false).with_multiplier(3));
    assert_eq!(tripling.plain_backoff_ms(3), 90);
    let zero = RetryStrategy::new(RetryConfig::from_parts(3, 10, 1000, 0, false));
    assert_eq!(zero.plain_backoff_ms(1), 10);
    assert_eq!(zero.plain_backoff_ms(2), 0);
}

#[test]
fn jittered_backoff_never_exceeds_the_cap() {
    let strategy = RetryStrategy::new(RetryConfig::new(5, 1000, 1200));
    for attempt in 1..10 {
        let ms = strategy.calculate_backoff_ms(attempt);
        assert!(ms <= 1200);
        assert!(ms >= 500);
    }
}

#[test]
fn decisions_retry_only_retryable_errors_within_the_limit() {
    let strategy = RetryStrategy::new(RetryConfig::linear(2, 100));
    let transient = ConnectorError::retryable("timeout");
    match strategy.decide(&transient, 0) {
        RetryDecision::Retry { attempt, backoff_ms, backoff } => {
            assert_eq!(attempt, 1);
            assert_eq!(backoff_ms, 100);
            assert_eq!(backoff, Duration::from_millis(100));
        }
        other => panic!("unexpected {:?}", other),
    }
    assert!(matches!(strategy.decide(&transient, 1), RetryDecision::Retry { attempt: 2, .. }));
    assert!(matches!(strategy.decide(&transient, 2), RetryDecision::GiveUp));
    let fatal = ConnectorError::fatal("auth");
    assert!(matches!(strategy.decide(&fatal, 0), RetryDecision::GiveUp));
}

#[test]
fn default_strategy_is_exponential_with_three_retries() {
    let strategy = RetryStrategy::default();
    assert_eq!(strategy.max_retries(), 3);
    let config = RetryConfig::default();
    assert_eq!(config.base_backoff_ms(), 1000);
    assert_eq!(config.max_backoff_ms(), 30000);
    let fixed = RetryStrategy::fixed_delay(2, 250);
    assert_eq!(fixed.calculate_backoff(2), Duration::from_millis(250));
}

#[test]
fn jitter_scales_by_thousandths_and_caps() {
    assert_eq!(jittered_backoff_ms(1000, 500, 30000), 500);
    assert_eq!(jittered_backoff_ms(1000, 1499, 30000), 1499);
    assert_eq!(jittered_backoff_ms(1001, 999, 30000), 999);
    assert_eq!(jittered_backoff_ms(1000, 1499, 1200), 1200);
    assert_eq!(jittered_backoff_ms(u64::MAX, u64::MAX, 7), 7);
}

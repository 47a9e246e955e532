use rate_limiter::RateLimitConfig;
use rate_limiter::RateLimiterType;
use rate_limiter::RejectionReason;
use rate_limiter::resolve_client_key;

#[test]
fn default_config_values() {
    let c = RateLimitConfig::default();
    assert_eq!(c.max_requests, 10);
    assert_eq!(c.window_seconds, 60);
}

#[test]
fn explicit_config_values() {
    let c = RateLimitConfig::new(3, 5);
    assert_eq!(c.max_requests, 3);
    assert_eq!(c.window_seconds, 5);
}

#[test]
fn config_from_values_present() {
    let c = RateLimitConfig::from_values(Some(7), Some(30));
    assert_eq!(c.max_requests, 7);
    assert_eq!(c.window_seconds, 30);
}

#[test]
fn config_from_values_absent_fall_back_to_defaults() {
    let c = RateLimitConfig::from_values(None, None);
    assert_eq!(c.max_requests, 10);
    assert_eq!(c.window_seconds, 60);
}

#[test]
fn config_from_values_zero_falls_back_to_defaults() {
    let c = RateLimitConfig::from_values(Some(0), Some(0));
    assert_eq!(c.max_requests, 10);
    assert_eq!(c.window_seconds, 60);
}

#[test]
fn limiter_type_standard_by_name() {
    assert_eq!(RateLimiterType::from_name(Some("standard")), RateLimiterType::Standard);
}

#[test]
fn limiter_type_defaults_to_lock_free() {
    assert_eq!(RateLimiterType::from_name(Some("lock_free")), RateLimiterType::LockFree);
    assert_eq!(RateLimiterType::from_name(Some("anything else")), RateLimiterType::LockFree);
    assert_eq!(RateLimiterType::from_name(None), RateLimiterType::LockFree);
}

#[test]
fn rejection_message_text() {
    let rej = RejectionReason { max_requests: 3, window_seconds: 5 };
    assert_eq!(rej.message(), "Rate limit exceeded. Maximum 3 requests per 5 seconds.");
}

#[test]
fn rejection_message_text_multi_digit() {
    let rej = RejectionReason { max_requests: 10, window_seconds: 60 };
    assert_eq!(rej.message(), "Rate limit exceeded. Maximum 10 requests per 60 seconds.");
}

#[test]
fn rejection_message_text_extreme_values() {
    let rej = RejectionReason { max_requests: u32::MAX, window_seconds: u64::MAX };
    assert_eq!(
        rej.message(),
        "Rate limit exceeded. Maximum 4294967295 requests per 18446744073709551615 seconds."
    );
}

#[test]
fn resolved_key_uses_header_value() {
    assert_eq!(resolve_client_key(Some("203.0.113.9")), "203.0.113.9");
}

#[test]
fn missing_key_uses_sentinel() {
    assert_eq!(resolve_client_key(None), "unknown");
}

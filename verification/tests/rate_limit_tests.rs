use rate_limit::{RateLimitReason, RateLimitTracker};

#[test]
fn test_parse_retry_time_minutes_seconds() {
    let tracker = RateLimitTracker::new();
    let body = "Rate limit exceeded. Try again in 2m 30s";
    let time = tracker.parse_retry_time_from_body(body);
    assert_eq!(time, Some(150));
}

#[test]
fn test_parse_google_json_delay() {
    let tracker = RateLimitTracker::new();
    let body = r#"{
            "error": {
                "details": [
                    {
                        "metadata": {
                            "quotaResetDelay": "42s"
                        }
                    }
                ]
            }
        }"#;
    let time = tracker.parse_retry_time_from_body(body);
    assert_eq!(time, Some(42));
}

#[test]
fn test_parse_retry_after_ignore_case() {
    let tracker = RateLimitTracker::new();
    let body = "Quota limit hit. Retry After 99 Seconds";
    let time = tracker.parse_retry_time_from_body(body);
    assert_eq!(time, Some(99));
}

#[test]
fn test_get_remaining_wait() {
    let mut tracker = RateLimitTracker::new();
    tracker.parse_from_error("acc1", 429, Some("30"), "", None, &[]);
    let wait = tracker.get_remaining_wait("acc1", None);
    assert!(wait > 25 && wait <= 30);
}

#[test]
fn test_safety_buffer() {
    let mut tracker = RateLimitTracker::new();
    tracker.parse_from_error("acc1", 429, Some("1"), "", None, &[]);
    let wait = tracker.get_remaining_wait("acc1", None);
    assert!(wait >= 1 && wait <= 2);
}

#[test]
fn test_tpm_exhausted_is_rate_limit_exceeded() {
    let tracker = RateLimitTracker::new();
    let body =
        "Resource has been exhausted (e.g. check quota). Quota limit 'Tokens per minute' exceeded.";
    let reason = tracker.parse_rate_limit_reason(body);
    assert_eq!(reason, RateLimitReason::RateLimitExceeded);
}

#[test]
fn test_server_error_does_not_accumulate_failure_count() {
    let mut tracker = RateLimitTracker::new();
    let backoff_steps = vec![60, 300, 1800, 7200];

    for i in 1..=5 {
        let info =
            tracker.parse_from_error("acc1", 503, None, "Service Unavailable", None, &backoff_steps);
        assert!(info.is_some(), "backend failure {} should return a record", i);
        let info = info.unwrap();
        assert_eq!(info.retry_after_sec, 8, "backend failure {} should lock for 8 seconds", i);
    }

    let quota_body = r#"{"error":{"details":[{"reason":"QUOTA_EXHAUSTED"}]}}"#;
    let info = tracker.parse_from_error("acc1", 429, None, quota_body, None, &backoff_steps);
    assert!(info.is_some());
    let info = info.unwrap();

    assert_eq!(
        info.retry_after_sec, 60,
        "the 429 should start the ladder at 60 seconds, not inherit the backend-failure count"
    );
}

#[test]
fn test_quota_exhausted_does_accumulate_failure_count() {
    let mut tracker = RateLimitTracker::new();
    let backoff_steps = vec![60, 300, 1800, 7200];
    let quota_body = r#"{"error":{"details":[{"reason":"QUOTA_EXHAUSTED"}]}}"#;

    let info = tracker.parse_from_error("acc2", 429, None, quota_body, None, &backoff_steps);
    assert_eq!(info.unwrap().retry_after_sec, 60);

    let info = tracker.parse_from_error("acc2", 429, None, quota_body, None, &backoff_steps);
    assert_eq!(info.unwrap().retry_after_sec, 300);

    let info = tracker.parse_from_error("acc2", 429, None, quota_body, None, &backoff_steps);
    assert_eq!(info.unwrap().retry_after_sec, 1800);

    let info = tracker.parse_from_error("acc2", 429, None, quota_body, None, &backoff_steps);
    assert_eq!(info.unwrap().retry_after_sec, 7200);
}

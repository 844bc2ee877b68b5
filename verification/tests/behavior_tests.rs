use rate_limit::clock::now_epoch_secs;
use rate_limit::policy::compute_lockout;
use rate_limit::{RateLimitReason, RateLimitTracker};

#[test]
fn classify_structured_reasons() {
    let tracker = RateLimitTracker::new();
    assert_eq!(
        tracker.parse_rate_limit_reason(r#"{"error":{"details":[{"reason":"QUOTA_EXHAUSTED"}]}}"#),
        RateLimitReason::QuotaExhausted
    );
    assert_eq!(
        tracker
            .parse_rate_limit_reason(r#"{"error":{"details":[{"reason":"RATE_LIMIT_EXCEEDED"}]}}"#),
        RateLimitReason::RateLimitExceeded
    );
    assert_eq!(
        tracker.parse_rate_limit_reason(
            r#"{"error":{"details":[{"reason":"MODEL_CAPACITY_EXHAUSTED"}]}}"#
        ),
        RateLimitReason::ModelCapacityExhausted
    );
}

#[test]
fn classify_message_fallback() {
    let tracker = RateLimitTracker::new();
    let body = r#"{"error":{"message":"Rate limit reached for this project"}}"#;
    assert_eq!(tracker.parse_rate_limit_reason(body), RateLimitReason::RateLimitExceeded);
}

#[test]
fn classify_unrecognized_reason_consults_message() {
    let tracker = RateLimitTracker::new();
    let with_message =
        r#"{"error":{"details":[{"reason":"UNHELPFUL"}],"message":"Rate limit reached"}}"#;
    assert_eq!(tracker.parse_rate_limit_reason(with_message), RateLimitReason::RateLimitExceeded);
    let without_message = r#"{"error":{"details":[{"reason":"UNHELPFUL"}]}}"#;
    assert_eq!(tracker.parse_rate_limit_reason(without_message), RateLimitReason::Unknown);
}

#[test]
fn classify_json_without_reason_falls_back_to_free_text() {
    let tracker = RateLimitTracker::new();
    let body = r#"{"status":"denied, quota gone"}"#;
    assert_eq!(tracker.parse_rate_limit_reason(body), RateLimitReason::QuotaExhausted);
}

#[test]
fn classify_free_text() {
    let tracker = RateLimitTracker::new();
    assert_eq!(
        tracker.parse_rate_limit_reason("Too Many Requests"),
        RateLimitReason::RateLimitExceeded
    );
    assert_eq!(
        tracker.parse_rate_limit_reason("your quota is used up"),
        RateLimitReason::QuotaExhausted
    );
    assert_eq!(tracker.parse_rate_limit_reason("something else broke"), RateLimitReason::Unknown);
}

#[test]
fn classify_is_stable() {
    let tracker = RateLimitTracker::new();
    let body = "Resource exhausted; quota on 'Tokens per minute'";
    let first = tracker.parse_rate_limit_reason(body);
    let second = tracker.parse_rate_limit_reason(body);
    assert_eq!(first, second);
}

#[test]
fn retry_time_structured_variants() {
    let tracker = RateLimitTracker::new();
    assert_eq!(
        tracker.parse_retry_time_from_body(
            r#"{"error":{"details":[{"metadata":{"quotaResetDelay":"2h1m1s"}}]}}"#
        ),
        Some(7261)
    );
    assert_eq!(
        tracker.parse_retry_time_from_body(
            r#"{"error":{"details":[{"metadata":{"quotaResetDelay":"1h30m"}}]}}"#
        ),
        Some(5400)
    );
    assert_eq!(
        tracker.parse_retry_time_from_body(
            r#"{"error":{"details":[{"metadata":{"quotaResetDelay":"500ms"}}]}}"#
        ),
        Some(1)
    );
    assert_eq!(
        tracker.parse_retry_time_from_body(
            r#"{"error":{"details":[{"metadata":{"quotaResetDelay":"510.79ms"}}]}}"#
        ),
        Some(1)
    );
    assert_eq!(
        tracker.parse_retry_time_from_body(
            r#"{"error":{"details":[{"metadata":{"quotaResetDelay":"42.5s"}}]}}"#
        ),
        Some(43)
    );
    assert_eq!(tracker.parse_retry_time_from_body(r#"{"error":{"retry_after":7}}"#), Some(7));
}

#[test]
fn retry_time_free_text_patterns() {
    let tracker = RateLimitTracker::new();
    assert_eq!(tracker.parse_retry_time_from_body("please backoff for 42s"), Some(42));
    assert_eq!(tracker.parse_retry_time_from_body("quota will reset in 17 seconds"), Some(17));
    assert_eq!(tracker.parse_retry_time_from_body("throttled (wait 5s)"), Some(5));
    assert_eq!(tracker.parse_retry_time_from_body("no hint in here"), None);
}

#[test]
fn retry_time_takes_leftmost_complete_match() {
    let tracker = RateLimitTracker::new();
    let body = "try again in 2x, ok wait 7s";
    assert_eq!(tracker.parse_retry_time_from_body(body), Some(7));
}

#[test]
fn header_hint_beats_body() {
    let mut tracker = RateLimitTracker::new();
    let body = "Rate limit exceeded. Try again in 2m 30s";
    let info = tracker.parse_from_error("acc-h", 429, Some("30"), body, None, &[]).unwrap();
    assert_eq!(info.retry_after_sec, 30);
}

#[test]
fn header_hint_accepts_plus_sign() {
    let mut tracker = RateLimitTracker::new();
    let info = tracker.parse_from_error("acc-p", 429, Some("+30"), "", None, &[]).unwrap();
    assert_eq!(info.retry_after_sec, 30);
}

#[test]
fn unrecognized_status_changes_nothing() {
    let mut tracker = RateLimitTracker::new();
    assert!(tracker.parse_from_error("acc-u", 400, Some("30"), "quota", None, &[]).is_none());
    assert_eq!(tracker.get_remaining_wait("acc-u", None), 0);
    assert!(tracker.get("acc-u").is_none());
}

#[test]
fn unknown_reason_defaults_to_sixty() {
    let mut tracker = RateLimitTracker::new();
    let info = tracker.parse_from_error("acc-x", 429, None, "mystery failure", None, &[]).unwrap();
    assert_eq!(info.retry_after_sec, 60);
    assert_eq!(info.reason, RateLimitReason::Unknown);
}

#[test]
fn empty_schedule_quota_defaults() {
    let mut tracker = RateLimitTracker::new();
    let quota_body = r#"{"error":{"details":[{"reason":"QUOTA_EXHAUSTED"}]}}"#;
    let info = tracker.parse_from_error("acc-e", 429, None, quota_body, None, &[]).unwrap();
    assert_eq!(info.retry_after_sec, 7200);
}

#[test]
fn model_capacity_ladder() {
    let mut tracker = RateLimitTracker::new();
    let body = r#"{"error":{"details":[{"reason":"MODEL_CAPACITY_EXHAUSTED"}]}}"#;
    let first = tracker.parse_from_error("acc-m", 429, None, body, None, &[]).unwrap();
    assert_eq!(first.retry_after_sec, 5);
    let second = tracker.parse_from_error("acc-m", 429, None, body, None, &[]).unwrap();
    assert_eq!(second.retry_after_sec, 10);
    let third = tracker.parse_from_error("acc-m", 429, None, body, None, &[]).unwrap();
    assert_eq!(third.retry_after_sec, 15);
}

#[test]
fn not_found_gets_short_lockout() {
    let mut tracker = RateLimitTracker::new();
    let info = tracker.parse_from_error("acc-404", 404, None, "", None, &[]).unwrap();
    assert_eq!(info.retry_after_sec, 5);
    assert_eq!(info.reason, RateLimitReason::ServerError);
}

#[test]
fn rate_limit_exceeded_short_default() {
    let mut tracker = RateLimitTracker::new();
    let body = r#"{"error":{"details":[{"reason":"RATE_LIMIT_EXCEEDED"}]}}"#;
    let info = tracker.parse_from_error("acc-r", 429, None, body, None, &[60, 300]).unwrap();
    assert_eq!(info.retry_after_sec, 5);
}

#[test]
fn mark_success_resets_ladder() {
    let mut tracker = RateLimitTracker::new();
    let steps = vec![60, 300, 1800];
    let quota_body = r#"{"error":{"details":[{"reason":"QUOTA_EXHAUSTED"}]}}"#;
    assert_eq!(
        tracker.parse_from_error("acc-s", 429, None, quota_body, None, &steps).unwrap().retry_after_sec,
        60
    );
    assert_eq!(
        tracker.parse_from_error("acc-s", 429, None, quota_body, None, &steps).unwrap().retry_after_sec,
        300
    );
    tracker.mark_success("acc-s");
    assert_eq!(tracker.get_remaining_wait("acc-s", None), 0);
    assert_eq!(
        tracker.parse_from_error("acc-s", 429, None, quota_body, None, &steps).unwrap().retry_after_sec,
        60
    );
}

#[test]
fn model_scoped_lockout_is_isolated() {
    let mut tracker = RateLimitTracker::new();
    let quota_body = r#"{"error":{"details":[{"reason":"QUOTA_EXHAUSTED"}]}}"#;
    let info = tracker
        .parse_from_error("acc-i", 429, Some("40"), quota_body, Some("model-a".to_string()), &[])
        .unwrap();
    assert_eq!(info.model.as_deref(), Some("model-a"));
    assert!(tracker.is_rate_limited("acc-i", Some("model-a")));
    assert!(!tracker.is_rate_limited("acc-i", None));
    assert!(!tracker.is_rate_limited("acc-i", Some("model-b")));
    tracker.mark_success("acc-i");
    assert!(tracker.is_rate_limited("acc-i", Some("model-a")));
}

#[test]
fn clear_drops_only_the_account_record() {
    let mut tracker = RateLimitTracker::new();
    tracker.parse_from_error("acc-c", 429, Some("40"), "", None, &[]);
    assert!(tracker.is_rate_limited("acc-c", None));
    assert!(tracker.clear("acc-c"));
    assert!(!tracker.is_rate_limited("acc-c", None));
    assert!(!tracker.clear("acc-c"));
}

#[test]
fn clear_all_drops_both_scopes() {
    let mut tracker = RateLimitTracker::new();
    let quota_body = r#"{"error":{"details":[{"reason":"QUOTA_EXHAUSTED"}]}}"#;
    tracker.parse_from_error("acc-a", 429, Some("40"), "", None, &[]);
    tracker.parse_from_error("acc-b", 429, Some("40"), quota_body, Some("m".to_string()), &[]);
    tracker.clear_all();
    assert!(!tracker.is_rate_limited("acc-a", None));
    assert!(!tracker.is_rate_limited("acc-b", Some("m")));
}

#[test]
fn cleanup_drops_expired_records_only() {
    let mut tracker = RateLimitTracker::new();
    let now = 1_000_000;
    tracker.set_lockout_until_at("acc-old", now - 50, RateLimitReason::QuotaExhausted, None, now);
    tracker.set_lockout_until_at("acc-new", now + 500, RateLimitReason::QuotaExhausted, None, now);
    let removed = tracker.cleanup_expired_at(now);
    assert_eq!(removed, 1);
    assert_eq!(tracker.get_remaining_wait_at("acc-old", None, now), 0);
    assert!(tracker.get("acc-old").is_none());
    assert_eq!(tracker.get_remaining_wait_at("acc-new", None, now), 500);
}

#[test]
fn remaining_wait_is_exact_at_a_fixed_instant() {
    let mut tracker = RateLimitTracker::new();
    let now = 2_000_000;
    tracker.set_lockout_until_at("acc-w", now + 100, RateLimitReason::RateLimitExceeded, None, now);
    assert_eq!(tracker.get_remaining_wait_at("acc-w", None, now), 100);
    assert_eq!(tracker.get_remaining_wait_at("acc-w", None, now + 100), 0);
    assert_eq!(tracker.get_reset_seconds_at("acc-w", now), Some(100));
}

#[test]
fn past_reset_instant_is_stored_expired() {
    let mut tracker = RateLimitTracker::new();
    let now = 3_000_000;
    tracker.set_lockout_until_at("acc-past", now - 10, RateLimitReason::QuotaExhausted, None, now);
    let info = tracker.get("acc-past").unwrap();
    assert_eq!(info.retry_after_sec, 60);
    assert_eq!(info.reset_time, now - 10);
    assert_eq!(tracker.get_remaining_wait_at("acc-past", None, now), 0);
}

#[test]
fn iso_lockout_parses_rfc3339() {
    let mut tracker = RateLimitTracker::new();
    let ok = tracker.set_lockout_until_iso(
        "acc-iso",
        "2099-01-08T17:00:00Z",
        RateLimitReason::QuotaExhausted,
        None,
    );
    assert!(ok);
    assert!(tracker.is_rate_limited("acc-iso", None));
}

#[test]
fn iso_lockout_rejects_malformed_input() {
    let mut tracker = RateLimitTracker::new();
    let ok = tracker.set_lockout_until_iso(
        "acc-bad",
        "not a timestamp",
        RateLimitReason::QuotaExhausted,
        None,
    );
    assert!(!ok);
    assert!(!tracker.is_rate_limited("acc-bad", None));
    assert!(tracker.get("acc-bad").is_none());
}

#[test]
fn iso_lockout_before_epoch_reads_expired() {
    let mut tracker = RateLimitTracker::new();
    let ok = tracker.set_lockout_until_iso(
        "acc-old-iso",
        "1960-01-01T00:00:00Z",
        RateLimitReason::QuotaExhausted,
        None,
    );
    assert!(ok);
    let info = tracker.get("acc-old-iso").unwrap();
    assert_eq!(info.reset_time, 0);
    assert_eq!(tracker.get_remaining_wait("acc-old-iso", None), 0);
}

#[test]
fn other_backend_statuses_lock_eight_seconds() {
    let mut tracker = RateLimitTracker::new();
    let a = tracker.parse_from_error("acc-500", 500, None, "oops", None, &[]).unwrap();
    assert_eq!(a.retry_after_sec, 8);
    let b = tracker.parse_from_error("acc-529", 529, None, "overloaded", None, &[]).unwrap();
    assert_eq!(b.retry_after_sec, 8);
}

#[test]
fn failure_count_expires_after_an_hour() {
    let mut tracker = RateLimitTracker::new();
    let steps = vec![60, 300, 1800];
    let quota_body = r#"{"error":{"details":[{"reason":"QUOTA_EXHAUSTED"}]}}"#;
    let t0 = 5_000_000;
    let first =
        tracker.parse_from_error_at("acc-t", 429, None, quota_body, None, &steps, t0).unwrap();
    assert_eq!(first.retry_after_sec, 60);
    let second =
        tracker.parse_from_error_at("acc-t", 429, None, quota_body, None, &steps, t0 + 100).unwrap();
    assert_eq!(second.retry_after_sec, 300);
    let third =
        tracker.parse_from_error_at("acc-t", 429, None, quota_body, None, &steps, t0 + 200).unwrap();
    assert_eq!(third.retry_after_sec, 1800);
    let fourth = tracker
        .parse_from_error_at("acc-t", 429, None, quota_body, None, &steps, t0 + 200 + 3601)
        .unwrap();
    assert_eq!(fourth.retry_after_sec, 60);
}

#[test]
fn hinted_wait_floor_is_two_seconds() {
    assert_eq!(
        compute_lockout(RateLimitReason::Unknown, Some(0), 429, 1, &[]),
        2
    );
    assert_eq!(
        compute_lockout(RateLimitReason::Unknown, Some(1), 429, 1, &[]),
        2
    );
    assert_eq!(
        compute_lockout(RateLimitReason::Unknown, Some(50), 429, 1, &[]),
        50
    );
}

#[test]
fn schedule_indexing_reuses_last_step() {
    assert_eq!(
        compute_lockout(RateLimitReason::QuotaExhausted, None, 429, 5, &[60, 300]),
        300
    );
    assert_eq!(
        compute_lockout(RateLimitReason::QuotaExhausted, None, 429, 0, &[60, 300]),
        60
    );
}

#[test]
fn account_lockout_dominates_model_lockout() {
    let mut tracker = RateLimitTracker::new();
    let now = 7_000_000;
    let quota_body = r#"{"error":{"details":[{"reason":"QUOTA_EXHAUSTED"}]}}"#;
    tracker.parse_from_error_at(
        "acc-d",
        429,
        Some("100"),
        quota_body,
        Some("m1".to_string()),
        &[],
        now,
    );
    tracker.set_lockout_until_at("acc-d", now + 40, RateLimitReason::RateLimitExceeded, None, now);
    assert_eq!(tracker.get_remaining_wait_at("acc-d", Some("m1"), now), 40);
    assert_eq!(tracker.get_remaining_wait_at("acc-d", None, now), 40);
}

#[test]
fn wall_clock_lockout_is_observable() {
    let mut tracker = RateLimitTracker::new();
    let now = now_epoch_secs();
    tracker.set_lockout_until("acc-wc", now + 100, RateLimitReason::QuotaExhausted, None);
    let wait = tracker.get_remaining_wait("acc-wc", None);
    assert!(wait > 95 && wait <= 100);
}

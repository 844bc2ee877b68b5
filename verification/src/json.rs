//! Trusted views of the structured error shapes: what serde_json finds at
//! the recognized paths of a JSON error body.
//!
//! Each extraction is a pure function of the body text, so it is given a
//! name here, and the library's contracts speak of those names. A body that
//! does not parse as JSON, or that lacks the path, yields nothing.
use vstd::prelude::*;

verus! {

/// The string at `error.details[0].reason` of the body, when the body
/// parses as JSON and that path holds a string.
pub uninterp spec fn json_error_reason(body: Seq<char>) -> Option<Seq<char>>;

/// The string at `error.message` of the body.
pub uninterp spec fn json_error_message(body: Seq<char>) -> Option<Seq<char>>;

/// The string at `error.details[0].metadata.quotaResetDelay` of the body.
pub uninterp spec fn json_quota_reset_delay(body: Seq<char>) -> Option<Seq<char>>;

/// The non-negative integer at `error.retry_after` of the body.
pub uninterp spec fn json_retry_after(body: Seq<char>) -> Option<u64>;

/// Relies on serde_json::from_str::<Value> and Value::get / Value::as_array
/// / Value::as_str: the string at `error.details[0].reason`, a function of
/// the body text alone.
#[verifier::external_body]
pub fn json_error_reason_of(body: &str) -> (r: Option<String>)
    ensures
        r.deep_view() == json_error_reason(body@),
{
    let json: serde_json::Value = match serde_json::from_str(body) {
        Ok(j) => j,
        Err(_) => return None,
    };
    json.get("error")
        .and_then(|e| e.get("details"))
        .and_then(|d| d.as_array())
        .and_then(|a| a.get(0))
        .and_then(|o| o.get("reason"))
        .and_then(|v| v.as_str())
        .map(|s| s.to_owned())
}

/// Relies on serde_json::from_str::<Value> and Value::get / Value::as_str:
/// the string at `error.message`, a function of the body text alone.
#[verifier::external_body]
pub fn json_error_message_of(body: &str) -> (r: Option<String>)
    ensures
        r.deep_view() == json_error_message(body@),
{
    let json: serde_json::Value = match serde_json::from_str(body) {
        Ok(j) => j,
        Err(_) => return None,
    };
    json.get("error")
        .and_then(|e| e.get("message"))
        .and_then(|v| v.as_str())
        .map(|s| s.to_owned())
}

/// Relies on serde_json::from_str::<Value> and Value::get / Value::as_array
/// / Value::as_str: the string at `error.details[0].metadata.quotaResetDelay`,
/// a function of the body text alone.
#[verifier::external_body]
pub fn json_quota_reset_delay_of(body: &str) -> (r: Option<String>)
    ensures
        r.deep_view() == json_quota_reset_delay(body@),
{
    let json: serde_json::Value = match serde_json::from_str(body) {
        Ok(j) => j,
        Err(_) => return None,
    };
    json.get("error")
        .and_then(|e| e.get("details"))
        .and_then(|d| d.as_array())
        .and_then(|a| a.get(0))
        .and_then(|o| o.get("metadata"))
        .and_then(|m| m.get("quotaResetDelay"))
        .and_then(|v| v.as_str())
        .map(|s| s.to_owned())
}

/// Relies on serde_json::from_str::<Value> and Value::get / Value::as_u64:
/// the integer at `error.retry_after`, a function of the body text alone.
#[verifier::external_body]
pub fn json_retry_after_of(body: &str) -> (r: Option<u64>)
    ensures
        r == json_retry_after(body@),
{
    let json: serde_json::Value = match serde_json::from_str(body) {
        Ok(j) => j,
        Err(_) => return None,
    };
    json.get("error").and_then(|e| e.get("retry_after")).and_then(|v| v.as_u64())
}

} // verus!

//! The error parser: classifies a failure body into a reason, and extracts
//! an explicit wait hint from a header or from the body.
use vstd::prelude::*;

use crate::RateLimitReason;
use crate::duration::{duration_spec, parse_duration};
use crate::json::{
    json_error_message, json_error_message_of, json_error_reason, json_error_reason_of,
    json_quota_reset_delay, json_quota_reset_delay_of, json_retry_after, json_retry_after_of,
};
use crate::patterns::{patterns_find, patterns_spec};
use crate::text::{
    chars_vec, contains_ci, contains_ci_exec, digits_val, is_digit, scan_digits, scan_spaces,
    space_run_end, parse_digits_u64,
};

verus! {

/// The body opens, after leading whitespace, like a JSON document.
pub open spec fn looks_like_json(body: Seq<char>) -> bool {
    let t = space_run_end(body, 0);
    t < body.len() && (body[t] == '{' || body[t] == '[')
}

/// Classification of a body by its free text: short-horizon wordings first,
/// so that a "tokens per minute" message is never read as a quota message.
pub open spec fn free_text_class(body: Seq<char>) -> RateLimitReason {
    if contains_ci(body, "per minute"@) || contains_ci(body, "rate limit"@) || contains_ci(
        body,
        "too many requests"@,
    ) {
        RateLimitReason::RateLimitExceeded
    } else if contains_ci(body, "exhausted"@) || contains_ci(body, "quota"@) {
        RateLimitReason::QuotaExhausted
    } else {
        RateLimitReason::Unknown
    }
}

/// The structured `error.message` names a short-horizon limit.
pub open spec fn message_matches(body: Seq<char>) -> bool {
    match json_error_message(body) {
        Some(m) => contains_ci(m, "per minute"@) || contains_ci(m, "rate limit"@),
        None => false,
    }
}

/// What `classify_reason` returns for a body: the structured reason when the
/// body is JSON and carries one, the structured message next, free text last.
pub open spec fn classify_spec(body: Seq<char>) -> RateLimitReason {
    if looks_like_json(body) {
        match json_error_reason(body) {
            Some(r) => if r == "QUOTA_EXHAUSTED"@ {
                RateLimitReason::QuotaExhausted
            } else if r == "RATE_LIMIT_EXCEEDED"@ {
                RateLimitReason::RateLimitExceeded
            } else if r == "MODEL_CAPACITY_EXHAUSTED"@ {
                RateLimitReason::ModelCapacityExhausted
            } else if message_matches(body) {
                RateLimitReason::RateLimitExceeded
            } else {
                RateLimitReason::Unknown
            },
            None => if message_matches(body) {
                RateLimitReason::RateLimitExceeded
            } else {
                free_text_class(body)
            },
        }
    } else {
        free_text_class(body)
    }
}

/// What the body yields as a wait hint: the structured quota-reset delay
/// first, then the structured retry-after integer, then the free-text
/// patterns.
pub open spec fn retry_body_spec(body: Seq<char>) -> Option<u64> {
    let jhint = if looks_like_json(body) {
        match json_quota_reset_delay(body) {
            Some(d) => match duration_spec(d) {
                Some(x) => Some(x),
                None => json_retry_after(body),
            },
            None => json_retry_after(body),
        }
    } else {
        None
    };
    match jhint {
        Some(x) => Some(x),
        None => patterns_spec(body),
    }
}

/// What a decimal string is worth: an optional leading `'+'`, then digits
/// only, fitting in a `u64`.
pub open spec fn parse_u64_spec(s: Seq<char>) -> Option<u64> {
    let st: int = if s.len() > 0 && s[0] == '+' {
        1
    } else {
        0
    };
    if s.len() > st && (forall|k: int| st <= k < s.len() ==> is_digit(s[k])) && digits_val(
        s,
        st,
        s.len() as int,
    ) <= u64::MAX {
        Some(digits_val(s, st, s.len() as int) as u64)
    } else {
        None
    }
}

/// The final hint: the header when it is a whole number of seconds, else
/// whatever the body yields.
pub open spec fn hint_spec(header: Option<Seq<char>>, body: Seq<char>) -> Option<u64> {
    match header {
        Some(h) => if parse_u64_spec(h) is Some {
            parse_u64_spec(h)
        } else {
            retry_body_spec(body)
        },
        None => retry_body_spec(body),
    }
}

/// Whether `v` opens, after leading whitespace, like a JSON document.
fn looks_like_json_exec(v: &Vec<char>) -> (r: bool)
    ensures
        r == looks_like_json(v@),
{
    let t = scan_spaces(v, 0);
    t < v.len() && (v[t] == '{' || v[t] == '[')
}

/// Free-text classification of `v`.
fn free_text_exec(v: &Vec<char>) -> (r: RateLimitReason)
    ensures
        r == free_text_class(v@),
{
    let per_minute = chars_vec("per minute");
    let rate_limit = chars_vec("rate limit");
    let too_many = chars_vec("too many requests");
    if contains_ci_exec(v, &per_minute) || contains_ci_exec(v, &rate_limit) || contains_ci_exec(
        v,
        &too_many,
    ) {
        RateLimitReason::RateLimitExceeded
    } else {
        let exhausted = chars_vec("exhausted");
        let quota = chars_vec("quota");
        if contains_ci_exec(v, &exhausted) || contains_ci_exec(v, &quota) {
            RateLimitReason::QuotaExhausted
        } else {
            RateLimitReason::Unknown
        }
    }
}

/// Whether the structured `error.message` names a short-horizon limit.
fn message_matches_exec(body: &str) -> (r: bool)
    ensures
        r == message_matches(body@),
{
    match json_error_message_of(body) {
        Some(m) => {
            let mv = chars_vec(m.as_str());
            let per_minute = chars_vec("per minute");
            let rate_limit = chars_vec("rate limit");
            contains_ci_exec(&mv, &per_minute) || contains_ci_exec(&mv, &rate_limit)
        },
        None => false,
    }
}

/// Whether `a` holds the same characters as the literal `b`.
fn str_eq(a: &String, b: &str) -> (r: bool)
    ensures
        r == (a@ == b@),
{
    let owned: String = b.to_owned();
    a.eq(&owned)
}

/// Classifies a failure body into a reason.
///
/// A JSON body is read at `error.details[0].reason` first; an unrecognized
/// or missing reason falls back to the structured message, then to the free
/// text of the whole body, short-horizon wordings first.
pub fn classify_reason(body: &str) -> (r: RateLimitReason)
    ensures
        r == classify_spec(body@),
{
    let v = chars_vec(body);
    if looks_like_json_exec(&v) {
        match json_error_reason_of(body) {
            Some(rs) => {
                if str_eq(&rs, "QUOTA_EXHAUSTED") {
                    RateLimitReason::QuotaExhausted
                } else if str_eq(&rs, "RATE_LIMIT_EXCEEDED") {
                    RateLimitReason::RateLimitExceeded
                } else if str_eq(&rs, "MODEL_CAPACITY_EXHAUSTED") {
                    RateLimitReason::ModelCapacityExhausted
                } else if message_matches_exec(body) {
                    RateLimitReason::RateLimitExceeded
                } else {
                    RateLimitReason::Unknown
                }
            },
            None => {
                if message_matches_exec(body) {
                    RateLimitReason::RateLimitExceeded
                } else {
                    free_text_exec(&v)
                }
            },
        }
    } else {
        free_text_exec(&v)
    }
}

/// Extracts a wait hint, in seconds, from a failure body.
pub fn retry_time_from_body(body: &str) -> (r: Option<u64>)
    ensures
        r == retry_body_spec(body@),
{
    let v = chars_vec(body);
    let jhint: Option<u64> = if looks_like_json_exec(&v) {
        match json_quota_reset_delay_of(body) {
            Some(d) => {
                let dv = chars_vec(d.as_str());
                match parse_duration(&dv) {
                    Some(x) => Some(x),
                    None => json_retry_after_of(body),
                }
            },
            None => json_retry_after_of(body),
        }
    } else {
        None
    };
    match jhint {
        Some(x) => Some(x),
        None => patterns_find(&v),
    }
}

/// The value of a decimal string, when it is one.
pub fn parse_u64_str(s: &str) -> (r: Option<u64>)
    ensures
        r == parse_u64_spec(s@),
{
    let v = chars_vec(s);
    let st: usize = if v.len() > 0 && v[0] == '+' {
        1
    } else {
        0
    };
    let e = scan_digits(&v, st);
    if e == v.len() && e > st {
        proof {
            crate::text::lemma_digits_val_nonneg(v@, st as int, e as int);
        }
        parse_digits_u64(&v, st, e)
    } else {
        None
    }
}

/// Extracts a wait hint, in seconds: the `Retry-After` header when it is a
/// whole number, else whatever the body yields.
pub fn extract_retry_hint(header: Option<&str>, body: &str) -> (r: Option<u64>)
    ensures
        r == hint_spec(header.deep_view(), body@),
{
    match header {
        Some(h) => match parse_u64_str(h) {
            Some(x) => Some(x),
            None => retry_time_from_body(body),
        },
        None => retry_time_from_body(body),
    }
}

} // verus!

//! The backoff policy: how long a failure locks its key out, in seconds.
use vstd::prelude::*;

use crate::RateLimitReason;

verus! {

/// The lockout a failure earns.
///
/// An explicit hint wins, floored at two seconds so a tight retry loop can
/// never form. Without one, quota exhaustion walks the caller's escalation
/// schedule by the consecutive-failure count, reusing the last step past the
/// end and falling back to 7200 seconds when the schedule is empty; the
/// other reasons use short fixed defaults.
pub open spec fn lockout_spec(
    reason: RateLimitReason,
    hint: Option<u64>,
    status: u16,
    failure_count: u32,
    schedule: Seq<u64>,
) -> u64 {
    match hint {
        Some(s) => if s < 2 {
            2
        } else {
            s
        },
        None => match reason {
            RateLimitReason::QuotaExhausted => if schedule.len() == 0 {
                7200
            } else {
                let idx: int = if failure_count <= 1 {
                    0
                } else {
                    failure_count - 1
                };
                if idx < schedule.len() {
                    schedule[idx]
                } else {
                    schedule[schedule.len() - 1]
                }
            },
            RateLimitReason::RateLimitExceeded => 5,
            RateLimitReason::ModelCapacityExhausted => if failure_count == 1 {
                5
            } else if failure_count == 2 {
                10
            } else {
                15
            },
            RateLimitReason::ServerError => if status == 404 {
                5
            } else {
                8
            },
            RateLimitReason::Unknown => 60,
        },
    }
}

/// Computes the lockout of `lockout_spec` for the given failure.
pub fn compute_lockout(
    reason: RateLimitReason,
    hint: Option<u64>,
    status: u16,
    failure_count: u32,
    schedule: &[u64],
) -> (r: u64)
    ensures
        r == lockout_spec(reason, hint, status, failure_count, schedule@),
{
    match hint {
        Some(s) => if s < 2 {
            2
        } else {
            s
        },
        None => match reason {
            RateLimitReason::QuotaExhausted => {
                if schedule.len() == 0 {
                    7200
                } else {
                    let idx: usize = if failure_count <= 1 {
                        0
                    } else {
                        (failure_count - 1) as usize
                    };
                    if idx < schedule.len() {
                        schedule[idx]
                    } else {
                        schedule[schedule.len() - 1]
                    }
                }
            },
            RateLimitReason::RateLimitExceeded => 5,
            RateLimitReason::ModelCapacityExhausted => {
                if failure_count == 1 {
                    5
                } else if failure_count == 2 {
                    10
                } else {
                    15
                }
            },
            RateLimitReason::ServerError => {
                if status == 404 {
                    5
                } else {
                    8
                }
            },
            RateLimitReason::Unknown => 60,
        },
    }
}

} // verus!

//! The library's laws: properties that hold of all inputs, each proved from
//! the specification functions the public contracts are stated over.
use vstd::prelude::*;

use crate::RateLimitReason;
use crate::parser::{classify_spec, hint_spec};
use crate::policy::lockout_spec;
use crate::tracker::{
    FailureEntry, InfoView, accepted_status, active_lockouts, limit_key, map_get, reason_for,
    remaining_wait_spec, report_spec,
};

verus! {

/// A hinted wait is never shorter than two seconds: the safety floor that
/// keeps a tight retry loop from forming.
pub proof fn lemma_hint_floor(
    reason: RateLimitReason,
    hint: Option<u64>,
    status: u16,
    failure_count: u32,
    schedule: Seq<u64>,
)
    requires
        hint is Some,
    ensures
        lockout_spec(reason, hint, status, failure_count, schedule) >= 2,
{
}

/// A report that carries an explicit hint records a wait of at least two
/// seconds, whatever else it found.
pub proof fn lemma_hinted_report_floor(
    lockouts: Map<Seq<char>, InfoView>,
    failures: Map<Seq<char>, FailureEntry>,
    account: Seq<char>,
    status: u16,
    header: Option<Seq<char>>,
    body: Seq<char>,
    model: Option<Seq<char>>,
    schedule: Seq<u64>,
    now: u64,
)
    requires
        hint_spec(header, body) is Some,
    ensures
        report_spec(
            lockouts,
            failures,
            account,
            status,
            header,
            body,
            model,
            schedule,
            now,
        ).info.retry_after_sec >= 2,
{
}

/// Classification is a function of the body alone: any two results of it on
/// one body agree.
pub proof fn lemma_classify_stable(body: Seq<char>, r1: RateLimitReason, r2: RateLimitReason)
    requires
        r1 == classify_spec(body),
        r2 == classify_spec(body),
    ensures
        r1 == r2,
{
}

/// A report of a server error — any accepted status but 429 — never touches
/// the failure counts, so a storm of backend failures cannot inflate the
/// backoff ladder of true limit events.
pub proof fn lemma_server_error_keeps_failures(
    lockouts: Map<Seq<char>, InfoView>,
    failures: Map<Seq<char>, FailureEntry>,
    account: Seq<char>,
    status: u16,
    header: Option<Seq<char>>,
    body: Seq<char>,
    model: Option<Seq<char>>,
    schedule: Seq<u64>,
    now: u64,
)
    requires
        accepted_status(status),
        status != 429,
    ensures
        report_spec(lockouts, failures, account, status, header, body, model, schedule, now)
            .failures == failures,
{
}

/// Hint-free quota-exhaustion reports walk the schedule: with `k` prior
/// consecutive failures recorded within the expiry window, the next report
/// records count `k + 1` and locks for the `k`-th step of the schedule,
/// reusing the last step past the end.
pub proof fn lemma_quota_backoff_walks_schedule(
    lockouts: Map<Seq<char>, InfoView>,
    failures: Map<Seq<char>, FailureEntry>,
    account: Seq<char>,
    header: Option<Seq<char>>,
    body: Seq<char>,
    model: Option<Seq<char>>,
    schedule: Seq<u64>,
    now: u64,
    k: u32,
    t: u64,
)
    requires
        reason_for(429, body) == RateLimitReason::QuotaExhausted,
        hint_spec(header, body) is None,
        schedule.len() > 0,
        map_get(failures, account) == Some(FailureEntry { count: k, last_updated: t }),
        now <= t + 3600,
        k < u32::MAX,
    ensures
        ({
            let o = report_spec(lockouts, failures, account, 429, header, body, model, schedule, now);
            &&& o.failures[account].count == k + 1
            &&& o.failures[account].last_updated == now
            &&& o.info.retry_after_sec == (if k < schedule.len() {
                schedule[k as int]
            } else {
                schedule[schedule.len() - 1]
            })
        }),
{
}

/// The tracker state after a run of hint-free quota-exhaustion reports of
/// one account, one report per instant in `times`, oldest first.
pub open spec fn run_quota_reports(
    lockouts: Map<Seq<char>, InfoView>,
    failures: Map<Seq<char>, FailureEntry>,
    account: Seq<char>,
    header: Option<Seq<char>>,
    body: Seq<char>,
    model: Option<Seq<char>>,
    schedule: Seq<u64>,
    times: Seq<u64>,
) -> crate::tracker::ReportOutcome
    decreases times.len(),
{
    if times.len() <= 1 {
        report_spec(lockouts, failures, account, 429, header, body, model, schedule, times[0])
    } else {
        let prev = run_quota_reports(
            lockouts,
            failures,
            account,
            header,
            body,
            model,
            schedule,
            times.drop_last(),
        );
        report_spec(
            prev.lockouts,
            prev.failures,
            account,
            429,
            header,
            body,
            model,
            schedule,
            times.last(),
        )
    }
}

/// Repeated hint-free quota-exhaustion reports walk the whole schedule:
/// starting with no failure record and reporting at instants never more
/// than the expiry window apart, the n-th report locks for the n-th step,
/// and the last step repeats once the schedule is spent.
pub proof fn lemma_quota_run_walks_schedule(
    lockouts: Map<Seq<char>, InfoView>,
    failures: Map<Seq<char>, FailureEntry>,
    account: Seq<char>,
    header: Option<Seq<char>>,
    body: Seq<char>,
    model: Option<Seq<char>>,
    schedule: Seq<u64>,
    times: Seq<u64>,
)
    requires
        reason_for(429, body) == RateLimitReason::QuotaExhausted,
        hint_spec(header, body) is None,
        schedule.len() > 0,
        !failures.contains_key(account),
        1 <= times.len() < u32::MAX,
        forall|i: int| 0 < i < times.len() ==> times[i - 1] <= #[trigger] times[i] <= times[i - 1]
            + 3600,
    ensures
        ({
            let o = run_quota_reports(
                lockouts,
                failures,
                account,
                header,
                body,
                model,
                schedule,
                times,
            );
            let n = times.len() - 1;
            &&& o.failures[account] == FailureEntry {
                count: times.len() as u32,
                last_updated: times.last(),
            }
            &&& o.info.retry_after_sec == (if n < schedule.len() {
                schedule[n]
            } else {
                schedule[schedule.len() - 1]
            })
        }),
    decreases times.len(),
{
    if times.len() == 1 {
        assert(map_get(failures, account) is None);
    } else {
        let prefix = times.drop_last();
        lemma_quota_run_walks_schedule(
            lockouts,
            failures,
            account,
            header,
            body,
            model,
            schedule,
            prefix,
        );
        let prev = run_quota_reports(
            lockouts,
            failures,
            account,
            header,
            body,
            model,
            schedule,
            prefix,
        );
        lemma_quota_backoff_walks_schedule(
            prev.lockouts,
            prev.failures,
            account,
            header,
            body,
            model,
            schedule,
            times.last(),
            (times.len() - 1) as u32,
            prefix.last(),
        );
    }
}

/// A success mark resets the ladder: with the account's failure record
/// removed, the next hint-free quota-exhaustion report records count one
/// and locks for the first step of the schedule.
pub proof fn lemma_success_resets_backoff(
    lockouts: Map<Seq<char>, InfoView>,
    failures: Map<Seq<char>, FailureEntry>,
    account: Seq<char>,
    header: Option<Seq<char>>,
    body: Seq<char>,
    model: Option<Seq<char>>,
    schedule: Seq<u64>,
    now: u64,
)
    requires
        reason_for(429, body) == RateLimitReason::QuotaExhausted,
        hint_spec(header, body) is None,
        schedule.len() > 0,
    ensures
        ({
            let o = report_spec(
                lockouts,
                failures.remove(account),
                account,
                429,
                header,
                body,
                model,
                schedule,
                now,
            );
            &&& o.failures[account].count == 1
            &&& o.info.retry_after_sec == schedule[0]
        }),
{
    assert(!failures.remove(account).contains_key(account));
}

/// Sweeping the expired records changes no wait read at the same instant:
/// a record the sweep drops was already worth zero.
pub proof fn lemma_cleanup_preserves_waits(
    lockouts: Map<Seq<char>, InfoView>,
    account: Seq<char>,
    model: Option<Seq<char>>,
    now: u64,
)
    ensures
        remaining_wait_spec(active_lockouts(lockouts, now), account, model, now)
            == remaining_wait_spec(lockouts, account, model, now),
{
    let active = active_lockouts(lockouts, now);
    assert(active.contains_key(account) <==> (lockouts.contains_key(account) && lockouts[
        account
    ].reset_time > now));
    let ck = limit_key(account, model);
    assert(active.contains_key(ck) <==> (lockouts.contains_key(ck) && lockouts[ck].reset_time
        > now));
}

/// Every key the sweep removed reads as no wait at all afterwards.
pub proof fn lemma_cleanup_removed_wait_zero(
    lockouts: Map<Seq<char>, InfoView>,
    k: Seq<char>,
    now: u64,
)
    requires
        lockouts.contains_key(k),
        !active_lockouts(lockouts, now).contains_key(k),
    ensures
        remaining_wait_spec(active_lockouts(lockouts, now), k, None, now) == 0,
{
}

} // verus!

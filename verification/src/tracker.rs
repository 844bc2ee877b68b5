//! The tracker state: the lockout map and the failure-count map, both
//! concurrency-safe sharded maps, and the operations the proxy drives them
//! with.
//!
//! Every time-dependent operation exists twice: a `..._at` form that takes
//! the clock reading as an argument and carries the exact contract, and the
//! plain form that reads the wall clock and delegates to it.
use vstd::prelude::*;
use vstd::string::StringExecFns;

use crate::RateLimitReason;
use crate::policy::lockout_spec;

verus! {

/// An immutable snapshot of one lockout record.
#[derive(Debug, Clone)]
pub struct RateLimitInfo {
    /// Epoch second at which the lockout expires.
    pub reset_time: u64,
    /// Seconds between detection and `reset_time`, informational.
    pub retry_after_sec: u64,
    /// Epoch second at which the record was created.
    pub detected_at: u64,
    /// The classified failure.
    pub reason: RateLimitReason,
    /// Present exactly when the record is model-scoped.
    pub model: Option<String>,
}

/// The mathematical image of a lockout record.
pub ghost struct InfoView {
    pub reset_time: u64,
    pub retry_after_sec: u64,
    pub detected_at: u64,
    pub reason: RateLimitReason,
    pub model: Option<Seq<char>>,
}

impl View for RateLimitInfo {
    type V = InfoView;

    open spec fn view(&self) -> InfoView {
        InfoView {
            reset_time: self.reset_time,
            retry_after_sec: self.retry_after_sec,
            detected_at: self.detected_at,
            reason: self.reason,
            model: self.model.deep_view(),
        }
    }
}

impl DeepView for RateLimitInfo {
    type V = InfoView;

    open spec fn deep_view(&self) -> InfoView {
        self.view()
    }
}

/// One consecutive-failure record: the count, and when it last grew.
#[derive(Debug, Clone, Copy, PartialEq, Eq, Structural)]
pub struct FailureEntry {
    pub count: u32,
    pub last_updated: u64,
}

/// A failure count older than this many seconds reads as absent.
pub const FAILURE_COUNT_EXPIRY_SECONDS: u64 = 3600;

#[verifier::external_type_specification]
#[verifier::external_body]
#[verifier::reject_recursive_types(K)]
#[verifier::reject_recursive_types(V)]
#[verifier::reject_recursive_types(S)]
pub struct ExDashMap<K, V, S>(dashmap::DashMap<K, V, S>);

/// What the lockout map holds, keyed by the lockout key.
pub uninterp spec fn limits_map(m: dashmap::DashMap<String, RateLimitInfo>) -> Map<
    Seq<char>,
    InfoView,
>;

/// What the failure-count map holds, keyed by the account.
pub uninterp spec fn failures_map(m: dashmap::DashMap<String, FailureEntry>) -> Map<
    Seq<char>,
    FailureEntry,
>;

/// The empty lockout map.
pub open spec fn empty_lockouts() -> Map<Seq<char>, InfoView> {
    Map::empty()
}

/// The empty failure-count map.
pub open spec fn empty_failures() -> Map<Seq<char>, FailureEntry> {
    Map::empty()
}

/// The lockout key of an account and an optional model: the bare account,
/// or `account:model` when a non-empty model is given.
pub open spec fn limit_key(account: Seq<char>, model: Option<Seq<char>>) -> Seq<char> {
    match model {
        Some(m) => if m.len() > 0 {
            account + seq![':'] + m
        } else {
            account
        },
        None => account,
    }
}

/// Where a record is stored: model-scoped only for quota exhaustion with a
/// model given; every other failure locks the whole account.
pub open spec fn store_key(
    account: Seq<char>,
    reason: RateLimitReason,
    model: Option<Seq<char>>,
) -> Seq<char> {
    if reason == RateLimitReason::QuotaExhausted && model is Some {
        limit_key(account, model)
    } else {
        account
    }
}

/// The value under `k`, when `k` is mapped.
pub open spec fn map_get<V>(m: Map<Seq<char>, V>, k: Seq<char>) -> Option<V> {
    if m.contains_key(k) {
        Some(m[k])
    } else {
        None
    }
}

/// A record that has not expired yet at clock reading `now`.
fn still_active(info: &RateLimitInfo, now: u64) -> (r: bool)
    ensures
        r == (info@.reset_time > now),
{
    info.reset_time > now
}

/// The in-memory tracker: which keys are locked out until when, and how
/// many consecutive limit failures each account has shown.
pub struct RateLimitTracker {
    limits: dashmap::DashMap<String, RateLimitInfo>,
    failure_counts: dashmap::DashMap<String, FailureEntry>,
}

impl RateLimitTracker {
    /// The lockout map, as a mathematical map.
    pub closed spec fn lockouts(&self) -> Map<Seq<char>, InfoView> {
        limits_map(self.limits)
    }

    /// The failure-count map, as a mathematical map.
    pub closed spec fn failures(&self) -> Map<Seq<char>, FailureEntry> {
        failures_map(self.failure_counts)
    }

    /// Both maps hold finitely many records.
    pub open spec fn wf(&self) -> bool {
        self.lockouts().dom().finite() && self.failures().dom().finite()
    }

    /// Relies on dashmap::DashMap::new: a new map is empty.
    #[verifier::external_body]
    fn new_limits() -> (m: dashmap::DashMap<String, RateLimitInfo>)
        ensures
            limits_map(m) == empty_lockouts(),
    {
        dashmap::DashMap::new()
    }

    /// Relies on dashmap::DashMap::new: a new map is empty.
    #[verifier::external_body]
    fn new_failures() -> (m: dashmap::DashMap<String, FailureEntry>)
        ensures
            failures_map(m) == empty_failures(),
    {
        dashmap::DashMap::new()
    }

    /// Relies on dashmap::DashMap::get: the record under the key, cloned.
    #[verifier::external_body]
    fn lockout_get(&self, key: &str) -> (r: Option<RateLimitInfo>)
        ensures
            match r {
                Some(info) => self.lockouts().contains_key(key@) && info@ == self.lockouts()[key@],
                None => !self.lockouts().contains_key(key@),
            },
    {
        self.limits.get(key).map(|e| e.value().clone())
    }

    /// Relies on dashmap::DashMap::insert: replaces the record under the
    /// key; the failure-count map is untouched.
    #[verifier::external_body]
    fn lockout_insert(&mut self, key: String, info: RateLimitInfo)
        ensures
            limits_map(final(self).limits) == limits_map(old(self).limits).insert(key@, info@),
            final(self).failure_counts == old(self).failure_counts,
    {
        self.limits.insert(key, info);
    }

    /// Relies on dashmap::DashMap::remove: drops the record under the key
    /// and says whether one was there; the failure-count map is untouched.
    #[verifier::external_body]
    fn lockout_remove(&mut self, key: &str) -> (r: bool)
        ensures
            limits_map(final(self).limits) == limits_map(old(self).limits).remove(key@),
            r == limits_map(old(self).limits).contains_key(key@),
            final(self).failure_counts == old(self).failure_counts,
    {
        self.limits.remove(key).is_some()
    }

    /// Relies on dashmap::DashMap::clear: drops every record; the
    /// failure-count map is untouched.
    #[verifier::external_body]
    fn lockout_clear(&mut self)
        ensures
            limits_map(final(self).limits) == empty_lockouts(),
            final(self).failure_counts == old(self).failure_counts,
    {
        self.limits.clear();
    }

    /// Relies on dashmap::DashMap::len: how many records the map holds.
    #[verifier::external_body]
    fn lockout_len(&self) -> (r: usize)
        ensures
            r == self.lockouts().dom().len(),
    {
        self.limits.len()
    }

    /// Relies on dashmap::DashMap::retain: keeps exactly the records the
    /// predicate accepts, here those not yet expired; the failure-count map
    /// is untouched.
    #[verifier::external_body]
    fn lockout_retain_active(&mut self, now: u64)
        ensures
            limits_map(final(self).limits) == limits_map(old(self).limits).restrict(
                (Set::new(|k: Seq<char>| limits_map(old(self).limits)[k].reset_time > now)),
            ),
            final(self).failure_counts == old(self).failure_counts,
    {
        self.limits.retain(|_k, v| still_active(v, now));
    }

    /// Relies on dashmap::DashMap::get: the failure record of the account.
    #[verifier::external_body]
    fn fail_get(&self, key: &str) -> (r: Option<FailureEntry>)
        ensures
            r == map_get(self.failures(), key@),
    {
        self.failure_counts.get(key).map(|e| *e.value())
    }

    /// Relies on dashmap::DashMap::insert: replaces the failure record of
    /// the account; the lockout map is untouched.
    #[verifier::external_body]
    fn fail_insert(&mut self, key: String, entry: FailureEntry)
        ensures
            failures_map(final(self).failure_counts) == failures_map(old(self).failure_counts)
                .insert(key@, entry),
            final(self).limits == old(self).limits,
    {
        self.failure_counts.insert(key, entry);
    }

    /// Relies on dashmap::DashMap::remove: drops the failure record of the
    /// account; the lockout map is untouched.
    #[verifier::external_body]
    fn fail_remove(&mut self, key: &str)
        ensures
            failures_map(final(self).failure_counts) == failures_map(old(self).failure_counts)
                .remove(key@),
            final(self).limits == old(self).limits,
    {
        self.failure_counts.remove(key);
    }

    /// The lockout key as a string: `account` or `account:model`.
    fn make_key(account_id: &str, model: Option<&str>) -> (r: String)
        ensures
            r@ == limit_key(account_id@, model.deep_view()),
    {
        match model {
            Some(m) => {
                if !m.is_empty() {
                    let mut k = account_id.to_owned();
                    k.append(":");
                    k.append(m);
                    proof {
                        reveal_strlit(":");
                        assert(k@ =~= account_id@ + seq![':'] + m@);
                    }
                    k
                } else {
                    account_id.to_owned()
                }
            },
            None => account_id.to_owned(),
        }
    }

    /// A fresh tracker: nothing locked, no failures recorded.
    pub fn new() -> (t: Self)
        ensures
            t.wf(),
            t.lockouts() == empty_lockouts(),
            t.failures() == empty_failures(),
    {
        RateLimitTracker { limits: Self::new_limits(), failure_counts: Self::new_failures() }
    }

    /// The account-scoped lockout record of the account, if any.
    pub fn get(&self, account_id: &str) -> (r: Option<RateLimitInfo>)
        ensures
            r.deep_view() == map_get(self.lockouts(), account_id@),
    {
        self.lockout_get(account_id)
    }

    /// Marks a request of the account as having succeeded: drops its
    /// failure count and its account-scoped lockout. Model-scoped lockouts
    /// are left to expire on their own.
    pub fn mark_success(&mut self, account_id: &str)
        ensures
            final(self).lockouts() == old(self).lockouts().remove(account_id@),
            final(self).failures() == old(self).failures().remove(account_id@),
            old(self).wf() ==> final(self).wf(),
    {
        self.fail_remove(account_id);
        self.lockout_remove(account_id);
    }

    /// Drops the account-scoped lockout of the account and says whether
    /// there was one. The failure count stays.
    pub fn clear(&mut self, account_id: &str) -> (r: bool)
        ensures
            final(self).lockouts() == old(self).lockouts().remove(account_id@),
            final(self).failures() == old(self).failures(),
            r == old(self).lockouts().contains_key(account_id@),
            old(self).wf() ==> final(self).wf(),
    {
        self.lockout_remove(account_id)
    }

    /// Drops every lockout record, both scopes: the optimistic reset. The
    /// failure counts stay.
    pub fn clear_all(&mut self)
        ensures
            final(self).lockouts() == empty_lockouts(),
            final(self).failures() == old(self).failures(),
            old(self).wf() ==> final(self).wf(),
    {
        self.lockout_clear();
    }

    /// Seconds until the relevant lockout expires, at clock reading `now`:
    /// the account-scoped record is consulted first, the model-scoped one
    /// second, and zero means the pair may be tried.
    pub fn get_remaining_wait_at(&self, account_id: &str, model: Option<&str>, now: u64) -> (r:
        u64)
        ensures
            r == remaining_wait_spec(self.lockouts(), account_id@, model.deep_view(), now),
    {
        if let Some(info) = self.lockout_get(account_id) {
            if info.reset_time > now {
                return info.reset_time - now;
            }
        }
        if let Some(m) = model {
            let key = Self::make_key(account_id, Some(m));
            if let Some(info) = self.lockout_get(key.as_str()) {
                if info.reset_time > now {
                    return info.reset_time - now;
                }
            }
        }
        0
    }

    /// Seconds until the relevant lockout expires, read off the wall clock.
    pub fn get_remaining_wait(&self, account_id: &str, model: Option<&str>) -> (r: u64)
        ensures
            exists|now: u64|
                r == remaining_wait_spec(self.lockouts(), account_id@, model.deep_view(), now),
    {
        let now = crate::clock::now_epoch_secs();
        self.get_remaining_wait_at(account_id, model, now)
    }

    /// Whether the pair is still locked out at clock reading `now`.
    pub fn is_rate_limited_at(&self, account_id: &str, model: Option<&str>, now: u64) -> (r: bool)
        ensures
            r == (remaining_wait_spec(self.lockouts(), account_id@, model.deep_view(), now) > 0),
    {
        self.get_remaining_wait_at(account_id, model, now) > 0
    }

    /// Whether the pair is still locked out, read off the wall clock.
    pub fn is_rate_limited(&self, account_id: &str, model: Option<&str>) -> (r: bool)
        ensures
            exists|now: u64|
                r == (remaining_wait_spec(self.lockouts(), account_id@, model.deep_view(), now)
                    > 0),
    {
        let now = crate::clock::now_epoch_secs();
        self.is_rate_limited_at(account_id, model, now)
    }

    /// Seconds until the account-scoped lockout resets, at clock reading
    /// `now`: nothing when there is no record or it has already expired.
    pub fn get_reset_seconds_at(&self, account_id: &str, now: u64) -> (r: Option<u64>)
        ensures
            r == reset_seconds_spec(self.lockouts(), account_id@, now),
    {
        match self.lockout_get(account_id) {
            Some(info) => {
                if info.reset_time >= now {
                    Some(info.reset_time - now)
                } else {
                    None
                }
            },
            None => None,
        }
    }

    /// Seconds until the account-scoped lockout resets, read off the wall
    /// clock.
    pub fn get_reset_seconds(&self, account_id: &str) -> (r: Option<u64>)
        ensures
            exists|now: u64| r == reset_seconds_spec(self.lockouts(), account_id@, now),
    {
        let now = crate::clock::now_epoch_secs();
        self.get_reset_seconds_at(account_id, now)
    }

    /// Pins a lockout to an absolute reset instant, at clock reading `now`,
    /// bypassing the backoff policy.
    ///
    /// An instant already in the past is stored as given, with the
    /// informational `retry_after_sec` set to 60; queries then read the
    /// record as expired at once.
    pub fn set_lockout_until_at(
        &mut self,
        account_id: &str,
        reset_time: u64,
        reason: RateLimitReason,
        model: Option<String>,
        now: u64,
    )
        ensures
            final(self).lockouts() == lockout_until_spec(
                old(self).lockouts(),
                account_id@,
                reset_time,
                reason,
                model.deep_view(),
                now,
            ).0,
            final(self).failures() == old(self).failures(),
            old(self).wf() ==> final(self).wf(),
    {
        let retry: u64 = if reset_time >= now {
            reset_time - now
        } else {
            60
        };
        let key: String = if matches!(reason, RateLimitReason::QuotaExhausted) {
            match &model {
                Some(m) => Self::make_key(account_id, Some(m.as_str())),
                None => account_id.to_owned(),
            }
        } else {
            account_id.to_owned()
        };
        let info = RateLimitInfo {
            reset_time,
            retry_after_sec: retry,
            detected_at: now,
            reason,
            model,
        };
        self.lockout_insert(key, info);
    }

    /// Pins a lockout to an absolute reset instant, read off the wall clock.
    pub fn set_lockout_until(
        &mut self,
        account_id: &str,
        reset_time: u64,
        reason: RateLimitReason,
        model: Option<String>,
    )
        ensures
            exists|now: u64|
                final(self).lockouts() == lockout_until_spec(
                    old(self).lockouts(),
                    account_id@,
                    reset_time,
                    reason,
                    model.deep_view(),
                    now,
                ).0,
            final(self).failures() == old(self).failures(),
            old(self).wf() ==> final(self).wf(),
    {
        let now = crate::clock::now_epoch_secs();
        self.set_lockout_until_at(account_id, reset_time, reason, model, now);
    }

    /// Pins a lockout to the instant an RFC 3339 timestamp names, at clock
    /// reading `now`. A malformed timestamp changes nothing and reports
    /// failure; an instant before the epoch is clamped to it.
    pub fn set_lockout_until_iso_at(
        &mut self,
        account_id: &str,
        reset_time_str: &str,
        reason: RateLimitReason,
        model: Option<String>,
        now: u64,
    ) -> (ok: bool)
        ensures
            ok == (crate::clock::rfc3339_epoch(reset_time_str@) is Some),
            !ok ==> (final(self).lockouts() == old(self).lockouts() && final(self).failures()
                == old(self).failures()),
            ok ==> final(self).lockouts() == lockout_until_spec(
                old(self).lockouts(),
                account_id@,
                clamp_epoch(crate::clock::rfc3339_epoch(reset_time_str@)),
                reason,
                model.deep_view(),
                now,
            ).0,
            final(self).failures() == old(self).failures(),
            old(self).wf() ==> final(self).wf(),
    {
        match crate::clock::rfc3339_epoch_of(reset_time_str) {
            Some(ts) => {
                let reset: u64 = if ts < 0 {
                    0
                } else {
                    ts as u64
                };
                self.set_lockout_until_at(account_id, reset, reason, model, now);
                true
            },
            None => false,
        }
    }

    /// Pins a lockout to the instant an RFC 3339 timestamp names, read off
    /// the wall clock.
    pub fn set_lockout_until_iso(
        &mut self,
        account_id: &str,
        reset_time_str: &str,
        reason: RateLimitReason,
        model: Option<String>,
    ) -> (ok: bool)
        ensures
            ok == (crate::clock::rfc3339_epoch(reset_time_str@) is Some),
            !ok ==> (final(self).lockouts() == old(self).lockouts() && final(self).failures()
                == old(self).failures()),
            ok ==> exists|now: u64|
                final(self).lockouts() == lockout_until_spec(
                    old(self).lockouts(),
                    account_id@,
                    clamp_epoch(crate::clock::rfc3339_epoch(reset_time_str@)),
                    reason,
                    model.deep_view(),
                    now,
                ).0,
            final(self).failures() == old(self).failures(),
            old(self).wf() ==> final(self).wf(),
    {
        let now = crate::clock::now_epoch_secs();
        self.set_lockout_until_iso_at(account_id, reset_time_str, reason, model, now)
    }

    /// Drops every lockout record already expired at clock reading `now`
    /// and says how many went.
    pub fn cleanup_expired_at(&mut self, now: u64) -> (r: usize)
        requires
            old(self).wf(),
        ensures
            final(self).wf(),
            final(self).lockouts() == active_lockouts(old(self).lockouts(), now),
            final(self).failures() == old(self).failures(),
            r == old(self).lockouts().dom().len() - final(self).lockouts().dom().len(),
    {
        let before = self.lockout_len();
        self.lockout_retain_active(now);
        let after = self.lockout_len();
        proof {
            assert(self.lockouts().dom().subset_of(old(self).lockouts().dom()));
            vstd::set_lib::lemma_len_subset(self.lockouts().dom(), old(self).lockouts().dom());
        }
        before - after
    }

    /// Drops every lockout record already expired, read off the wall clock.
    pub fn cleanup_expired(&mut self) -> (r: usize)
        requires
            old(self).wf(),
        ensures
            final(self).wf(),
            final(self).failures() == old(self).failures(),
            exists|now: u64| final(self).lockouts() == active_lockouts(old(self).lockouts(), now),
    {
        let now = crate::clock::now_epoch_secs();
        self.cleanup_expired_at(now)
    }

    /// Classifies a failure body into a reason.
    pub fn parse_rate_limit_reason(&self, body: &str) -> (r: RateLimitReason)
        ensures
            r == crate::parser::classify_spec(body@),
    {
        crate::parser::classify_reason(body)
    }

    /// Extracts a wait hint, in seconds, from a failure body.
    pub fn parse_retry_time_from_body(&self, body: &str) -> (r: Option<u64>)
        ensures
            r == crate::parser::retry_body_spec(body@),
    {
        crate::parser::retry_time_from_body(body)
    }

    /// Ingests one failed upstream response, at clock reading `now`:
    /// classifies it, extracts any explicit wait hint, applies the backoff
    /// policy, and records the lockout under the account-scoped or
    /// model-scoped key. A status the tracker does not react to changes
    /// nothing. The consecutive-failure count grows only for hint-free
    /// non-server-error failures.
    pub fn parse_from_error_at(
        &mut self,
        account_id: &str,
        status: u16,
        retry_after_header: Option<&str>,
        body: &str,
        model: Option<String>,
        backoff_steps: &[u64],
        now: u64,
    ) -> (r: Option<RateLimitInfo>)
        requires
            old(self).wf(),
        ensures
            final(self).wf(),
            !accepted_status(status) ==> (r is None && final(self).lockouts() == old(
                self,
            ).lockouts() && final(self).failures() == old(self).failures()),
            accepted_status(status) ==> ({
                let o = report_spec(
                    old(self).lockouts(),
                    old(self).failures(),
                    account_id@,
                    status,
                    retry_after_header.deep_view(),
                    body@,
                    model.deep_view(),
                    backoff_steps@,
                    now,
                );
                &&& final(self).lockouts() == o.lockouts
                &&& final(self).failures() == o.failures
                &&& (r matches Some(info) && info@ == o.info)
            }),
    {
        if !(status == 429 || status == 500 || status == 503 || status == 529 || status == 404) {
            return None;
        }
        let reason = if status == 429 {
            crate::parser::classify_reason(body)
        } else {
            RateLimitReason::ServerError
        };
        let hint = crate::parser::extract_retry_hint(retry_after_header, body);
        let bump = hint.is_none() && !matches!(reason, RateLimitReason::ServerError);
        let fc: u32 = if bump {
            let c: u32 = match self.fail_get(account_id) {
                Some(e) => {
                    if now > e.last_updated && now - e.last_updated > FAILURE_COUNT_EXPIRY_SECONDS {
                        1
                    } else if e.count == u32::MAX {
                        u32::MAX
                    } else {
                        e.count + 1
                    }
                },
                None => 1,
            };
            self.fail_insert(
                account_id.to_owned(),
                FailureEntry { count: c, last_updated: now },
            );
            c
        } else {
            1
        };
        let lock = crate::policy::compute_lockout(reason, hint, status, fc, backoff_steps);
        let reset: u64 = match now.checked_add(lock) {
            Some(x) => x,
            None => u64::MAX,
        };
        let key: String = if matches!(reason, RateLimitReason::QuotaExhausted) {
            match &model {
                Some(m) => Self::make_key(account_id, Some(m.as_str())),
                None => account_id.to_owned(),
            }
        } else {
            account_id.to_owned()
        };
        let model_stored: Option<String> = match &model {
            Some(m) => Some(m.clone()),
            None => None,
        };
        let info_stored = RateLimitInfo {
            reset_time: reset,
            retry_after_sec: lock,
            detected_at: now,
            reason,
            model: model_stored,
        };
        self.lockout_insert(key, info_stored);
        Some(
            RateLimitInfo {
                reset_time: reset,
                retry_after_sec: lock,
                detected_at: now,
                reason,
                model,
            },
        )
    }

    /// Ingests one failed upstream response, read off the wall clock.
    pub fn parse_from_error(
        &mut self,
        account_id: &str,
        status: u16,
        retry_after_header: Option<&str>,
        body: &str,
        model: Option<String>,
        backoff_steps: &[u64],
    ) -> (r: Option<RateLimitInfo>)
        requires
            old(self).wf(),
        ensures
            final(self).wf(),
            !accepted_status(status) ==> (r is None && final(self).lockouts() == old(
                self,
            ).lockouts() && final(self).failures() == old(self).failures()),
            accepted_status(status) ==> r is Some,
            accepted_status(status) ==> exists|now: u64|
                report_post(
                    old(self).lockouts(),
                    old(self).failures(),
                    final(self).lockouts(),
                    final(self).failures(),
                    r->0@,
                    account_id@,
                    status,
                    retry_after_header.deep_view(),
                    body@,
                    model.deep_view(),
                    backoff_steps@,
                    now,
                ),
    {
        let now = crate::clock::now_epoch_secs();
        let r = self.parse_from_error_at(
            account_id,
            status,
            retry_after_header,
            body,
            model,
            backoff_steps,
            now,
        );
        proof {
            if accepted_status(status) {
                assert(report_post(
                    old(self).lockouts(),
                    old(self).failures(),
                    self.lockouts(),
                    self.failures(),
                    r->0@,
                    account_id@,
                    status,
                    retry_after_header.deep_view(),
                    body@,
                    model.deep_view(),
                    backoff_steps@,
                    now,
                ));
            }
        }
        r
    }
}

impl Default for RateLimitTracker {
    /// A fresh tracker, as `new` builds it.
    fn default() -> (t: Self)
        ensures
            t.wf(),
            t.lockouts() == empty_lockouts(),
            t.failures() == empty_failures(),
    {
        RateLimitTracker::new()
    }
}

/// Seconds left on the relevant lockout: the account-scoped record
/// dominates, the model-scoped one is consulted next, and zero means the
/// pair may be tried.
pub open spec fn remaining_wait_spec(
    lockouts: Map<Seq<char>, InfoView>,
    account: Seq<char>,
    model: Option<Seq<char>>,
    now: u64,
) -> u64 {
    if lockouts.contains_key(account) && lockouts[account].reset_time > now {
        (lockouts[account].reset_time - now) as u64
    } else if model is Some && lockouts.contains_key(limit_key(account, model)) && lockouts[
        limit_key(account, model)
    ].reset_time > now {
        (lockouts[limit_key(account, model)].reset_time - now) as u64
    } else {
        0
    }
}

/// The lockout map kept to the records still live at clock reading `now`.
pub open spec fn active_lockouts(lockouts: Map<Seq<char>, InfoView>, now: u64) -> Map<
    Seq<char>,
    InfoView,
> {
    lockouts.restrict(Set::new(|k: Seq<char>| lockouts[k].reset_time > now))
}

/// Seconds until the account-scoped lockout resets: nothing when there is
/// no record or it has already expired.
pub open spec fn reset_seconds_spec(
    lockouts: Map<Seq<char>, InfoView>,
    account: Seq<char>,
    now: u64,
) -> Option<u64> {
    if lockouts.contains_key(account) && lockouts[account].reset_time >= now {
        Some((lockouts[account].reset_time - now) as u64)
    } else {
        None
    }
}

/// The consecutive-failure count after one more failure: it starts at one,
/// restarts at one after more than an hour of quiet, and saturates at the
/// top of `u32` rather than wrap.
pub open spec fn bumped_count(prev: Option<FailureEntry>, now: u64) -> u32 {
    match prev {
        Some(e) => if now > e.last_updated && now - e.last_updated > 3600 {
            1
        } else if e.count == u32::MAX {
            u32::MAX
        } else {
            (e.count + 1) as u32
        },
        None => 1,
    }
}

/// The statuses the tracker reacts to.
pub open spec fn accepted_status(status: u16) -> bool {
    status == 429 || status == 500 || status == 503 || status == 529 || status == 404
}

/// The reason recorded for a status: classified from the body for 429, a
/// server error for everything else the tracker reacts to.
pub open spec fn reason_for(status: u16, body: Seq<char>) -> RateLimitReason {
    if status == 429 {
        crate::parser::classify_spec(body)
    } else {
        RateLimitReason::ServerError
    }
}

/// Everything one accepted error report yields: the two maps afterwards and
/// the returned record.
pub ghost struct ReportOutcome {
    pub lockouts: Map<Seq<char>, InfoView>,
    pub failures: Map<Seq<char>, FailureEntry>,
    pub info: InfoView,
}

/// The two maps and the returned record are exactly what `report_spec`
/// yields for the clock reading `now`.
pub open spec fn report_post(
    old_lockouts: Map<Seq<char>, InfoView>,
    old_failures: Map<Seq<char>, FailureEntry>,
    new_lockouts: Map<Seq<char>, InfoView>,
    new_failures: Map<Seq<char>, FailureEntry>,
    info: InfoView,
    account: Seq<char>,
    status: u16,
    header: Option<Seq<char>>,
    body: Seq<char>,
    model: Option<Seq<char>>,
    schedule: Seq<u64>,
    now: u64,
) -> bool {
    let o = report_spec(old_lockouts, old_failures, account, status, header, body, model, schedule, now);
    new_lockouts == o.lockouts && new_failures == o.failures && info == o.info
}

/// What reporting one accepted failure does, given the clock reading `now`.
pub open spec fn report_spec(
    lockouts: Map<Seq<char>, InfoView>,
    failures: Map<Seq<char>, FailureEntry>,
    account: Seq<char>,
    status: u16,
    header: Option<Seq<char>>,
    body: Seq<char>,
    model: Option<Seq<char>>,
    schedule: Seq<u64>,
    now: u64,
) -> ReportOutcome {
    let reason = reason_for(status, body);
    let hint = crate::parser::hint_spec(header, body);
    let bump = hint is None && reason != RateLimitReason::ServerError;
    let fc: u32 = if bump {
        bumped_count(map_get(failures, account), now)
    } else {
        1
    };
    let lock = lockout_spec(reason, hint, status, fc, schedule);
    let reset: u64 = if now + lock <= u64::MAX {
        (now + lock) as u64
    } else {
        u64::MAX
    };
    let info = InfoView {
        reset_time: reset,
        retry_after_sec: lock,
        detected_at: now,
        reason,
        model,
    };
    ReportOutcome {
        lockouts: lockouts.insert(store_key(account, reason, model), info),
        failures: if bump {
            failures.insert(account, FailureEntry { count: fc, last_updated: now })
        } else {
            failures
        },
        info,
    }
}

/// What pinning a lockout to an absolute reset instant does: the map
/// afterwards and the record stored. An instant in the past keeps the
/// given `reset_time` but notes 60 informational seconds.
pub open spec fn lockout_until_spec(
    lockouts: Map<Seq<char>, InfoView>,
    account: Seq<char>,
    reset_time: u64,
    reason: RateLimitReason,
    model: Option<Seq<char>>,
    now: u64,
) -> (Map<Seq<char>, InfoView>, InfoView) {
    let retry: u64 = if reset_time >= now {
        (reset_time - now) as u64
    } else {
        60
    };
    let info = InfoView {
        reset_time: reset_time,
        retry_after_sec: retry,
        detected_at: now,
        reason,
        model,
    };
    (lockouts.insert(store_key(account, reason, model), info), info)
}

/// The epoch second of a parsed timestamp, clamped to the epoch.
pub open spec fn clamp_epoch(ts: Option<i64>) -> u64 {
    match ts {
        Some(t) => if t < 0 {
            0
        } else {
            t as u64
        },
        None => 0,
    }
}

} // verus!

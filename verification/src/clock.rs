//! The wall clock and the absolute-instant parser, behind trusted seams.
//! All instants are whole seconds since the Unix epoch.
use vstd::prelude::*;

verus! {

/// The epoch second named by an RFC 3339 timestamp, a function of the
/// string alone; nothing for a malformed string.
pub uninterp spec fn rfc3339_epoch(s: Seq<char>) -> Option<i64>;

/// Relies on chrono::DateTime::parse_from_rfc3339 and DateTime::timestamp:
/// the epoch second the timestamp names, or nothing for a malformed string.
#[verifier::external_body]
pub fn rfc3339_epoch_of(s: &str) -> (r: Option<i64>)
    ensures
        r == rfc3339_epoch(s@),
{
    match chrono::DateTime::parse_from_rfc3339(s) {
        Ok(dt) => Some(dt.timestamp()),
        Err(_) => None,
    }
}

/// Relies on std::time::SystemTime::now and SystemTime::duration_since: the
/// wall clock, in whole seconds since the Unix epoch; a clock before the
/// epoch reads zero. Nothing is promised of the value.
#[verifier::external_body]
pub fn now_epoch_secs() -> u64 {
    match std::time::SystemTime::now().duration_since(std::time::UNIX_EPOCH) {
        Ok(d) => d.as_secs(),
        Err(_) => 0,
    }
}

} // verus!

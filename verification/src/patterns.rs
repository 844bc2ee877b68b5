//! The free-text retry-time patterns: each finds its leftmost occurrence in
//! the body and reads the announced wait out of it, in seconds.
//!
//! A pattern that occurs but whose digits do not fit in a `u64` yields
//! nothing, and the caller falls through to the next pattern.
use vstd::prelude::*;

use crate::text::{
    chars_vec, digit_run_end, digits_val, lemma_digit_run, lemma_digits_val_nonneg,
    lemma_space_run, matches_at, matches_ci_at, matches_ci_exec, matches_exec, parse_digits_u64,
    scan_digits, scan_spaces, space_run_end,
};

verus! {

/// Tail `\s*(\d+)s` starting at `j`: optional whitespace, digits, then `'s'`.
pub open spec fn ws_digits_s_at(s: Seq<char>, j: int) -> bool {
    let k = space_run_end(s, j);
    let e = digit_run_end(s, k);
    e > k && e < s.len() && s[e] == 's'
}

/// Value of the digits of the tail `\s*(\d+)s` at `j`, if it fits in a `u64`.
pub open spec fn ws_digits_s_val(s: Seq<char>, j: int) -> Option<u64> {
    let k = space_run_end(s, j);
    let e = digit_run_end(s, k);
    if digits_val(s, k, e) <= u64::MAX {
        Some(digits_val(s, k, e) as u64)
    } else {
        None
    }
}

/// Tail `(\d+) second` starting at `j`: digits, then the literal `" second"`.
pub open spec fn digits_second_at(s: Seq<char>, j: int) -> bool {
    let e = digit_run_end(s, j);
    e > j && matches_ci_at(s, " second"@, e)
}

/// Value of the digits of the tail `(\d+) second` at `j`, if it fits.
pub open spec fn digits_second_val(s: Seq<char>, j: int) -> Option<u64> {
    let e = digit_run_end(s, j);
    if digits_val(s, j, e) <= u64::MAX {
        Some(digits_val(s, j, e) as u64)
    } else {
        None
    }
}

/// `try again in (\d+)m\s*(\d+)s`, case-insensitive, at position `i`.
pub open spec fn try_again_ms_at(s: Seq<char>, i: int) -> bool {
    matches_ci_at(s, "try again in "@, i) && {
        let j = i + "try again in "@.len();
        let e1 = digit_run_end(s, j);
        e1 > j && e1 < s.len() && s[e1] == 'm' && ws_digits_s_at(s, e1 + 1)
    }
}

/// Minutes times sixty plus seconds for the match at `i`, if it fits.
pub open spec fn try_again_ms_val(s: Seq<char>, i: int) -> Option<u64> {
    let j = i + "try again in "@.len();
    let e1 = digit_run_end(s, j);
    let m = digits_val(s, j, e1);
    let k = space_run_end(s, e1 + 1);
    let e2 = digit_run_end(s, k);
    let sec = digits_val(s, k, e2);
    if m * 60 + sec <= u64::MAX {
        Some((m * 60 + sec) as u64)
    } else {
        None
    }
}

/// Value at the leftmost match of `try again in (\d+)m\s*(\d+)s` at or after `i`.
pub open spec fn try_again_ms_from(s: Seq<char>, i: int) -> Option<u64>
    decreases s.len() - i,
{
    if i >= s.len() {
        None
    } else if try_again_ms_at(s, i) {
        try_again_ms_val(s, i)
    } else {
        try_again_ms_from(s, i + 1)
    }
}

/// End of whichever of the literals `try again in`, `backoff for`, `wait`
/// matches case-insensitively at `i`.
pub open spec fn wait_lit_end(s: Seq<char>, i: int) -> Option<int> {
    if matches_ci_at(s, "try again in"@, i) {
        Some(i + "try again in"@.len())
    } else if matches_ci_at(s, "backoff for"@, i) {
        Some(i + "backoff for"@.len())
    } else if matches_ci_at(s, "wait"@, i) {
        Some(i + "wait"@.len())
    } else {
        None
    }
}

/// `(?:try again in|backoff for|wait)\s*(\d+)s`, case-insensitive, at `i`.
pub open spec fn wait_s_at(s: Seq<char>, i: int) -> bool {
    match wait_lit_end(s, i) {
        Some(j) => ws_digits_s_at(s, j),
        None => false,
    }
}

pub open spec fn wait_s_val(s: Seq<char>, i: int) -> Option<u64> {
    match wait_lit_end(s, i) {
        Some(j) => ws_digits_s_val(s, j),
        None => None,
    }
}

pub open spec fn wait_s_from(s: Seq<char>, i: int) -> Option<u64>
    decreases s.len() - i,
{
    if i >= s.len() {
        None
    } else if wait_s_at(s, i) {
        wait_s_val(s, i)
    } else {
        wait_s_from(s, i + 1)
    }
}

/// `quota will reset in (\d+) second`, case-insensitive, at `i`.
pub open spec fn quota_reset_at(s: Seq<char>, i: int) -> bool {
    matches_ci_at(s, "quota will reset in "@, i) && digits_second_at(
        s,
        i + "quota will reset in "@.len(),
    )
}

pub open spec fn quota_reset_val(s: Seq<char>, i: int) -> Option<u64> {
    digits_second_val(s, i + "quota will reset in "@.len())
}

pub open spec fn quota_reset_from(s: Seq<char>, i: int) -> Option<u64>
    decreases s.len() - i,
{
    if i >= s.len() {
        None
    } else if quota_reset_at(s, i) {
        quota_reset_val(s, i)
    } else {
        quota_reset_from(s, i + 1)
    }
}

/// `retry after (\d+) second`, case-insensitive, at `i`.
pub open spec fn retry_after_at(s: Seq<char>, i: int) -> bool {
    matches_ci_at(s, "retry after "@, i) && digits_second_at(s, i + "retry after "@.len())
}

pub open spec fn retry_after_val(s: Seq<char>, i: int) -> Option<u64> {
    digits_second_val(s, i + "retry after "@.len())
}

pub open spec fn retry_after_from(s: Seq<char>, i: int) -> Option<u64>
    decreases s.len() - i,
{
    if i >= s.len() {
        None
    } else if retry_after_at(s, i) {
        retry_after_val(s, i)
    } else {
        retry_after_from(s, i + 1)
    }
}

/// `\(wait (\d+)s\)`, case-sensitive, at `i`.
pub open spec fn paren_wait_at(s: Seq<char>, i: int) -> bool {
    matches_at(s, "(wait "@, i) && {
        let j = i + "(wait "@.len();
        let e = digit_run_end(s, j);
        e > j && e + 1 < s.len() && s[e] == 's' && s[e + 1] == ')'
    }
}

pub open spec fn paren_wait_val(s: Seq<char>, i: int) -> Option<u64> {
    let j = i + "(wait "@.len();
    let e = digit_run_end(s, j);
    if digits_val(s, j, e) <= u64::MAX {
        Some(digits_val(s, j, e) as u64)
    } else {
        None
    }
}

pub open spec fn paren_wait_from(s: Seq<char>, i: int) -> Option<u64>
    decreases s.len() - i,
{
    if i >= s.len() {
        None
    } else if paren_wait_at(s, i) {
        paren_wait_val(s, i)
    } else {
        paren_wait_from(s, i + 1)
    }
}

/// The five patterns in order: the first that yields a value wins.
pub open spec fn patterns_spec(s: Seq<char>) -> Option<u64> {
    if try_again_ms_from(s, 0) is Some {
        try_again_ms_from(s, 0)
    } else if wait_s_from(s, 0) is Some {
        wait_s_from(s, 0)
    } else if quota_reset_from(s, 0) is Some {
        quota_reset_from(s, 0)
    } else if retry_after_from(s, 0) is Some {
        retry_after_from(s, 0)
    } else {
        paren_wait_from(s, 0)
    }
}

/// The tail `\s*(\d+)s` at `j`: the outer option says whether the tail is
/// there, the inner one whether its digits fit in a `u64`.
fn ws_digits_s_exec(v: &Vec<char>, j: usize) -> (r: Option<Option<u64>>)
    requires
        j <= v@.len(),
    ensures
        match r {
            Some(val) => ws_digits_s_at(v@, j as int) && val == ws_digits_s_val(v@, j as int),
            None => !ws_digits_s_at(v@, j as int),
        },
{
    let k = scan_spaces(v, j);
    let e = scan_digits(v, k);
    if e > k && e < v.len() && v[e] == 's' {
        Some(parse_digits_u64(v, k, e))
    } else {
        None
    }
}

/// The tail `(\d+) second` at `j`, with the same two-level result.
fn digits_second_exec(v: &Vec<char>, j: usize, second: &Vec<char>) -> (r: Option<Option<u64>>)
    requires
        j <= v@.len(),
        second@ == " second"@,
    ensures
        match r {
            Some(val) => digits_second_at(v@, j as int) && val == digits_second_val(v@, j as int),
            None => !digits_second_at(v@, j as int),
        },
{
    let e = scan_digits(v, j);
    if e > j && matches_ci_exec(v, second, e) {
        Some(parse_digits_u64(v, j, e))
    } else {
        None
    }
}

/// Leftmost `try again in (\d+)m\s*(\d+)s` in `v`.
fn try_again_ms_find(v: &Vec<char>) -> (r: Option<u64>)
    ensures
        r == try_again_ms_from(v@, 0),
{
    let lit = chars_vec("try again in ");
    let n = v.len();
    let mut i: usize = 0;
    while i < n
        invariant
            n == v@.len(),
            i <= n,
            lit@ == "try again in "@,
            try_again_ms_from(v@, 0) == try_again_ms_from(v@, i as int),
        decreases n - i,
    {
        if matches_ci_exec(v, &lit, i) {
            let j = i + lit.len();
            let e1 = scan_digits(v, j);
            if e1 > j && e1 < v.len() && v[e1] == 'm' {
                match ws_digits_s_exec(v, e1 + 1) {
                    Some(sec) => {
                        assert(try_again_ms_at(v@, i as int));
                        let m = parse_digits_u64(v, j, e1);
                        proof {
                            lemma_digits_val_nonneg(v@, j as int, e1 as int);
                            lemma_space_run(v@, e1 + 1);
                            lemma_digit_run(v@, space_run_end(v@, e1 + 1));
                            lemma_digits_val_nonneg(
                                v@,
                                space_run_end(v@, e1 + 1),
                                digit_run_end(v@, space_run_end(v@, e1 + 1)),
                            );
                        }
                        let out: Option<u64> = match (m, sec) {
                            (Some(mv), Some(sv)) => match mv.checked_mul(60) {
                                Some(t) => t.checked_add(sv),
                                None => None,
                            },
                            _ => None,
                        };
                        assert(out == try_again_ms_val(v@, i as int));
                        return out;
                    },
                    None => {},
                }
            }
        }
        i += 1;
    }
    None
}

/// Leftmost `(?:try again in|backoff for|wait)\s*(\d+)s` in `v`.
fn wait_s_find(v: &Vec<char>) -> (r: Option<u64>)
    ensures
        r == wait_s_from(v@, 0),
{
    let lit1 = chars_vec("try again in");
    let lit2 = chars_vec("backoff for");
    let lit3 = chars_vec("wait");
    let n = v.len();
    let mut i: usize = 0;
    while i < n
        invariant
            n == v@.len(),
            i <= n,
            lit1@ == "try again in"@,
            lit2@ == "backoff for"@,
            lit3@ == "wait"@,
            wait_s_from(v@, 0) == wait_s_from(v@, i as int),
        decreases n - i,
    {
        let lit_end: Option<usize> = if matches_ci_exec(v, &lit1, i) {
            Some(i + lit1.len())
        } else if matches_ci_exec(v, &lit2, i) {
            Some(i + lit2.len())
        } else if matches_ci_exec(v, &lit3, i) {
            Some(i + lit3.len())
        } else {
            None
        };
        match lit_end {
            Some(j) => {
                assert(wait_lit_end(v@, i as int) == Some(j as int));
                match ws_digits_s_exec(v, j) {
                    Some(val) => {
                        assert(wait_s_at(v@, i as int));
                        assert(val == wait_s_val(v@, i as int));
                        return val;
                    },
                    None => {},
                }
            },
            None => {},
        }
        i += 1;
    }
    None
}

/// Leftmost `quota will reset in (\d+) second` in `v`.
fn quota_reset_find(v: &Vec<char>) -> (r: Option<u64>)
    ensures
        r == quota_reset_from(v@, 0),
{
    let lit = chars_vec("quota will reset in ");
    let second = chars_vec(" second");
    let n = v.len();
    let mut i: usize = 0;
    while i < n
        invariant
            n == v@.len(),
            i <= n,
            lit@ == "quota will reset in "@,
            second@ == " second"@,
            quota_reset_from(v@, 0) == quota_reset_from(v@, i as int),
        decreases n - i,
    {
        if matches_ci_exec(v, &lit, i) {
            match digits_second_exec(v, i + lit.len(), &second) {
                Some(val) => {
                    assert(quota_reset_at(v@, i as int));
                    return val;
                },
                None => {},
            }
        }
        i += 1;
    }
    None
}

/// Leftmost `retry after (\d+) second` in `v`.
fn retry_after_find(v: &Vec<char>) -> (r: Option<u64>)
    ensures
        r == retry_after_from(v@, 0),
{
    let lit = chars_vec("retry after ");
    let second = chars_vec(" second");
    let n = v.len();
    let mut i: usize = 0;
    while i < n
        invariant
            n == v@.len(),
            i <= n,
            lit@ == "retry after "@,
            second@ == " second"@,
            retry_after_from(v@, 0) == retry_after_from(v@, i as int),
        decreases n - i,
    {
        if matches_ci_exec(v, &lit, i) {
            match digits_second_exec(v, i + lit.len(), &second) {
                Some(val) => {
                    assert(retry_after_at(v@, i as int));
                    return val;
                },
                None => {},
            }
        }
        i += 1;
    }
    None
}

/// Leftmost `\(wait (\d+)s\)` in `v`.
fn paren_wait_find(v: &Vec<char>) -> (r: Option<u64>)
    ensures
        r == paren_wait_from(v@, 0),
{
    let lit = chars_vec("(wait ");
    let n = v.len();
    let mut i: usize = 0;
    while i < n
        invariant
            n == v@.len(),
            i <= n,
            lit@ == "(wait "@,
            paren_wait_from(v@, 0) == paren_wait_from(v@, i as int),
        decreases n - i,
    {
        if matches_exec(v, &lit, i) {
            let j = i + lit.len();
            let e = scan_digits(v, j);
            if e > j && e < v.len() && e + 1 < v.len() && v[e] == 's' && v[e + 1] == ')' {
                assert(paren_wait_at(v@, i as int));
                return parse_digits_u64(v, j, e);
            }
        }
        i += 1;
    }
    None
}

/// The five patterns, tried in order against the body.
pub fn patterns_find(v: &Vec<char>) -> (r: Option<u64>)
    ensures
        r == patterns_spec(v@),
{
    match try_again_ms_find(v) {
        Some(x) => Some(x),
        None => match wait_s_find(v) {
            Some(x) => Some(x),
            None => match quota_reset_find(v) {
                Some(x) => Some(x),
                None => match retry_after_find(v) {
                    Some(x) => Some(x),
                    None => paren_wait_find(v),
                },
            },
        },
    }
}

} // verus!

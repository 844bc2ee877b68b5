//! The composite duration grammar of quota-reset hints: optional hours,
//! minutes, seconds and milliseconds written back to back, as in `2h1m1s`,
//! `1h30m`, `42s`, `500ms`, `510.79ms`.
//!
//! The value in seconds is hours times 3600 plus minutes times 60 plus the
//! seconds rounded up plus the milliseconds divided by 1000 rounded up, so a
//! computed wait never undershoots the announced one. A string whose total is
//! zero, or whose total does not fit in a `u64`, yields nothing.
use vstd::prelude::*;

use crate::text::{
    digit_run_end, digit_val, digits_val, is_digit, lemma_digit_run, lemma_digits_val_nonneg,
    parse_digits_u64, scan_digits, some_digit_nonzero,
};

verus! {

/// Hours component at `i`: digits followed by `'h'`. Yields the value and
/// the position after the component; an absent component counts zero and
/// stays put.
pub open spec fn hours_comp(s: Seq<char>, i: int) -> (int, int) {
    let e = digit_run_end(s, i);
    if e > i && e < s.len() && s[e] == 'h' {
        (digits_val(s, i, e), e + 1)
    } else {
        (0, i)
    }
}

/// Minutes component at `i`: digits followed by `'m'`, where the `'m'` does
/// not open a trailing `"ms"` (that is the milliseconds component).
pub open spec fn minutes_comp(s: Seq<char>, i: int) -> (int, int) {
    let e = digit_run_end(s, i);
    if e > i && e < s.len() && s[e] == 'm' && !(e + 1 < s.len() && s[e + 1] == 's') {
        (digits_val(s, i, e), e + 1)
    } else {
        (0, i)
    }
}

/// Seconds component at `i`: digits, an optional fraction, then `'s'`.
/// Yields the integer part, whether the fraction is non-zero, and the
/// position after the component.
pub open spec fn sec_comp(s: Seq<char>, i: int) -> (int, bool, int) {
    let e = digit_run_end(s, i);
    if e > i && e < s.len() && s[e] == 's' {
        (digits_val(s, i, e), false, e + 1)
    } else if e > i && e < s.len() && s[e] == '.' {
        let f = digit_run_end(s, e + 1);
        if f > e + 1 && f < s.len() && s[f] == 's' {
            (digits_val(s, i, e), some_digit_nonzero(s, e + 1, f), f + 1)
        } else {
            (0, false, i)
        }
    } else {
        (0, false, i)
    }
}

/// Milliseconds component at `i`: digits, an optional fraction, then `"ms"`.
pub open spec fn ms_comp(s: Seq<char>, i: int) -> (int, bool, int) {
    let e = digit_run_end(s, i);
    if e > i && e + 1 < s.len() && s[e] == 'm' && s[e + 1] == 's' {
        (digits_val(s, i, e), false, e + 2)
    } else if e > i && e < s.len() && s[e] == '.' {
        let f = digit_run_end(s, e + 1);
        if f > e + 1 && f + 1 < s.len() && s[f] == 'm' && s[f + 1] == 's' {
            (digits_val(s, i, e), some_digit_nonzero(s, e + 1, f), f + 2)
        } else {
            (0, false, i)
        }
    } else {
        (0, false, i)
    }
}

/// Total of the four components, in seconds, as unbounded arithmetic.
pub open spec fn duration_total(s: Seq<char>) -> int {
    let h = hours_comp(s, 0);
    let m = minutes_comp(s, h.1);
    let sec = sec_comp(s, m.1);
    let ms = ms_comp(s, sec.2);
    h.0 * 3600 + m.0 * 60 + sec.0 + (if sec.1 {
        1int
    } else {
        0
    }) + ms.0 / 1000 + (if ms.0 % 1000 > 0 || ms.1 {
        1int
    } else {
        0
    })
}

/// What the grammar yields for `s`: the total when it is positive and fits.
pub open spec fn duration_spec(s: Seq<char>) -> Option<u64> {
    if 0 < duration_total(s) <= u64::MAX {
        Some(duration_total(s) as u64)
    } else {
        None
    }
}

/// A run of at most three digits is worth less than 1000.
proof fn lemma_digits_val_3(s: Seq<char>, i: int, j: int)
    requires
        i <= j <= i + 3,
        forall|k: int| i <= k < j ==> is_digit(s[k]),
    ensures
        0 <= digits_val(s, i, j) < 1000,
{
    assert(digits_val(s, i, i) == 0);
    if j > i {
        assert(digits_val(s, i, i + 1) == digit_val(s[i]));
    }
    if j > i + 1 {
        assert(digits_val(s, i, i + 2) == digits_val(s, i, i + 1) * 10 + digit_val(s[i + 1]));
    }
    if j > i + 2 {
        assert(digits_val(s, i, i + 3) == digits_val(s, i, i + 2) * 10 + digit_val(s[i + 2]));
    }
}

/// The last three digits of a run are its remainder modulo 1000.
proof fn lemma_digits_val_split3(s: Seq<char>, i: int, e: int)
    requires
        i <= e - 3,
    ensures
        digits_val(s, i, e) == digits_val(s, i, e - 3) * 1000 + digits_val(s, e - 3, e),
{
    assert(digits_val(s, i, e) == digits_val(s, i, e - 1) * 10 + digit_val(s[e - 1]));
    assert(digits_val(s, i, e - 1) == digits_val(s, i, e - 2) * 10 + digit_val(s[e - 2]));
    assert(digits_val(s, i, e - 2) == digits_val(s, i, e - 3) * 10 + digit_val(s[e - 3]));
    assert(digits_val(s, e - 3, e) == digits_val(s, e - 3, e - 1) * 10 + digit_val(s[e - 1]));
    assert(digits_val(s, e - 3, e - 1) == digits_val(s, e - 3, e - 2) * 10 + digit_val(s[e - 2]));
    assert(digits_val(s, e - 3, e - 2) == digits_val(s, e - 3, e - 3) * 10 + digit_val(s[e - 3]));
}

/// Bounds of the hours component: non-negative value, end in range.
pub proof fn lemma_hours_comp(s: Seq<char>, i: int)
    requires
        0 <= i <= s.len(),
    ensures
        hours_comp(s, i).0 >= 0,
        i <= hours_comp(s, i).1 <= s.len(),
{
    lemma_digit_run(s, i);
    let e = digit_run_end(s, i);
    if e > i && e < s.len() && s[e] == 'h' {
        lemma_digits_val_nonneg(s, i, e);
    }
}

/// Bounds of the minutes component.
pub proof fn lemma_minutes_comp(s: Seq<char>, i: int)
    requires
        0 <= i <= s.len(),
    ensures
        minutes_comp(s, i).0 >= 0,
        i <= minutes_comp(s, i).1 <= s.len(),
{
    lemma_digit_run(s, i);
    let e = digit_run_end(s, i);
    if e > i && e < s.len() {
        lemma_digits_val_nonneg(s, i, e);
    }
}

/// Bounds of the seconds component.
pub proof fn lemma_sec_comp(s: Seq<char>, i: int)
    requires
        0 <= i <= s.len(),
    ensures
        sec_comp(s, i).0 >= 0,
        i <= sec_comp(s, i).2 <= s.len(),
{
    lemma_digit_run(s, i);
    let e = digit_run_end(s, i);
    if e > i && e < s.len() {
        lemma_digits_val_nonneg(s, i, e);
        if s[e] == '.' {
            lemma_digit_run(s, e + 1);
        }
    }
}

/// Bounds of the milliseconds component: value, remainder and quotient are
/// all non-negative, end in range.
pub proof fn lemma_ms_comp(s: Seq<char>, i: int)
    requires
        0 <= i <= s.len(),
    ensures
        ms_comp(s, i).0 >= 0,
        ms_comp(s, i).0 / 1000 >= 0,
        ms_comp(s, i).0 % 1000 >= 0,
        i <= ms_comp(s, i).2 <= s.len(),
{
    lemma_digit_run(s, i);
    let e = digit_run_end(s, i);
    if e > i && e < s.len() {
        lemma_digits_val_nonneg(s, i, e);
        if s[e] == '.' {
            lemma_digit_run(s, e + 1);
        }
    }
    let v = ms_comp(s, i).0;
    vstd::arithmetic::div_mod::lemma_div_pos_is_pos(v, 1000);
    vstd::arithmetic::div_mod::lemma_mod_division_less_than_divisor(v, 1000);
}

/// Whether some digit in `v[a .. b]` is not `'0'`.
fn frac_nonzero_exec(v: &Vec<char>, a: usize, b: usize) -> (r: bool)
    requires
        a <= b <= v@.len(),
    ensures
        r == some_digit_nonzero(v@, a as int, b as int),
{
    let mut k: usize = a;
    while k < b
        invariant
            a <= k <= b <= v@.len(),
            forall|m: int| a <= m < k ==> v@[m] == '0',
        decreases b - k,
    {
        if v[k] != '0' {
            return true;
        }
        k += 1;
    }
    false
}

/// Hours component: its value when it fits in a `u64`, and the end position.
fn hours_exec(v: &Vec<char>, i: usize) -> (r: (Option<u64>, usize))
    requires
        i <= v@.len(),
    ensures
        r.1 == hours_comp(v@, i as int).1,
        match r.0 {
            Some(x) => x == hours_comp(v@, i as int).0,
            None => hours_comp(v@, i as int).0 > u64::MAX,
        },
{
    let e = scan_digits(v, i);
    if e > i && e < v.len() && v[e] == 'h' {
        proof {
            lemma_digits_val_nonneg(v@, i as int, e as int);
        }
        (parse_digits_u64(v, i, e), e + 1)
    } else {
        (Some(0), i)
    }
}

/// Minutes component, as for hours.
fn minutes_exec(v: &Vec<char>, i: usize) -> (r: (Option<u64>, usize))
    requires
        i <= v@.len(),
    ensures
        r.1 == minutes_comp(v@, i as int).1,
        match r.0 {
            Some(x) => x == minutes_comp(v@, i as int).0,
            None => minutes_comp(v@, i as int).0 > u64::MAX,
        },
{
    let e = scan_digits(v, i);
    if e > i && e < v.len() && v[e] == 'm' && !(e + 1 < v.len() && v[e + 1] == 's') {
        proof {
            lemma_digits_val_nonneg(v@, i as int, e as int);
        }
        (parse_digits_u64(v, i, e), e + 1)
    } else {
        (Some(0), i)
    }
}

/// Seconds component, already rounded up: the integer part plus one when the
/// fraction is non-zero.
fn sec_exec(v: &Vec<char>, i: usize) -> (r: (Option<u64>, usize))
    requires
        i <= v@.len(),
    ensures
        r.1 == sec_comp(v@, i as int).2,
        match r.0 {
            Some(x) => x == sec_comp(v@, i as int).0 + (if sec_comp(v@, i as int).1 {
                1int
            } else {
                0
            }),
            None => sec_comp(v@, i as int).0 + (if sec_comp(v@, i as int).1 {
                1int
            } else {
                0
            }) > u64::MAX,
        },
{
    let e = scan_digits(v, i);
    if e > i && e < v.len() && v[e] == 's' {
        proof {
            lemma_digits_val_nonneg(v@, i as int, e as int);
        }
        (parse_digits_u64(v, i, e), e + 1)
    } else if e > i && e < v.len() && v[e] == '.' {
        let f = scan_digits(v, e + 1);
        if f > e + 1 && f < v.len() && v[f] == 's' {
            let frac = frac_nonzero_exec(v, e + 1, f);
            proof {
                lemma_digits_val_nonneg(v@, i as int, e as int);
            }
            let val = match parse_digits_u64(v, i, e) {
                Some(x) => if frac {
                    x.checked_add(1)
                } else {
                    Some(x)
                },
                None => None,
            };
            (val, f + 1)
        } else {
            (Some(0), i)
        }
    } else {
        (Some(0), i)
    }
}

/// Milliseconds component, already divided by 1000 and rounded up.
fn ms_exec(v: &Vec<char>, i: usize) -> (r: (Option<u64>, usize))
    requires
        i <= v@.len(),
    ensures
        r.1 == ms_comp(v@, i as int).2,
        match r.0 {
            Some(x) => x == ms_comp(v@, i as int).0 / 1000 + (if ms_comp(v@, i as int).0 % 1000
                > 0 || ms_comp(v@, i as int).1 {
                1int
            } else {
                0
            }),
            None => ms_comp(v@, i as int).0 / 1000 + (if ms_comp(v@, i as int).0 % 1000 > 0
                || ms_comp(v@, i as int).1 {
                1int
            } else {
                0
            }) > u64::MAX,
        },
{
    let e = scan_digits(v, i);
    if e > i && e < v.len() && v[e] == 'm' && e + 1 < v.len() && v[e + 1] == 's' {
        let val = ms_ceil(v, i, e, false);
        (val, e + 2)
    } else if e > i && e < v.len() && v[e] == '.' {
        let f = scan_digits(v, e + 1);
        if f > e + 1 && f < v.len() && v[f] == 'm' && f + 1 < v.len() && v[f + 1] == 's' {
            let frac = frac_nonzero_exec(v, e + 1, f);
            let val = ms_ceil(v, i, e, frac);
            (val, f + 2)
        } else {
            proof {
                vstd::arithmetic::div_mod::lemma_div_of0(1000);
            }
            (Some(0), i)
        }
    } else {
        proof {
            vstd::arithmetic::div_mod::lemma_div_of0(1000);
        }
        (Some(0), i)
    }
}

/// Ceiling of the digit run `v[i .. e]` divided by 1000, plus one more when
/// `frac` says a fractional part is non-zero.
fn ms_ceil(v: &Vec<char>, i: usize, e: usize, frac: bool) -> (r: Option<u64>)
    requires
        i <= e <= v@.len(),
        forall|k: int| i <= k < e ==> is_digit(v@[k]),
    ensures
        ({
            let m = digits_val(v@, i as int, e as int);
            match r {
                Some(x) => x == m / 1000 + (if m % 1000 > 0 || frac {
                    1int
                } else {
                    0
                }),
                None => m / 1000 + (if m % 1000 > 0 || frac {
                    1int
                } else {
                    0
                }) > u64::MAX,
            }
        }),
{
    let ghost m = digits_val(v@, i as int, e as int);
    if e - i <= 3 {
        let rem = parse_digits_u64(v, i, e);
        proof {
            lemma_digits_val_3(v@, i as int, e as int);
            vstd::arithmetic::div_mod::lemma_fundamental_div_mod_converse(m, 1000, 0, m);
        }
        match rem {
            Some(rv) => {
                if rv > 0 || frac {
                    Some(1)
                } else {
                    Some(0)
                }
            },
            None => None,
        }
    } else {
        let q = parse_digits_u64(v, i, e - 3);
        let rem = parse_digits_u64(v, e - 3, e);
        proof {
            lemma_digits_val_split3(v@, i as int, e as int);
            lemma_digits_val_3(v@, e as int - 3, e as int);
            lemma_digits_val_nonneg(v@, i as int, e as int - 3);
            vstd::arithmetic::div_mod::lemma_fundamental_div_mod_converse(
                m,
                1000,
                digits_val(v@, i as int, e as int - 3),
                digits_val(v@, e as int - 3, e as int),
            );
        }
        match (q, rem) {
            (Some(qv), Some(rv)) => {
                if rv > 0 || frac {
                    qv.checked_add(1)
                } else {
                    Some(qv)
                }
            },
            _ => None,
        }
    }
}

/// The value of the grammar on `v`, in seconds.
pub fn parse_duration(v: &Vec<char>) -> (r: Option<u64>)
    ensures
        r == duration_spec(v@),
{
    let n = v.len();
    let (h_opt, i1) = hours_exec(v, 0);
    proof {
        lemma_hours_comp(v@, 0);
    }
    let (m_opt, i2) = minutes_exec(v, i1);
    proof {
        lemma_minutes_comp(v@, i1 as int);
    }
    let (s_opt, i3) = sec_exec(v, i2);
    proof {
        lemma_sec_comp(v@, i2 as int);
    }
    let (ms_opt, _i4) = ms_exec(v, i3);
    proof {
        lemma_ms_comp(v@, i3 as int);
    }
    let total: Option<u64> = match (h_opt, m_opt, s_opt, ms_opt) {
        (Some(h), Some(m), Some(sc), Some(mc)) => match (h.checked_mul(3600), m.checked_mul(60)) {
            (Some(ht), Some(mt)) => match ht.checked_add(mt) {
                Some(t1) => match t1.checked_add(sc) {
                    Some(t2) => t2.checked_add(mc),
                    None => None,
                },
                None => None,
            },
            _ => None,
        },
        _ => None,
    };
    match total {
        Some(t) => {
            if t == 0 {
                None
            } else {
                Some(t)
            }
        },
        None => None,
    }
}

} // verus!

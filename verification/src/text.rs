//! Character-level primitives shared by the error-body parsers: ASCII
//! classification, case-insensitive matching, and decimal digit runs.
use vstd::prelude::*;

verus! {

/// ASCII decimal digit.
pub open spec fn is_digit(c: char) -> bool {
    48 <= c as int <= 57
}

/// Numeric value of an ASCII digit.
pub open spec fn digit_val(c: char) -> int {
    c as int - 48
}

/// ASCII whitespace, the set the retry-time patterns skip over.
pub open spec fn is_space(c: char) -> bool {
    c == ' ' || c == '\t' || c == '\n' || c == '\r' || c == '\u{b}' || c == '\u{c}'
}

/// Case-insensitive equality of two characters: equal outright, or equal
/// up to ASCII case.
pub open spec fn eq_ci(a: char, b: char) -> bool {
    ||| a == b
    ||| (65 <= a as int <= 90 && a as int + 32 == b as int)
    ||| (65 <= b as int <= 90 && b as int + 32 == a as int)
}

/// The needle `n` occurs in `h` at position `i`, compared case-insensitively.
pub open spec fn matches_ci_at(h: Seq<char>, n: Seq<char>, i: int) -> bool {
    &&& 0 <= i
    &&& i + n.len() <= h.len()
    &&& forall|j: int| 0 <= j < n.len() ==> eq_ci(h[i + j], n[j])
}

/// The needle `n` occurs somewhere in `h`, compared case-insensitively.
pub open spec fn contains_ci(h: Seq<char>, n: Seq<char>) -> bool {
    exists|i: int| matches_ci_at(h, n, i)
}

/// The needle `n` occurs in `h` at position `i`, compared exactly.
pub open spec fn matches_at(h: Seq<char>, n: Seq<char>, i: int) -> bool {
    &&& 0 <= i
    &&& i + n.len() <= h.len()
    &&& forall|j: int| 0 <= j < n.len() ==> h[i + j] == n[j]
}

/// First position at or after `i` that is not an ASCII digit.
pub open spec fn digit_run_end(s: Seq<char>, i: int) -> int
    decreases s.len() - i,
{
    if 0 <= i < s.len() && is_digit(s[i]) {
        digit_run_end(s, i + 1)
    } else {
        i
    }
}

/// First position at or after `i` that is not ASCII whitespace.
pub open spec fn space_run_end(s: Seq<char>, i: int) -> int
    decreases s.len() - i,
{
    if 0 <= i < s.len() && is_space(s[i]) {
        space_run_end(s, i + 1)
    } else {
        i
    }
}

/// Value of the decimal digits `s[i .. j]`, most significant first.
pub open spec fn digits_val(s: Seq<char>, i: int, j: int) -> int
    decreases j - i,
{
    if j <= i {
        0
    } else {
        digits_val(s, i, j - 1) * 10 + digit_val(s[j - 1])
    }
}

/// Some digit in `s[i .. j]` is not `'0'`.
pub open spec fn some_digit_nonzero(s: Seq<char>, i: int, j: int) -> bool {
    exists|k: int| i <= k < j && s[k] != '0'
}

pub proof fn lemma_digits_val_nonneg(s: Seq<char>, i: int, j: int)
    requires
        forall|k: int| i <= k < j ==> is_digit(s[k]),
    ensures
        digits_val(s, i, j) >= 0,
    decreases j - i,
{
    if j > i {
        lemma_digits_val_nonneg(s, i, j - 1);
    }
}

/// Extending a digit run to the right never decreases its value.
pub proof fn lemma_digits_val_mono(s: Seq<char>, i: int, j: int, k: int)
    requires
        i <= j <= k,
        forall|m: int| i <= m < k ==> is_digit(s[m]),
    ensures
        digits_val(s, i, j) <= digits_val(s, i, k),
    decreases k - j,
{
    if k > j {
        lemma_digits_val_mono(s, i, j, k - 1);
        lemma_digits_val_nonneg(s, i, k - 1);
    }
}

/// The digit run starting at `i` stays in bounds and holds digits only.
pub proof fn lemma_digit_run(s: Seq<char>, i: int)
    requires
        0 <= i <= s.len(),
    ensures
        i <= digit_run_end(s, i) <= s.len(),
        forall|k: int| i <= k < digit_run_end(s, i) ==> is_digit(s[k]),
    decreases s.len() - i,
{
    if i < s.len() && is_digit(s[i]) {
        lemma_digit_run(s, i + 1);
    }
}

/// The whitespace run starting at `i` stays in bounds.
pub proof fn lemma_space_run(s: Seq<char>, i: int)
    requires
        0 <= i <= s.len(),
    ensures
        i <= space_run_end(s, i) <= s.len(),
    decreases s.len() - i,
{
    if i < s.len() && is_space(s[i]) {
        lemma_space_run(s, i + 1);
    }
}

/// The characters of `s`, in order, as a vector.
pub fn chars_vec(s: &str) -> (r: Vec<char>)
    ensures
        r@ == s@,
{
    let n = s.unicode_len();
    let mut r: Vec<char> = Vec::new();
    let mut i: usize = 0;
    while i < n
        invariant
            i <= n,
            n == s@.len(),
            r@ == s@.subrange(0, i as int),
        decreases n - i,
    {
        r.push(s.get_char(i));
        i += 1;
        proof {
            assert(r@ =~= s@.subrange(0, i as int));
        }
    }
    proof {
        assert(r@ =~= s@);
    }
    r
}

pub fn is_digit_exec(c: char) -> (r: bool)
    ensures
        r == is_digit(c),
{
    let u = c as u32;
    48 <= u && u <= 57
}

pub fn is_space_exec(c: char) -> (r: bool)
    ensures
        r == is_space(c),
{
    c == ' ' || c == '\t' || c == '\n' || c == '\r' || c == '\u{b}' || c == '\u{c}'
}

pub fn eq_ci_exec(a: char, b: char) -> (r: bool)
    ensures
        r == eq_ci(a, b),
{
    let au = a as u32;
    let bu = b as u32;
    a == b || (65 <= au && au <= 90 && au + 32 == bu) || (65 <= bu && bu <= 90 && bu + 32 == au)
}

/// Whether the needle occurs at position `i` of the haystack, case-insensitively.
pub fn matches_ci_exec(h: &Vec<char>, n: &Vec<char>, i: usize) -> (r: bool)
    requires
        i <= h@.len(),
    ensures
        r == matches_ci_at(h@, n@, i as int),
{
    if n.len() > h.len() - i {
        return false;
    }
    let mut j: usize = 0;
    while j < n.len()
        invariant
            j <= n@.len(),
            i + n@.len() <= h@.len(),
            h@.len() <= usize::MAX,
            forall|k: int| 0 <= k < j ==> eq_ci(h@[i + k], n@[k]),
        decreases n@.len() - j,
    {
        if !eq_ci_exec(h[i + j], n[j]) {
            return false;
        }
        j += 1;
    }
    true
}

/// Whether the needle occurs at position `i` of the haystack, compared exactly.
pub fn matches_exec(h: &Vec<char>, n: &Vec<char>, i: usize) -> (r: bool)
    requires
        i <= h@.len(),
    ensures
        r == matches_at(h@, n@, i as int),
{
    if n.len() > h.len() - i {
        return false;
    }
    let mut j: usize = 0;
    while j < n.len()
        invariant
            j <= n@.len(),
            i + n@.len() <= h@.len(),
            h@.len() <= usize::MAX,
            forall|k: int| 0 <= k < j ==> h@[i + k] == n@[k],
        decreases n@.len() - j,
    {
        if h[i + j] != n[j] {
            return false;
        }
        j += 1;
    }
    true
}

/// Whether the needle occurs anywhere in the haystack, case-insensitively.
pub fn contains_ci_exec(h: &Vec<char>, n: &Vec<char>) -> (r: bool)
    ensures
        r == contains_ci(h@, n@),
{
    if n.len() == 0 {
        proof {
            assert(matches_ci_at(h@, n@, 0));
        }
        return true;
    }
    if n.len() > h.len() {
        proof {
            assert forall|k: int| !matches_ci_at(h@, n@, k) by {}
        }
        return false;
    }
    let mut i: usize = 0;
    while i <= h.len() - n.len()
        invariant
            1 <= n@.len() <= h@.len() <= usize::MAX,
            i <= h@.len() - n@.len() + 1,
            forall|k: int| 0 <= k < i ==> !matches_ci_at(h@, n@, k),
        decreases h@.len() - n@.len() + 1 - i,
    {
        if matches_ci_exec(h, n, i) {
            return true;
        }
        i += 1;
    }
    proof {
        assert forall|k: int| !matches_ci_at(h@, n@, k) by {}
    }
    false
}

/// End of the digit run starting at `i`.
pub fn scan_digits(v: &Vec<char>, i: usize) -> (e: usize)
    requires
        i <= v@.len(),
    ensures
        e == digit_run_end(v@, i as int),
        i <= e <= v@.len(),
        forall|k: int| i <= k < e ==> is_digit(v@[k]),
        e == v@.len() || !is_digit(v@[e as int]),
{
    let mut j: usize = i;
    while j < v.len() && is_digit_exec(v[j])
        invariant
            i <= j <= v@.len(),
            digit_run_end(v@, i as int) == digit_run_end(v@, j as int),
            forall|k: int| i <= k < j ==> is_digit(v@[k]),
        decreases v@.len() - j,
    {
        j += 1;
    }
    j
}

/// End of the whitespace run starting at `i`.
pub fn scan_spaces(v: &Vec<char>, i: usize) -> (e: usize)
    requires
        i <= v@.len(),
    ensures
        e == space_run_end(v@, i as int),
        i <= e <= v@.len(),
    decreases v@.len() - i,
{
    let mut j: usize = i;
    while j < v.len() && is_space_exec(v[j])
        invariant
            i <= j <= v@.len(),
            space_run_end(v@, i as int) == space_run_end(v@, j as int),
        decreases v@.len() - j,
    {
        j += 1;
    }
    j
}

/// Value of the digit run `v[i .. j]`, if it fits in a `u64`.
pub fn parse_digits_u64(v: &Vec<char>, i: usize, j: usize) -> (r: Option<u64>)
    requires
        i <= j <= v@.len(),
        forall|k: int| i <= k < j ==> is_digit(v@[k]),
    ensures
        r == (if digits_val(v@, i as int, j as int) <= u64::MAX {
            Some(digits_val(v@, i as int, j as int) as u64)
        } else {
            None::<u64>
        }),
{
    let mut acc: u64 = 0;
    let mut k: usize = i;
    while k < j
        invariant
            i <= k <= j <= v@.len(),
            forall|m: int| i <= m < j ==> is_digit(v@[m]),
            acc == digits_val(v@, i as int, k as int),
        decreases j - k,
    {
        let d = (v[k] as u32 - 48) as u64;
        let step = match acc.checked_mul(10) {
            Some(t) => t.checked_add(d),
            None => None,
        };
        match step {
            Some(t) => {
                acc = t;
            },
            None => {
                proof {
                    lemma_digits_val_nonneg(v@, i as int, k as int);
                    assert(digits_val(v@, i as int, k as int + 1) > u64::MAX);
                    lemma_digits_val_mono(v@, i as int, k as int + 1, j as int);
                }
                return None;
            },
        }
        k += 1;
    }
    Some(acc)
}

} // verus!

//! Extraction of the rate-limit resource id from a request path.
//!
//! A path names a throttled resource when, anywhere in it, one of the
//! container segment names `channels`, `guilds` or `webhooks` is followed by
//! one or more `/` and then at least four digits. The id is the first such
//! occurrence's digit run, capped at twenty-one digits. A path with no such
//! occurrence is not resource-scoped.

use vstd::prelude::*;

verus! {

/// Whether a character is a decimal digit.
pub open spec fn spec_is_digit(c: char) -> bool {
    48 <= c as u32 <= 57
}

/// The numeric value of a digit character.
pub open spec fn spec_digit_value(c: char) -> int {
    c as u32 - 48
}

/// Whether the literal `channels` occurs at position `i`.
pub open spec fn spec_channels_at(s: Seq<char>, i: int) -> bool {
    &&& 0 <= i && i + 8 <= s.len()
    &&& s[i] == 'c' && s[i + 1] == 'h' && s[i + 2] == 'a' && s[i + 3] == 'n'
    &&& s[i + 4] == 'n' && s[i + 5] == 'e' && s[i + 6] == 'l' && s[i + 7] == 's'
}

/// Whether the literal `guilds` occurs at position `i`.
pub open spec fn spec_guilds_at(s: Seq<char>, i: int) -> bool {
    &&& 0 <= i && i + 6 <= s.len()
    &&& s[i] == 'g' && s[i + 1] == 'u' && s[i + 2] == 'i' && s[i + 3] == 'l'
    &&& s[i + 4] == 'd' && s[i + 5] == 's'
}

/// Whether the literal `webhooks` occurs at position `i`.
pub open spec fn spec_webhooks_at(s: Seq<char>, i: int) -> bool {
    &&& 0 <= i && i + 8 <= s.len()
    &&& s[i] == 'w' && s[i + 1] == 'e' && s[i + 2] == 'b' && s[i + 3] == 'h'
    &&& s[i + 4] == 'o' && s[i + 5] == 'o' && s[i + 6] == 'k' && s[i + 7] == 's'
}

/// The length of the container segment name at position `i`, if one of the
/// three occurs there. At most one can: their first characters differ.
pub open spec fn spec_keyword_len_at(s: Seq<char>, i: int) -> Option<int> {
    if spec_channels_at(s, i) {
        Some(8)
    } else if spec_guilds_at(s, i) {
        Some(6)
    } else if spec_webhooks_at(s, i) {
        Some(8)
    } else {
        None
    }
}

/// The first position at or after `j` that does not hold a `/`.
pub open spec fn spec_skip_slashes(s: Seq<char>, j: int) -> int
    decreases s.len() - j,
{
    if j < 0 || j >= s.len() || s[j] != '/' {
        j
    } else {
        spec_skip_slashes(s, j + 1)
    }
}

/// The length of the digit run starting at `j`.
pub open spec fn spec_digit_run_len(s: Seq<char>, j: int) -> int
    decreases s.len() - j,
{
    if j < 0 || j >= s.len() || !spec_is_digit(s[j]) {
        0
    } else {
        1 + spec_digit_run_len(s, j + 1)
    }
}

/// Whether a resource id occurrence starts at position `i`: a container
/// segment name, then at least one `/`, then at least four digits.
pub open spec fn spec_match_at(s: Seq<char>, i: int) -> bool {
    match spec_keyword_len_at(s, i) {
        Some(k) => {
            let j = spec_skip_slashes(s, i + k);
            j > i + k && spec_digit_run_len(s, j) >= 4
        },
        None => false,
    }
}

/// The value of the first `m` digits starting at `j`, read as a decimal
/// number.
pub open spec fn spec_digits_value(s: Seq<char>, j: int, m: int) -> int
    decreases m,
{
    if m <= 0 {
        0
    } else {
        spec_digits_value(s, j, m - 1) * 10 + spec_digit_value(s[j + m - 1])
    }
}

/// The digit start and captured digit count of the first resource id
/// occurrence at or after position `i`: the capture takes the whole digit
/// run, but never more than twenty-one digits.
pub open spec fn spec_extract_from(s: Seq<char>, i: int) -> Option<(int, int)>
    decreases s.len() - i,
{
    if i < 0 || i >= s.len() {
        None
    } else if spec_match_at(s, i) {
        let k = spec_keyword_len_at(s, i)->Some_0;
        let j = spec_skip_slashes(s, i + k);
        let run = spec_digit_run_len(s, j);
        Some((j, if run >= 21 { 21 } else { run }))
    } else {
        spec_extract_from(s, i + 1)
    }
}

/// The resource id a path denotes, if any: the value of the first captured
/// digit run.
pub open spec fn spec_path_resource(s: Seq<char>) -> Option<int> {
    match spec_extract_from(s, 0) {
        Some((j, m)) => Some(spec_digits_value(s, j, m)),
        None => None,
    }
}

/// Ten to the `n`-th power.
pub open spec fn pow10(n: int) -> int
    decreases n,
{
    if n <= 0 {
        1
    } else {
        10 * pow10(n - 1)
    }
}

/// A digit run's value stays below ten to its length.
proof fn lemma_digits_value_bound(s: Seq<char>, j: int, m: int)
    requires
        m >= 0,
        forall|l: int| j <= l < j + m ==> spec_is_digit(#[trigger] s[l]),
        0 <= j && j + m <= s.len(),
    ensures
        0 <= spec_digits_value(s, j, m) < pow10(m),
    decreases m,
{
    if m > 0 {
        lemma_digits_value_bound(s, j, m - 1);
        assert(spec_is_digit(s[j + m - 1]));
        assert(spec_digit_value(s[j + m - 1]) <= 9);
        assert(spec_digits_value(s, j, m - 1) <= pow10(m - 1) - 1);
        assert(spec_digits_value(s, j, m - 1) * 10 <= (pow10(m - 1) - 1) * 10) by (nonlinear_arith)
            requires
                spec_digits_value(s, j, m - 1) <= pow10(m - 1) - 1,
        ;
    }
}

/// `pow10` grows with its exponent.
proof fn lemma_pow10_monotone(a: int, b: int)
    requires
        0 <= a <= b,
    ensures
        pow10(a) <= pow10(b),
    decreases b - a,
{
    if a < b {
        lemma_pow10_monotone(a, b - 1);
        assert(pow10(b - 1) >= 1) by {
            lemma_pow10_positive(b - 1);
        }
    }
}

/// `pow10` is positive.
proof fn lemma_pow10_positive(n: int)
    ensures
        pow10(n) >= 1,
    decreases (if n >= 0 { n } else { 0 }),
{
    if n > 0 {
        lemma_pow10_positive(n - 1);
    }
}

/// A digit run is never of negative length.
proof fn lemma_digit_run_nonneg(s: Seq<char>, j: int)
    ensures
        spec_digit_run_len(s, j) >= 0,
    decreases s.len() - j,
{
    if 0 <= j && j < s.len() && spec_is_digit(s[j]) {
        lemma_digit_run_nonneg(s, j + 1);
    }
}

/// A prefix of digits makes the run at least that long.
proof fn lemma_digit_run_at_least(s: Seq<char>, j: int, m: int)
    requires
        m >= 0,
        0 <= j && j + m <= s.len(),
        forall|l: int| j <= l < j + m ==> spec_is_digit(#[trigger] s[l]),
    ensures
        spec_digit_run_len(s, j) >= m,
    decreases m,
{
    if m > 0 {
        assert(spec_is_digit(s[j]));
        lemma_digit_run_at_least(s, j + 1, m - 1);
        assert(spec_digit_run_len(s, j) == 1 + spec_digit_run_len(s, j + 1));
    } else {
        lemma_digit_run_nonneg(s, j);
    }
}

/// A prefix of digits bounded by a non-digit (or the end) is the whole run.
proof fn lemma_digit_run_exact(s: Seq<char>, j: int, m: int)
    requires
        m >= 0,
        0 <= j && j + m <= s.len(),
        forall|l: int| j <= l < j + m ==> spec_is_digit(#[trigger] s[l]),
        j + m == s.len() || !spec_is_digit(s[j + m]),
    ensures
        spec_digit_run_len(s, j) == m,
    decreases m,
{
    if m > 0 {
        assert(spec_is_digit(s[j]));
        lemma_digit_run_exact(s, j + 1, m - 1);
        assert(spec_digit_run_len(s, j) == 1 + spec_digit_run_len(s, j + 1));
    }
}

/// The length of the container segment name at position `i` of `path`, if
/// one occurs there.
fn keyword_len_at(path: &str, i: usize, n: usize) -> (r: Option<usize>)
    requires
        n == path@.len(),
        i < n,
    ensures
        match r {
            Some(k) => Some(k as int) == spec_keyword_len_at(path@, i as int),
            None => spec_keyword_len_at(path@, i as int) is None,
        },
{
    let c = path.get_char(i);
    if c == 'c' {
        if n - i >= 8 && path.get_char(i + 1) == 'h' && path.get_char(i + 2) == 'a'
            && path.get_char(i + 3) == 'n' && path.get_char(i + 4) == 'n' && path.get_char(i + 5)
            == 'e' && path.get_char(i + 6) == 'l' && path.get_char(i + 7) == 's' {
            Some(8)
        } else {
            None
        }
    } else if c == 'g' {
        if n - i >= 6 && path.get_char(i + 1) == 'u' && path.get_char(i + 2) == 'i'
            && path.get_char(i + 3) == 'l' && path.get_char(i + 4) == 'd' && path.get_char(i + 5)
            == 's' {
            Some(6)
        } else {
            None
        }
    } else if c == 'w' {
        if n - i >= 8 && path.get_char(i + 1) == 'e' && path.get_char(i + 2) == 'b'
            && path.get_char(i + 3) == 'h' && path.get_char(i + 4) == 'o' && path.get_char(i + 5)
            == 'o' && path.get_char(i + 6) == 'k' && path.get_char(i + 7) == 's' {
            Some(8)
        } else {
            None
        }
    } else {
        None
    }
}

/// Extracts the rate-limit resource id from a request path: the first digit
/// run of at least four digits that follows a `channels`, `guilds` or
/// `webhooks` segment, read as a number (capped at twenty-one digits).
/// Returns `None` when the path names no rate-limited resource container.
pub fn path_into_resource(path: &str) -> (r: Option<u128>)
    ensures
        match r {
            Some(v) => spec_path_resource(path@) == Some(v as int),
            None => spec_path_resource(path@) is None,
        },
{
    let n = path.unicode_len();
    let mut i: usize = 0;
    while i < n
        invariant
            i <= n,
            n == path@.len(),
            spec_extract_from(path@, 0) == spec_extract_from(path@, i as int),
        decreases n - i,
    {
        if let Some(k) = keyword_len_at(path, i, n) {
            // skip the run of slashes after the segment name
            let start = i + k;
            let mut j = start;
            while j < n && path.get_char(j) == '/'
                invariant
                    start <= j <= n,
                    n == path@.len(),
                    spec_skip_slashes(path@, start as int) == spec_skip_slashes(path@, j as int),
                decreases n - j,
            {
                j = j + 1;
            }
            assert(spec_skip_slashes(path@, j as int) == j as int);
            if j > start {
                // measure the digit run, capped at the capture width
                let mut m: usize = 0;
                loop
                    invariant
                        0 <= m <= 21,
                        start < j,
                        j + m <= n,
                        n == path@.len(),
                        forall|l: int| j <= l < j + m ==> spec_is_digit(#[trigger] path@[l]),
                    ensures
                        0 <= m <= 21,
                        j + m <= n,
                        forall|l: int| j <= l < j + m ==> spec_is_digit(#[trigger] path@[l]),
                        m == 21 || j + m == n || !spec_is_digit(path@[j + m]),
                    decreases n - j - m,
                {
                    if j + m >= n || m >= 21 {
                        break;
                    }
                    let c = path.get_char(j + m);
                    if !((c as u32) >= 48 && (c as u32) <= 57) {
                        break;
                    }
                    m = m + 1;
                }
                if m >= 4 {
                    // a match: this is the first one, so it is the capture
                    proof {
                        if m < 21 {
                            lemma_digit_run_exact(path@, j as int, m as int);
                        } else {
                            lemma_digit_run_at_least(path@, j as int, m as int);
                        }
                        assert(spec_match_at(path@, i as int));
                    }
                    // read the captured digits as a number
                    let ghost s = path@;
                    let mut value: u128 = 0;
                    let mut idx: usize = 0;
                    while idx < m
                        invariant
                            0 <= idx <= m <= 21,
                            j + m <= n,
                            n == s.len(),
                            s == path@,
                            forall|l: int| j <= l < j + m ==> spec_is_digit(#[trigger] s[l]),
                            value == spec_digits_value(s, j as int, idx as int),
                            value < pow10(idx as int),
                        decreases m - idx,
                    {
                        let c = path.get_char(j + idx);
                        let d = (c as u32) - 48;
                        proof {
                            assert(spec_is_digit(s[j + idx]));
                            lemma_pow10_monotone(idx as int, 20);
                            reveal_with_fuel(pow10, 22);
                            assert(pow10(20) == 100_000_000_000_000_000_000int);
                            assert(value * 10 <= (pow10(idx as int) - 1) * 10) by (
                                nonlinear_arith
                            )
                                requires
                                    value <= pow10(idx as int) - 1,
                            ;
                        }
                        value = value * 10 + (d as u128);
                        idx = idx + 1;
                    }
                    return Some(value);
                }
                proof {
                    lemma_digit_run_exact(path@, j as int, m as int);
                }
            }
            assert(!spec_match_at(path@, i as int));
        }
        i = i + 1;
    }
    None
}

} // verus!

//! The relative time expressions of a simulation file, such as `-1d12h` or `30m`.
//!
//! Grammar of an offset:
//! ```text
//! offset    := "-"? component+
//! component := digit+ unit
//! unit      := "y" | "M" | "d" | "h" | "m" | "s"
//! ```
//! A year counts 365 days, a month (`M`) 30 days, a day 24 hours, an hour 60 minutes
//! (`m`) and a minute 60 seconds (`s`). Components may come in any order and repeat;
//! their durations add up.

use vstd::prelude::*;
use crate::text::chars_of;

verus! {

/// Whether a character is an ASCII decimal digit.
pub open spec fn is_digit(c: char) -> bool {
    '0' <= c && c <= '9'
}

/// The value of a decimal digit character.
pub open spec fn digit_value(c: char) -> int {
    (c as int) - ('0' as int)
}

/// The value of a run of decimal digits, most significant first.
pub open spec fn digits_value(s: Seq<char>) -> int
    decreases s.len(),
{
    if s.len() == 0 {
        0
    } else {
        digits_value(s.drop_last()) * 10 + digit_value(s.last())
    }
}

/// The number of seconds that one unit character stands for, if it is a unit.
pub open spec fn unit_seconds(c: char) -> Option<int> {
    if c == 'y' {
        Some(31536000int)
    } else if c == 'M' {
        Some(2592000int)
    } else if c == 'd' {
        Some(86400int)
    } else if c == 'h' {
        Some(3600int)
    } else if c == 'm' {
        Some(60int)
    } else if c == 's' {
        Some(1int)
    } else {
        None
    }
}

/// The end of the run of digits that starts at `i`.
pub open spec fn run_end(s: Seq<char>, i: int) -> int
    decreases s.len() - i,
{
    if 0 <= i < s.len() && is_digit(s[i]) {
        run_end(s, i + 1)
    } else {
        i
    }
}

/// The seconds that the components from position `i` to the end add up to,
/// or `None` where that part of the text is not a sequence of components.
pub open spec fn components_seconds(s: Seq<char>, i: int) -> Option<int>
    decreases s.len() - i,
{
    if i < 0 || i >= s.len() {
        if i == s.len() { Some(0) } else { None }
    } else {
        let k = run_end(s, i);
        if k <= i || k >= s.len() || unit_seconds(s[k]) is None {
            None
        } else {
            match components_seconds(s, k + 1) {
                Some(rest) => Some(unit_seconds(s[k]).unwrap() * digits_value(s.subrange(i, k))
                    + rest),
                None => None,
            }
        }
    }
}

/// Whether the offset text starts with a minus sign.
pub open spec fn offset_negative(s: Seq<char>) -> bool {
    s.len() > 0 && s[0] == '-'
}

/// The offset text without its sign.
pub open spec fn offset_body(s: Seq<char>) -> Seq<char> {
    if offset_negative(s) { s.drop_first() } else { s }
}

/// The magnitude in seconds of an offset text, or `None` where it does not follow the grammar.
pub open spec fn offset_seconds(s: Seq<char>) -> Option<int> {
    if offset_body(s).len() == 0 {
        None
    } else {
        components_seconds(offset_body(s), 0)
    }
}

/// A parsed offset: a direction and a magnitude in seconds.
#[derive(Debug, Clone, Copy, PartialEq, Eq)]
pub struct TimeOffset {
    /// Whether the offset points into the past.
    pub negative: bool,
    /// The magnitude of the offset in seconds.
    pub seconds: i64,
}

/// Why an offset text was refused.
#[derive(Debug, Clone, Copy, PartialEq, Eq)]
pub enum OffsetError {
    /// The text does not follow the grammar of an offset.
    Syntax,
    /// The text follows the grammar, but its seconds do not fit in an `i64`.
    Overflow,
}

/// The outcome of parsing an offset text.
pub open spec fn offset_outcome(s: Seq<char>) -> Result<TimeOffset, OffsetError> {
    match offset_seconds(s) {
        None => Err(OffsetError::Syntax),
        Some(total) => if total <= i64::MAX {
            Ok(TimeOffset { negative: offset_negative(s), seconds: total as i64 })
        } else {
            Err(OffsetError::Overflow)
        },
    }
}

/// The parser of relative time expressions.
#[derive(Debug, Clone, Copy, PartialEq, Eq)]
pub struct TimeUnitParser;

pub(crate) proof fn lemma_digits_value_nonneg(s: Seq<char>)
    requires
        forall|j: int| 0 <= j < s.len() ==> is_digit(#[trigger] s[j]),
    ensures
        digits_value(s) >= 0,
    decreases s.len(),
{
    if s.len() > 0 {
        lemma_digits_value_nonneg(s.drop_last());
    }
}

/// A run of digits is worth at least as much as any of its prefixes.
pub(crate) proof fn lemma_digits_prefix_bound(s: Seq<char>, k: int)
    requires
        0 <= k <= s.len(),
        forall|j: int| 0 <= j < s.len() ==> is_digit(#[trigger] s[j]),
    ensures
        digits_value(s.take(k)) <= digits_value(s),
    decreases s.len(),
{
    if k < s.len() {
        let t = s.drop_last();
        assert forall|j: int| 0 <= j < t.len() implies is_digit(#[trigger] t[j]) by {
            assert(t[j] == s[j]);
        }
        lemma_digits_prefix_bound(t, k);
        assert(t.take(k) =~= s.take(k));
        assert(is_digit(s[s.len() - 1]));
        lemma_digits_value_nonneg(t);
    } else {
        assert(s.take(k) =~= s);
    }
}

proof fn lemma_run_end_bounds(s: Seq<char>, i: int)
    requires
        0 <= i <= s.len(),
    ensures
        i <= run_end(s, i) <= s.len(),
        forall|j: int| i <= j < run_end(s, i) ==> is_digit(#[trigger] s[j]),
        run_end(s, i) < s.len() ==> !is_digit(s[run_end(s, i)]),
    decreases s.len() - i,
{
    if i < s.len() && is_digit(s[i]) {
        lemma_run_end_bounds(s, i + 1);
    }
}

proof fn lemma_run_end_step(s: Seq<char>, i: int, j: int)
    requires
        0 <= i <= j <= s.len(),
        forall|t: int| i <= t < j ==> is_digit(#[trigger] s[t]),
    ensures
        run_end(s, i) == run_end(s, j),
    decreases j - i,
{
    if i < j {
        lemma_run_end_step(s, i + 1, j);
    }
}

proof fn lemma_components_nonneg(s: Seq<char>, i: int)
    ensures
        components_seconds(s, i) matches Some(v) ==> v >= 0,
    decreases s.len() - i,
{
    if 0 <= i < s.len() {
        let k = run_end(s, i);
        lemma_run_end_bounds(s, i);
        if k != i && k < s.len() && unit_seconds(s[k]) is Some {
            lemma_components_nonneg(s, k + 1);
            assert forall|j: int| 0 <= j < s.subrange(i, k).len() implies is_digit(
                #[trigger] s.subrange(i, k)[j],
            ) by {
                assert(s.subrange(i, k)[j] == s[i + j]);
            }
            lemma_digits_value_nonneg(s.subrange(i, k));
        }
    }
}

fn unit_to_seconds(c: char) -> (r: Option<i64>)
    ensures
        match unit_seconds(c) {
            Some(v) => r == Some(v as i64),
            None => r is None,
        },
{
    if c == 'y' {
        Some(365 * 24 * 60 * 60)
    } else if c == 'M' {
        Some(30 * 24 * 60 * 60)
    } else if c == 'd' {
        Some(24 * 60 * 60)
    } else if c == 'h' {
        Some(60 * 60)
    } else if c == 'm' {
        Some(60)
    } else if c == 's' {
        Some(1)
    } else {
        None
    }
}

/// `Some(v)` where `v` fits in an `i64`, `None` otherwise.
pub open spec fn fit(v: int) -> Option<i64> {
    if 0 <= v <= i64::MAX { Some(v as i64) } else { None }
}

fn add_fit(a: Option<i64>, b: Option<i64>, Ghost(x): Ghost<int>, Ghost(y): Ghost<int>) -> (r:
    Option<i64>)
    requires
        x >= 0,
        y >= 0,
        a == fit(x),
        b == fit(y),
    ensures
        r == fit(x + y),
{
    match (a, b) {
        (Some(p), Some(q)) => p.checked_add(q),
        _ => None,
    }
}

fn mul_fit(a: Option<i64>, f: i64, Ghost(x): Ghost<int>) -> (r: Option<i64>)
    requires
        x >= 0,
        f >= 1,
        a == fit(x),
    ensures
        r == fit(x * f),
{
    proof {
        assert(x * f >= x) by (nonlinear_arith)
            requires
                x >= 0,
                f >= 1,
        ;
    }
    match a {
        Some(p) => p.checked_mul(f),
        None => None,
    }
}

/// Reads the components of `body` from position `start` on.
fn parse_components(body: &Vec<char>, start: usize) -> (r: Result<Option<i64>, OffsetError>)
    requires
        start <= body@.len(),
    ensures
        match components_seconds(body@, start as int) {
            None => r == Err::<Option<i64>, OffsetError>(OffsetError::Syntax),
            Some(total) => r == Ok::<Option<i64>, OffsetError>(fit(total)),
        },
    decreases body@.len() - start,
{
    let n = body.len();
    if start == n {
        return Ok(Some(0));
    }
    let ghost s = body@;
    proof {
        lemma_run_end_bounds(s, start as int);
    }
    let mut k: usize = start;
    let mut value: Option<i64> = Some(0);
    while k < n && '0' <= body[k] && body[k] <= '9'
        invariant
            n == s.len(),
            s == body@,
            start <= k <= run_end(s, start as int),
            run_end(s, start as int) <= n,
            forall|j: int| start <= j < run_end(s, start as int) ==> is_digit(#[trigger] s[j]),
            run_end(s, start as int) < n ==> !is_digit(s[run_end(s, start as int)]),
            digits_value(s.subrange(start as int, k as int)) >= 0,
            value == fit(digits_value(s.subrange(start as int, k as int))),
        decreases n - k,
    {
        let ghost old_value = digits_value(s.subrange(start as int, k as int));
        let d: i64 = (body[k] as u32 - '0' as u32) as i64;
        let times_ten = mul_fit(value, 10, Ghost(old_value));
        value = add_fit(times_ten, Some(d), Ghost(old_value * 10), Ghost(d as int));
        assert(s.subrange(start as int, k + 1).drop_last() =~= s.subrange(start as int, k as int));
        k = k + 1;
    }
    proof {
        lemma_run_end_step(s, start as int, k as int);
        lemma_run_end_bounds(s, k as int);
    }
    if k == start || k >= n {
        return Err(OffsetError::Syntax);
    }
    let unit = unit_to_seconds(body[k]);
    match unit {
        None => Err(OffsetError::Syntax),
        Some(factor) => {
            let rest = parse_components(body, k + 1);
            match rest {
                Err(e) => Err(e),
                Ok(rest_value) => {
                    let ghost dv = digits_value(s.subrange(start as int, k as int));
                    let ghost rv = components_seconds(s, k + 1).unwrap();
                    proof {
                        lemma_components_nonneg(s, k + 1);
                    }
                    let term = mul_fit(value, factor, Ghost(dv));
                    assert(dv * factor == factor * dv) by (nonlinear_arith);
                    let total = add_fit(term, rest_value, Ghost(dv * factor), Ghost(rv));
                    Ok(total)
                },
            }
        },
    }
}

impl TimeUnitParser {
    /// Parses an offset text: the direction and the seconds that its components add up to.
    /// Fails with `Syntax` where the text does not follow the grammar, and with `Overflow`
    /// where the seconds exceed `i64::MAX`.
    pub fn parse(text: &str) -> (r: Result<TimeOffset, OffsetError>)
        ensures
            r == offset_outcome(text@),
            r matches Ok(off) ==> off.seconds >= 0,
    {
        let chars = chars_of(text);
        let negative = chars.len() > 0 && chars[0] == '-';
        let start: usize = if negative { 1 } else { 0 };
        if start == chars.len() {
            return Err(OffsetError::Syntax);
        }
        let ghost s = text@;
        let parsed = parse_components(&chars, start);
        proof {
            lemma_components_nonneg(s, start as int);
            lemma_components_shift(s, start as int);
        }
        match parsed {
            Err(e) => Err(e),
            Ok(None) => Err(OffsetError::Overflow),
            Ok(Some(seconds)) => Ok(TimeOffset { negative, seconds }),
        }
    }
}

/// Skipping a prefix of the text shifts every position of the scan by the same amount.
proof fn lemma_components_shift(s: Seq<char>, d: int)
    requires
        0 <= d <= s.len(),
    ensures
        components_seconds(s, d) == components_seconds(s.skip(d), 0),
{
    lemma_components_shift_at(s, d, d);
}

proof fn lemma_run_end_shift(s: Seq<char>, d: int, i: int)
    requires
        0 <= d <= i <= s.len(),
    ensures
        run_end(s, i) - d == run_end(s.skip(d), i - d),
    decreases s.len() - i,
{
    if i < s.len() && is_digit(s[i]) {
        lemma_run_end_shift(s, d, i + 1);
    }
}

proof fn lemma_components_shift_at(s: Seq<char>, d: int, i: int)
    requires
        0 <= d <= i <= s.len(),
    ensures
        components_seconds(s, i) == components_seconds(s.skip(d), i - d),
    decreases s.len() - i,
{
    let t = s.skip(d);
    if i < s.len() {
        lemma_run_end_shift(s, d, i);
        lemma_run_end_bounds(s, i);
        let k = run_end(s, i);
        if k != i && k < s.len() && unit_seconds(s[k]) is Some {
            lemma_components_shift_at(s, d, k + 1);
            assert(s.subrange(i, k) =~= t.subrange(i - d, k - d));
        }
    }
}

/// A leading minus sign turns an offset into the same offset pointing into the past;
/// the text after it is read exactly as it would be on its own.
pub proof fn law_minus_points_into_the_past(t: Seq<char>)
    requires
        t.len() == 0 || t[0] != '-',
    ensures
        offset_outcome(seq!['-'] + t) == match offset_outcome(t) {
            Ok(off) => Ok::<TimeOffset, OffsetError>(TimeOffset { negative: true, seconds: off.seconds }),
            Err(e) => Err(e),
        },
{
    assert((seq!['-'] + t).drop_first() =~= t);
}

proof fn lemma_run_end_in_prefix(a: Seq<char>, b: Seq<char>, i: int)
    requires
        0 <= i <= a.len(),
        run_end(a, i) < a.len(),
    ensures
        run_end(a + b, i) == run_end(a, i),
    decreases a.len() - i,
{
    if i < a.len() && is_digit(a[i]) {
        lemma_run_end_in_prefix(a, b, i + 1);
    }
}

proof fn lemma_components_append(a: Seq<char>, b: Seq<char>, i: int)
    requires
        0 <= i <= a.len(),
        components_seconds(a, i) is Some,
        components_seconds(b, 0) is Some,
    ensures
        components_seconds(a + b, i) == Some(
            components_seconds(a, i).unwrap() + components_seconds(b, 0).unwrap(),
        ),
    decreases a.len() - i,
{
    let ab = a + b;
    if i == a.len() {
        lemma_components_shift(ab, i);
        assert(ab.skip(i) =~= b);
    } else {
        let k = run_end(a, i);
        lemma_run_end_bounds(a, i);
        lemma_run_end_in_prefix(a, b, i);
        lemma_components_append(a, b, k + 1);
        assert(ab.subrange(i, k) =~= a.subrange(i, k));
        assert(ab[k] == a[k]);
    }
}

/// Two offsets written one after the other, without a sign, read as the sum of their
/// seconds: the components of an offset add up.
pub proof fn law_components_add_up(a: Seq<char>, b: Seq<char>)
    requires
        components_seconds(a, 0) is Some,
        components_seconds(b, 0) is Some,
    ensures
        components_seconds(a + b, 0) == Some(
            components_seconds(a, 0).unwrap() + components_seconds(b, 0).unwrap(),
        ),
{
    lemma_components_append(a, b, 0);
}

} // verus!

//! The named string arguments that a plugin is created with, and their typed readings.

use vstd::prelude::*;
use crate::offset::{digits_value, is_digit, lemma_digits_prefix_bound, lemma_digits_value_nonneg};
use crate::text::chars_of;

verus! {

/// Why a plugin argument could not be read.
#[derive(Debug, Clone, PartialEq, Eq)]
pub enum ArgError {
    /// No argument of this name was given.
    Missing(String),
    /// The argument was given, but its text is not a value of the expected type.
    Invalid(String),
}

/// The value of the first argument named `name`, if any.
pub open spec fn arg_lookup(args: Seq<(String, String)>, name: Seq<char>) -> Option<Seq<char>>
    decreases args.len(),
{
    if args.len() == 0 {
        None
    } else if args[0].0@ == name {
        Some(args[0].1@)
    } else {
        arg_lookup(args.drop_first(), name)
    }
}

/// Whether an error is `Missing` of the given name.
pub open spec fn is_missing(e: ArgError, name: Seq<char>) -> bool {
    e matches ArgError::Missing(n) && n@ == name
}

/// Whether an error is `Invalid` of the given name.
pub open spec fn is_invalid(e: ArgError, name: Seq<char>) -> bool {
    e matches ArgError::Invalid(n) && n@ == name
}

/// The text of the argument `arg`, or `Missing` where none is given.
pub fn unwrap_arg(arg: &str, args: &Vec<(String, String)>) -> (r: Result<String, ArgError>)
    ensures
        match arg_lookup(args@, arg@) {
            Some(v) => r matches Ok(s) && s@ == v,
            None => r matches Err(e) && is_missing(e, arg@),
        },
{
    let mut i: usize = 0;
    assert(args@.skip(0) =~= args@);
    while i < args.len()
        invariant
            i <= args@.len(),
            arg_lookup(args@, arg@) == arg_lookup(args@.skip(i as int), arg@),
        decreases args@.len() - i,
    {
        assert(args@.skip(i as int).drop_first() =~= args@.skip(i + 1));
        let key: &str = args[i].0.as_str();
        if str_eq(key, arg) {
            return Ok(args[i].1.clone());
        }
        i = i + 1;
    }
    Err(ArgError::Missing(arg.to_string()))
}

/// Whether two strings hold the same characters.
fn str_eq(a: &str, b: &str) -> (r: bool)
    ensures
        r == (a@ == b@),
{
    let x = chars_of(a);
    let y = chars_of(b);
    if x.len() != y.len() {
        return false;
    }
    let mut i: usize = 0;
    while i < x.len()
        invariant
            x@ == a@,
            y@ == b@,
            x@.len() == y@.len(),
            i <= x@.len(),
            forall|j: int| 0 <= j < i ==> x@[j] == y@[j],
        decreases x@.len() - i,
    {
        if x[i] != y[i] {
            return false;
        }
        i = i + 1;
    }
    assert(x@ =~= y@);
    true
}

/// The reading of a text as a `bool`, as `str::parse::<bool>` reads it: exactly `true` or `false`.
pub open spec fn bool_reading(s: Seq<char>) -> Option<bool> {
    if s == seq!['t', 'r', 'u', 'e'] {
        Some(true)
    } else if s == seq!['f', 'a', 'l', 's', 'e'] {
        Some(false)
    } else {
        None
    }
}

/// The digits of an unsigned integer text: the text after an optional leading `+`.
pub open spec fn unsigned_digits(s: Seq<char>) -> Seq<char> {
    if s.len() > 0 && s[0] == '+' { s.drop_first() } else { s }
}

/// The reading of a text as an unsigned integer no larger than `max`, as `str::parse` reads
/// one: an optional `+`, then at least one decimal digit and nothing else.
pub open spec fn unsigned_reading(s: Seq<char>, max: int) -> Option<int> {
    let d = unsigned_digits(s);
    if d.len() > 0 && (forall|j: int| 0 <= j < d.len() ==> is_digit(#[trigger] d[j]))
        && 0 <= digits_value(d) <= max {
        Some(digits_value(d))
    } else {
        None
    }
}

/// Reads an unsigned integer no larger than `max` from a text.
fn read_unsigned(text: &str, max: u64) -> (r: Option<u64>)
    ensures
        match unsigned_reading(text@, max as int) {
            Some(v) => r == Some(v as u64),
            None => r is None,
        },
{
    let chars = chars_of(text);
    let start: usize = if chars.len() > 0 && chars[0] == '+' { 1 } else { 0 };
    let ghost d = unsigned_digits(text@);
    assert(d =~= chars@.skip(start as int));
    if start == chars.len() {
        return None;
    }
    let mut value: u64 = 0;
    let mut i: usize = start;
    while i < chars.len()
        invariant
            chars@ == text@,
            d == chars@.skip(start as int),
            d == unsigned_digits(text@),
            start <= i <= chars@.len(),
            forall|j: int| start <= j < i ==> is_digit(#[trigger] chars@[j]),
            value as int == digits_value(chars@.subrange(start as int, i as int)),
            value <= max,
        decreases chars@.len() - i,
    {
        let c = chars[i];
        if !('0' <= c && c <= '9') {
            assert(d[i - start] == chars@[i as int]);
            assert(!is_digit(d[i - start]));
            assert(!(forall|j: int| 0 <= j < d.len() ==> is_digit(#[trigger] d[j])));
            return None;
        }
        let digit: u64 = (c as u32 - '0' as u32) as u64;
        assert(chars@.subrange(start as int, i + 1).drop_last() =~= chars@.subrange(
            start as int,
            i as int,
        ));
        let next: u128 = (value as u128) * 10 + (digit as u128);
        assert(digits_value(chars@.subrange(start as int, i + 1)) == next);
        if next > max as u128 {
            proof {
                let k = i + 1 - start;
                assert(d.take(k) =~= chars@.subrange(start as int, i + 1));
                if forall|j: int| 0 <= j < d.len() ==> is_digit(#[trigger] d[j]) {
                    lemma_digits_prefix_bound(d, k);
                    assert(digits_value(d) > max);
                }
            }
            return None;
        }
        value = next as u64;
        i = i + 1;
    }
    assert(chars@.subrange(start as int, chars@.len() as int) =~= d);
    proof {
        lemma_digits_value_nonneg(d);
    }
    Some(value)
}

/// Reads a `bool` from a text.
fn read_bool(text: &str) -> (r: Option<bool>)
    ensures
        r == bool_reading(text@),
{
    proof {
        reveal_strlit("true");
        reveal_strlit("false");
        assert("true"@ =~= seq!['t', 'r', 'u', 'e']);
        assert("false"@ =~= seq!['f', 'a', 'l', 's', 'e']);
    }
    if str_eq(text, "true") {
        Some(true)
    } else if str_eq(text, "false") {
        assert("false"@ =~= seq!['f', 'a', 'l', 's', 'e']);
        Some(false)
    } else {
        assert("true"@ =~= seq!['t', 'r', 'u', 'e']);
        assert("false"@ =~= seq!['f', 'a', 'l', 's', 'e']);
        None
    }
}

/// The outcome of reading the argument `name` with a reading function: `Missing` where it is
/// not given, `Invalid` where its text has no reading.
pub open spec fn typed_arg_outcome<T>(
    args: Seq<(String, String)>,
    name: Seq<char>,
    reading: spec_fn(Seq<char>) -> Option<T>,
    r: Result<T, ArgError>,
) -> bool {
    match arg_lookup(args, name) {
        None => r matches Err(e) && is_missing(e, name),
        Some(text) => match reading(text) {
            Some(v) => r == Ok::<T, ArgError>(v),
            None => r matches Err(e) && is_invalid(e, name),
        },
    }
}

/// The argument `arg` read as a `bool`.
pub fn unwrap_bool_arg(arg: &str, args: &Vec<(String, String)>) -> (r: Result<bool, ArgError>)
    ensures
        typed_arg_outcome(args@, arg@, |s: Seq<char>| bool_reading(s), r),
{
    let text = match unwrap_arg(arg, args) {
        Ok(t) => t,
        Err(e) => return Err(e),
    };
    match read_bool(text.as_str()) {
        Some(b) => Ok(b),
        None => Err(ArgError::Invalid(arg.to_string())),
    }
}

/// The reading of a text as a `u32`, as `str::parse::<u32>` reads it.
pub open spec fn u32_reading(s: Seq<char>) -> Option<u32> {
    match unsigned_reading(s, u32::MAX as int) {
        Some(v) => Some(v as u32),
        None => None,
    }
}

/// The reading of a text as a `usize`, as `str::parse::<usize>` reads it.
pub open spec fn usize_reading(s: Seq<char>) -> Option<usize> {
    match unsigned_reading(s, usize::MAX as int) {
        Some(v) => Some(v as usize),
        None => None,
    }
}

/// The argument `arg` read as a `u32`.
pub fn unwrap_u32_arg(arg: &str, args: &Vec<(String, String)>) -> (r: Result<u32, ArgError>)
    ensures
        typed_arg_outcome(args@, arg@, |s: Seq<char>| u32_reading(s), r),
{
    let text = match unwrap_arg(arg, args) {
        Ok(t) => t,
        Err(e) => return Err(e),
    };
    let read = read_unsigned(text.as_str(), u32::MAX as u64);
    assert(read == match u32_reading(text@) { Some(v) => Some(v as u64), None => None::<u64> });
    match read {
        Some(v) => Ok(v as u32),
        None => Err(ArgError::Invalid(arg.to_string())),
    }
}

/// The argument `arg` read as a `usize`.
pub fn unwrap_usize_arg(arg: &str, args: &Vec<(String, String)>) -> (r: Result<usize, ArgError>)
    ensures
        typed_arg_outcome(args@, arg@, |s: Seq<char>| usize_reading(s), r),
{
    let text = match unwrap_arg(arg, args) {
        Ok(t) => t,
        Err(e) => return Err(e),
    };
    let read = read_unsigned(text.as_str(), usize::MAX as u64);
    assert(read == match usize_reading(text@) { Some(v) => Some(v as u64), None => None::<u64> });
    match read {
        Some(v) => Ok(v as usize),
        None => Err(ArgError::Invalid(arg.to_string())),
    }
}
} // verus!

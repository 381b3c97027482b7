//! Text building blocks: decimal rendering of integers and path joining.

use vstd::prelude::*;
use vstd::string::StringExecFns;
use vstd::string::StrSliceExecFns;

verus! {

/// The character of a decimal digit.
pub open spec fn digit_char(d: int) -> char {
    if d == 0 { '0' }
    else if d == 1 { '1' }
    else if d == 2 { '2' }
    else if d == 3 { '3' }
    else if d == 4 { '4' }
    else if d == 5 { '5' }
    else if d == 6 { '6' }
    else if d == 7 { '7' }
    else if d == 8 { '8' }
    else { '9' }
}

/// The decimal digits of a natural number, most significant first, without leading zeros.
pub open spec fn decimal(n: nat) -> Seq<char>
    decreases n,
{
    if n < 10 {
        seq![digit_char(n as int)]
    } else {
        decimal(n / 10).push(digit_char((n % 10) as int))
    }
}

/// The decimal text of a signed integer: a minus sign before the digits of its magnitude.
pub open spec fn signed_decimal(n: int) -> Seq<char> {
    if n < 0 {
        seq!['-'] + decimal((-n) as nat)
    } else {
        decimal(n as nat)
    }
}

/// `String::push` of std: appends one character to the end of the string.
#[verifier::external_body]
pub(crate) fn push_char(s: &mut String, c: char)
    ensures
        final(s)@ == old(s)@.push(c),
{
    s.push(c);
}

fn digit_to_char(d: u32) -> (c: char)
    requires
        d < 10,
    ensures
        c == digit_char(d as int),
{
    match d {
        0 => '0',
        1 => '1',
        2 => '2',
        3 => '3',
        4 => '4',
        5 => '5',
        6 => '6',
        7 => '7',
        8 => '8',
        _ => '9',
    }
}

fn append_decimal(s: &mut String, n: u32)
    ensures
        final(s)@ == old(s)@ + decimal(n as nat),
    decreases n,
{
    if n >= 10 {
        append_decimal(s, n / 10);
    }
    let c = digit_to_char(n % 10);
    push_char(s, c);
    proof {
        if n >= 10 {
            assert(old(s)@ + decimal(n as nat) =~= (old(s)@ + decimal((n / 10) as nat)).push(c));
        }
    }
}

/// The decimal text of an unsigned integer, as `to_string` renders it.
pub fn u32_to_decimal(n: u32) -> (r: String)
    ensures
        r@ == decimal(n as nat),
{
    let mut s = String::new();
    append_decimal(&mut s, n);
    assert(s@ =~= decimal(n as nat));
    s
}

/// The decimal text of a signed integer, as `to_string` renders it.
pub fn i32_to_decimal(n: i32) -> (r: String)
    ensures
        r@ == signed_decimal(n as int),
{
    let mut s = String::new();
    if n < 0 {
        push_char(&mut s, '-');
        let magnitude: u32 = (0i64 - (n as i64)) as u32;
        append_decimal(&mut s, magnitude);
        assert(s@ =~= signed_decimal(n as int));
    } else {
        append_decimal(&mut s, n as u32);
        assert(s@ =~= signed_decimal(n as int));
    }
    s
}

/// `left`, a slash, then `right`: how a device path grows by one name.
pub open spec fn slash_join(left: Seq<char>, right: Seq<char>) -> Seq<char> {
    left + seq!['/'] + right
}

/// Joins two path parts with a slash, as `format!("{}/{}", left, right)` does.
pub fn join_path(left: &str, right: &str) -> (r: String)
    ensures
        r@ == slash_join(left@, right@),
{
    let mut s = String::from_str(left);
    push_char(&mut s, '/');
    s.append(right);
    assert(s@ =~= slash_join(left@, right@));
    s
}

/// The characters of a string, in order.
pub(crate) fn chars_of(text: &str) -> (r: Vec<char>)
    ensures
        r@ == text@,
{
    let n = text.unicode_len();
    let mut out: Vec<char> = Vec::new();
    let mut i: usize = 0;
    while i < n
        invariant
            n == text@.len(),
            i <= n,
            out@ == text@.subrange(0, i as int),
        decreases n - i,
    {
        out.push(text.get_char(i));
        i = i + 1;
        assert(out@ =~= text@.subrange(0, i as int));
    }
    assert(out@ =~= text@);
    out
}

/// The decimal text of a number reads back as that number: every character is a digit and
/// the digits are worth the number.
pub proof fn law_decimal_reads_back(n: nat)
    ensures
        forall|j: int| 0 <= j < decimal(n).len() ==> crate::offset::is_digit(#[trigger] decimal(n)[j]),
        crate::offset::digits_value(decimal(n)) == n,
    decreases n,
{
    let last = if n < 10 { n as int } else { (n % 10) as int };
    assert(crate::offset::digit_value(digit_char(last)) == last && crate::offset::is_digit(
        digit_char(last),
    )) by {
        assert(0 <= last < 10);
        if last == 0 {} else if last == 1 {} else if last == 2 {} else if last == 3 {}
        else if last == 4 {} else if last == 5 {} else if last == 6 {} else if last == 7 {}
        else if last == 8 {} else {}
    }
    assert(decimal(n).last() == digit_char(last));
    if n < 10 {
        assert(decimal(n).drop_last() =~= Seq::<char>::empty());
        assert(crate::offset::digits_value(decimal(n)) == crate::offset::digits_value(
            Seq::<char>::empty(),
        ) * 10 + crate::offset::digit_value(digit_char(last)));
    } else {
        law_decimal_reads_back(n / 10);
        let d = decimal(n / 10);
        assert(decimal(n).drop_last() =~= d);
        assert(crate::offset::digits_value(decimal(n)) == crate::offset::digits_value(d) * 10
            + crate::offset::digit_value(digit_char(last)));
        assert((n / 10) * 10 + n % 10 == n);
        assert forall|j: int| 0 <= j < decimal(n).len() implies crate::offset::is_digit(
            #[trigger] decimal(n)[j],
        ) by {
            if j < d.len() {
                assert(decimal(n)[j] == d[j]);
            }
        }
    }
}

} // verus!

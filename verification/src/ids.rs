//! Identifiers of devices, sensors and plugin instances: 128-bit UUIDs drawn by the uuid
//! crate, and their hyphenated lowercase text.

use vstd::prelude::*;
use vstd::arithmetic::power2::pow2;
use crate::text::digit_char;

verus! {

/// The lowercase hexadecimal digit of a value below 16.
pub open spec fn hex_digit(v: int) -> char {
    if v < 10 {
        digit_char(v)
    } else if v == 10 {
        'a'
    } else if v == 11 {
        'b'
    } else if v == 12 {
        'c'
    } else if v == 13 {
        'd'
    } else if v == 14 {
        'e'
    } else {
        'f'
    }
}

/// The `k`-th hexadecimal digit of an identifier, counted from the most significant (0 to 31).
pub open spec fn nibble(id: u128, k: int) -> int {
    (id as int / pow2((4 * (31 - k)) as nat) as int) % 16
}

/// Which hexadecimal digit of the identifier stands at position `p` of its hyphenated text.
pub open spec fn nibble_at(p: int) -> int {
    if p < 8 {
        p
    } else if p < 13 {
        p - 1
    } else if p < 18 {
        p - 2
    } else if p < 23 {
        p - 3
    } else {
        p - 4
    }
}

/// The hyphenated lowercase text of an identifier, `xxxxxxxx-xxxx-xxxx-xxxx-xxxxxxxxxxxx`,
/// most significant digit first.
pub open spec fn uuid_text(id: u128) -> Seq<char> {
    Seq::new(
        36,
        |p: int|
            if p == 8 || p == 13 || p == 18 || p == 23 {
                '-'
            } else {
                hex_digit(nibble(id, nibble_at(p)))
            },
    )
}

/// Whether an identifier is a random (version 4, RFC 4122 variant) UUID: its version digit
/// is 4 and the two top bits of its variant are `10`.
pub open spec fn is_random_uuid(id: u128) -> bool {
    &&& nibble(id, 12) == 4
    &&& (id as int / pow2(62) as int) % 4 == 2
}

/// `uuid::Uuid::new_v4`, taken as a 128-bit value (`as_u128`): a random UUID, whose version
/// digit is 4 and whose variant bits are `10`. Its other bits are random, and nothing is
/// stated of them.
#[verifier::external_body]
pub fn new_v4_id() -> (r: u128)
    ensures
        is_random_uuid(r),
{
    uuid::Uuid::new_v4().as_u128()
}

/// `uuid::Uuid::from_u128` followed by `to_string`: the hyphenated lowercase text of the
/// identifier.
#[verifier::external_body]
pub fn uuid_to_string(id: u128) -> (r: String)
    ensures
        r@ == uuid_text(id),
{
    uuid::Uuid::from_u128(id).to_string()
}

/// A source of random identifiers, which records every identifier it has drawn, in order.
/// The only way to draw from it is `next_id`, so the record holds exactly one entry per draw.
pub struct IdSource {
    drawn: Ghost<Seq<u128>>,
}

impl IdSource {
    /// The identifiers drawn so far, oldest first.
    pub closed spec fn drawn(&self) -> Seq<u128> {
        self.drawn@
    }

    /// A source with nothing drawn yet.
    pub fn new() -> (r: IdSource)
        ensures
            r.drawn() == Seq::<u128>::empty(),
    {
        IdSource { drawn: Ghost(Seq::empty()) }
    }

    /// A new random identifier, added to the record.
    pub fn next_id(&mut self) -> (r: u128)
        ensures
            is_random_uuid(r),
            final(self).drawn() == old(self).drawn().push(r),
    {
        let id = new_v4_id();
        self.drawn = Ghost(self.drawn@.push(id));
        id
    }
}

/// A fresh instance identifier: the text of a random UUID.
pub fn default_instance_id() -> (r: String)
    ensures
        exists|id: u128| is_random_uuid(id) && r@ == uuid_text(id),
{
    let id = new_v4_id();
    uuid_to_string(id)
}

} // verus!

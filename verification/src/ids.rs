//! Identifiers.
use vstd::arithmetic::power::pow;
use vstd::prelude::*;

use crate::text::{digit_char, is_plain};

verus! {

/// A 128-bit identifier.
#[derive(Clone, Copy, Debug, PartialEq, Eq, Structural)]
pub struct Uuid {
    pub bits: u128,
}

/// The lowest `count` hexadecimal digits of `value`, the highest first.
pub open spec fn hex_digits(value: nat, count: nat) -> Seq<char>
    decreases count,
{
    if count == 0 {
        seq![]
    } else {
        hex_digits(value / 16, (count - 1) as nat).push(digit_char((value % 16) as int))
    }
}

/// The hyphenated form of an identifier: 32 hexadecimal digits in groups of 8,
/// 4, 4, 4 and 12.
pub open spec fn uuid_text(id: Uuid) -> Seq<char> {
    let digits = hex_digits(id.bits as nat, 32);
    digits.subrange(0, 8) + seq!['-'] + digits.subrange(8, 12) + seq!['-'] + digits.subrange(12, 16)
        + seq!['-'] + digits.subrange(16, 20) + seq!['-'] + digits.subrange(20, 32)
}

/// An identifier of version 4: the version digit is 4, and the two variant bits
/// are 10.
pub open spec fn is_v4(id: Uuid) -> bool {
    id.bits & 0xf000_c000_0000_0000_0000 == 0x4000_8000_0000_0000_0000
}

/// Calls `uuid::Uuid::from_u128` and its `Display`: the hyphenated form in
/// lower case.
#[verifier::external_body]
fn hyphenated(bits: u128) -> (result: String)
    ensures
        result@ == uuid_text(Uuid { bits }),
{
    uuid::Uuid::from_u128(bits).to_string()
}

/// Calls `uuid::Uuid::new_v4`: a random identifier, with the version digit 4
/// and the two variant bits 10 in their places.
#[verifier::external_body]
fn random_v4() -> (result: u128)
    ensures
        result & 0xf000_c000_0000_0000_0000 == 0x4000_8000_0000_0000_0000,
{
    uuid::Uuid::new_v4().as_u128()
}

impl Uuid {
    /// The identifier of which every bit is zero.
    pub fn nil() -> (result: Uuid)
        ensures
            result.bits == 0,
    {
        Uuid { bits: 0 }
    }

    /// A random identifier of version 4.
    pub fn new_v4() -> (result: Uuid)
        ensures
            is_v4(result),
    {
        Uuid { bits: random_v4() }
    }

    /// The hyphenated form.
    pub fn text(&self) -> (result: String)
        ensures
            result@ == uuid_text(*self),
    {
        hyphenated(self.bits)
    }
}

proof fn hex_digits_len(value: nat, count: nat)
    ensures
        hex_digits(value, count).len() == count,
    decreases count,
{
    if count > 0 {
        hex_digits_len(value / 16, (count - 1) as nat);
    }
}

/// The hyphenated form has 36 characters.
pub proof fn uuid_text_len(id: Uuid)
    ensures
        uuid_text(id).len() == 36,
{
    hex_digits_len(id.bits as nat, 32);
}

proof fn hex_digits_are_injective(a: nat, b: nat, count: nat)
    requires
        hex_digits(a, count) == hex_digits(b, count),
        a < pow(16, count),
        b < pow(16, count),
    ensures
        a == b,
    decreases count,
{
    reveal(pow);
    if count > 0 {
        let less = (count - 1) as nat;
        let left = hex_digits(a, count);
        let right = hex_digits(b, count);
        assert(left.drop_last() == hex_digits(a / 16, less));
        assert(right.drop_last() == hex_digits(b / 16, less));
        assert(left.last() == digit_char((a % 16) as int));
        assert(right.last() == digit_char((b % 16) as int));
        assert(pow(16, count) == 16 * pow(16, less));
        hex_digits_are_injective(a / 16, b / 16, less);
    }
}

/// Two identifiers with the same hyphenated form are the same.
pub proof fn uuid_text_is_injective(a: Uuid, b: Uuid)
    requires
        uuid_text(a) == uuid_text(b),
    ensures
        a == b,
{
    let x = hex_digits(a.bits as nat, 32);
    let y = hex_digits(b.bits as nat, 32);
    hex_digits_len(a.bits as nat, 32);
    hex_digits_len(b.bits as nat, 32);
    let s = uuid_text(a);
    let t = uuid_text(b);
    assert(s.subrange(0, 8) == x.subrange(0, 8) && t.subrange(0, 8) == y.subrange(0, 8));
    assert(s.subrange(9, 13) == x.subrange(8, 12) && t.subrange(9, 13) == y.subrange(8, 12));
    assert(s.subrange(14, 18) == x.subrange(12, 16) && t.subrange(14, 18) == y.subrange(12, 16));
    assert(s.subrange(19, 23) == x.subrange(16, 20) && t.subrange(19, 23) == y.subrange(16, 20));
    assert(s.subrange(24, 36) == x.subrange(20, 32) && t.subrange(24, 36) == y.subrange(20, 32));
    assert(x == x.subrange(0, 8) + x.subrange(8, 12) + x.subrange(12, 16) + x.subrange(16, 20)
        + x.subrange(20, 32));
    assert(y == y.subrange(0, 8) + y.subrange(8, 12) + y.subrange(12, 16) + y.subrange(16, 20)
        + y.subrange(20, 32));
    assert(pow(16, 32) == 0x1_0000_0000_0000_0000_0000_0000_0000_0000) by {
        reveal(pow);
        reveal_with_fuel(pow, 33);
    }
    hex_digits_are_injective(a.bits as nat, b.bits as nat, 32);
}

proof fn hex_digits_are_plain(value: nat, count: nat, i: int)
    requires
        0 <= i < count,
    ensures
        hex_digits(value, count).len() == count,
        is_plain(hex_digits(value, count)[i]),
    decreases count,
{
    hex_digits_len(value, count);
    hex_digits_len(value / 16, (count - 1) as nat);
    if i < count - 1 {
        hex_digits_are_plain(value / 16, (count - 1) as nat, i);
    } else {
        assert(0 <= value % 16 < 16);
    }
}

/// The hyphenated form stands in a JSON string as it is.
pub proof fn uuid_text_is_plain(id: Uuid)
    ensures
        forall|i: int| 0 <= i < uuid_text(id).len() ==> is_plain(#[trigger] uuid_text(id)[i]),
{
    let digits = hex_digits(id.bits as nat, 32);
    assert forall|i: int| 0 <= i < 32 implies is_plain(#[trigger] digits[i]) by {
        hex_digits_are_plain(id.bits as nat, 32, i);
    }
    hex_digits_len(id.bits as nat, 32);
}

}

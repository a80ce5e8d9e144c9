//! Session identities: opaque 128-bit tokens minted at login.

use vstd::prelude::*;

verus! {

/// An opaque token that identifies one authenticated session. Two identities
/// are the same session exactly when their 128-bit values are equal.
#[derive(Clone, Copy, Debug, PartialEq, Eq, Hash, Structural)]
pub struct SessionId(pub u128);

impl SessionId {
    /// Wraps a raw 128-bit value.
    pub fn from_u128(value: u128) -> (id: SessionId)
        ensures
            id == SessionId(value),
    {
        SessionId(value)
    }

    /// The raw 128-bit value.
    pub fn as_u128(&self) -> (value: u128)
        ensures
            value == self.0,
    {
        self.0
    }

    /// Mints a new identity from the operating system's random source.
    ///
    /// Which identity comes back is not determined; every outcome carries the
    /// marks of a random identity.
    pub fn generate() -> (id: SessionId)
        ensures
            is_random_version(id.0),
    {
        SessionId(uuid_new_v4())
    }

    /// The canonical text of this identity, as it appears in URLs.
    pub fn to_text(&self) -> (text: String)
        ensures
            text@ == hyphenated_text(self.0),
    {
        uuid_to_string(self.0)
    }
}

/// 16 to the power `exponent`.
pub open spec fn pow16(exponent: nat) -> nat
    decreases exponent,
{
    if exponent == 0 {
        1
    } else {
        16 * pow16((exponent - 1) as nat)
    }
}

/// The hexadecimal digit of `value` at `position`, where position 0 is the
/// most significant of the 32 digits and position 31 the least significant.
pub open spec fn nibble_at(value: u128, position: int) -> int {
    (value as int / pow16((31 - position) as nat) as int) % 16
}

/// The lowercase hexadecimal character for a digit value from 0 to 15.
pub open spec fn lower_hex_char(digit: int) -> char {
    seq!['0', '1', '2', '3', '4', '5', '6', '7', '8', '9', 'a', 'b', 'c', 'd', 'e', 'f'][digit]
}

/// The 32 lowercase hexadecimal characters of `value`, most significant first.
pub open spec fn hex_text(value: u128) -> Seq<char> {
    Seq::new(32, |position: int| lower_hex_char(nibble_at(value, position)))
}

/// The canonical textual form of a 128-bit identity: its 32 lowercase
/// hexadecimal characters in groups of 8, 4, 4, 4 and 12, joined by hyphens.
pub open spec fn hyphenated_text(value: u128) -> Seq<char> {
    let digits = hex_text(value);
    digits.subrange(0, 8) + seq!['-'] + digits.subrange(8, 12) + seq!['-'] + digits.subrange(12, 16)
        + seq!['-'] + digits.subrange(16, 20) + seq!['-'] + digits.subrange(20, 32)
}

/// Whether `value` carries the marks of a randomly generated identity: the
/// version digit (position 12) is 4 and the two top bits of the digit at
/// position 16 are `10`.
pub open spec fn is_random_version(value: u128) -> bool {
    value & 0x0000_0000_0000_f000_c000_0000_0000_0000 == 0x0000_0000_0000_4000_8000_0000_0000_0000
}

/// Calls `uuid::Uuid::new_v4` and hands back the value of the fresh UUID.
///
/// The value comes from the operating system's random source, so nothing is
/// claimed about it beyond what `new_v4` fixes in every outcome: it forces the
/// version bits to 4 and the variant bits to `10`. (`new_v4` panics if the
/// operating system cannot supply random bytes.)
#[verifier::external_body]
fn uuid_new_v4() -> (value: u128)
    ensures
        is_random_version(value),
{
    uuid::Uuid::new_v4().as_u128()
}

/// Calls the `Display` implementation of `uuid::Uuid` on the UUID whose value
/// is `value`.
///
/// `Display` for a UUID writes its lowercase hyphenated form: two hexadecimal
/// characters per byte, bytes in big-endian order, with a hyphen after the
/// 8th, 12th, 16th and 20th hexadecimal character.
#[verifier::external_body]
fn uuid_to_string(value: u128) -> (text: String)
    ensures
        text@ == hyphenated_text(value),
{
    uuid::Uuid::from_u128(value).to_string()
}

/// Whether the canonical text has a hyphen at `position`.
pub open spec fn is_hyphen_position(position: int) -> bool {
    position == 8 || position == 13 || position == 18 || position == 23
}

/// The position, among the 32 hexadecimal digits, of the digit that the
/// canonical text shows at `position`.
pub open spec fn digit_of_position(position: int) -> int {
    if position < 8 {
        position
    } else if position < 13 {
        position - 1
    } else if position < 18 {
        position - 2
    } else if position < 23 {
        position - 3
    } else {
        position - 4
    }
}

/// The canonical text has 36 characters: hyphens at positions 8, 13, 18 and
/// 23, and everywhere else the hexadecimal digits of the value in order.
pub proof fn lemma_text_shape(value: u128)
    ensures
        hyphenated_text(value).len() == 36,
        forall|position: int|
            0 <= position < 36 ==> #[trigger] hyphenated_text(value)[position] == (if is_hyphen_position(
                position,
            ) {
                '-'
            } else {
                lower_hex_char(nibble_at(value, digit_of_position(position)))
            }),
{
}

/// Every hexadecimal digit of a value lies between 0 and 15.
pub proof fn lemma_nibble_range(value: u128, position: int)
    requires
        0 <= position < 32,
    ensures
        0 <= nibble_at(value, position) < 16,
{
}

/// 16 to any power is positive.
proof fn lemma_pow16_positive(exponent: nat)
    ensures
        pow16(exponent) > 0,
    decreases exponent,
{
    if exponent > 0 {
        lemma_pow16_positive((exponent - 1) as nat);
    }
}

/// The number made of the `count` most significant hexadecimal digits of
/// `value`.
spec fn leading_digits(value: u128, count: nat) -> int {
    value as int / pow16((32 - count) as nat) as int
}

/// One more leading digit: sixteen times the digits so far, plus the next.
proof fn lemma_leading_digits_step(value: u128, count: nat)
    requires
        count < 32,
    ensures
        leading_digits(value, count + 1) == 16 * leading_digits(value, count) + nibble_at(
            value,
            count as int,
        ),
{
    let unit = pow16((31 - count) as nat) as int;
    lemma_pow16_positive((31 - count) as nat);
    assert(pow16((32 - count) as nat) == 16 * unit);
    let shifted = value as int / unit;
    vstd::arithmetic::div_mod::lemma_div_denominator(value as int, unit, 16);
    assert(shifted / 16 == value as int / (unit * 16));
    assert(unit * 16 == 16 * unit);
    vstd::arithmetic::div_mod::lemma_fundamental_div_mod(shifted, 16);
}

/// Values whose leading digits agree digit by digit agree in all of them.
proof fn lemma_leading_digits_agree(a: u128, b: u128, count: nat)
    requires
        count <= 32,
        forall|position: int| 0 <= position < 32 ==> nibble_at(a, position) == nibble_at(b, position),
    ensures
        leading_digits(a, count) == leading_digits(b, count),
    decreases count,
{
    if count == 0 {
        assert(pow16(32) == 0x1_0000_0000_0000_0000_0000_0000_0000_0000) by {
            reveal_with_fuel(pow16, 33);
        }
        vstd::arithmetic::div_mod::lemma_basic_div(a as int, pow16(32) as int);
        vstd::arithmetic::div_mod::lemma_basic_div(b as int, pow16(32) as int);
    } else {
        lemma_leading_digits_agree(a, b, (count - 1) as nat);
        lemma_leading_digits_step(a, (count - 1) as nat);
        lemma_leading_digits_step(b, (count - 1) as nat);
    }
}

/// The canonical text determines the value: two values with the same text
/// are the same value.
pub proof fn lemma_text_determines_value(a: u128, b: u128)
    requires
        hyphenated_text(a) == hyphenated_text(b),
    ensures
        a == b,
{
    lemma_text_shape(a);
    lemma_text_shape(b);
    assert forall|digit: int| 0 <= digit < 32 implies nibble_at(a, digit) == nibble_at(
        b,
        digit,
    ) by {
        let position = if digit < 8 {
            digit
        } else if digit < 12 {
            digit + 1
        } else if digit < 16 {
            digit + 2
        } else if digit < 20 {
            digit + 3
        } else {
            digit + 4
        };
        assert(!is_hyphen_position(position) && digit_of_position(position) == digit);
        assert(hyphenated_text(a)[position] == lower_hex_char(nibble_at(a, digit)));
        assert(hyphenated_text(b)[position] == lower_hex_char(nibble_at(b, digit)));
        lemma_nibble_range(a, digit);
        lemma_nibble_range(b, digit);
    }
    lemma_leading_digits_agree(a, b, 32);
    assert(leading_digits(a, 32) == a as int / 1);
    assert(leading_digits(b, 32) == b as int / 1);
}

/// A value with the marks of a random identity shows the version digit `4`
/// at position 14 of its text, and one of `8`, `9`, `a`, `b` at position 19.
pub proof fn lemma_random_version_text(value: u128)
    requires
        is_random_version(value),
    ensures
        hyphenated_text(value)[14] == '4',
        hyphenated_text(value)[19] == '8' || hyphenated_text(value)[19] == '9' || hyphenated_text(
            value,
        )[19] == 'a' || hyphenated_text(value)[19] == 'b',
{
    lemma_text_shape(value);
    assert(pow16(19) == 0x1000_0000_0000_0000_0000) by {
        reveal_with_fuel(pow16, 20);
    }
    assert(pow16(15) == 0x1000_0000_0000_0000) by {
        reveal_with_fuel(pow16, 16);
    }
    assert((value / 0x1000_0000_0000_0000_0000u128) % 16 == 4 && 8 <= (value
        / 0x1000_0000_0000_0000u128) % 16 <= 11) by (bit_vector)
        requires
            value & 0x0000_0000_0000_f000_c000_0000_0000_0000
                == 0x0000_0000_0000_4000_8000_0000_0000_0000,
    ;
    assert(nibble_at(value, 12) == 4);
    assert(8 <= nibble_at(value, 16) <= 11);
}

} // verus!

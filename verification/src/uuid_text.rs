//! What the library has from the `uuid` crate.
use vstd::prelude::*;

verus! {

/// The lower-case hexadecimal digit of a number below sixteen.
pub open spec fn hex_digit(digit: int) -> char {
    if digit < 10 {
        ('0' as int + digit) as char
    } else {
        ('a' as int + digit - 10) as char
    }
}

/// The `index`th of the thirty-two hexadecimal digits of a 128-bit number,
/// counted from the most significant one.
pub open spec fn nibble(value: u128, index: int) -> int {
    (value as int / vstd::arithmetic::power::pow(16, (31 - index) as nat)) % 16
}

/// The places of the hyphens in a hyphenated UUID.
pub open spec fn is_hyphen(place: int) -> bool {
    place == 8 || place == 13 || place == 18 || place == 23
}

/// How many hyphens stand before a place in a hyphenated UUID.
pub open spec fn hyphens_before(place: int) -> int {
    if place <= 8 {
        0
    } else if place <= 13 {
        1
    } else if place <= 18 {
        2
    } else if place <= 23 {
        3
    } else {
        4
    }
}

/// The text of a UUID: its digits in groups of 8, 4, 4, 4 and 12, with a
/// hyphen between two groups.
pub open spec fn hyphenated(value: u128) -> Seq<char> {
    Seq::new(
        36,
        |place: int|
            if is_hyphen(place) {
                '-'
            } else {
                hex_digit(nibble(value, place - hyphens_before(place)))
            },
    )
}

/// Trusted: `uuid::Uuid::from_u128`, and the `Display` of the UUID that it
/// gives. The text of a UUID is its hyphenated form with lower-case digits,
/// the bytes in big-endian order.
#[verifier::external_body]
pub(crate) fn uuid_to_string(value: u128) -> (text: String)
    ensures
        text@ == hyphenated(value),
{
    uuid::Uuid::from_u128(value).to_string()
}

/// Trusted: `uuid::Uuid::default`, which is the nil UUID. All of its bits are
/// zero.
#[verifier::external_body]
pub(crate) fn default_uuid() -> (value: u128)
    ensures
        value == 0,
{
    uuid::Uuid::default().as_u128()
}

} // verus!

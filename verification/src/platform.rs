//! The calls this library makes into the clock and into `uuid`.
use vstd::prelude::*;
use crate::text::hex_char;

verus! {

pub open spec fn pow16(k: nat) -> nat
    decreases k,
{
    if k == 0 { 1 } else { 16 * pow16((k - 1) as nat) }
}

/// Hexadecimal digit `k` (0 is the most significant) of the 128-bit value `id`.
pub open spec fn nibble(id: u128, k: int) -> nat {
    ((id as nat / pow16((31 - k) as nat)) % 16) as nat
}

/// Index of the hexadecimal digit shown at position `i` of the hyphenated form.
pub open spec fn uuid_digit_index(i: int) -> int {
    if i < 8 { i } else if i < 13 { i - 1 } else if i < 18 { i - 2 } else if i < 23 { i - 3 } else { i - 4 }
}

/// The hyphenated lowercase form `xxxxxxxx-xxxx-xxxx-xxxx-xxxxxxxxxxxx` of `id`,
/// its bytes read in big-endian order.
pub open spec fn uuid_hyphenated(id: u128) -> Seq<char> {
    Seq::new(36, |i: int|
        if i == 8 || i == 13 || i == 18 || i == 23 { '-' } else { hex_char(nibble(id, uuid_digit_index(i))) })
}

/// Reads the system clock through `chrono::Utc::now` and gives the time as
/// milliseconds since the Unix epoch (`DateTime::timestamp_millis`). Nothing is
/// claimed of the value: it depends on the clock.
#[verifier::external_body]
pub(crate) fn now_millis() -> i64 {
    chrono::Utc::now().timestamp_millis()
}

/// Draws a random version-4 identifier with `uuid::Uuid::new_v4` and gives its
/// 128 bits (`Uuid::as_u128`). Nothing is claimed of the value: it is random.
#[verifier::external_body]
pub(crate) fn new_v4_id() -> u128 {
    uuid::Uuid::new_v4().as_u128()
}

/// Renders `id` with `uuid::Uuid::from_u128(id).to_string()`. The `uuid` crate
/// formats through `LowerHex` of the hyphenated form; the contract claims that
/// the text is the 32 lowercase hexadecimal digits of the big-endian value with
/// hyphens after the 8th, 12th, 16th and 20th digit.
#[verifier::external_body]
pub(crate) fn uuid_to_string(id: u128) -> (s: String)
    ensures
        s@ == uuid_hyphenated(id),
{
    uuid::Uuid::from_u128(id).to_string()
}

} // verus!

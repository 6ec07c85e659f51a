//! Participant and visit identifiers: version-4 UUIDs, held as their 128-bit number.
use vstd::prelude::*;
use crate::text::concat_texts;

verus! {

/// A lowercase hexadecimal digit.
pub open spec fn hex_digit(v: int) -> char {
    if v < 10 {
        (48 + v) as char
    } else {
        (87 + v) as char
    }
}

/// The last `n` hexadecimal digits of `v`, most significant first.
pub open spec fn hex_digits(v: nat, n: nat) -> Seq<char>
    decreases n,
{
    if n == 0 {
        seq![]
    } else {
        hex_digits(v / 16, (n - 1) as nat).push(hex_digit((v % 16) as int))
    }
}

/// The hyphenated lowercase text of a UUID, `8-4-4-4-12` hexadecimal digits.
pub open spec fn uuid_text(id: u128) -> Seq<char> {
    let h = hex_digits(id as nat, 32);
    h.subrange(0, 8) + seq!['-'] + h.subrange(8, 12) + seq!['-'] + h.subrange(12, 16) + seq!['-']
        + h.subrange(16, 20) + seq!['-'] + h.subrange(20, 32)
}

/// A version-4 (random) UUID: version nibble 4, RFC 4122 variant bits `10`.
pub open spec fn is_v4(id: u128) -> bool {
    &&& (id >> 76u128) & 0xfu128 == 4
    &&& (id >> 62u128) & 3u128 == 2
}

/// Calls `uuid::Uuid::new_v4`. Claimed: the version and variant bits are those
/// of a version-4 UUID; the other bits are random and nothing is said of them.
#[verifier::external_body]
pub(crate) fn new_v4() -> (id: u128)
    ensures
        is_v4(id),
{
    uuid::Uuid::new_v4().as_u128()
}

/// Calls `uuid::Uuid::to_string` on `Uuid::from_u128(id)`. Claimed: the
/// hyphenated lowercase form, as the crate documents for `Display`.
#[verifier::external_body]
pub(crate) fn uuid_string(id: u128) -> (res: String)
    ensures
        res@ == uuid_text(id),
{
    uuid::Uuid::from_u128(id).to_string()
}

/// A fresh random id for a recorded visit.
pub fn new_visit_id() -> (id: u128)
    ensures
        is_v4(id),
{
    new_v4()
}

/// Where `/track` sends a visitor: `/track/` followed by a fresh visit id.
pub fn track_redirect_location() -> (res: String)
    ensures
        exists|id: u128| is_v4(id) && res@ == "/track/"@ + uuid_text(id),
{
    let id = new_v4();
    let text = uuid_string(id);
    concat_texts("/track/", text.as_str())
}

} // verus!

//! Identifiers. Every record and every activation token is named by the 128
//! bits of a random (version 4) UUID, written in text as 32 lower-case hex
//! digits in groups of 8, 4, 4, 4 and 12.

use vstd::prelude::*;

verus! {

/// The bits that every random UUID shares: version nibble 4, variant bits `10`.
pub open spec fn is_random_uuid(id: u128) -> bool {
    id & 0x0000_0000_0000_f000_c000_0000_0000_0000u128
        == 0x0000_0000_0000_4000_8000_0000_0000_0000u128
}

/// Length of the hyphenated text form.
pub open spec fn text_len() -> nat {
    36
}

/// The `k`-th hex digit of `id`, counted from the most significant one.
pub open spec fn nibble(id: u128, k: int) -> int
    recommends
        0 <= k < 32,
{
    ((id >> ((4 * (31 - k)) as u128)) & 0xfu128) as int
}

/// How many hyphens stand before position `i` of the text form.
pub open spec fn hyphens_before(i: int) -> int {
    if i > 23 {
        4
    } else if i > 18 {
        3
    } else if i > 13 {
        2
    } else if i > 8 {
        1
    } else {
        0
    }
}

/// The character at position `i` of the text form of `id`.
pub open spec fn text_char(id: u128, i: int) -> char
    recommends
        0 <= i < 36,
{
    if i == 8 || i == 13 || i == 18 || i == 23 {
        '-'
    } else {
        "0123456789abcdef"@[nibble(id, i - hyphens_before(i))]
    }
}

/// The hyphenated lower-case text form of `id`.
pub open spec fn uuid_text(id: u128) -> Seq<char> {
    Seq::new(text_len(), |i: int| text_char(id, i))
}

/// Calls `uuid::Uuid::new_v4` and hands back its 128 bits (`as_u128`).
/// Trusted: the result carries the version and variant bits that `new_v4`
/// sets on every value it returns; nothing is claimed of the random bits.
/// Where the operating system has no random bytes to give, `new_v4` panics
/// and so does this.
#[verifier::external_body]
pub(crate) fn new_v4() -> (id: u128)
    ensures
        is_random_uuid(id),
{
    uuid::Uuid::new_v4().as_u128()
}

/// Calls `uuid::Uuid::from_u128` and formats the value with its `Display`.
/// Trusted: the text is the hyphenated lower-case hex form of the 128 bits,
/// most significant digit first.
#[verifier::external_body]
pub(crate) fn hyphenated(id: u128) -> (text: String)
    ensures
        text@ == uuid_text(id),
{
    uuid::Uuid::from_u128(id).to_string()
}

/// Draws a fresh identifier.
pub fn fresh_id() -> (id: u128)
    ensures
        is_random_uuid(id),
{
    new_v4()
}

/// Writes an identifier as text.
pub fn id_text(id: u128) -> (text: String)
    ensures
        text@ == uuid_text(id),
        text@.len() == 36,
{
    hyphenated(id)
}

} // verus!

//! Identifiers. Every artifact is named by a 128-bit value whose text form is
//! the hyphenated lower-case hexadecimal rendering.

use vstd::prelude::*;

verus! {

/// The nil identifier, which names nothing.
pub const NIL: u128 = 0;

/// An identifier is random when it carries the version and variant marks of
/// a random identifier: version nibble `4`, variant bits `10`.
pub open spec fn is_random(id: u128) -> bool {
    id & 0x0000_0000_0000_f000_c000_0000_0000_0000u128
        == 0x0000_0000_0000_4000_8000_0000_0000_0000u128
}

/// The lower-case hexadecimal digit of a value below sixteen.
pub open spec fn hex_digit(n: int) -> char {
    seq!['0', '1', '2', '3', '4', '5', '6', '7', '8', '9', 'a', 'b', 'c', 'd', 'e', 'f'][n]
}

/// The `k`-th of the 32 hexadecimal digits of `id`, most significant first.
pub open spec fn nibble(id: u128, k: int) -> int {
    (id as int / vstd::arithmetic::power::pow(16, (31 - k) as nat)) % 16
}

/// How many hyphens stand before position `i` of the text form.
pub open spec fn hyphens_before(i: int) -> int {
    if i < 8 {
        0
    } else if i < 13 {
        1
    } else if i < 18 {
        2
    } else if i < 23 {
        3
    } else {
        4
    }
}

/// The text form of an identifier: 32 lower-case hexadecimal digits in the
/// groups 8-4-4-4-12, separated by hyphens.
pub open spec fn hyphenated(id: u128) -> Seq<char> {
    Seq::new(
        36,
        |i: int|
            if i == 8 || i == 13 || i == 18 || i == 23 {
                '-'
            } else {
                hex_digit(nibble(id, i - hyphens_before(i)))
            },
    )
}

/// A random identifier is never nil.
pub proof fn lemma_random_not_nil(id: u128)
    requires
        is_random(id),
    ensures
        id != NIL,
{
    assert(id & 0x0000_0000_0000_f000_c000_0000_0000_0000u128
        == 0x0000_0000_0000_4000_8000_0000_0000_0000u128 ==> id != 0u128) by (bit_vector);
}

/// Draws a fresh identifier with `uuid::Uuid::new_v4`, which takes 128 bits
/// from the system's random source and overwrites the version nibble with `4`
/// and the two variant bits with `10`. Nothing else is claimed of the value:
/// two draws may even agree. `new_v4` stops the program where the system
/// hands out no random bytes.
#[verifier::external_body]
pub(crate) fn fresh_id() -> (id: u128)
    ensures
        is_random(id),
{
    uuid::Uuid::new_v4().as_u128()
}

/// Renders an identifier with the `Display` of `uuid::Uuid`, which writes the
/// hyphenated lower-case form of the value's sixteen big-endian bytes.
#[verifier::external_body]
pub(crate) fn id_text(id: u128) -> (text: String)
    ensures
        text@ == hyphenated(id),
{
    uuid::Uuid::from_u128(id).to_string()
}

/// Whether an identifier is the nil one.
pub fn is_nil(id: u128) -> (nil: bool)
    ensures
        nil == (id == NIL),
{
    id == NIL
}

} // verus!

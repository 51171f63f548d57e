//! Identifiers: a UUID is held as its 128-bit value.
use vstd::prelude::*;

verus! {

/// The character for a hexadecimal digit `0 <= n < 16`, lowercase.
pub open spec fn hex_digit(n: int) -> char {
    if n < 10 {
        ('0' as int + n) as char
    } else {
        ('a' as int + (n - 10)) as char
    }
}

/// The `k`-th hexadecimal digit of `x`, counting from the most significant (`0 <= k < 32`).
pub open spec fn nibble(x: u128, k: int) -> int {
    ((x >> ((124 - 4 * k) as u128)) & 15u128) as int
}

/// Whether position `i` of the 36-character text is one of the four hyphens.
pub open spec fn is_hyphen_pos(i: int) -> bool {
    i == 8 || i == 13 || i == 18 || i == 23
}

/// The digit index shown at text position `i` (not a hyphen position).
pub open spec fn digit_index(i: int) -> int {
    if i < 8 {
        i
    } else if i < 13 {
        i - 1
    } else if i < 18 {
        i - 2
    } else if i < 23 {
        i - 3
    } else {
        i - 4
    }
}

/// The hyphenated lowercase text of a UUID (8-4-4-4-12 hex digits), most
/// significant digit first.
pub open spec fn uuid_text_of(x: u128) -> Seq<char> {
    Seq::new(
        36,
        |i: int|
            if is_hyphen_pos(i) {
                '-'
            } else {
                hex_digit(nibble(x, digit_index(i)))
            },
    )
}

/// A lowercase hexadecimal digit character.
pub open spec fn is_lower_hex(c: char) -> bool {
    ('0' <= c <= '9') || ('a' <= c <= 'f')
}

/// The text of every identifier has the hyphenated shape: 36 characters,
/// hyphens at positions 8, 13, 18 and 23 and nowhere else, lowercase
/// hexadecimal digits elsewhere.
pub proof fn uuid_text_shape(x: u128)
    ensures
        uuid_text_of(x).len() == 36,
        forall|i: int| 0 <= i < 36 ==> (uuid_text_of(x)[i] == '-' <==> is_hyphen_pos(i)),
        forall|i: int| 0 <= i < 36 && !is_hyphen_pos(i) ==> is_lower_hex(#[trigger] uuid_text_of(x)[i]),
{
    assert forall|s: u128| #[trigger] ((x >> s) & 15u128) <= 15u128 by {
        assert((x >> s) & 15u128 <= 15u128) by (bit_vector);
    }
    assert forall|i: int| 0 <= i < 36 && !is_hyphen_pos(i) implies is_lower_hex(#[trigger] uuid_text_of(x)[i]) by {
        let k = digit_index(i);
        let s = (124 - 4 * k) as u128;
        assert((x >> s) & 15u128 <= 15u128);
        assert(0 <= nibble(x, k) < 16);
    }
}

/// Calls `uuid::Uuid::from_u128` and then `to_string` on the UUID.
/// Claimed (as the uuid documentation shows): the text is the hyphenated
/// lowercase form, digits in big-endian order.
#[verifier::external_body]
pub(crate) fn uuid_text(id: u128) -> (r: String)
    ensures
        r@ == uuid_text_of(id),
{
    uuid::Uuid::from_u128(id).to_string()
}

} // verus!

//! Identifiers of aggregates.
//!
//! An identifier is a UUID held as the 128-bit number that its sixteen bytes
//! spell in big-endian order. Generating, printing and parsing are left to
//! the `uuid` crate; this module states what the library relies on.

use vstd::prelude::*;

verus! {

/// The lower-case hexadecimal digit for a value below sixteen.
pub open spec fn hex_char(n: u128) -> char {
    if n == 0 {
        '0'
    } else if n == 1 {
        '1'
    } else if n == 2 {
        '2'
    } else if n == 3 {
        '3'
    } else if n == 4 {
        '4'
    } else if n == 5 {
        '5'
    } else if n == 6 {
        '6'
    } else if n == 7 {
        '7'
    } else if n == 8 {
        '8'
    } else if n == 9 {
        '9'
    } else if n == 10 {
        'a'
    } else if n == 11 {
        'b'
    } else if n == 12 {
        'c'
    } else if n == 13 {
        'd'
    } else if n == 14 {
        'e'
    } else {
        'f'
    }
}

/// The `k`-th group of four bits of `id`, counted from the most significant.
pub open spec fn nibble(id: u128, k: int) -> u128 {
    (id >> ((4 * (31 - k)) as u128)) & 0xf
}

/// The character at position `i` of the hyphenated form of `id`: hyphens at
/// positions 8, 13, 18 and 23, the thirty-two hexadecimal digits around them.
pub open spec fn uuid_char(id: u128, i: int) -> char {
    if i == 8 || i == 13 || i == 18 || i == 23 {
        '-'
    } else if i < 8 {
        hex_char(nibble(id, i))
    } else if i < 13 {
        hex_char(nibble(id, i - 1))
    } else if i < 18 {
        hex_char(nibble(id, i - 2))
    } else if i < 23 {
        hex_char(nibble(id, i - 3))
    } else {
        hex_char(nibble(id, i - 4))
    }
}

/// The hyphenated lower-case form of an identifier, thirty-six characters
/// long, such as `67e55044-10b1-426f-9247-bb680e5fe0c8`.
pub open spec fn uuid_text(id: u128) -> Seq<char> {
    Seq::new(36, |i: int| uuid_char(id, i))
}

/// Whether `c` is a digit or one of the letters `a` to `f`.
pub open spec fn is_lower_hex(c: char) -> bool {
    ('0' <= c && c <= '9') || ('a' <= c && c <= 'f')
}

/// What `uuid::Uuid::parse_str` makes of a text: the identifier that it
/// reads, or `None` where it reports an error.
pub uninterp spec fn uuid_parsed(text: Seq<char>) -> Option<u128>;

/// The error of `uuid::Uuid::parse_str`.
#[verifier::external_type_specification]
#[verifier::external_body]
pub struct ExUuidError(uuid::Error);

/// Calls `uuid::Uuid::now_v7`, which builds an identifier from the system
/// clock, a counter and random bits. Nothing is claimed of the value. The
/// call panics where the system gives no random bytes, or a time before
/// 1970.
#[verifier::external_body]
pub(crate) fn generate_time_ordered() -> (id: u128) {
    uuid::Uuid::now_v7().as_u128()
}

/// Calls `uuid::Uuid::new_v4`, which builds an identifier from random bits.
/// Nothing is claimed of the value. The call panics where the system gives
/// no random bytes.
#[verifier::external_body]
pub(crate) fn generate_random() -> (id: u128) {
    uuid::Uuid::new_v4().as_u128()
}

/// Prints an identifier through `Display` of `uuid::Uuid`, which writes the
/// hyphenated lower-case form: the sixteen bytes in order, two digits each,
/// the high four bits first.
#[verifier::external_body]
pub(crate) fn hyphenated(id: u128) -> (text: String)
    ensures
        text@ == uuid_text(id),
{
    uuid::Uuid::from_u128(id).to_string()
}

/// Calls `uuid::Uuid::parse_str`. The claim is only that the result is the
/// one named by [`uuid_parsed`].
#[verifier::external_body]
pub(crate) fn parse(text: &str) -> (r: Result<u128, uuid::Error>)
    ensures
        r matches Ok(id) ==> uuid_parsed(text@) == Some(id),
        r is Err ==> uuid_parsed(text@) is None,
{
    match uuid::Uuid::parse_str(text) {
        Ok(id) => Ok(id.as_u128()),
        Err(e) => Err(e),
    }
}

/// Every digit of the hyphenated form is a lower-case hexadecimal digit.
pub proof fn lemma_hex_char_is_lower_hex(n: u128)
    ensures
        is_lower_hex(hex_char(n)),
        hex_char(n) != ' ',
        hex_char(n) != '-',
{
}

/// The hyphenated form is thirty-six characters long; each is a hyphen or a
/// lower-case hexadecimal digit, and the first eight are digits.
pub proof fn lemma_uuid_text_shape(id: u128)
    ensures
        uuid_text(id).len() == 36,
        forall|i: int|
            0 <= i < 36 ==> (#[trigger] uuid_text(id)[i] == '-' || is_lower_hex(uuid_text(id)[i])),
        forall|i: int| 0 <= i < 8 ==> is_lower_hex(#[trigger] uuid_text(id)[i]),
{
    assert forall|i: int| 0 <= i < 36 implies (#[trigger] uuid_text(id)[i] == '-' || is_lower_hex(
        uuid_text(id)[i],
    )) by {
        lemma_hex_char_is_lower_hex(nibble(id, i));
        lemma_hex_char_is_lower_hex(nibble(id, i - 1));
        lemma_hex_char_is_lower_hex(nibble(id, i - 2));
        lemma_hex_char_is_lower_hex(nibble(id, i - 3));
        lemma_hex_char_is_lower_hex(nibble(id, i - 4));
    }
    assert forall|i: int| 0 <= i < 8 implies is_lower_hex(#[trigger] uuid_text(id)[i]) by {
        lemma_hex_char_is_lower_hex(nibble(id, i));
    }
}

} // verus!

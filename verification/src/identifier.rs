//! 128-bit identifiers and their textual form.
//!
//! Parsing, formatting and random generation are done by the `uuid` crate.
//! The functions of this module are the only place where that crate is
//! called; their contracts are taken on trust from its source.

use vstd::prelude::*;

verus! {

/// The error value of the `uuid` crate, carried through unopened.
#[verifier::external_type_specification]
#[verifier::external_body]
pub struct ExUuidError(uuid::Error);

/// What `uuid::Uuid::try_parse` makes of a text: the identifier it reads, or
/// `None` where it rejects the text.
pub uninterp spec fn parsed_uuid(text: Seq<char>) -> Option<u128>;

/// The sixteen lower-case hexadecimal digits.
pub open spec fn hex_digits() -> Seq<char> {
    seq!['0', '1', '2', '3', '4', '5', '6', '7', '8', '9', 'a', 'b', 'c', 'd', 'e', 'f']
}

/// The `k`-th hexadecimal digit of `v`, counted from the most significant
/// (`k == 0`) to the least significant (`k == 31`).
pub open spec fn nibble(v: u128, k: int) -> int {
    (v as int / pow16(31 - k)) % 16
}

/// Sixteen to the power `n`.
pub open spec fn pow16(n: int) -> int
    decreases n,
{
    if n <= 0 {
        1
    } else {
        16 * pow16(n - 1)
    }
}

/// True at the four places of the hyphenated form that hold a hyphen.
pub open spec fn is_hyphen_position(i: int) -> bool {
    i == 8 || i == 13 || i == 18 || i == 23
}

/// The index of the hexadecimal digit that stands at place `i` of the
/// hyphenated form.
pub open spec fn digit_index(i: int) -> int {
    if i < 8 {
        i
    } else if i < 13 {
        i - 1
    } else if i < 18 {
        i - 2
    } else if i < 23 {
        i - 3
    } else {
        i - 4
    }
}

/// The canonical text of an identifier: 32 lower-case hexadecimal digits,
/// most significant first, in groups of 8, 4, 4, 4 and 12 separated by
/// hyphens.
pub open spec fn hyphenated(v: u128) -> Seq<char> {
    Seq::new(
        36,
        |i: int|
            if is_hyphen_position(i) {
                '-'
            } else {
                hex_digits()[nibble(v, digit_index(i))]
            },
    )
}

/// True of the identifiers that carry the marks of a randomly generated one:
/// version 4 and the RFC 4122 variant.
pub open spec fn is_random_form(v: u128) -> bool {
    v & 0x0000_0000_0000_f000_c000_0000_0000_0000u128
        == 0x0000_0000_0000_4000_8000_0000_0000_0000u128
}

/// Calls `uuid::Uuid::try_parse` and reads the identifier as a 128-bit
/// number, most significant byte first (`Uuid::as_u128`). The contract only
/// gives the outcome its name, `parsed_uuid`.
#[verifier::external_body]
pub(crate) fn parse_uuid(text: &str) -> (r: Result<u128, uuid::Error>)
    ensures
        r is Ok <==> parsed_uuid(text@) is Some,
        r matches Ok(v) ==> parsed_uuid(text@) == Some(v),
{
    match uuid::Uuid::try_parse(text) {
        Ok(id) => Ok(id.as_u128()),
        Err(e) => Err(e),
    }
}

/// Formats through the `Display` impl of `uuid::Uuid`, which writes the
/// lower-case hyphenated form of the sixteen bytes taken most significant
/// first (`Uuid::from_u128`). The contract also records that
/// `uuid::Uuid::try_parse` reads that text back as the same identifier.
#[verifier::external_body]
pub(crate) fn format_uuid(v: u128) -> (text: String)
    ensures
        text@ == hyphenated(v),
        parsed_uuid(text@) == Some(v),
{
    uuid::Uuid::from_u128(v).to_string()
}

/// Calls `uuid::Uuid::new_v4`, which draws 122 random bits and sets the
/// version and variant marks. Nothing else is known of the value.
#[verifier::external_body]
pub(crate) fn random_uuid() -> (v: u128)
    ensures
        is_random_form(v),
{
    uuid::Uuid::new_v4().as_u128()
}

/// The reason an identifier could not be read from a text.
#[derive(Debug, Clone, Copy, PartialEq, Eq, Structural)]
pub enum IdError {
    /// The text is none of the forms in which identifiers are written.
    Malformed,
}

} // verus!

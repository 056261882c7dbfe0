//! Identifiers. An identifier is a UUID, held as the 128-bit number that its
//! sixteen bytes spell in big-endian order. Making, reading and writing the
//! textual form is left to the `uuid` crate.

use vstd::prelude::*;

verus! {

#[verifier::external_type_specification]
#[verifier::external_body]
pub struct ExUuidError(uuid::Error);

/// What `uuid::Uuid::parse_str` makes of a text: the number of the UUID that
/// the text spells, or `None` where the crate rejects the text.
pub uninterp spec fn uuid_parse(text: Seq<char>) -> Option<u128>;

/// The character of a hexadecimal digit, in lower case.
pub open spec fn hex_char(d: nat) -> char {
    seq!['0', '1', '2', '3', '4', '5', '6', '7', '8', '9', 'a', 'b', 'c', 'd', 'e', 'f'][d as int]
}

/// The last `digits` hexadecimal digits of `n`, the most significant first.
pub open spec fn hex_text(n: nat, digits: nat) -> Seq<char>
    decreases digits,
{
    if digits == 0 {
        Seq::empty()
    } else {
        hex_text(n / 16, (digits - 1) as nat).push(hex_char(n % 16))
    }
}

/// The text of an identifier: its thirty-two hexadecimal digits in lower
/// case, in groups of eight, four, four, four and twelve with a hyphen
/// between the groups.
pub open spec fn uuid_text(id: u128) -> Seq<char> {
    let digits = hex_text(id as nat, 32);
    digits.subrange(0, 8) + seq!['-'] + digits.subrange(8, 12) + seq!['-'] + digits.subrange(
        12,
        16,
    ) + seq!['-'] + digits.subrange(16, 20) + seq!['-'] + digits.subrange(20, 32)
}

/// Whether `id` is the number of a random UUID: its version is 4 and its
/// variant is the one of RFC 4122. The other 122 bits are free.
pub open spec fn is_random_uuid(id: u128) -> bool {
    &&& (id / 0x1000_0000_0000_0000_0000) % 16 == 4
    &&& (id / 0x4000_0000_0000_0000) % 4 == 2
}

/// Calls `uuid::Uuid::parse_str` and gives the parsed UUID as a number
/// (`Uuid::as_u128`). The contract only names the result: the call succeeds
/// exactly where `uuid_parse` is `Some`, and then with that number. Which texts
/// the crate accepts is not stated here.
#[verifier::external_body]
pub(crate) fn parse_uuid(text: &str) -> (r: Result<u128, uuid::Error>)
    ensures
        match r {
            Ok(id) => uuid_parse(text@) == Some(id),
            Err(_) => uuid_parse(text@) is None,
        },
{
    match uuid::Uuid::parse_str(text) {
        Ok(uuid) => Ok(uuid.as_u128()),
        Err(e) => Err(e),
    }
}

/// Calls `uuid::Uuid::new_v4` and gives the new UUID as a number. The value
/// comes from the system's random source. The contract claims only what the
/// crate fixes in every such value: the version is 4 and the variant is the
/// one of RFC 4122. It does not claim that two calls differ. The call fails
/// only with the random source.
#[verifier::external_body]
pub(crate) fn fresh_id() -> (id: u128)
    ensures
        is_random_uuid(id),
{
    uuid::Uuid::new_v4().as_u128()
}

/// Builds the `uuid::Uuid` with this number (`Uuid::from_u128`) and formats it
/// with its `Display` impl. The contract claims that the text is the
/// hyphenated form in lower case, as the crate documents it.
#[verifier::external_body]
pub(crate) fn format_uuid(id: u128) -> (text: String)
    ensures
        text@ == uuid_text(id),
{
    uuid::Uuid::from_u128(id).to_string()
}

} // verus!

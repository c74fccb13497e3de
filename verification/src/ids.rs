//! Identifiers: users, authors and requests are identified by UUIDs, held here
//! as the `u128` that the UUID's sixteen bytes spell in big-endian order.

use vstd::prelude::*;
use vstd::arithmetic::power::pow;

verus! {

/// What `uuid::Uuid::parse_str` makes of a text: the UUID's value, or the
/// text of the error that it reports.
pub uninterp spec fn uuid_parse_str(text: Seq<char>) -> Result<u128, Seq<char>>;

/// What `uuid::Uuid::try_parse_ascii` makes of a byte string: the UUID's
/// value, or nothing.
pub uninterp spec fn uuid_parse_ascii(bytes: Seq<u8>) -> Option<u128>;

/// The lower-case hexadecimal digit of a value below 16.
pub open spec fn hex_digit_char(d: int) -> char {
    if d < 10 {
        (48 + d) as char
    } else {
        (87 + d) as char
    }
}

/// Hex digit `j` (0 is the most significant) of the 32 that spell a UUID.
pub open spec fn uuid_nibble(id: u128, j: int) -> int {
    (id as int / pow(16, (31 - j) as nat)) % 16
}

/// How many hyphens stand before position `i` of the hyphenated form.
pub open spec fn hyphens_before(i: int) -> int {
    if i > 23 {
        4
    } else if i > 18 {
        3
    } else if i > 13 {
        2
    } else if i > 8 {
        1
    } else {
        0
    }
}

/// The hyphenated lower-case text of a UUID: its 32 hex digits, most
/// significant first, in groups of 8, 4, 4, 4 and 12 joined by hyphens.
pub open spec fn uuid_hyphenated(id: u128) -> Seq<char> {
    Seq::new(
        36,
        |i: int|
            if i == 8 || i == 13 || i == 18 || i == 23 {
                '-'
            } else {
                hex_digit_char(uuid_nibble(id, i - hyphens_before(i)))
            },
    )
}

/// Whether a UUID is a random one in the RFC 9562 layout: version 4 (bits
/// 76 to 79 are 0100) and variant RFC 4122 (bits 62 and 63 are 10).
pub open spec fn is_v4(id: u128) -> bool {
    id & 0xF000_C000_0000_0000_0000u128 == 0x4000_8000_0000_0000_0000u128
}

/// A parse result with its error text taken by its view.
pub open spec fn result_view(res: Result<u128, String>) -> Result<u128, Seq<char>> {
    match res {
        Ok(id) => Ok(id),
        Err(msg) => Err(msg@),
    }
}

/// Parses a UUID with `uuid::Uuid::parse_str` and keeps its value
/// (`Uuid::as_u128`), or the `Display` text of the parse error. The contract
/// names the result, as a function of the text alone.
#[verifier::external_body]
pub(crate) fn parse_uuid_str(text: &str) -> (res: Result<u128, String>)
    ensures
        result_view(res) == uuid_parse_str(text@),
{
    match uuid::Uuid::parse_str(text) {
        Ok(id) => Ok(id.as_u128()),
        Err(e) => Err(e.to_string()),
    }
}

/// Parses a UUID from ASCII bytes with `uuid::Uuid::try_parse_ascii`, the
/// parser that `parse_str` runs on a text's bytes, and keeps its value. The
/// contract names the result; the source accepts only inputs of 32, 36, 38
/// or 45 bytes.
#[verifier::external_body]
pub(crate) fn parse_uuid_ascii(bytes: &[u8]) -> (res: Option<u128>)
    ensures
        res == uuid_parse_ascii(bytes@),
        res is Some ==> (bytes@.len() == 32 || bytes@.len() == 36 || bytes@.len() == 38
            || bytes@.len() == 45),
{
    uuid::Uuid::try_parse_ascii(bytes).ok().map(|id| id.as_u128())
}

/// A fresh random UUID from `uuid::Uuid::new_v4`. Its random bits are not
/// stated; the version and variant bits that `new_v4` masks in are.
#[verifier::external_body]
pub(crate) fn new_uuid_v4() -> (id: u128)
    ensures
        is_v4(id),
{
    uuid::Uuid::new_v4().as_u128()
}

/// The text that `uuid::Uuid`'s `Display` (`to_string`) writes for a UUID:
/// the lower-case hyphenated form, which `Uuid::parse_str` reads back as the
/// same UUID (the crate's documentation: `parse_str` accepts every format
/// that it writes).
#[verifier::external_body]
pub(crate) fn uuid_to_string(id: u128) -> (text: String)
    ensures
        text@ == uuid_hyphenated(id),
        uuid_parse_str(text@) == result_view(Ok(id)),
{
    uuid::Uuid::from_u128(id).to_string()
}

} // verus!

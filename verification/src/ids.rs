//! Identifiers: the 128-bit values of UUIDs, parsed from text or drawn at random.

use vstd::prelude::*;

verus! {

/// The value of the hexadecimal digit `c`, in either case.
pub open spec fn hex_digit_value(c: char) -> Option<int> {
    if '0' <= c && c <= '9' {
        Some(c as int - '0' as int)
    } else if 'a' <= c && c <= 'f' {
        Some(c as int - 'a' as int + 10)
    } else if 'A' <= c && c <= 'F' {
        Some(c as int - 'A' as int + 10)
    } else {
        None
    }
}

/// The number that the hexadecimal digits `s` spell, most significant first;
/// `None` where one of them is not a hexadecimal digit.
pub open spec fn hex_number(s: Seq<char>) -> Option<int>
    decreases s.len(),
{
    if s.len() == 0 {
        Some(0)
    } else {
        match (hex_number(s.drop_last()), hex_digit_value(s.last())) {
            (Some(high), Some(low)) => Some(high * 16 + low),
            _ => None,
        }
    }
}

/// The value of a UUID of 32 hexadecimal digits, read big-endian.
pub open spec fn simple_uuid_value(s: Seq<char>) -> Option<u128> {
    if s.len() == 32 {
        match hex_number(s) {
            Some(v) => Some(v as u128),
            None => None,
        }
    } else {
        None
    }
}

/// The value of a hyphenated UUID: 36 characters, hyphens at positions 8,
/// 13, 18 and 23 and hexadecimal digits elsewhere.
pub open spec fn hyphenated_uuid_value(s: Seq<char>) -> Option<u128> {
    if s.len() == 36 && s[8] == '-' && s[13] == '-' && s[18] == '-' && s[23] == '-' {
        simple_uuid_value(
            s.subrange(0, 8) + s.subrange(9, 13) + s.subrange(14, 18) + s.subrange(19, 23) + s.subrange(
                24,
                36,
            ),
        )
    } else {
        None
    }
}

/// `c` with an ASCII capital letter made small.
pub open spec fn ascii_lowercase(c: char) -> char {
    if 'A' <= c && c <= 'Z' {
        (c as int + 32) as char
    } else {
        c
    }
}

/// The value of the UUID that `uuid::Uuid::parse_str` reads from `text`, or
/// `None` where it refuses `text`: 32 hexadecimal digits; the hyphenated
/// form; the hyphenated form in braces; or `urn:uuid:` in any ASCII case
/// followed by the hyphenated form. The digits are read big-endian.
pub open spec fn uuid_text_value(text: Seq<char>) -> Option<u128> {
    if text.len() == 32 {
        simple_uuid_value(text)
    } else if text.len() == 36 {
        hyphenated_uuid_value(text)
    } else if text.len() == 38 && text[0] == '{' && text[37] == '}' {
        hyphenated_uuid_value(text.subrange(1, 37))
    } else if text.len() == 45 && text.subrange(0, 9).map_values(|c: char| ascii_lowercase(c))
        == "urn:uuid:"@ {
        hyphenated_uuid_value(text.subrange(9, 45))
    } else {
        None
    }
}

/// Calls `uuid::Uuid::parse_str` and takes the parsed UUID as its big-endian
/// 128-bit value (`Uuid::as_u128`). The parser dispatches on the byte length
/// of the text (32, 36, 38 or 45) and decodes hexadecimal digits; any
/// character outside ASCII makes it refuse the text, so counting characters
/// in place of bytes gives the same answers.
#[verifier::external_body]
pub(crate) fn parse_uuid(text: &str) -> (r: Option<u128>)
    ensures
        r == uuid_text_value(text@),
{
    uuid::Uuid::parse_str(text).ok().map(|u| u.as_u128())
}

/// Whether `v` carries the version and variant bits of a random (version 4,
/// RFC 4122 variant) UUID.
pub open spec fn is_random_uuid(v: u128) -> bool {
    &&& (v >> 76u128) & 0xfu128 == 4u128
    &&& (v >> 62u128) & 0x3u128 == 2u128
}

/// Calls `uuid::Uuid::new_v4`. The value is random; what holds of every
/// outcome is that `new_v4` masks in the version-4 nibble and the RFC 4122
/// variant bits.
#[verifier::external_body]
pub(crate) fn new_random_uuid() -> (r: u128)
    ensures
        is_random_uuid(r),
{
    uuid::Uuid::new_v4().as_u128()
}

} // verus!

//! Quote identifiers: 128-bit numbers, written by clients as UUID text.

use std::str::FromStr;
use uuid::Uuid;
use vstd::prelude::*;

verus! {

/// The failure that `uuid` reports for text that is no UUID.
#[verifier::external_type_specification]
#[verifier::external_body]
pub struct ExUuidError(uuid::Error);

/// The identifier that `text` spells, as `uuid` reads it, or `None` where
/// `text` is no UUID in any of the forms it accepts.
pub uninterp spec fn uuid_text_value(text: Seq<char>) -> Option<u128>;

/// Whether `id` carries the marks of a randomly drawn identifier: version 4
/// in bits 76 to 79 and the variant `10` in bits 63 and 62, bit 0 being the
/// least significant.
pub open spec fn is_random_id(id: u128) -> bool {
    id & 0x0000_0000_0000_f000_c000_0000_0000_0000 == 0x0000_0000_0000_4000_8000_0000_0000_0000
}

/// Reads `text` with `uuid::Uuid::from_str` and gives the identifier as a
/// big-endian number.
///
/// Trusted: the parser looks at the text alone, so the same text always
/// reads as the same identifier or always fails.
#[verifier::external_body]
fn parse_uuid(text: &str) -> (parsed: Result<u128, uuid::Error>)
    ensures
        match parsed {
            Ok(id) => uuid_text_value(text@) == Some(id),
            Err(_) => uuid_text_value(text@) is None,
        },
{
    match Uuid::from_str(text) {
        Ok(id) => Ok(id.as_u128()),
        Err(e) => Err(e),
    }
}

/// Draws an identifier with `uuid::Uuid::new_v4`.
///
/// Trusted: the result is random but for the version and variant bits,
/// which `new_v4` sets to 4 and `10`.
#[verifier::external_body]
fn random_uuid() -> (id: u128)
    ensures
        is_random_id(id),
{
    Uuid::new_v4().as_u128()
}

/// The identifier that `text` spells, if it spells one.
pub fn quote_id(text: &str) -> (id: Option<u128>)
    ensures
        id == uuid_text_value(text@),
{
    match parse_uuid(text) {
        Ok(id) => Some(id),
        Err(_) => None,
    }
}

/// A new identifier, drawn at random.
pub fn fresh_id() -> (id: u128)
    ensures
        is_random_id(id),
{
    random_uuid()
}

} // verus!

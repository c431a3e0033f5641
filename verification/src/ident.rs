//! Identifiers. Users and tokens are named by UUIDs, which the library holds
//! as the 128-bit number that the UUID's sixteen bytes spell, first byte
//! first.

use uuid::Uuid;
use vstd::prelude::*;

verus! {

/// The error type of the `uuid` crate; nothing is read from it.
#[verifier::external_type_specification]
#[verifier::external_body]
pub struct ExUuidError(uuid::Error);

/// The hexadecimal digit of `id` at place `place`, counted from the most
/// significant: `place` 0 is the top four bits, 31 the lowest four.
pub open spec fn hex_value(id: u128, place: int) -> u128 {
    (id >> ((4 * (31 - place)) as u128)) & 0xf
}

/// The character for a hexadecimal digit, in lower case.
pub open spec fn hex_char(value: u128) -> char {
    if value < 10 {
        (48 + value) as char
    } else {
        (87 + value) as char
    }
}

/// Whether a hyphen stands at index `at` of a hyphenated UUID.
pub open spec fn is_hyphen_at(at: int) -> bool {
    at == 8 || at == 13 || at == 18 || at == 23
}

/// The number of hyphens before index `at` of a hyphenated UUID.
pub open spec fn hyphens_before(at: int) -> int {
    if at <= 8 {
        0
    } else if at <= 13 {
        1
    } else if at <= 18 {
        2
    } else if at <= 23 {
        3
    } else {
        4
    }
}

/// The hyphenated lower-case form of a UUID: 32 hexadecimal digits, most
/// significant first, in groups of 8, 4, 4, 4 and 12.
pub open spec fn uuid_text(id: u128) -> Seq<char> {
    Seq::new(
        36,
        |at: int|
            if is_hyphen_at(at) {
                '-'
            } else {
                hex_char(hex_value(id, at - hyphens_before(at)))
            },
    )
}

/// What `uuid::Uuid::parse_str` makes of a text: the number of the UUID that
/// it reads, or `None` where it reports an error.
pub uninterp spec fn uuid_parse(text: Seq<char>) -> Option<u128>;

/// Calls `uuid::Uuid::parse_str`, then `Uuid::as_u128` on what it read.
///
/// Trusted: whether the text is accepted, and as which number, depends on
/// the text alone; and the hyphenated lower-case form of a UUID, one of the
/// forms that the parser documents, is read back as that UUID.
#[verifier::external_body]
pub(crate) fn parse_uuid(text: &str) -> (parsed: Result<u128, uuid::Error>)
    ensures
        match parsed {
            Ok(id) => uuid_parse(text@) == Some(id),
            Err(_) => uuid_parse(text@) is None,
        },
        forall|id: u128| text@ == #[trigger] uuid_text(id) ==> parsed is Ok && parsed->Ok_0 == id,
{
    match Uuid::parse_str(text) {
        Ok(id) => Ok(id.as_u128()),
        Err(error) => Err(error),
    }
}

/// The character for a hexadecimal digit, in lower case.
fn hex_char_of(value: u8) -> (ch: char)
    requires
        value < 16,
    ensures
        ch == hex_char(value as u128),
{
    if value < 10 {
        (48 + value) as char
    } else {
        (87 + value) as char
    }
}

/// The hexadecimal digit of `id` at place `place`.
fn hex_value_of(id: u128, place: u32) -> (value: u8)
    requires
        place < 32,
    ensures
        value == hex_value(id, place as int),
        value < 16,
{
    let shift: u32 = 4 * (31 - place);
    let low: u128 = (id >> shift) & 0xf;
    assert(low < 16) by (bit_vector)
        requires
            low == (id >> shift) & 0xf,
    ;
    assert(shift as u128 == (4 * (31 - place as int)) as u128);
    low as u8
}

/// Writes a UUID in hyphenated lower-case form, as `Uuid`'s `Display` does.
pub fn uuid_to_string(id: u128) -> (text: String)
    ensures
        text@ == uuid_text(id),
{
    let mut text = String::new();
    let mut at: u32 = 0;
    let mut place: u32 = 0;
    while at < 36
        invariant
            at <= 36,
            place == at - hyphens_before(at as int),
            text@.len() == at,
            forall|k: int| 0 <= k < at ==> text@[k] == uuid_text(id)[k],
        decreases 36 - at,
    {
        if at == 8 || at == 13 || at == 18 || at == 23 {
            text.push('-');
        } else {
            let value = hex_value_of(id, place);
            text.push(hex_char_of(value));
            place = place + 1;
        }
        at = at + 1;
    }
    assert(text@ =~= uuid_text(id));
    text
}

} // verus!

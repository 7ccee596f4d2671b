//! Outside types that the library carries through without reading them, and
//! the plain form of stored timestamps.
use vstd::arithmetic::power::pow;
use vstd::prelude::*;

verus! {

/// Identifiers of stored rows.
#[verifier::external_type_specification]
#[verifier::external_body]
pub struct ExUuid(uuid::Uuid);

/// `Uuid` is `Copy`; its derived `clone` returns the same identifier.
pub assume_specification[ <uuid::Uuid as Clone>::clone ](u: &uuid::Uuid) -> (r: uuid::Uuid)
    ensures
        r == *u,
;

/// A stored UTC timestamp as microseconds since the Unix epoch; the adapter
/// converts `chrono::DateTime<Utc>` values to and from it without loss.
#[derive(Clone, Copy, Debug, PartialEq, Eq, PartialOrd, Ord, Hash, Structural)]
pub struct Timestamp {
    pub micros: i64,
}

/// Calls `Uuid`'s derived `PartialEq`, which compares the sixteen bytes.
#[verifier::external_body]
pub(crate) fn same_uuid(a: &uuid::Uuid, b: &uuid::Uuid) -> (r: bool)
    ensures
        r == (*a == *b),
{
    a == b
}

/// The lowercase hexadecimal digit of a value below 16.
pub open spec fn hex_char(d: int) -> char {
    if d < 10 {
        (48 + d) as char
    } else {
        (87 + d) as char
    }
}

/// The 32 hexadecimal digits of a 128-bit value, most significant first.
pub open spec fn hex_digits(bits: u128) -> Seq<char> {
    Seq::new(32, |i: int| hex_char((bits as int / pow(16, (31 - i) as nat)) % 16))
}

/// The hyphenated form of an identifier: its digits grouped 8-4-4-4-12.
pub open spec fn hyphenated_uuid(bits: u128) -> Seq<char> {
    let h = hex_digits(bits);
    h.subrange(0, 8) + seq!['-'] + h.subrange(8, 12) + seq!['-'] + h.subrange(12, 16) + seq!['-']
        + h.subrange(16, 20) + seq!['-'] + h.subrange(20, 32)
}

/// Calls `Uuid::from_u128` (the value's bytes in big-endian order) and the
/// `Display` of `Uuid`, which writes the hyphenated lowercase form.
#[verifier::external_body]
pub(crate) fn uuid_text(bits: u128) -> (r: String)
    ensures
        r@ == hyphenated_uuid(bits),
{
    uuid::Uuid::from_u128(bits).to_string()
}

/// The version field of an identifier: the high four bits of its seventh
/// byte (bits 76 to 79 of the 128-bit value).
pub open spec fn uuid_version_field(bits: u128) -> int {
    (bits as int / pow(2, 76)) % 16
}

/// Calls `Uuid::from_u128` and `Uuid::get_version_num`, which reads the high
/// nibble of byte 6.
#[verifier::external_body]
pub(crate) fn uuid_version(bits: u128) -> (r: usize)
    ensures
        r as int == uuid_version_field(bits),
{
    uuid::Uuid::from_u128(bits).get_version_num()
}

/// The 128-bit value of an identifier, as `Uuid::as_u128` reads its sixteen
/// bytes in big-endian order.
pub uninterp spec fn uuid_bits(u: uuid::Uuid) -> u128;

/// Formats an identifier with `<Uuid as Debug>::fmt`, which writes the same
/// hyphenated lowercase form of its bytes as its `Display`.
#[verifier::external_body]
pub(crate) fn uuid_debug(u: &uuid::Uuid) -> (r: String)
    ensures
        r@ == hyphenated_uuid(uuid_bits(*u)),
{
    format!("{:?}", u)
}

} // verus!

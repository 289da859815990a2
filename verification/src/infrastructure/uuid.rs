//! Account identifiers.

use vstd::prelude::*;

verus! {

/// A universally unique identifier, held as its 128 bits with the first
/// byte of the identifier in the highest place.
#[derive(Debug, Clone, Copy, PartialEq, Eq, Structural, Hash)]
pub struct Uuid {
    pub bits: u128,
}

/// The identifier that `uuid::Uuid::parse_str` reads from a text, as its 128
/// bits; `None` where the text is no identifier.
pub uninterp spec fn uuid_parsed(text: Seq<char>) -> Option<u128>;

/// The hyphenated, lower-case text of the identifier with the given bits, as
/// the `Display` of `uuid::Uuid` writes it.
pub uninterp spec fn uuid_hyphenated(bits: u128) -> Seq<char>;

/// The version field of an identifier with the given bits.
pub open spec fn version_of(bits: u128) -> u128 {
    (bits >> 76) & 0xf
}

/// The two variant bits of an identifier with the given bits.
pub open spec fn variant_of(bits: u128) -> u128 {
    (bits >> 62) & 0x3
}

/// Calls `uuid::Timestamp::now` without a context and `uuid::Uuid::new_v7`
/// on the result, and hands out the identifier's bits with `as_u128`. The
/// bits depend on the clock and on chance; whatever they are, the version
/// field is 7 and the variant bits are `10`.
#[verifier::external_body]
fn fresh_v7_bits() -> (bits: u128)
    ensures
        version_of(bits) == 7,
        variant_of(bits) == 2,
{
    uuid::Uuid::new_v7(uuid::Timestamp::now(uuid::NoContext)).as_u128()
}

/// Calls `uuid::Uuid::parse_str` and hands out the bits of what it read with
/// `as_u128`, or the parser's complaint as text. The contract names what was
/// read [`uuid_parsed`]; of the complaint it states nothing.
#[verifier::external_body]
fn parse_bits(text: &str) -> (r: Result<u128, String>)
    ensures
        match r {
            Ok(bits) => uuid_parsed(text@) == Some(bits),
            Err(_) => uuid_parsed(text@) is None,
        },
{
    uuid::Uuid::parse_str(text).map(|id| id.as_u128()).map_err(|e| e.to_string())
}

/// Builds the identifier with `uuid::Uuid::from_u128` and writes it with its
/// `Display`. The contract names the text [`uuid_hyphenated`] and states that
/// the parser reads the same identifier back from it.
#[verifier::external_body]
fn hyphenated_text(bits: u128) -> (text: String)
    ensures
        text@ == uuid_hyphenated(bits),
        uuid_parsed(text@) == Some(bits),
{
    uuid::Uuid::from_u128(bits).to_string()
}

impl Uuid {
    /// The version field.
    pub open spec fn spec_version(&self) -> u128 {
        version_of(self.bits)
    }

    /// The version field.
    pub fn version(&self) -> (v: u8)
        ensures
            v == self.spec_version(),
    {
        let bits = self.bits;
        let v: u128 = (bits >> 76) & 0xf;
        assert(((bits >> 76) & 0xf) < 16) by (bit_vector);
        v as u8
    }

    /// Reads an identifier from its text form; fails with the parser's complaint.
    pub fn parse_str(text: &str) -> (r: Result<Uuid, String>)
        ensures
            match r {
                Ok(id) => uuid_parsed(text@) == Some(id.bits),
                Err(_) => uuid_parsed(text@) is None,
            },
    {
        match parse_bits(text) {
            Ok(bits) => Ok(Uuid { bits }),
            Err(complaint) => Err(complaint),
        }
    }

    /// The hyphenated text form, which [`Uuid::parse_str`] reads back.
    pub fn to_string(&self) -> (text: String)
        ensures
            text@ == uuid_hyphenated(self.bits),
            uuid_parsed(text@) == Some(self.bits),
    {
        hyphenated_text(self.bits)
    }
}

/// A fresh time-ordered identifier (version 7).
pub fn generate_uuid() -> (id: Uuid)
    ensures
        id.spec_version() == 7,
        variant_of(id.bits) == 2,
{
    Uuid { bits: fresh_v7_bits() }
}

} // verus!

//! Reading and writing the few pieces of JSON the library handles itself.

use vstd::prelude::*;

verus! {

/// The compact JSON text of a string: quoted, with the characters that JSON
/// asks for escaped, as `serde_json` writes it.
pub uninterp spec fn json_string_literal(s: Seq<char>) -> Seq<char>;

/// The text under `key` of the JSON object that `doc` holds, as `serde_json`
/// reads it; `None` where `doc` is no JSON object, has no such member or the
/// member is no string.
pub uninterp spec fn json_text_member(doc: Seq<u8>, key: Seq<char>) -> Option<Seq<char>>;

/// The number under `key` of the JSON object that `doc` holds, as
/// `serde_json` reads it; `None` where `doc` is no JSON object, has no such
/// member or the member is no integer from 0 to 2^64 - 1.
pub uninterp spec fn json_u64_member(doc: Seq<u8>, key: Seq<char>) -> Option<u64>;

/// Builds a `serde_json::Value` from the text with `Value::from` and writes
/// it with its `Display`, which gives compact JSON. The contract names the
/// result [`json_string_literal`].
#[verifier::external_body]
pub(crate) fn json_text_of(s: &str) -> (text: String)
    ensures
        text@ == json_string_literal(s@),
{
    serde_json::Value::from(s).to_string()
}

/// Parses `doc` with `serde_json::from_slice` into a `serde_json::Value`,
/// looks `key` up with `Value::get` and reads the member with
/// `Value::as_str`. The contract names the result [`json_text_member`].
#[verifier::external_body]
pub(crate) fn text_member(doc: &[u8], key: &str) -> (r: Option<String>)
    ensures
        match r {
            Some(text) => json_text_member(doc@, key@) == Some(text@),
            None => json_text_member(doc@, key@) is None,
        },
{
    serde_json::from_slice::<serde_json::Value>(doc).ok()?.get(key)?.as_str().map(|s| s.to_owned())
}

/// Parses `doc` with `serde_json::from_slice` into a `serde_json::Value`,
/// looks `key` up with `Value::get` and reads the member with
/// `Value::as_u64`. The contract names the result [`json_u64_member`].
#[verifier::external_body]
pub(crate) fn u64_member(doc: &[u8], key: &str) -> (r: Option<u64>)
    ensures
        r == json_u64_member(doc@, key@),
{
    serde_json::from_slice::<serde_json::Value>(doc).ok()?.get(key)?.as_u64()
}

} // verus!

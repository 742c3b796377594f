//! The text and byte encodings that the library hands to std, base64 and
//! serde_json.
use vstd::prelude::*;
use vstd::utf8::{decode_utf8, is_ascii_chars, valid_utf8};
use base64::Engine;

verus! {

/// The standard base64 text (with padding) of a byte string, as bytes.
pub uninterp spec fn base64_text(bytes: Seq<u8>) -> Seq<u8>;

/// What standard base64 decoding gives for a text, `None` where the text is
/// not valid padded base64.
pub uninterp spec fn base64_bytes(text: Seq<u8>) -> Option<Seq<u8>>;

/// Whether serde_json parses the text as one JSON value.
pub uninterp spec fn json_accepts(text: Seq<char>) -> bool;

/// The compact JSON text of member `key` of the JSON object that a text
/// holds; `None` when the text is not a JSON object or has no such member.
pub uninterp spec fn json_member_of(text: Seq<char>, key: Seq<char>) -> Option<Seq<char>>;

/// The string that a text holds when it is one JSON string value.
pub uninterp spec fn json_string_of(text: Seq<char>) -> Option<Seq<char>>;

/// The lower-case form of a text, as `str::to_lowercase` gives it.
pub uninterp spec fn lower_of(text: Seq<char>) -> Seq<char>;

/// Relies on base64's `Engine::encode` with the standard alphabet and padding:
/// `Engine::decode` reads its output back to the input. The length bound keeps
/// the output size computation and allocation from failing, where the crate
/// panics.
#[verifier::external_body]
pub(crate) fn encode_base64(bytes: &[u8]) -> (r: Vec<u8>)
    requires
        bytes@.len() <= usize::MAX / 4,
    ensures
        r@ == base64_text(bytes@),
        base64_bytes(r@) == Some(bytes@),
{
    base64::prelude::BASE64_STANDARD.encode(bytes).into_bytes()
}

/// Relies on base64's `Engine::decode` with the standard alphabet and padding:
/// the bytes that the text encodes, or a failure where it is not valid base64.
#[verifier::external_body]
pub(crate) fn decode_base64(text: &[u8]) -> (r: Option<Vec<u8>>)
    ensures
        match r {
            Some(v) => base64_bytes(text@) == Some(v@),
            None => base64_bytes(text@) is None,
        },
{
    base64::prelude::BASE64_STANDARD.decode(text).ok()
}

/// Relies on `String::from_utf8`: it accepts exactly the valid UTF-8 byte
/// strings and keeps the characters they encode.
#[verifier::external_body]
pub(crate) fn utf8_string(bytes: Vec<u8>) -> (r: Option<String>)
    ensures
        r is Some <==> valid_utf8(bytes@),
        match r {
            Some(s) => s@ == decode_utf8(bytes@),
            None => true,
        },
{
    String::from_utf8(bytes).ok()
}

/// Relies on `serde_json::from_str` into a `serde_json::Value`: whether the
/// text is one well-formed JSON value.
#[verifier::external_body]
pub(crate) fn is_json(text: &str) -> (r: bool)
    ensures
        r == json_accepts(text@),
{
    serde_json::from_str::<serde_json::Value>(text).is_ok()
}

/// Relies on `serde_json::from_str` into a `serde_json::Value`, and on
/// `Value`'s `Display` for the compact text of the member found.
#[verifier::external_body]
pub(crate) fn json_member(text: &str, key: &str) -> (r: Option<String>)
    ensures
        match r {
            Some(m) => json_member_of(text@, key@) == Some(m@),
            None => json_member_of(text@, key@) is None,
        },
{
    match serde_json::from_str::<serde_json::Value>(text) {
        Ok(serde_json::Value::Object(members)) => members.get(key).map(|v| v.to_string()),
        _ => None,
    }
}

/// Relies on `serde_json::from_str` into a `serde_json::Value`: the string
/// of a text that is one JSON string.
#[verifier::external_body]
pub(crate) fn json_string(text: &str) -> (r: Option<String>)
    ensures
        match r {
            Some(v) => json_string_of(text@) == Some(v@),
            None => json_string_of(text@) is None,
        },
{
    match serde_json::from_str::<serde_json::Value>(text) {
        Ok(serde_json::Value::String(v)) => Some(v),
        _ => None,
    }
}

/// The lower-case form of an ASCII character: `A` to `Z` become `a` to `z`.
pub open spec fn ascii_lower(c: char) -> char {
    if 'A' <= c <= 'Z' {
        ((c as u32) + 32) as char
    } else {
        c
    }
}

/// Relies on `str::to_lowercase`: the result depends on the characters alone,
/// an empty text stays empty, and ASCII text is lowered letter by letter.
#[verifier::external_body]
pub(crate) fn lowercase(text: &str) -> (r: String)
    ensures
        r@ == lower_of(text@),
        text@.len() == 0 ==> r@.len() == 0,
        is_ascii_chars(text@) ==> r@ == text@.map_values(|c: char| ascii_lower(c)),
{
    text.to_lowercase()
}

} // verus!

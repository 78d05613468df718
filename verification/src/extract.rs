//! The payload extractor: reads the routing signal out of an assembled
//! request body, tolerating malformed or non-text input.

use vstd::prelude::*;

verus! {

/// The string value of the named top-level field of the JSON document whose
/// UTF-8 encoding is `body`: `None` when the bytes are not valid UTF-8 text,
/// when the text does not parse as a JSON document, when the field is absent,
/// or when its value is not a string. A function of the bytes and the field
/// name alone.
pub uninterp spec fn json_string_field(body: Seq<u8>, field: Seq<char>) -> Option<Seq<char>>;

/// Relies on `core::str::from_utf8`, `serde_json::from_str::<serde_json::Value>`,
/// `serde_json::Value::get` and `serde_json::Value::as_str`: decodes the body
/// as UTF-8 text, parses the text as a JSON document, and reads the named
/// top-level field as a string; each stage yields `None` on failure, and the
/// result depends on `body` and `field` alone.
#[verifier::external_body]
fn json_string_field_of(body: &[u8], field: &str) -> (r: Option<String>)
    ensures
        r.deep_view() == json_string_field(body@, field@),
{
    let text = match core::str::from_utf8(body) {
        Ok(t) => t,
        Err(_) => return None,
    };
    let doc: serde_json::Value = match serde_json::from_str(text) {
        Ok(v) => v,
        Err(_) => return None,
    };
    match doc.get(field) {
        Some(value) => value.as_str().map(|s| s.to_string()),
        None => None,
    }
}

/// The signal an assembled body yields: nothing for an empty body, otherwise
/// the named field's string value if the body carries one.
pub open spec fn signal_spec(body: Seq<u8>, field: Seq<char>) -> Option<Seq<char>> {
    if body.len() == 0 {
        Option::None
    } else {
        json_string_field(body, field)
    }
}

/// Extracts the routing signal from an assembled body. A body that is not
/// text, not a structured document, or lacks a string-valued field of the
/// given name yields no signal rather than an error.
pub fn extract_field(body: &Vec<u8>, field: &str) -> (r: Option<String>)
    ensures
        r.deep_view() == signal_spec(body@, field@),
{
    if body.len() == 0 {
        Option::None
    } else {
        json_string_field_of(body.as_slice(), field)
    }
}

} // verus!

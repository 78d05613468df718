//! Filter configuration: a single boolean flag parsed permissively from the
//! configuration text supplied at filter-chain setup. Absent or malformed
//! input degrades to the default configuration and never surfaces an error.

use vstd::prelude::*;

verus! {

/// The boolean value of the named top-level field of the JSON document
/// `text`: `None` when the text does not parse as a JSON document, when the
/// field is absent, or when its value is not a boolean. A function of the
/// text and the field name alone.
pub uninterp spec fn json_bool_field(text: Seq<char>, field: Seq<char>) -> Option<bool>;

/// Relies on `serde_json::from_str::<serde_json::Value>`,
/// `serde_json::Value::get` and `serde_json::Value::as_bool`: parses the text
/// as a JSON document and reads the named top-level field as a boolean;
/// `None` on any failure, and the result depends on `text` and `field` alone.
#[verifier::external_body]
fn json_bool_field_of(text: &str, field: &str) -> (r: Option<bool>)
    ensures
        r == json_bool_field(text@, field@),
{
    let doc: serde_json::Value = match serde_json::from_str(text) {
        Ok(v) => v,
        Err(_) => return None,
    };
    match doc.get(field) {
        Some(value) => value.as_bool(),
        None => None,
    }
}

/// The whitespace characters the blank check recognizes.
pub open spec fn is_space_char(c: char) -> bool {
    c == ' ' || c == '\t' || c == '\n' || c == '\r'
}

/// A text is blank when every character is whitespace; an empty text is blank.
pub open spec fn is_blank(text: Seq<char>) -> bool {
    forall|i: int| 0 <= i < text.len() ==> is_space_char(#[trigger] text[i])
}

fn str_is_blank(text: &str) -> (r: bool)
    ensures
        r == is_blank(text@),
{
    let n = text.unicode_len();
    let mut i: usize = 0;
    while i < n
        invariant
            n == text@.len(),
            i <= n,
            forall|k: int| 0 <= k < i ==> is_space_char(#[trigger] text@[k]),
        decreases n - i,
    {
        let c = text.get_char(i);
        if !(c == ' ' || c == '\t' || c == '\n' || c == '\r') {
            return false;
        }
        i += 1;
    }
    true
}

/// The debug flag a configuration text denotes: `false` for blank text and
/// for any text that is not a JSON document whose boolean `debug` field is
/// `true`.
pub open spec fn debug_flag_spec(text: Seq<char>) -> bool {
    if is_blank(text) {
        false
    } else {
        json_bool_field(text, "debug"@) == Option::Some(true)
    }
}

/// Configuration of one filter-chain instance. `debug` controls the
/// verbosity of auxiliary diagnostics only; it has no effect on routing.
pub struct FilterConfig {
    pub debug: bool,
}

impl FilterConfig {
    /// Parses the configuration text. Blank input yields the default
    /// configuration; input that fails to parse, or parses to anything but a
    /// document whose `debug` field is a boolean, is swallowed and yields the
    /// default as well.
    pub fn new(filter_config: &str) -> (r: FilterConfig)
        ensures
            r.debug == debug_flag_spec(filter_config@),
    {
        if str_is_blank(filter_config) {
            FilterConfig { debug: false }
        } else {
            match json_bool_field_of(filter_config, "debug") {
                Option::Some(b) => FilterConfig { debug: b },
                Option::None => FilterConfig { debug: false },
            }
        }
    }
}

} // verus!

//! The calls into `serde_json` and `urlencoding` that the client relies on.
//!
//! Each result is named by a spec function of the text it is computed from,
//! so that the logic around the calls can be stated exactly.
use vstd::prelude::*;

verus! {

/// Why `serde_json` refuses a text as a JSON value, or `None` where it
/// accepts it.
pub uninterp spec fn json_error(text: Seq<char>) -> Option<Seq<char>>;

/// The string held under `key` in the JSON object that `text` holds, or
/// `None` where `text` is no JSON object with a string member under `key`.
pub uninterp spec fn json_string_member(text: Seq<char>, key: Seq<char>) -> Option<Seq<char>>;

/// The compact form in which `serde_json` writes the JSON value that `text`
/// holds.
pub uninterp spec fn json_compact(text: Seq<char>) -> Seq<char>;

/// A text written as a JSON string literal, quotes and escapes included.
pub uninterp spec fn json_quoted(text: Seq<char>) -> Seq<char>;

/// A text with every byte of its UTF-8 form percent-encoded, except ASCII
/// letters, digits and `-`, `_`, `.`, `~`.
pub uninterp spec fn url_encoded(text: Seq<char>) -> Seq<char>;

/// The text of an optional string.
pub open spec fn opt_text(o: Option<String>) -> Option<Seq<char>> {
    match o {
        Some(t) => Some(t@),
        None => None,
    }
}

/// Relies on `serde_json::from_str::<Value>` and the `Display` of its error:
/// `None` for a text that `serde_json` accepts, else the reason it gives.
#[verifier::external_body]
pub(crate) fn json_syntax_error(text: &str) -> (r: Option<String>)
    ensures
        opt_text(r) == json_error(text@),
{
    match serde_json::from_str::<serde_json::Value>(text) {
        Ok(_) => None,
        Err(e) => Some(e.to_string()),
    }
}

/// Relies on `serde_json::from_str::<Value>`, `Value::get` and
/// `Value::as_str`: the string member of a JSON object under `key`.
#[verifier::external_body]
pub(crate) fn string_member(text: &str, key: &str) -> (r: Option<String>)
    ensures
        opt_text(r) == json_string_member(text@, key@),
{
    match serde_json::from_str::<serde_json::Value>(text) {
        Ok(v) => v.get(key).and_then(|m| m.as_str()).map(|m| m.to_string()),
        Err(_) => None,
    }
}

/// Relies on `serde_json::from_str::<Value>` and the `Display` of `Value`:
/// the value that a text holds, written back in compact form.
#[verifier::external_body]
pub(crate) fn compact_json(text: &str) -> (r: String)
    ensures
        r@ == json_compact(text@),
{
    match serde_json::from_str::<serde_json::Value>(text) {
        Ok(v) => v.to_string(),
        Err(_) => String::new(),
    }
}

/// Relies on `serde_json::to_string` on a `str`: the text as a JSON string
/// literal. Writing a string into memory never fails.
#[verifier::external_body]
pub(crate) fn quote_json(text: &str) -> (r: String)
    ensures
        r@ == json_quoted(text@),
{
    match serde_json::to_string(text) {
        Ok(q) => q,
        Err(_) => String::new(),
    }
}

/// Relies on `urlencoding::encode`: the percent-encoded form of a text, with
/// an empty text left empty.
#[verifier::external_body]
pub(crate) fn url_encode(text: &str) -> (r: String)
    ensures
        r@ == url_encoded(text@),
        text@.len() == 0 ==> r@.len() == 0,
{
    urlencoding::encode(text).into_owned()
}

} // verus!

//! Trusted probes into the text of a configuration file.
//!
//! A structurally old configuration file cannot be decoded against the
//! current schema, so the store inspects it as an untyped document: is it a
//! JSON object, and which of a handful of named fields does it carry, with
//! which primitive values. Each probe below parses the text and answers one
//! such question through `serde_json`; the uninterpreted functions name the
//! answers, which depend on the text and the key alone.

use vstd::prelude::*;

verus! {

/// What probing `text` for being a JSON object answers: `None` when the
/// text is not valid JSON at all, otherwise whether its top value is an
/// object.
pub uninterp spec fn json_object_probe(text: Seq<char>) -> Option<bool>;

/// The top-level field `key` of the JSON object in `text`, read as an
/// `i64`; `None` when the text does not parse, the field is absent, or it
/// is not an integer in `i64` range.
pub uninterp spec fn json_i64_field(text: Seq<char>, key: Seq<char>) -> Option<i64>;

/// The top-level field `key` of the JSON object in `text`, read as a
/// `u64`; `None` when the text does not parse, the field is absent, or it
/// is not an integer in `u64` range.
pub uninterp spec fn json_u64_field(text: Seq<char>, key: Seq<char>) -> Option<u64>;

/// The top-level field `key` of the JSON object in `text`, read as a
/// boolean; `None` when the text does not parse, the field is absent, or
/// it is not a boolean.
pub uninterp spec fn json_bool_field(text: Seq<char>, key: Seq<char>) -> Option<bool>;

/// The top-level field `key` of the JSON object in `text`, read as a
/// string; `None` when the text does not parse, the field is absent, or it
/// is not a string.
pub uninterp spec fn json_str_field(text: Seq<char>, key: Seq<char>) -> Option<Seq<char>>;

/// The view of an optional owned string.
pub open spec fn opt_string_view(o: Option<String>) -> Option<Seq<char>> {
    match o {
        Some(s) => Some(s@),
        None => None,
    }
}

/// Relies on `serde_json::from_str::<Value>` (a deterministic parse of the
/// text) and `serde_json::Value::is_object`.
#[verifier::external_body]
pub(crate) fn probe_is_object(text: &str) -> (r: Option<bool>)
    ensures
        r == json_object_probe(text@),
{
    match serde_json::from_str::<serde_json::Value>(text) {
        Ok(v) => Some(v.is_object()),
        Err(_) => None,
    }
}

/// Relies on `serde_json::from_str::<Value>`, `Value::get` and
/// `Value::as_i64`, all deterministic in the text and the key.
#[verifier::external_body]
pub(crate) fn probe_i64_field(text: &str, key: &str) -> (r: Option<i64>)
    ensures
        r == json_i64_field(text@, key@),
{
    match serde_json::from_str::<serde_json::Value>(text) {
        Ok(v) => match v.get(key) {
            Some(field) => field.as_i64(),
            None => None,
        },
        Err(_) => None,
    }
}

/// Relies on `serde_json::from_str::<Value>`, `Value::get` and
/// `Value::as_u64`, all deterministic in the text and the key.
#[verifier::external_body]
pub(crate) fn probe_u64_field(text: &str, key: &str) -> (r: Option<u64>)
    ensures
        r == json_u64_field(text@, key@),
{
    match serde_json::from_str::<serde_json::Value>(text) {
        Ok(v) => match v.get(key) {
            Some(field) => field.as_u64(),
            None => None,
        },
        Err(_) => None,
    }
}

/// Relies on `serde_json::from_str::<Value>`, `Value::get` and
/// `Value::as_bool`, all deterministic in the text and the key.
#[verifier::external_body]
pub(crate) fn probe_bool_field(text: &str, key: &str) -> (r: Option<bool>)
    ensures
        r == json_bool_field(text@, key@),
{
    match serde_json::from_str::<serde_json::Value>(text) {
        Ok(v) => match v.get(key) {
            Some(field) => field.as_bool(),
            None => None,
        },
        Err(_) => None,
    }
}

/// Relies on `serde_json::from_str::<Value>`, `Value::get` and
/// `Value::as_str`, all deterministic in the text and the key.
#[verifier::external_body]
pub(crate) fn probe_str_field(text: &str, key: &str) -> (r: Option<String>)
    ensures
        opt_string_view(r) == json_str_field(text@, key@),
{
    match serde_json::from_str::<serde_json::Value>(text) {
        Ok(v) => match v.get(key) {
            Some(field) => match field.as_str() {
                Some(s) => Some(s.to_string()),
                None => None,
            },
            None => None,
        },
        Err(_) => None,
    }
}

} // verus!

//! Trusted declarations around `serde_json`: parsing a document and reading
//! fields out of an opaque JSON value as plain values.
//!
//! A [`serde_json::Value`] is opaque here. What a read returns is a function
//! of the value and the field named, so each getter's result carries an
//! uninterpreted name, and the verified extraction logic is exact over those
//! names.
use vstd::prelude::*;

verus! {

#[verifier::external_type_specification]
#[verifier::external_body]
pub struct ExValue(serde_json::Value);

/// Whether `serde_json::from_str` accepts a document; parsing depends on the
/// document's text alone.
pub uninterp spec fn json_parses(s: Seq<char>) -> bool;

/// The named field of a JSON value, where it is a string: `None` where the
/// value is not an object, the field is absent, or it is not a string.
pub uninterp spec fn spec_str_field(v: serde_json::Value, key: Seq<char>) -> Option<Seq<char>>;

/// The named field of a JSON value, where it is an unsigned integer.
pub uninterp spec fn spec_u64_field(v: serde_json::Value, key: Seq<char>) -> Option<u64>;

/// The named field of a JSON value read as an array of strings: `None` where
/// the field is absent, `Some(None)` where it is present but not an array of
/// strings throughout, `Some(Some(items))` otherwise.
pub uninterp spec fn spec_str_array_field(v: serde_json::Value, key: Seq<char>) -> Option<
    Option<Seq<Seq<char>>>,
>;

/// The length of the named array field of a JSON value: `None` where the
/// field is absent or not an array.
pub uninterp spec fn spec_array_field_len(v: serde_json::Value, key: Seq<char>) -> Option<usize>;

/// The named string field of the indexed element of the named array field:
/// `None` where anything along that path is absent or of another kind.
pub uninterp spec fn spec_elem_str_field(
    v: serde_json::Value,
    key: Seq<char>,
    i: int,
    field: Seq<char>,
) -> Option<Seq<char>>;

/// Relies on `serde_json::from_str`: parses a JSON document, or fails on
/// malformed input; the outcome depends on the text alone.
#[verifier::external_body]
pub(crate) fn json_from_str(s: &str) -> (r: Option<serde_json::Value>)
    ensures
        r is Some <==> json_parses(s@),
{
    serde_json::from_str(s).ok()
}

/// Relies on `serde_json::Value::get` and `Value::as_str`: reads a string
/// field out of a JSON object; the outcome depends on the value and the key
/// alone.
#[verifier::external_body]
pub(crate) fn string_field(v: &serde_json::Value, key: &str) -> (r: Option<String>)
    ensures
        match r {
            Some(s) => spec_str_field(*v, key@) == Some(s@),
            None => spec_str_field(*v, key@) is None,
        },
{
    v.get(key).and_then(|f| f.as_str()).map(|s| s.to_string())
}

/// Relies on `serde_json::Value::get` and `Value::as_u64`: reads an
/// unsigned-integer field out of a JSON object; the outcome depends on the
/// value and the key alone.
#[verifier::external_body]
pub(crate) fn u64_field(v: &serde_json::Value, key: &str) -> (r: Option<u64>)
    ensures
        match r {
            Some(n) => spec_u64_field(*v, key@) == Some(n),
            None => spec_u64_field(*v, key@) is None,
        },
{
    v.get(key).and_then(|f| f.as_u64())
}

/// Relies on `serde_json::Value::get`, `Value::as_array` and `Value::as_str`:
/// reads a field as an array of strings, telling an absent field apart from
/// a present one of the wrong shape; the outcome depends on the value and
/// the key alone.
#[verifier::external_body]
pub(crate) fn str_array_field(v: &serde_json::Value, key: &str) -> (r: Option<
    Option<Vec<String>>,
>)
    ensures
        match r {
            Some(Some(items)) => spec_str_array_field(*v, key@) == Some(
                Some(items.deep_view()),
            ),
            Some(None) => spec_str_array_field(*v, key@) matches Some(inner) && inner is None,
            None => spec_str_array_field(*v, key@) is None,
        },
{
    match v.get(key) {
        None => None,
        Some(f) => match f.as_array() {
            None => Some(None),
            Some(arr) => Some(
                arr.iter().map(|e| e.as_str().map(|s| s.to_string())).collect::<Option<Vec<String>>>(),
            ),
        },
    }
}

/// Relies on `serde_json::Value::get` and `Value::as_array`: the length of
/// an array field; the outcome depends on the value and the key alone.
#[verifier::external_body]
pub(crate) fn array_field_len(v: &serde_json::Value, key: &str) -> (r: Option<usize>)
    ensures
        match r {
            Some(n) => spec_array_field_len(*v, key@) == Some(n),
            None => spec_array_field_len(*v, key@) is None,
        },
{
    v.get(key).and_then(|f| f.as_array()).map(|a| a.len())
}

/// Relies on `serde_json::Value::get`, `Value::as_array`, slice `get` and
/// `Value::as_str`: reads a string field of one element of an array field;
/// the outcome depends on the value, the key, the index and the field alone.
#[verifier::external_body]
pub(crate) fn elem_string_field(v: &serde_json::Value, key: &str, i: usize, field: &str) -> (r:
    Option<String>)
    ensures
        match r {
            Some(s) => spec_elem_str_field(*v, key@, i as int, field@) == Some(s@),
            None => spec_elem_str_field(*v, key@, i as int, field@) is None,
        },
{
    v.get(key)
        .and_then(|f| f.as_array())
        .and_then(|a| a.get(i))
        .and_then(|e| e.get(field))
        .and_then(|f| f.as_str())
        .map(|s| s.to_string())
}

} // verus!

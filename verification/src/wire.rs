//! The trusted boundary to the outside crates that read the wire: JSON text
//! is parsed by serde_json, date-time strings by chrono. Everything after
//! these calls is verified against the names stated here.

use vstd::prelude::*;

use crate::json::JsonValue;

verus! {

#[verifier::external_type_specification]
#[verifier::external_body]
pub struct ExValue(serde_json::Value);

/// What parsing a byte sequence as one JSON document yields, in the
/// library's model. The parse is a function of the bytes alone.
pub uninterp spec fn json_of(b: Seq<u8>) -> Option<JsonValue>;

/// Rewrites one parsed node into the library's form. Relies on
/// serde_json::Value holding exactly null, booleans, numbers, strings,
/// arrays and objects; a number outside the signed 64-bit range has no
/// reading in this library. Called only by `parse_document` below.
#[verifier::external_body]
fn json_from_value(v: &serde_json::Value) -> (r: JsonValue) {
    match v {
        serde_json::Value::Null => JsonValue::Null,
        serde_json::Value::Bool(b) => JsonValue::Bool(*b),
        serde_json::Value::Number(n) => match n.as_i64() {
            Some(i) => JsonValue::Int(i),
            None => JsonValue::Unrepresentable,
        },
        serde_json::Value::String(s) => JsonValue::Str(s.clone()),
        serde_json::Value::Array(a) => JsonValue::Arr(a.iter().map(json_from_value).collect()),
        serde_json::Value::Object(m) => JsonValue::Obj(
            m.iter().map(|(k, val)| (k.clone(), json_from_value(val))).collect(),
        ),
    }
}

/// Relies on serde_json::from_slice::<serde_json::Value>: one JSON document
/// parsed from the whole of the bytes, or a parse failure; the outcome
/// depends on the bytes alone.
#[verifier::external_body]
pub(crate) fn parse_document(b: &[u8]) -> (r: Option<JsonValue>)
    ensures
        r == json_of(b@),
{
    match serde_json::from_slice::<serde_json::Value>(b) {
        Ok(v) => Some(json_from_value(&v)),
        Err(_) => None,
    }
}

/// What parsing a string as an RFC 3339 date-time yields, as seconds since
/// the Unix epoch. The reading is a function of the characters alone.
pub uninterp spec fn datetime_of(s: Seq<char>) -> Option<i64>;

/// Relies on chrono::DateTime::parse_from_rfc3339 and
/// chrono::DateTime::timestamp: the parsed instant as Unix seconds, or a
/// parse failure; the outcome depends on the characters alone.
#[verifier::external_body]
pub(crate) fn parse_datetime(s: &str) -> (r: Option<i64>)
    ensures
        r == datetime_of(s@),
{
    match chrono::DateTime::parse_from_rfc3339(s) {
        Ok(d) => Some(d.timestamp()),
        Err(_) => None,
    }
}

} // verus!

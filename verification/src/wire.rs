//! Bringing a response body into the library's JSON model.
//!
//! The one step the library does not do itself is turning body text into
//! a document tree: that call goes to `serde_json`, and its result is
//! converted, node by node, into [`JsonValue`].  Timestamp text is
//! likewise validated by `chrono`.  Everything after these calls is
//! verified against the names given to their results here.

use vstd::prelude::*;

use crate::json::{jview, Json, JsonValue};

verus! {

/// Declares `serde_json::Value` so that the conversion below may take
/// one; the library never looks inside a value of it.
#[verifier::external_type_specification]
#[verifier::external_body]
pub struct ExSerdeValue(serde_json::Value);

/// The document a body text parses to, if it parses: what
/// `serde_json::from_str` accepts and how it reads numbers and orders
/// object fields.
pub uninterp spec fn json_text(s: Seq<char>) -> Option<Json>;

/// Relies on `serde_json::from_str::<serde_json::Value>`: the parse is a
/// function of the body text alone.  On failure the parser's own message
/// is handed back.
#[verifier::external_body]
pub fn parse_json(s: &str) -> (r: Result<JsonValue, String>)
    ensures
        r matches Ok(v) ==> json_text(s@) == Some(jview(v)),
        r is Ok <==> json_text(s@) is Some,
{
    match serde_json::from_str::<serde_json::Value>(s) {
        Ok(v) => Ok(of_serde(v)),
        Err(e) => Err(format!("{e}")),
    }
}

/// Relies on the shape of `serde_json::Value`: each node is carried over
/// one for one, numbers by `as_i64` / `as_u64` and otherwise as their
/// decimal text.
#[verifier::external_body]
fn of_serde(v: serde_json::Value) -> (r: JsonValue) {
    match v {
        serde_json::Value::Null => JsonValue::Null,
        serde_json::Value::Bool(b) => JsonValue::Bool(b),
        serde_json::Value::Number(n) => match (n.as_i64(), n.as_u64()) {
            (Some(i), _) => JsonValue::Int(i),
            (_, Some(u)) => JsonValue::UInt(u),
            _ => JsonValue::Float(n.to_string()),
        },
        serde_json::Value::String(s) => JsonValue::Str(s),
        serde_json::Value::Array(a) => JsonValue::Arr(a.into_iter().map(of_serde).collect()),
        serde_json::Value::Object(o) => JsonValue::Obj(
            o.into_iter().map(|(k, x)| (k, of_serde(x))).collect(),
        ),
    }
}

/// Whether timestamp text is acceptable: what
/// `chrono::DateTime::parse_from_rfc3339` accepts, a function of the
/// text alone.
pub uninterp spec fn rfc3339_ok(s: Seq<char>) -> bool;

/// Relies on `chrono::DateTime::parse_from_rfc3339`: acceptance depends
/// on the text alone.
#[verifier::external_body]
pub fn rfc3339_valid(s: &str) -> (r: bool)
    ensures
        r == rfc3339_ok(s@),
{
    chrono::DateTime::parse_from_rfc3339(s).is_ok()
}

} // verus!

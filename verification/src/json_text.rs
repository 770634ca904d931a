//! JSON text read into the library's JSON values, as a protocol request
//! arrives on standard input.

use vstd::prelude::*;

use crate::boundary_output::{boundary_report, BoundaryFailure, BoundaryReport};
use crate::codes::BoundaryDiagnosticCode;
use crate::error::AdapterExitCode;
use crate::json::{JsonModel, JsonNumber, JsonValue};
use serde_json::Value;

verus! {

#[verifier::external_type_specification]
#[verifier::external_body]
pub struct ExSerdeJsonValue(serde_json::Value);

/// What `serde_json::from_str::<serde_json::Value>` makes of a text: the
/// value, as the library models it, or the error's message.
pub uninterp spec fn json_text_parse(text: Seq<char>) -> Result<JsonModel, Seq<char>>;

/// The library's form of a `serde_json::Value`, variant for variant: a
/// number is told apart as serde_json holds it (unsigned, negative, or
/// other, the last kept as its text). Nothing is stated of the result.
#[verifier::external_body]
fn json_of_serde(value: &Value) -> (r: JsonValue) {
    match value {
        Value::Null => JsonValue::Null,
        Value::Bool(b) => JsonValue::Bool(*b),
        Value::Number(n) => JsonValue::Number(match (n.as_u64(), n.as_i64()) {
            (Some(u), _) => JsonNumber::PosInt(u),
            (None, Some(i)) => JsonNumber::NegInt(i),
            _ => JsonNumber::Float(n.to_string()),
        }),
        Value::String(s) => JsonValue::String(s.clone()),
        Value::Array(items) => JsonValue::Array(items.iter().map(json_of_serde).collect()),
        Value::Object(m) => JsonValue::Object(m.iter().map(|(k, v)| (k.clone(), json_of_serde(v))).collect()),
    }
}

/// `serde_json::from_str::<serde_json::Value>`: reads JSON text, giving the
/// value in the library's form or the error's message. What it gives is
/// named by `json_text_parse`: a function of the text alone.
#[verifier::external_body]
pub(crate) fn json_from_text(input: &str) -> (r: Result<JsonValue, String>)
    ensures
        match r {
            Ok(v) => json_text_parse(input@) == Ok::<JsonModel, Seq<char>>(v@),
            Err(e) => json_text_parse(input@) == Err::<JsonModel, Seq<char>>(e@),
        },
{
    match serde_json::from_str::<Value>(input) {
        Ok(v) => Ok(json_of_serde(&v)),
        Err(e) => Err(e.to_string()),
    }
}

/// Reads a protocol request's text as JSON; text that is no JSON is the
/// boundary failure "invalid request JSON", with the parser's message and
/// the protocol error exit code.
pub fn parse_request_json(input: &str) -> (r: Result<JsonValue, BoundaryReport>)
    ensures
        match r {
            Ok(v) => json_text_parse(input@) == Ok::<JsonModel, Seq<char>>(v@),
            Err(rep) => json_text_parse(input@) matches Err(e) && rep.code == BoundaryDiagnosticCode::InvalidRequestJson
                && rep.message@ == "invalid request JSON: "@ + e && rep.exit_code == AdapterExitCode::ProtocolError,
        },
{
    match json_from_text(input) {
        Ok(v) => Ok(v),
        Err(e) => Err(boundary_report(&BoundaryFailure::InvalidRequestJson(e))),
    }
}

} // verus!

use docnav::codes::BoundaryDiagnosticCode;
use docnav::error::AdapterExitCode;
use docnav::json::{JsonNumber, JsonValue};
use docnav::json_text::parse_request_json;

#[test]
fn request_text_reads_as_json_with_sorted_members() {
    let value = parse_request_json(r#"{"b": [true, null, -3, 1.5], "a": "x", "c": 7}"#).expect("valid JSON");
    assert_eq!(
        value,
        JsonValue::Object(vec![
            ("a".to_string(), JsonValue::String("x".to_string())),
            (
                "b".to_string(),
                JsonValue::Array(vec![
                    JsonValue::Bool(true),
                    JsonValue::Null,
                    JsonValue::Number(JsonNumber::NegInt(-3)),
                    JsonValue::Number(JsonNumber::Float("1.5".to_string())),
                ]),
            ),
            ("c".to_string(), JsonValue::Number(JsonNumber::PosInt(7))),
        ])
    );
}

#[test]
fn text_that_is_no_json_is_an_invalid_request_json_failure() {
    let report = parse_request_json("{not json").expect_err("invalid JSON");
    assert_eq!(report.code, BoundaryDiagnosticCode::InvalidRequestJson);
    assert_eq!(report.exit_code, AdapterExitCode::ProtocolError);
    let expected = serde_json::from_str::<serde_json::Value>("{not json").unwrap_err().to_string();
    assert_eq!(report.message, format!("invalid request JSON: {expected}"));
}

use docnav::codes::{DiagnosticCode, ProtocolDiagnosticCode};
use docnav::direct::input_errors::{argv_reason, input_adapter_error, input_details, output_mode_from_value, requested_output};
use docnav::direct::output_mode::DirectOutputMode;
use docnav::error::AdapterExitCode;
use docnav::json::JsonValue;
use docnav::markers::DiagnosticDetailsPayload;

fn args(values: &[&str]) -> Vec<String> {
    values.iter().map(|value| value.to_string()).collect()
}

#[test]
fn requested_output_follows_first_output_flag() {
    assert_eq!(requested_output(&args(&["doc.md"])), DirectOutputMode::ReadableView);
    assert_eq!(requested_output(&args(&["--output=readable-json", "--output", "protocol-json"])), DirectOutputMode::ReadableJson);
    assert_eq!(requested_output(&args(&["--output", "protocol-json"])), DirectOutputMode::ProtocolJson);
    assert_eq!(requested_output(&args(&["--output"])), DirectOutputMode::ReadableView);
    assert_eq!(output_mode_from_value("nonsense"), DirectOutputMode::ReadableView);
}

#[test]
fn argv_reasons_come_from_messages() {
    assert_eq!(argv_reason("unknown argument --future"), ("unknown_argument", Some("--future".to_string())));
    assert_eq!(argv_reason("extra positional argument extra"), ("extra_positional", Some("extra".to_string())));
    assert_eq!(
        argv_reason("--limit nope is not used by info command"),
        ("operation_inapplicable_argument", Some("--limit nope".to_string()))
    );
    assert_eq!(argv_reason("outline requires <path>"), ("invalid_argument", None));
}

#[test]
fn input_errors_are_invalid_requests_with_argv_details() {
    let details = input_details("unknown argument --future").into_details().to_value();
    let s = |v: &str| JsonValue::String(v.to_string());
    assert_eq!(
        details,
        JsonValue::Object(vec![
            ("field".to_string(), s("argv")),
            ("reason".to_string(), s("unknown_argument")),
            ("received".to_string(), s("--future")),
            ("accepted".to_string(), JsonValue::Array(vec![s("valid document operation arguments")])),
        ])
    );
    let error = input_adapter_error("unknown argument --future");
    assert_eq!(error.exit_code(), AdapterExitCode::ProtocolError);
    assert_eq!(error.diagnostic().code, DiagnosticCode::Protocol(ProtocolDiagnosticCode::InvalidRequest));
    assert_eq!(error.diagnostic().summary, "unknown argument --future");
}

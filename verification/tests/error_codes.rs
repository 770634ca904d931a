use docnav::codes::{DiagnosticCode, ProtocolDiagnosticCode, ReadableWarningDiagnosticCode};
use docnav::error::{exit_code_for_diagnostic, AdapterError, AdapterExitCode, Operation};
use docnav::json::JsonValue;
use docnav::payload::{CliArgvDetails, DiagnosticDetails};
use docnav::record::{DiagnosticRecordDraft, DiagnosticSource};
use docnav::typed_codes::readable_warning::CliArgvIgnored;

fn protocol(code: ProtocolDiagnosticCode) -> DiagnosticCode {
    DiagnosticCode::Protocol(code)
}

#[test]
fn tests_internal_error_maps_to_internal_exit_code() {
    assert_eq!(AdapterExitCode::InternalError.code(), 1);
    assert_eq!(exit_code_for_diagnostic(protocol(ProtocolDiagnosticCode::InternalError)), AdapterExitCode::InternalError);
    assert_eq!(AdapterError::internal("test").exit_code(), AdapterExitCode::InternalError);
}

#[test]
fn error_internal_error_maps_to_internal_exit_code() {
    assert_eq!(AdapterExitCode::InternalError.code(), 1);
    assert_eq!(exit_code_for_diagnostic(protocol(ProtocolDiagnosticCode::InternalError)), AdapterExitCode::InternalError);
    assert_eq!(AdapterError::internal("test").exit_code(), AdapterExitCode::InternalError);
}

#[test]
fn diagnostic_codes_map_to_adapter_exit_codes() {
    let cases = [
        (ProtocolDiagnosticCode::InvalidRequest, AdapterExitCode::ProtocolError),
        (ProtocolDiagnosticCode::DocumentNotFound, AdapterExitCode::HandlerError),
        (ProtocolDiagnosticCode::DocumentPathInvalid, AdapterExitCode::HandlerError),
        (ProtocolDiagnosticCode::DocumentEncodingUnsupported, AdapterExitCode::HandlerError),
        (ProtocolDiagnosticCode::FormatUnknown, AdapterExitCode::HandlerError),
        (ProtocolDiagnosticCode::FormatAmbiguous, AdapterExitCode::HandlerError),
        (ProtocolDiagnosticCode::CapabilityUnsupported, AdapterExitCode::ProtocolError),
        (ProtocolDiagnosticCode::RefNotFound, AdapterExitCode::HandlerError),
        (ProtocolDiagnosticCode::RefAmbiguous, AdapterExitCode::HandlerError),
        (ProtocolDiagnosticCode::RefInvalid, AdapterExitCode::HandlerError),
        (ProtocolDiagnosticCode::AdapterUnavailable, AdapterExitCode::IoError),
        (ProtocolDiagnosticCode::AdapterInvokeFailed, AdapterExitCode::IoError),
        (ProtocolDiagnosticCode::InternalError, AdapterExitCode::InternalError),
    ];

    for (code, expected) in cases {
        assert_eq!(exit_code_for_diagnostic(protocol(code)), expected, "{code:?}");
    }
}

fn ref_not_found_draft() -> DiagnosticRecordDraft {
    AdapterError::ref_not_found("missing").into_diagnostic()
}

#[test]
fn tests_adapter_error_rejects_success_exit_code() {
    let error = AdapterError::with_exit_code(ref_not_found_draft(), AdapterExitCode::Success)
        .expect_err("failure cannot use success exit code");
    assert_eq!(error.exit_code(), AdapterExitCode::Success);
}

#[test]
fn error_adapter_error_rejects_success_exit_code() {
    let error = AdapterError::with_exit_code(ref_not_found_draft(), AdapterExitCode::Success)
        .expect_err("failure cannot use success exit code");
    assert_eq!(error.exit_code(), AdapterExitCode::Success);
}

#[test]
fn adapter_error_keeps_exit_code_given_for_valid_draft() {
    let error = AdapterError::with_exit_code(ref_not_found_draft(), AdapterExitCode::IoError).expect("failure exit code");
    assert_eq!(error.exit_code(), AdapterExitCode::IoError);
    assert_eq!(error.diagnostic().code, protocol(ProtocolDiagnosticCode::RefNotFound));
}

#[test]
fn adapter_error_replaces_non_protocol_diagnostic_with_internal_error() {
    let warning_draft = DiagnosticRecordDraft::new::<CliArgvIgnored>(
        "ignored adapter argv",
        CliArgvDetails::new(vec!["--unused".to_string()]),
        DiagnosticSource::with_stage("test", "adapter"),
    );
    let error = AdapterError::new(warning_draft);
    assert_eq!(error.exit_code(), AdapterExitCode::InternalError);
    assert_eq!(error.diagnostic().code, protocol(ProtocolDiagnosticCode::InternalError));
    assert_eq!(
        error.diagnostic().details,
        DiagnosticDetails::Internal { error_id: "adapter-error-diagnostic-not-protocol".to_string() }
    );
    assert_eq!(error.diagnostic().summary, "internal error");
}

#[test]
fn adapter_error_replaces_invalid_protocol_diagnostic() {
    let draft = DiagnosticRecordDraft::from_erased_for_test(
        protocol(ProtocolDiagnosticCode::InvalidRequest),
        "invalid",
        DiagnosticDetails::Path { path: "wrong".to_string() },
        DiagnosticSource::new("test"),
    );
    let error = AdapterError::new(draft);
    assert_eq!(
        error.diagnostic().details,
        DiagnosticDetails::Internal { error_id: "adapter-error-diagnostic-invalid".to_string() }
    );
    assert_eq!(error.exit_code(), AdapterExitCode::InternalError);
}

#[test]
fn named_adapter_errors_carry_their_details_and_exit_codes() {
    let error = AdapterError::invalid_request("argv", "unknown argument --future");
    assert_eq!(error.exit_code(), AdapterExitCode::ProtocolError);
    assert_eq!(error.diagnostic().summary, "invalid request");
    assert_eq!(
        error.diagnostic().details.to_value(),
        JsonValue::Object(vec![
            ("field".to_string(), JsonValue::String("argv".to_string())),
            ("reason".to_string(), JsonValue::String("unknown argument --future".to_string())),
        ])
    );
    let error = AdapterError::capability_unsupported(Operation::Find, "markdown");
    assert_eq!(error.exit_code(), AdapterExitCode::ProtocolError);
    assert_eq!(
        error.diagnostic().details,
        DiagnosticDetails::CapabilityAdapter { capability: "find".to_string(), adapter_id: "markdown".to_string() }
    );
    assert_eq!(AdapterError::document_not_found("a.md").exit_code(), AdapterExitCode::HandlerError);
    assert_eq!(AdapterError::document_path_invalid("a.md", "bad").exit_code(), AdapterExitCode::HandlerError);
    assert_eq!(AdapterError::document_encoding_unsupported("a.md", "latin1").exit_code(), AdapterExitCode::HandlerError);
    assert_eq!(AdapterError::ref_invalid("L1", "bad").exit_code(), AdapterExitCode::HandlerError);
    assert_eq!(AdapterExitCode::Success.code(), 0);
    assert_eq!(AdapterExitCode::IoError.code(), 4);
    let _ = ReadableWarningDiagnosticCode::CliArgvIgnored;
}

use docnav::boundary_output::{boundary_diagnostic_line, boundary_diagnostic_record_draft, boundary_report, handler_exit_code, BoundaryFailure};
use docnav::codes::{BoundaryDiagnosticCode, DiagnosticCode, DiagnosticEffect, DiagnosticSeverity};
use docnav::details::DiagnosticDetailsError;
use docnav::error::{AdapterError, AdapterExitCode};
use docnav::payload::DiagnosticDetails;
use docnav::record::{DiagnosticRecordError, DiagnosticSource};
use docnav::details::DetailFieldType;

#[test]
fn boundary_drafts_carry_message_as_summary_and_reason() {
    let draft = boundary_diagnostic_record_draft(
        BoundaryDiagnosticCode::FailedToWriteJson,
        "failed to write JSON: closed",
        DiagnosticSource::new("test"),
    );
    assert_eq!(draft.code, DiagnosticCode::Boundary(BoundaryDiagnosticCode::FailedToWriteJson));
    assert_eq!(draft.summary, "failed to write JSON: closed");
    assert_eq!(draft.severity, DiagnosticSeverity::Fatal);
    assert_eq!(draft.effect, DiagnosticEffect::InternalFailure);
    assert_eq!(
        draft.details,
        DiagnosticDetails::Boundary { reason: "failed to write JSON: closed".to_string(), label: None }
    );
}

#[test]
fn boundary_lines_are_the_record_summary() {
    assert_eq!(
        boundary_diagnostic_line(BoundaryDiagnosticCode::InvalidRequestJson, "invalid request JSON: eof").unwrap(),
        "invalid request JSON: eof"
    );
    assert_eq!(
        boundary_diagnostic_line(BoundaryDiagnosticCode::InvalidRequestJson, ""),
        Err(DiagnosticRecordError::EmptySummary)
    );
}

#[test]
fn boundary_failures_report_code_message_and_exit_code() {
    let report = boundary_report(&BoundaryFailure::Serialize { label: "manifest".to_string(), error: "bad".to_string() });
    assert_eq!(report.code, BoundaryDiagnosticCode::FailedToSerialize);
    assert_eq!(report.message, "failed to serialize manifest: bad");
    assert_eq!(report.exit_code, AdapterExitCode::IoError);

    let report = boundary_report(&BoundaryFailure::ManifestSchema("x".to_string()));
    assert_eq!(report.message, "manifest schema validation failed: x");
    assert_eq!(report.exit_code, AdapterExitCode::ProtocolError);

    let report = boundary_report(&BoundaryFailure::DiagnosticProjection);
    assert_eq!(report.code, BoundaryDiagnosticCode::FailedToWriteReadableView);
    assert_eq!(report.exit_code, AdapterExitCode::InternalError);

    let report = boundary_report(&BoundaryFailure::RequestDeserialization("y".to_string()));
    assert_eq!(report.message, "request deserialization failed after schema validation: y");
}

#[test]
fn handler_exit_code_prefers_failed_write() {
    assert_eq!(handler_exit_code(AdapterExitCode::HandlerError, AdapterExitCode::Success), AdapterExitCode::HandlerError);
    assert_eq!(handler_exit_code(AdapterExitCode::HandlerError, AdapterExitCode::IoError), AdapterExitCode::IoError);
}

#[test]
fn error_messages_match_display_texts() {
    assert_eq!(DiagnosticDetailsError::NotAnObject.message(), "diagnostic details must be an object");
    assert_eq!(DiagnosticDetailsError::MissingField { field: "path" }.message(), "diagnostic details missing path");
    assert_eq!(
        DiagnosticDetailsError::WrongType { field: "accepted", expected: DetailFieldType::StringArray }.message(),
        "diagnostic details.accepted must be array<string>"
    );
    assert_eq!(
        DiagnosticDetailsError::ExtraField { field: "extra".to_string() }.message(),
        "diagnostic details contains unexpected extra"
    );
    assert_eq!(DiagnosticRecordError::EmptySummary.message(), "diagnostic summary must not be empty");
    let error = AdapterError::with_exit_code(AdapterError::internal("x").into_diagnostic(), AdapterExitCode::Success).unwrap_err();
    assert_eq!(error.message(), "adapter error exit code cannot be Success");
}

//! Boundary diagnostics of the adapter's output: the record of a failure
//! at the process boundary, and what each failure reports and exits with.

use vstd::prelude::*;

use crate::codes::{BoundaryDiagnosticCode, DiagnosticCode};
use crate::error::{default_draft, AdapterExitCode};
use crate::markers::DiagnosticDetailsPayload;
use crate::payload::{BoundaryDetails, DiagnosticDetails};
use crate::record::{DiagnosticRecordDraft, DiagnosticRecordError, DiagnosticSource, RecordErrorModel};
use crate::stack::DiagnosticStack;
use crate::typed_codes::boundary;

verus! {

/// The draft of a boundary diagnostic: its code, the message as summary and
/// as the reason of its details.
pub fn boundary_diagnostic_record_draft(code: BoundaryDiagnosticCode, message: &str, source: DiagnosticSource) -> (r: DiagnosticRecordDraft)
    ensures
        default_draft(
            r,
            DiagnosticCode::Boundary(code),
            message@,
            DiagnosticDetails::Boundary { reason: r.details->Boundary_reason, label: None },
            source,
        ),
        r.details->Boundary_reason@ == message@,
{
    let details = BoundaryDetails::new(message);
    match code {
        BoundaryDiagnosticCode::AdapterErrorExitCodeCannotBe => DiagnosticRecordDraft::new::<boundary::AdapterErrorExitCodeCannotBe>(message, details, source),
        BoundaryDiagnosticCode::FailedToReadRequest => DiagnosticRecordDraft::new::<boundary::FailedToReadRequest>(message, details, source),
        BoundaryDiagnosticCode::FailedToSerialize => DiagnosticRecordDraft::new::<boundary::FailedToSerialize>(message, details, source),
        BoundaryDiagnosticCode::FailedToWriteCliWarning => DiagnosticRecordDraft::new::<boundary::FailedToWriteCliWarning>(message, details, source),
        BoundaryDiagnosticCode::FailedToWriteJson => DiagnosticRecordDraft::new::<boundary::FailedToWriteJson>(message, details, source),
        BoundaryDiagnosticCode::FailedToWriteProtocolResponse => DiagnosticRecordDraft::new::<boundary::FailedToWriteProtocolResponse>(message, details, source),
        BoundaryDiagnosticCode::FailedToWriteReadableView => DiagnosticRecordDraft::new::<boundary::FailedToWriteReadableView>(message, details, source),
        BoundaryDiagnosticCode::InvalidRequestJson => DiagnosticRecordDraft::new::<boundary::InvalidRequestJson>(message, details, source),
        BoundaryDiagnosticCode::ManifestAdapterIdMismatch => DiagnosticRecordDraft::new::<boundary::ManifestAdapterIdMismatch>(message, details, source),
        BoundaryDiagnosticCode::ManifestSchemaValidationFailed => DiagnosticRecordDraft::new::<boundary::ManifestSchemaValidationFailed>(message, details, source),
        BoundaryDiagnosticCode::ManifestSemanticValidationFailed => DiagnosticRecordDraft::new::<boundary::ManifestSemanticValidationFailed>(message, details, source),
        BoundaryDiagnosticCode::ProbeResultAdapterIdMismatch => DiagnosticRecordDraft::new::<boundary::ProbeResultAdapterIdMismatch>(message, details, source),
        BoundaryDiagnosticCode::ProbeResultSchemaValidationFailed => DiagnosticRecordDraft::new::<boundary::ProbeResultSchemaValidationFailed>(message, details, source),
        BoundaryDiagnosticCode::ProbeResultSemanticValidationFailed => DiagnosticRecordDraft::new::<boundary::ProbeResultSemanticValidationFailed>(message, details, source),
        BoundaryDiagnosticCode::ProtocolResponseSchemaValidationFailed => DiagnosticRecordDraft::new::<boundary::ProtocolResponseSchemaValidationFailed>(message, details, source),
        BoundaryDiagnosticCode::ProtocolResponseSemanticValidationFailed => DiagnosticRecordDraft::new::<boundary::ProtocolResponseSemanticValidationFailed>(message, details, source),
        BoundaryDiagnosticCode::ReadableViewRenderFailed => DiagnosticRecordDraft::new::<boundary::ReadableViewRenderFailed>(message, details, source),
        BoundaryDiagnosticCode::RequestDeserializationFailed => DiagnosticRecordDraft::new::<boundary::RequestDeserializationFailed>(message, details, source),
        BoundaryDiagnosticCode::RequestSchemaValidationFailed => DiagnosticRecordDraft::new::<boundary::RequestSchemaValidationFailed>(message, details, source),
    }
}

/// The line a boundary diagnostic writes to stderr: the summary of its
/// record, which an empty message cannot make.
pub fn boundary_diagnostic_line(code: BoundaryDiagnosticCode, message: &str) -> (r: Result<String, DiagnosticRecordError>)
    ensures
        match r {
            Ok(line) => message@.len() > 0 && line@ == message@,
            Err(e) => message@.len() == 0 && e@ == RecordErrorModel::EmptySummary,
        },
{
    let draft = boundary_diagnostic_record_draft(code, message, DiagnosticSource::with_stage("docnav-adapter-sdk", "stderr"));
    proof {
        lemma_boundary_details_valid(draft);
    }
    let mut stack = DiagnosticStack::new();
    let id = match stack.push(draft) {
        Ok(id) => id,
        Err(e) => {
            return Err(e);
        },
    };
    proof {
        crate::stack::law_get_after_push(
            Seq::empty(),
            0,
            crate::record::RecordModel { id, content: draft },
            id,
        );
        assert(Seq::<crate::record::RecordModel>::empty().push(crate::record::RecordModel { id, content: draft }) =~= stack@.records);
    }
    match stack.get(id) {
        Some(record) => Ok(String::from_str(record.summary())),
        None => Err(DiagnosticRecordError::EmptySummary),
    }
}

/// Boundary details with a reason and no label fit the rule of every
/// boundary code.
proof fn lemma_boundary_details_valid(d: DiagnosticRecordDraft)
    requires
        d.code is Boundary,
        d.details matches DiagnosticDetails::Boundary { label, .. } && label is None,
    ensures
        d.summary@.len() > 0 ==> d.draft_error() is None,
        d.summary@.len() == 0 ==> d.draft_error() == Some(RecordErrorModel::EmptySummary),
{
    reveal_strlit("reason");
    reveal_strlit("label");
    reveal_with_fuel(crate::details::field_error, 3);
    reveal_with_fuel(crate::details::extra_member, 2);
    reveal_with_fuel(crate::json::member, 2);
    let rule = crate::record::code_rule(d.code);
    let m = d.details.spec_json()->Object_0;
    assert(crate::details::rule_names(rule.fields, m[0].0)) by {
        assert(rule.fields[0].0 == m[0].0);
    }
    assert(m.len() == 1);
}

/// A failure at the process boundary, with the text of the error that
/// caused it.
#[derive(Clone, Debug, PartialEq)]
pub enum BoundaryFailure {
    ReadRequest(String),
    InvalidRequestJson(String),
    RequestSchema(String),
    RequestDeserialization(String),
    Serialize { label: String, error: String },
    WriteJson(String),
    ManifestSchema(String),
    ManifestSemantic(String),
    ProbeSchema(String),
    ProbeSemantic(String),
    ResponseSemantic(String),
    ResponseSchema(String),
    WriteResponse(String),
    DiagnosticProjection,
    ReadableViewRender(String),
    WriteReadableView(String),
    ReadablePayload(String),
    StdoutJson(String),
}

/// What a boundary failure reports on stderr and the exit code it ends the
/// process with.
#[derive(Debug)]
pub struct BoundaryReport {
    pub code: BoundaryDiagnosticCode,
    pub message: String,
    pub exit_code: AdapterExitCode,
}

/// The code, message and exit code of each boundary failure.
pub open spec fn report_spec(f: BoundaryFailure) -> (BoundaryDiagnosticCode, Seq<char>, AdapterExitCode) {
    match f {
        BoundaryFailure::ReadRequest(e) => (BoundaryDiagnosticCode::FailedToReadRequest, "failed to read request: "@ + e@, AdapterExitCode::IoError),
        BoundaryFailure::InvalidRequestJson(e) => (BoundaryDiagnosticCode::InvalidRequestJson, "invalid request JSON: "@ + e@, AdapterExitCode::ProtocolError),
        BoundaryFailure::RequestSchema(e) => (
            BoundaryDiagnosticCode::RequestSchemaValidationFailed,
            "request schema validation failed: "@ + e@,
            AdapterExitCode::ProtocolError,
        ),
        BoundaryFailure::RequestDeserialization(e) => (
            BoundaryDiagnosticCode::RequestDeserializationFailed,
            "request deserialization failed after schema validation: "@ + e@,
            AdapterExitCode::ProtocolError,
        ),
        BoundaryFailure::Serialize { label, error } => (
            BoundaryDiagnosticCode::FailedToSerialize,
            "failed to serialize "@ + label@ + ": "@ + error@,
            AdapterExitCode::IoError,
        ),
        BoundaryFailure::WriteJson(e) => (BoundaryDiagnosticCode::FailedToWriteJson, "failed to write JSON: "@ + e@, AdapterExitCode::IoError),
        BoundaryFailure::ManifestSchema(e) => (
            BoundaryDiagnosticCode::ManifestSchemaValidationFailed,
            "manifest schema validation failed: "@ + e@,
            AdapterExitCode::ProtocolError,
        ),
        BoundaryFailure::ManifestSemantic(e) => (
            BoundaryDiagnosticCode::ManifestSemanticValidationFailed,
            "manifest semantic validation failed: "@ + e@,
            AdapterExitCode::ProtocolError,
        ),
        BoundaryFailure::ProbeSchema(e) => (
            BoundaryDiagnosticCode::ProbeResultSchemaValidationFailed,
            "probe result schema validation failed: "@ + e@,
            AdapterExitCode::ProtocolError,
        ),
        BoundaryFailure::ProbeSemantic(e) => (
            BoundaryDiagnosticCode::ProbeResultSemanticValidationFailed,
            "probe result semantic validation failed: "@ + e@,
            AdapterExitCode::ProtocolError,
        ),
        BoundaryFailure::ResponseSemantic(e) => (
            BoundaryDiagnosticCode::ProtocolResponseSemanticValidationFailed,
            "protocol response semantic validation failed: "@ + e@,
            AdapterExitCode::ProtocolError,
        ),
        BoundaryFailure::ResponseSchema(e) => (
            BoundaryDiagnosticCode::ProtocolResponseSchemaValidationFailed,
            "protocol response schema validation failed: "@ + e@,
            AdapterExitCode::ProtocolError,
        ),
        BoundaryFailure::WriteResponse(e) => (
            BoundaryDiagnosticCode::FailedToWriteProtocolResponse,
            "failed to write protocol response: "@ + e@,
            AdapterExitCode::IoError,
        ),
        BoundaryFailure::DiagnosticProjection => (
            BoundaryDiagnosticCode::FailedToWriteReadableView,
            "failed to project diagnostic output"@,
            AdapterExitCode::InternalError,
        ),
        BoundaryFailure::ReadableViewRender(e) => (
            BoundaryDiagnosticCode::ReadableViewRenderFailed,
            "readable_view_render_failed: "@ + e@,
            AdapterExitCode::InternalError,
        ),
        BoundaryFailure::WriteReadableView(e) => (
            BoundaryDiagnosticCode::FailedToWriteReadableView,
            "failed to write readable view: "@ + e@,
            AdapterExitCode::IoError,
        ),
        BoundaryFailure::ReadablePayload(e) => (BoundaryDiagnosticCode::FailedToWriteJson, "failed to write JSON: "@ + e@, AdapterExitCode::IoError),
        BoundaryFailure::StdoutJson(e) => (BoundaryDiagnosticCode::FailedToWriteJson, "failed to write JSON: "@ + e@, AdapterExitCode::IoError),
    }
}

fn prefixed(prefix: &str, error: &String) -> (r: String)
    ensures
        r@ == prefix@ + error@,
{
    let mut m = String::from_str(prefix);
    m.append(error.as_str());
    m
}

/// What a boundary failure reports and exits with.
pub fn boundary_report(failure: &BoundaryFailure) -> (r: BoundaryReport)
    ensures
        (r.code, r.message@, r.exit_code) == report_spec(*failure),
{
    match failure {
        BoundaryFailure::ReadRequest(e) => BoundaryReport {
            code: BoundaryDiagnosticCode::FailedToReadRequest,
            message: prefixed("failed to read request: ", e),
            exit_code: AdapterExitCode::IoError,
        },
        BoundaryFailure::InvalidRequestJson(e) => BoundaryReport {
            code: BoundaryDiagnosticCode::InvalidRequestJson,
            message: prefixed("invalid request JSON: ", e),
            exit_code: AdapterExitCode::ProtocolError,
        },
        BoundaryFailure::RequestSchema(e) => BoundaryReport {
            code: BoundaryDiagnosticCode::RequestSchemaValidationFailed,
            message: prefixed("request schema validation failed: ", e),
            exit_code: AdapterExitCode::ProtocolError,
        },
        BoundaryFailure::RequestDeserialization(e) => BoundaryReport {
            code: BoundaryDiagnosticCode::RequestDeserializationFailed,
            message: prefixed("request deserialization failed after schema validation: ", e),
            exit_code: AdapterExitCode::ProtocolError,
        },
        BoundaryFailure::Serialize { label, error } => {
            let mut m = prefixed("failed to serialize ", label);
            m.append(": ");
            m.append(error.as_str());
            BoundaryReport { code: BoundaryDiagnosticCode::FailedToSerialize, message: m, exit_code: AdapterExitCode::IoError }
        },
        BoundaryFailure::WriteJson(e) => BoundaryReport {
            code: BoundaryDiagnosticCode::FailedToWriteJson,
            message: prefixed("failed to write JSON: ", e),
            exit_code: AdapterExitCode::IoError,
        },
        BoundaryFailure::ManifestSchema(e) => BoundaryReport {
            code: BoundaryDiagnosticCode::ManifestSchemaValidationFailed,
            message: prefixed("manifest schema validation failed: ", e),
            exit_code: AdapterExitCode::ProtocolError,
        },
        BoundaryFailure::ManifestSemantic(e) => BoundaryReport {
            code: BoundaryDiagnosticCode::ManifestSemanticValidationFailed,
            message: prefixed("manifest semantic validation failed: ", e),
            exit_code: AdapterExitCode::ProtocolError,
        },
        BoundaryFailure::ProbeSchema(e) => BoundaryReport {
            code: BoundaryDiagnosticCode::ProbeResultSchemaValidationFailed,
            message: prefixed("probe result schema validation failed: ", e),
            exit_code: AdapterExitCode::ProtocolError,
        },
        BoundaryFailure::ProbeSemantic(e) => BoundaryReport {
            code: BoundaryDiagnosticCode::ProbeResultSemanticValidationFailed,
            message: prefixed("probe result semantic validation failed: ", e),
            exit_code: AdapterExitCode::ProtocolError,
        },
        BoundaryFailure::ResponseSemantic(e) => BoundaryReport {
            code: BoundaryDiagnosticCode::ProtocolResponseSemanticValidationFailed,
            message: prefixed("protocol response semantic validation failed: ", e),
            exit_code: AdapterExitCode::ProtocolError,
        },
        BoundaryFailure::ResponseSchema(e) => BoundaryReport {
            code: BoundaryDiagnosticCode::ProtocolResponseSchemaValidationFailed,
            message: prefixed("protocol response schema validation failed: ", e),
            exit_code: AdapterExitCode::ProtocolError,
        },
        BoundaryFailure::WriteResponse(e) => BoundaryReport {
            code: BoundaryDiagnosticCode::FailedToWriteProtocolResponse,
            message: prefixed("failed to write protocol response: ", e),
            exit_code: AdapterExitCode::IoError,
        },
        BoundaryFailure::DiagnosticProjection => BoundaryReport {
            code: BoundaryDiagnosticCode::FailedToWriteReadableView,
            message: String::from_str("failed to project diagnostic output"),
            exit_code: AdapterExitCode::InternalError,
        },
        BoundaryFailure::ReadableViewRender(e) => BoundaryReport {
            code: BoundaryDiagnosticCode::ReadableViewRenderFailed,
            message: prefixed("readable_view_render_failed: ", e),
            exit_code: AdapterExitCode::InternalError,
        },
        BoundaryFailure::WriteReadableView(e) => BoundaryReport {
            code: BoundaryDiagnosticCode::FailedToWriteReadableView,
            message: prefixed("failed to write readable view: ", e),
            exit_code: AdapterExitCode::IoError,
        },
        BoundaryFailure::ReadablePayload(e) => BoundaryReport {
            code: BoundaryDiagnosticCode::FailedToWriteJson,
            message: prefixed("failed to write JSON: ", e),
            exit_code: AdapterExitCode::IoError,
        },
        BoundaryFailure::StdoutJson(e) => BoundaryReport {
            code: BoundaryDiagnosticCode::FailedToWriteJson,
            message: prefixed("failed to write JSON: ", e),
            exit_code: AdapterExitCode::IoError,
        },
    }
}

/// The exit code of a handler error: the error's own once its diagnostic
/// was written, else the exit code of the failed write.
pub fn handler_exit_code(error_exit: AdapterExitCode, write_exit: AdapterExitCode) -> (r: AdapterExitCode)
    ensures
        r == if write_exit == AdapterExitCode::Success { error_exit } else { write_exit },
{
    if write_exit == AdapterExitCode::Success {
        error_exit
    } else {
        write_exit
    }
}

/// A failure of the request's own input (text that is no JSON, a request
/// that fails its schema or does not decode) is reported with a request
/// code and ends with that code's exit code, the protocol-error exit code;
/// so do failures of the manifest, the probe result and the response
/// against the protocol. Whatever the failure, a report with a request code
/// ends with the protocol-error exit code.
pub proof fn law_input_failures_are_protocol_errors(f: BoundaryFailure)
    ensures
        ({
            let (code, message, exit_code) = report_spec(f);
            &&& (f is InvalidRequestJson || f is RequestSchema || f is RequestDeserialization) ==> {
                &&& DiagnosticCode::Boundary(code).spec_category() == crate::codes::DiagnosticCategory::Request
                &&& exit_code == crate::error::category_exit_code(DiagnosticCode::Boundary(code).spec_category())
                &&& exit_code == AdapterExitCode::ProtocolError
            }
            &&& (f is ManifestSchema || f is ManifestSemantic || f is ProbeSchema || f is ProbeSemantic
                || f is ResponseSchema || f is ResponseSemantic) ==> exit_code == AdapterExitCode::ProtocolError
            &&& DiagnosticCode::Boundary(code).spec_category() == crate::codes::DiagnosticCategory::Request
                ==> exit_code == AdapterExitCode::ProtocolError
        }),
{
}

} // verus!

//! Diagnostic codes and the rule table that gives each code its stable text,
//! category, default severity, default effect and details shape.

use vstd::prelude::*;

use crate::text::text_eq;

verus! {

/// Codes that project onto the adapter protocol's stable error codes.
#[derive(Clone, Copy, Debug, PartialEq, Eq, Structural)]
pub enum ProtocolDiagnosticCode {
    InvalidRequest,
    DocumentNotFound,
    DocumentPathInvalid,
    DocumentEncodingUnsupported,
    FormatUnknown,
    FormatAmbiguous,
    CapabilityUnsupported,
    RefNotFound,
    RefAmbiguous,
    RefInvalid,
    AdapterUnavailable,
    AdapterInvokeFailed,
    InternalError,
}

/// Codes of warnings that readable output shows to the user.
#[derive(Clone, Copy, Debug, PartialEq, Eq, Structural)]
pub enum ReadableWarningDiagnosticCode {
    CliArgvIgnored,
    AdapterCandidateFailure,
    AdapterConfigSourceSkipped,
}

/// Codes of failures at the adapter boundary (stdin, stdout, validation).
#[derive(Clone, Copy, Debug, PartialEq, Eq, Structural)]
pub enum BoundaryDiagnosticCode {
    AdapterErrorExitCodeCannotBe,
    FailedToReadRequest,
    FailedToSerialize,
    FailedToWriteCliWarning,
    FailedToWriteJson,
    FailedToWriteProtocolResponse,
    FailedToWriteReadableView,
    InvalidRequestJson,
    ManifestAdapterIdMismatch,
    ManifestSchemaValidationFailed,
    ManifestSemanticValidationFailed,
    ProbeResultAdapterIdMismatch,
    ProbeResultSchemaValidationFailed,
    ProbeResultSemanticValidationFailed,
    ProtocolResponseSchemaValidationFailed,
    ProtocolResponseSemanticValidationFailed,
    ReadableViewRenderFailed,
    RequestDeserializationFailed,
    RequestSchemaValidationFailed,
}

/// Any diagnostic code.
#[derive(Clone, Copy, Debug, PartialEq, Eq, Structural)]
pub enum DiagnosticCode {
    Protocol(ProtocolDiagnosticCode),
    ReadableWarning(ReadableWarningDiagnosticCode),
    Boundary(BoundaryDiagnosticCode),
}

#[derive(Clone, Copy, Debug, PartialEq, Eq, Structural)]
pub enum DiagnosticCategory {
    Request,
    Document,
    AdapterBoundary,
    Internal,
}

#[derive(Clone, Copy, Debug, PartialEq, Eq, Structural)]
pub enum DiagnosticSeverity {
    Warning,
    Error,
    Fatal,
}

#[derive(Clone, Copy, Debug, PartialEq, Eq, Structural)]
pub enum DiagnosticEffect {
    OperationContinued,
    CandidateSkipped,
    InputRejected,
    DocumentFailed,
    AdapterBoundaryFailed,
    InternalFailure,
}

/// The shape that a code's details must have: one of the field lists of
/// the rule table.
#[derive(Clone, Copy, Debug, PartialEq, Eq, Structural)]
pub enum DetailShape {
    FieldReason,
    Path,
    PathReason,
    PathEncoding,
    FormatUnknown,
    FormatAmbiguous,
    CapabilityAdapter,
    Ref,
    RefCandidateCount,
    RefReason,
    AdapterReason,
    Internal,
    CliArgv,
    AdapterCandidate,
    AdapterConfigSource,
    Boundary,
}

/// Where a diagnostic may be projected: a protocol error code, a readable
/// warning id, and stderr.
pub struct DiagnosticProjectionRule {
    pub protocol_code: Option<&'static str>,
    pub readable_warning_id: Option<&'static str>,
    pub stderr: bool,
}

impl ProtocolDiagnosticCode {
    pub open spec fn spec_protocol_code(self) -> Seq<char> {
        match self {
            ProtocolDiagnosticCode::InvalidRequest => "INVALID_REQUEST"@,
            ProtocolDiagnosticCode::DocumentNotFound => "DOCUMENT_NOT_FOUND"@,
            ProtocolDiagnosticCode::DocumentPathInvalid => "DOCUMENT_PATH_INVALID"@,
            ProtocolDiagnosticCode::DocumentEncodingUnsupported => "DOCUMENT_ENCODING_UNSUPPORTED"@,
            ProtocolDiagnosticCode::FormatUnknown => "FORMAT_UNKNOWN"@,
            ProtocolDiagnosticCode::FormatAmbiguous => "FORMAT_AMBIGUOUS"@,
            ProtocolDiagnosticCode::CapabilityUnsupported => "CAPABILITY_UNSUPPORTED"@,
            ProtocolDiagnosticCode::RefNotFound => "REF_NOT_FOUND"@,
            ProtocolDiagnosticCode::RefAmbiguous => "REF_AMBIGUOUS"@,
            ProtocolDiagnosticCode::RefInvalid => "REF_INVALID"@,
            ProtocolDiagnosticCode::AdapterUnavailable => "ADAPTER_UNAVAILABLE"@,
            ProtocolDiagnosticCode::AdapterInvokeFailed => "ADAPTER_INVOKE_FAILED"@,
            ProtocolDiagnosticCode::InternalError => "INTERNAL_ERROR"@,
        }
    }

    /// The stable protocol error code.
    pub fn protocol_code(self) -> (r: &'static str)
        ensures
            r@ == self.spec_protocol_code(),
    {
        match self {
            ProtocolDiagnosticCode::InvalidRequest => "INVALID_REQUEST",
            ProtocolDiagnosticCode::DocumentNotFound => "DOCUMENT_NOT_FOUND",
            ProtocolDiagnosticCode::DocumentPathInvalid => "DOCUMENT_PATH_INVALID",
            ProtocolDiagnosticCode::DocumentEncodingUnsupported => "DOCUMENT_ENCODING_UNSUPPORTED",
            ProtocolDiagnosticCode::FormatUnknown => "FORMAT_UNKNOWN",
            ProtocolDiagnosticCode::FormatAmbiguous => "FORMAT_AMBIGUOUS",
            ProtocolDiagnosticCode::CapabilityUnsupported => "CAPABILITY_UNSUPPORTED",
            ProtocolDiagnosticCode::RefNotFound => "REF_NOT_FOUND",
            ProtocolDiagnosticCode::RefAmbiguous => "REF_AMBIGUOUS",
            ProtocolDiagnosticCode::RefInvalid => "REF_INVALID",
            ProtocolDiagnosticCode::AdapterUnavailable => "ADAPTER_UNAVAILABLE",
            ProtocolDiagnosticCode::AdapterInvokeFailed => "ADAPTER_INVOKE_FAILED",
            ProtocolDiagnosticCode::InternalError => "INTERNAL_ERROR",
        }
    }

    pub open spec fn spec_category(self) -> DiagnosticCategory {
        match self {
            ProtocolDiagnosticCode::InvalidRequest => DiagnosticCategory::Request,
            ProtocolDiagnosticCode::CapabilityUnsupported => DiagnosticCategory::Request,
            ProtocolDiagnosticCode::AdapterUnavailable => DiagnosticCategory::AdapterBoundary,
            ProtocolDiagnosticCode::AdapterInvokeFailed => DiagnosticCategory::AdapterBoundary,
            ProtocolDiagnosticCode::InternalError => DiagnosticCategory::Internal,
            _ => DiagnosticCategory::Document,
        }
    }

    pub fn category(self) -> (r: DiagnosticCategory)
        ensures
            r == self.spec_category(),
    {
        match self {
            ProtocolDiagnosticCode::InvalidRequest => DiagnosticCategory::Request,
            ProtocolDiagnosticCode::CapabilityUnsupported => DiagnosticCategory::Request,
            ProtocolDiagnosticCode::AdapterUnavailable => DiagnosticCategory::AdapterBoundary,
            ProtocolDiagnosticCode::AdapterInvokeFailed => DiagnosticCategory::AdapterBoundary,
            ProtocolDiagnosticCode::InternalError => DiagnosticCategory::Internal,
            _ => DiagnosticCategory::Document,
        }
    }

    pub open spec fn spec_severity(self) -> DiagnosticSeverity {
        match self {
            ProtocolDiagnosticCode::InternalError => DiagnosticSeverity::Fatal,
            _ => DiagnosticSeverity::Error,
        }
    }

    pub open spec fn spec_effect(self) -> DiagnosticEffect {
        match self.spec_category() {
            DiagnosticCategory::Request => DiagnosticEffect::InputRejected,
            DiagnosticCategory::Document => DiagnosticEffect::DocumentFailed,
            DiagnosticCategory::AdapterBoundary => DiagnosticEffect::AdapterBoundaryFailed,
            DiagnosticCategory::Internal => DiagnosticEffect::InternalFailure,
        }
    }

    pub open spec fn spec_shape(self) -> DetailShape {
        match self {
            ProtocolDiagnosticCode::InvalidRequest => DetailShape::FieldReason,
            ProtocolDiagnosticCode::DocumentNotFound => DetailShape::Path,
            ProtocolDiagnosticCode::DocumentPathInvalid => DetailShape::PathReason,
            ProtocolDiagnosticCode::DocumentEncodingUnsupported => DetailShape::PathEncoding,
            ProtocolDiagnosticCode::FormatUnknown => DetailShape::FormatUnknown,
            ProtocolDiagnosticCode::FormatAmbiguous => DetailShape::FormatAmbiguous,
            ProtocolDiagnosticCode::CapabilityUnsupported => DetailShape::CapabilityAdapter,
            ProtocolDiagnosticCode::RefNotFound => DetailShape::Ref,
            ProtocolDiagnosticCode::RefAmbiguous => DetailShape::RefCandidateCount,
            ProtocolDiagnosticCode::RefInvalid => DetailShape::RefReason,
            ProtocolDiagnosticCode::AdapterUnavailable => DetailShape::AdapterReason,
            ProtocolDiagnosticCode::AdapterInvokeFailed => DetailShape::AdapterReason,
            ProtocolDiagnosticCode::InternalError => DetailShape::Internal,
        }
    }

    /// The protocol code whose stable text is `value`.
    pub open spec fn spec_from_protocol_code(value: Seq<char>) -> Option<ProtocolDiagnosticCode> {
        if value == "INVALID_REQUEST"@ {
            Some(ProtocolDiagnosticCode::InvalidRequest)
        } else if value == "DOCUMENT_NOT_FOUND"@ {
            Some(ProtocolDiagnosticCode::DocumentNotFound)
        } else if value == "DOCUMENT_PATH_INVALID"@ {
            Some(ProtocolDiagnosticCode::DocumentPathInvalid)
        } else if value == "DOCUMENT_ENCODING_UNSUPPORTED"@ {
            Some(ProtocolDiagnosticCode::DocumentEncodingUnsupported)
        } else if value == "FORMAT_UNKNOWN"@ {
            Some(ProtocolDiagnosticCode::FormatUnknown)
        } else if value == "FORMAT_AMBIGUOUS"@ {
            Some(ProtocolDiagnosticCode::FormatAmbiguous)
        } else if value == "CAPABILITY_UNSUPPORTED"@ {
            Some(ProtocolDiagnosticCode::CapabilityUnsupported)
        } else if value == "REF_NOT_FOUND"@ {
            Some(ProtocolDiagnosticCode::RefNotFound)
        } else if value == "REF_AMBIGUOUS"@ {
            Some(ProtocolDiagnosticCode::RefAmbiguous)
        } else if value == "REF_INVALID"@ {
            Some(ProtocolDiagnosticCode::RefInvalid)
        } else if value == "ADAPTER_UNAVAILABLE"@ {
            Some(ProtocolDiagnosticCode::AdapterUnavailable)
        } else if value == "ADAPTER_INVOKE_FAILED"@ {
            Some(ProtocolDiagnosticCode::AdapterInvokeFailed)
        } else if value == "INTERNAL_ERROR"@ {
            Some(ProtocolDiagnosticCode::InternalError)
        } else {
            None
        }
    }

    /// The protocol code whose stable text is `value`, if any.
    pub fn from_protocol_code(value: &str) -> (r: Option<Self>)
        ensures
            r == Self::spec_from_protocol_code(value@),
    {
        if text_eq(value, "INVALID_REQUEST") {
            Some(ProtocolDiagnosticCode::InvalidRequest)
        } else if text_eq(value, "DOCUMENT_NOT_FOUND") {
            Some(ProtocolDiagnosticCode::DocumentNotFound)
        } else if text_eq(value, "DOCUMENT_PATH_INVALID") {
            Some(ProtocolDiagnosticCode::DocumentPathInvalid)
        } else if text_eq(value, "DOCUMENT_ENCODING_UNSUPPORTED") {
            Some(ProtocolDiagnosticCode::DocumentEncodingUnsupported)
        } else if text_eq(value, "FORMAT_UNKNOWN") {
            Some(ProtocolDiagnosticCode::FormatUnknown)
        } else if text_eq(value, "FORMAT_AMBIGUOUS") {
            Some(ProtocolDiagnosticCode::FormatAmbiguous)
        } else if text_eq(value, "CAPABILITY_UNSUPPORTED") {
            Some(ProtocolDiagnosticCode::CapabilityUnsupported)
        } else if text_eq(value, "REF_NOT_FOUND") {
            Some(ProtocolDiagnosticCode::RefNotFound)
        } else if text_eq(value, "REF_AMBIGUOUS") {
            Some(ProtocolDiagnosticCode::RefAmbiguous)
        } else if text_eq(value, "REF_INVALID") {
            Some(ProtocolDiagnosticCode::RefInvalid)
        } else if text_eq(value, "ADAPTER_UNAVAILABLE") {
            Some(ProtocolDiagnosticCode::AdapterUnavailable)
        } else if text_eq(value, "ADAPTER_INVOKE_FAILED") {
            Some(ProtocolDiagnosticCode::AdapterInvokeFailed)
        } else if text_eq(value, "INTERNAL_ERROR") {
            Some(ProtocolDiagnosticCode::InternalError)
        } else {
            None
        }
    }
}

impl ReadableWarningDiagnosticCode {
    pub open spec fn spec_warning_id(self) -> Seq<char> {
        match self {
            ReadableWarningDiagnosticCode::CliArgvIgnored => "cli_argv_ignored"@,
            ReadableWarningDiagnosticCode::AdapterCandidateFailure => "adapter_candidate_failure"@,
            ReadableWarningDiagnosticCode::AdapterConfigSourceSkipped =>
                "adapter_config_source_skipped"@,
        }
    }

    /// The stable warning id shown in readable output.
    pub fn warning_id(self) -> (r: &'static str)
        ensures
            r@ == self.spec_warning_id(),
    {
        match self {
            ReadableWarningDiagnosticCode::CliArgvIgnored => "cli_argv_ignored",
            ReadableWarningDiagnosticCode::AdapterCandidateFailure => "adapter_candidate_failure",
            ReadableWarningDiagnosticCode::AdapterConfigSourceSkipped =>
                "adapter_config_source_skipped",
        }
    }

    /// The warning id, as the code's text.
    pub fn as_str(self) -> (r: &'static str)
        ensures
            r@ == self.spec_warning_id(),
    {
        self.warning_id()
    }

    pub open spec fn spec_from_warning_id(value: Seq<char>) -> Option<ReadableWarningDiagnosticCode> {
        if value == "cli_argv_ignored"@ {
            Some(ReadableWarningDiagnosticCode::CliArgvIgnored)
        } else if value == "adapter_candidate_failure"@ {
            Some(ReadableWarningDiagnosticCode::AdapterCandidateFailure)
        } else if value == "adapter_config_source_skipped"@ {
            Some(ReadableWarningDiagnosticCode::AdapterConfigSourceSkipped)
        } else {
            None
        }
    }

    /// The readable warning code whose id is `value`, if any.
    pub fn from_warning_id(value: &str) -> (r: Option<Self>)
        ensures
            r == Self::spec_from_warning_id(value@),
    {
        if text_eq(value, "cli_argv_ignored") {
            Some(ReadableWarningDiagnosticCode::CliArgvIgnored)
        } else if text_eq(value, "adapter_candidate_failure") {
            Some(ReadableWarningDiagnosticCode::AdapterCandidateFailure)
        } else if text_eq(value, "adapter_config_source_skipped") {
            Some(ReadableWarningDiagnosticCode::AdapterConfigSourceSkipped)
        } else {
            None
        }
    }

    pub open spec fn spec_category(self) -> DiagnosticCategory {
        match self {
            ReadableWarningDiagnosticCode::AdapterCandidateFailure =>
                DiagnosticCategory::AdapterBoundary,
            _ => DiagnosticCategory::Request,
        }
    }

    pub open spec fn spec_effect(self) -> DiagnosticEffect {
        match self {
            ReadableWarningDiagnosticCode::AdapterCandidateFailure =>
                DiagnosticEffect::CandidateSkipped,
            _ => DiagnosticEffect::OperationContinued,
        }
    }

    pub open spec fn spec_shape(self) -> DetailShape {
        match self {
            ReadableWarningDiagnosticCode::CliArgvIgnored => DetailShape::CliArgv,
            ReadableWarningDiagnosticCode::AdapterCandidateFailure => DetailShape::AdapterCandidate,
            ReadableWarningDiagnosticCode::AdapterConfigSourceSkipped =>
                DetailShape::AdapterConfigSource,
        }
    }
}

impl BoundaryDiagnosticCode {
    pub open spec fn spec_as_str(self) -> Seq<char> {
        match self {
            BoundaryDiagnosticCode::AdapterErrorExitCodeCannotBe =>
                "adapter_error_exit_code_cannot_be"@,
            BoundaryDiagnosticCode::FailedToReadRequest => "failed_to_read_request"@,
            BoundaryDiagnosticCode::FailedToSerialize => "failed_to_serialize"@,
            BoundaryDiagnosticCode::FailedToWriteCliWarning => "failed_to_write_cli_warning"@,
            BoundaryDiagnosticCode::FailedToWriteJson => "failed_to_write_json"@,
            BoundaryDiagnosticCode::FailedToWriteProtocolResponse =>
                "failed_to_write_protocol_response"@,
            BoundaryDiagnosticCode::FailedToWriteReadableView => "failed_to_write_readable_view"@,
            BoundaryDiagnosticCode::InvalidRequestJson => "invalid_request_json"@,
            BoundaryDiagnosticCode::ManifestAdapterIdMismatch => "manifest_adapter_id_mismatch"@,
            BoundaryDiagnosticCode::ManifestSchemaValidationFailed =>
                "manifest_schema_validation_failed"@,
            BoundaryDiagnosticCode::ManifestSemanticValidationFailed =>
                "manifest_semantic_validation_failed"@,
            BoundaryDiagnosticCode::ProbeResultAdapterIdMismatch =>
                "probe_result_adapter_id_mismatch"@,
            BoundaryDiagnosticCode::ProbeResultSchemaValidationFailed =>
                "probe_result_schema_validation_failed"@,
            BoundaryDiagnosticCode::ProbeResultSemanticValidationFailed =>
                "probe_result_semantic_validation_failed"@,
            BoundaryDiagnosticCode::ProtocolResponseSchemaValidationFailed =>
                "protocol_response_schema_validation_failed"@,
            BoundaryDiagnosticCode::ProtocolResponseSemanticValidationFailed =>
                "protocol_response_semantic_validation_failed"@,
            BoundaryDiagnosticCode::ReadableViewRenderFailed => "readable_view_render_failed"@,
            BoundaryDiagnosticCode::RequestDeserializationFailed =>
                "request_deserialization_failed"@,
            BoundaryDiagnosticCode::RequestSchemaValidationFailed =>
                "request_schema_validation_failed"@,
        }
    }

    /// The boundary code whose id is `value`, if any.
    pub open spec fn spec_from_str(value: Seq<char>) -> Option<BoundaryDiagnosticCode> {
        if value == "adapter_error_exit_code_cannot_be"@ {
            Some(BoundaryDiagnosticCode::AdapterErrorExitCodeCannotBe)
        } else if value == "failed_to_read_request"@ {
            Some(BoundaryDiagnosticCode::FailedToReadRequest)
        } else if value == "failed_to_serialize"@ {
            Some(BoundaryDiagnosticCode::FailedToSerialize)
        } else if value == "failed_to_write_cli_warning"@ {
            Some(BoundaryDiagnosticCode::FailedToWriteCliWarning)
        } else if value == "failed_to_write_json"@ {
            Some(BoundaryDiagnosticCode::FailedToWriteJson)
        } else if value == "failed_to_write_protocol_response"@ {
            Some(BoundaryDiagnosticCode::FailedToWriteProtocolResponse)
        } else if value == "failed_to_write_readable_view"@ {
            Some(BoundaryDiagnosticCode::FailedToWriteReadableView)
        } else if value == "invalid_request_json"@ {
            Some(BoundaryDiagnosticCode::InvalidRequestJson)
        } else if value == "manifest_adapter_id_mismatch"@ {
            Some(BoundaryDiagnosticCode::ManifestAdapterIdMismatch)
        } else if value == "manifest_schema_validation_failed"@ {
            Some(BoundaryDiagnosticCode::ManifestSchemaValidationFailed)
        } else if value == "manifest_semantic_validation_failed"@ {
            Some(BoundaryDiagnosticCode::ManifestSemanticValidationFailed)
        } else if value == "probe_result_adapter_id_mismatch"@ {
            Some(BoundaryDiagnosticCode::ProbeResultAdapterIdMismatch)
        } else if value == "probe_result_schema_validation_failed"@ {
            Some(BoundaryDiagnosticCode::ProbeResultSchemaValidationFailed)
        } else if value == "probe_result_semantic_validation_failed"@ {
            Some(BoundaryDiagnosticCode::ProbeResultSemanticValidationFailed)
        } else if value == "protocol_response_schema_validation_failed"@ {
            Some(BoundaryDiagnosticCode::ProtocolResponseSchemaValidationFailed)
        } else if value == "protocol_response_semantic_validation_failed"@ {
            Some(BoundaryDiagnosticCode::ProtocolResponseSemanticValidationFailed)
        } else if value == "readable_view_render_failed"@ {
            Some(BoundaryDiagnosticCode::ReadableViewRenderFailed)
        } else if value == "request_deserialization_failed"@ {
            Some(BoundaryDiagnosticCode::RequestDeserializationFailed)
        } else if value == "request_schema_validation_failed"@ {
            Some(BoundaryDiagnosticCode::RequestSchemaValidationFailed)
        } else {
            None
        }
    }

    /// The stable id of the boundary code.
    pub fn as_str(self) -> (r: &'static str)
        ensures
            r@ == self.spec_as_str(),
    {
        match self {
            BoundaryDiagnosticCode::AdapterErrorExitCodeCannotBe =>
                "adapter_error_exit_code_cannot_be",
            BoundaryDiagnosticCode::FailedToReadRequest => "failed_to_read_request",
            BoundaryDiagnosticCode::FailedToSerialize => "failed_to_serialize",
            BoundaryDiagnosticCode::FailedToWriteCliWarning => "failed_to_write_cli_warning",
            BoundaryDiagnosticCode::FailedToWriteJson => "failed_to_write_json",
            BoundaryDiagnosticCode::FailedToWriteProtocolResponse =>
                "failed_to_write_protocol_response",
            BoundaryDiagnosticCode::FailedToWriteReadableView => "failed_to_write_readable_view",
            BoundaryDiagnosticCode::InvalidRequestJson => "invalid_request_json",
            BoundaryDiagnosticCode::ManifestAdapterIdMismatch => "manifest_adapter_id_mismatch",
            BoundaryDiagnosticCode::ManifestSchemaValidationFailed =>
                "manifest_schema_validation_failed",
            BoundaryDiagnosticCode::ManifestSemanticValidationFailed =>
                "manifest_semantic_validation_failed",
            BoundaryDiagnosticCode::ProbeResultAdapterIdMismatch =>
                "probe_result_adapter_id_mismatch",
            BoundaryDiagnosticCode::ProbeResultSchemaValidationFailed =>
                "probe_result_schema_validation_failed",
            BoundaryDiagnosticCode::ProbeResultSemanticValidationFailed =>
                "probe_result_semantic_validation_failed",
            BoundaryDiagnosticCode::ProtocolResponseSchemaValidationFailed =>
                "protocol_response_schema_validation_failed",
            BoundaryDiagnosticCode::ProtocolResponseSemanticValidationFailed =>
                "protocol_response_semantic_validation_failed",
            BoundaryDiagnosticCode::ReadableViewRenderFailed => "readable_view_render_failed",
            BoundaryDiagnosticCode::RequestDeserializationFailed =>
                "request_deserialization_failed",
            BoundaryDiagnosticCode::RequestSchemaValidationFailed =>
                "request_schema_validation_failed",
        }
    }

    pub open spec fn spec_category(self) -> DiagnosticCategory {
        match self {
            BoundaryDiagnosticCode::AdapterErrorExitCodeCannotBe => DiagnosticCategory::Internal,
            BoundaryDiagnosticCode::FailedToSerialize => DiagnosticCategory::Internal,
            BoundaryDiagnosticCode::FailedToWriteCliWarning => DiagnosticCategory::Internal,
            BoundaryDiagnosticCode::FailedToWriteJson => DiagnosticCategory::Internal,
            BoundaryDiagnosticCode::FailedToWriteProtocolResponse => DiagnosticCategory::Internal,
            BoundaryDiagnosticCode::FailedToWriteReadableView => DiagnosticCategory::Internal,
            BoundaryDiagnosticCode::ReadableViewRenderFailed => DiagnosticCategory::Internal,
            BoundaryDiagnosticCode::InvalidRequestJson => DiagnosticCategory::Request,
            BoundaryDiagnosticCode::RequestDeserializationFailed => DiagnosticCategory::Request,
            BoundaryDiagnosticCode::RequestSchemaValidationFailed => DiagnosticCategory::Request,
            _ => DiagnosticCategory::AdapterBoundary,
        }
    }

    pub fn category(self) -> (r: DiagnosticCategory)
        ensures
            r == self.spec_category(),
    {
        match self {
            BoundaryDiagnosticCode::AdapterErrorExitCodeCannotBe => DiagnosticCategory::Internal,
            BoundaryDiagnosticCode::FailedToSerialize => DiagnosticCategory::Internal,
            BoundaryDiagnosticCode::FailedToWriteCliWarning => DiagnosticCategory::Internal,
            BoundaryDiagnosticCode::FailedToWriteJson => DiagnosticCategory::Internal,
            BoundaryDiagnosticCode::FailedToWriteProtocolResponse => DiagnosticCategory::Internal,
            BoundaryDiagnosticCode::FailedToWriteReadableView => DiagnosticCategory::Internal,
            BoundaryDiagnosticCode::ReadableViewRenderFailed => DiagnosticCategory::Internal,
            BoundaryDiagnosticCode::InvalidRequestJson => DiagnosticCategory::Request,
            BoundaryDiagnosticCode::RequestDeserializationFailed => DiagnosticCategory::Request,
            BoundaryDiagnosticCode::RequestSchemaValidationFailed => DiagnosticCategory::Request,
            _ => DiagnosticCategory::AdapterBoundary,
        }
    }

    pub open spec fn spec_severity(self) -> DiagnosticSeverity {
        match self {
            BoundaryDiagnosticCode::FailedToSerialize => DiagnosticSeverity::Fatal,
            BoundaryDiagnosticCode::FailedToWriteCliWarning => DiagnosticSeverity::Fatal,
            BoundaryDiagnosticCode::FailedToWriteJson => DiagnosticSeverity::Fatal,
            BoundaryDiagnosticCode::FailedToWriteProtocolResponse => DiagnosticSeverity::Fatal,
            BoundaryDiagnosticCode::FailedToWriteReadableView => DiagnosticSeverity::Fatal,
            BoundaryDiagnosticCode::ReadableViewRenderFailed => DiagnosticSeverity::Fatal,
            _ => DiagnosticSeverity::Error,
        }
    }

    pub open spec fn spec_effect(self) -> DiagnosticEffect {
        match self.spec_category() {
            DiagnosticCategory::Request => DiagnosticEffect::InputRejected,
            DiagnosticCategory::Document => DiagnosticEffect::DocumentFailed,
            DiagnosticCategory::AdapterBoundary => DiagnosticEffect::AdapterBoundaryFailed,
            DiagnosticCategory::Internal => DiagnosticEffect::InternalFailure,
        }
    }
}

/// Every protocol code, in declaration order.
pub open spec fn protocol_codes() -> Seq<ProtocolDiagnosticCode> {
    seq![
        ProtocolDiagnosticCode::InvalidRequest,
        ProtocolDiagnosticCode::DocumentNotFound,
        ProtocolDiagnosticCode::DocumentPathInvalid,
        ProtocolDiagnosticCode::DocumentEncodingUnsupported,
        ProtocolDiagnosticCode::FormatUnknown,
        ProtocolDiagnosticCode::FormatAmbiguous,
        ProtocolDiagnosticCode::CapabilityUnsupported,
        ProtocolDiagnosticCode::RefNotFound,
        ProtocolDiagnosticCode::RefAmbiguous,
        ProtocolDiagnosticCode::RefInvalid,
        ProtocolDiagnosticCode::AdapterUnavailable,
        ProtocolDiagnosticCode::AdapterInvokeFailed,
        ProtocolDiagnosticCode::InternalError,
    ]
}

/// Every readable warning code, in declaration order.
pub open spec fn readable_warning_codes() -> Seq<ReadableWarningDiagnosticCode> {
    seq![
        ReadableWarningDiagnosticCode::CliArgvIgnored,
        ReadableWarningDiagnosticCode::AdapterCandidateFailure,
        ReadableWarningDiagnosticCode::AdapterConfigSourceSkipped,
    ]
}

/// Every boundary code, in declaration order.
pub open spec fn boundary_codes() -> Seq<BoundaryDiagnosticCode> {
    seq![
        BoundaryDiagnosticCode::AdapterErrorExitCodeCannotBe,
        BoundaryDiagnosticCode::FailedToReadRequest,
        BoundaryDiagnosticCode::FailedToSerialize,
        BoundaryDiagnosticCode::FailedToWriteCliWarning,
        BoundaryDiagnosticCode::FailedToWriteJson,
        BoundaryDiagnosticCode::FailedToWriteProtocolResponse,
        BoundaryDiagnosticCode::FailedToWriteReadableView,
        BoundaryDiagnosticCode::InvalidRequestJson,
        BoundaryDiagnosticCode::ManifestAdapterIdMismatch,
        BoundaryDiagnosticCode::ManifestSchemaValidationFailed,
        BoundaryDiagnosticCode::ManifestSemanticValidationFailed,
        BoundaryDiagnosticCode::ProbeResultAdapterIdMismatch,
        BoundaryDiagnosticCode::ProbeResultSchemaValidationFailed,
        BoundaryDiagnosticCode::ProbeResultSemanticValidationFailed,
        BoundaryDiagnosticCode::ProtocolResponseSchemaValidationFailed,
        BoundaryDiagnosticCode::ProtocolResponseSemanticValidationFailed,
        BoundaryDiagnosticCode::ReadableViewRenderFailed,
        BoundaryDiagnosticCode::RequestDeserializationFailed,
        BoundaryDiagnosticCode::RequestSchemaValidationFailed,
    ]
}

/// Every diagnostic code: protocol codes, then readable warnings, then boundary codes.
pub open spec fn all_codes() -> Seq<DiagnosticCode> {
    protocol_codes().map_values(|c: ProtocolDiagnosticCode| DiagnosticCode::Protocol(c))
        + readable_warning_codes().map_values(
        |c: ReadableWarningDiagnosticCode| DiagnosticCode::ReadableWarning(c),
    ) + boundary_codes().map_values(|c: BoundaryDiagnosticCode| DiagnosticCode::Boundary(c))
}

impl DiagnosticCode {
    pub open spec fn spec_as_str(self) -> Seq<char> {
        match self {
            DiagnosticCode::Protocol(c) => c.spec_protocol_code(),
            DiagnosticCode::ReadableWarning(c) => c.spec_warning_id(),
            DiagnosticCode::Boundary(c) => c.spec_as_str(),
        }
    }

    pub open spec fn spec_category(self) -> DiagnosticCategory {
        match self {
            DiagnosticCode::Protocol(c) => c.spec_category(),
            DiagnosticCode::ReadableWarning(c) => c.spec_category(),
            DiagnosticCode::Boundary(c) => c.spec_category(),
        }
    }

    pub open spec fn spec_default_severity(self) -> DiagnosticSeverity {
        match self {
            DiagnosticCode::Protocol(c) => c.spec_severity(),
            DiagnosticCode::ReadableWarning(_) => DiagnosticSeverity::Warning,
            DiagnosticCode::Boundary(c) => c.spec_severity(),
        }
    }

    pub open spec fn spec_default_effect(self) -> DiagnosticEffect {
        match self {
            DiagnosticCode::Protocol(c) => c.spec_effect(),
            DiagnosticCode::ReadableWarning(c) => c.spec_effect(),
            DiagnosticCode::Boundary(c) => c.spec_effect(),
        }
    }

    pub open spec fn spec_shape(self) -> DetailShape {
        match self {
            DiagnosticCode::Protocol(c) => c.spec_shape(),
            DiagnosticCode::ReadableWarning(c) => c.spec_shape(),
            DiagnosticCode::Boundary(_) => DetailShape::Boundary,
        }
    }

    /// Every diagnostic code, each exactly once.
    pub fn all() -> (r: Vec<DiagnosticCode>)
        ensures
            r@ == all_codes(),
    {
        let mut r: Vec<DiagnosticCode> = Vec::new();
        r.push(DiagnosticCode::Protocol(ProtocolDiagnosticCode::InvalidRequest));
        r.push(DiagnosticCode::Protocol(ProtocolDiagnosticCode::DocumentNotFound));
        r.push(DiagnosticCode::Protocol(ProtocolDiagnosticCode::DocumentPathInvalid));
        r.push(DiagnosticCode::Protocol(ProtocolDiagnosticCode::DocumentEncodingUnsupported));
        r.push(DiagnosticCode::Protocol(ProtocolDiagnosticCode::FormatUnknown));
        r.push(DiagnosticCode::Protocol(ProtocolDiagnosticCode::FormatAmbiguous));
        r.push(DiagnosticCode::Protocol(ProtocolDiagnosticCode::CapabilityUnsupported));
        r.push(DiagnosticCode::Protocol(ProtocolDiagnosticCode::RefNotFound));
        r.push(DiagnosticCode::Protocol(ProtocolDiagnosticCode::RefAmbiguous));
        r.push(DiagnosticCode::Protocol(ProtocolDiagnosticCode::RefInvalid));
        r.push(DiagnosticCode::Protocol(ProtocolDiagnosticCode::AdapterUnavailable));
        r.push(DiagnosticCode::Protocol(ProtocolDiagnosticCode::AdapterInvokeFailed));
        r.push(DiagnosticCode::Protocol(ProtocolDiagnosticCode::InternalError));
        r.push(DiagnosticCode::ReadableWarning(ReadableWarningDiagnosticCode::CliArgvIgnored));
        r.push(
            DiagnosticCode::ReadableWarning(ReadableWarningDiagnosticCode::AdapterCandidateFailure),
        );
        r.push(
            DiagnosticCode::ReadableWarning(
                ReadableWarningDiagnosticCode::AdapterConfigSourceSkipped,
            ),
        );
        r.push(DiagnosticCode::Boundary(BoundaryDiagnosticCode::AdapterErrorExitCodeCannotBe));
        r.push(DiagnosticCode::Boundary(BoundaryDiagnosticCode::FailedToReadRequest));
        r.push(DiagnosticCode::Boundary(BoundaryDiagnosticCode::FailedToSerialize));
        r.push(DiagnosticCode::Boundary(BoundaryDiagnosticCode::FailedToWriteCliWarning));
        r.push(DiagnosticCode::Boundary(BoundaryDiagnosticCode::FailedToWriteJson));
        r.push(DiagnosticCode::Boundary(BoundaryDiagnosticCode::FailedToWriteProtocolResponse));
        r.push(DiagnosticCode::Boundary(BoundaryDiagnosticCode::FailedToWriteReadableView));
        r.push(DiagnosticCode::Boundary(BoundaryDiagnosticCode::InvalidRequestJson));
        r.push(DiagnosticCode::Boundary(BoundaryDiagnosticCode::ManifestAdapterIdMismatch));
        r.push(DiagnosticCode::Boundary(BoundaryDiagnosticCode::ManifestSchemaValidationFailed));
        r.push(DiagnosticCode::Boundary(BoundaryDiagnosticCode::ManifestSemanticValidationFailed));
        r.push(DiagnosticCode::Boundary(BoundaryDiagnosticCode::ProbeResultAdapterIdMismatch));
        r.push(
            DiagnosticCode::Boundary(BoundaryDiagnosticCode::ProbeResultSchemaValidationFailed),
        );
        r.push(
            DiagnosticCode::Boundary(BoundaryDiagnosticCode::ProbeResultSemanticValidationFailed),
        );
        r.push(
            DiagnosticCode::Boundary(BoundaryDiagnosticCode::ProtocolResponseSchemaValidationFailed),
        );
        r.push(
            DiagnosticCode::Boundary(
                BoundaryDiagnosticCode::ProtocolResponseSemanticValidationFailed,
            ),
        );
        r.push(DiagnosticCode::Boundary(BoundaryDiagnosticCode::ReadableViewRenderFailed));
        r.push(DiagnosticCode::Boundary(BoundaryDiagnosticCode::RequestDeserializationFailed));
        r.push(DiagnosticCode::Boundary(BoundaryDiagnosticCode::RequestSchemaValidationFailed));
        assert(r@ =~= all_codes());
        r
    }

    /// The stable text of the code.
    pub fn as_str(self) -> (r: &'static str)
        ensures
            r@ == self.spec_as_str(),
    {
        match self {
            DiagnosticCode::Protocol(c) => c.protocol_code(),
            DiagnosticCode::ReadableWarning(c) => c.warning_id(),
            DiagnosticCode::Boundary(c) => c.as_str(),
        }
    }

    pub fn category(self) -> (r: DiagnosticCategory)
        ensures
            r == self.spec_category(),
    {
        match self {
            DiagnosticCode::Protocol(c) => c.category(),
            DiagnosticCode::ReadableWarning(c) => match c {
                ReadableWarningDiagnosticCode::AdapterCandidateFailure =>
                    DiagnosticCategory::AdapterBoundary,
                _ => DiagnosticCategory::Request,
            },
            DiagnosticCode::Boundary(c) => c.category(),
        }
    }

    pub fn default_severity(self) -> (r: DiagnosticSeverity)
        ensures
            r == self.spec_default_severity(),
    {
        match self {
            DiagnosticCode::Protocol(ProtocolDiagnosticCode::InternalError) =>
                DiagnosticSeverity::Fatal,
            DiagnosticCode::Protocol(_) => DiagnosticSeverity::Error,
            DiagnosticCode::ReadableWarning(_) => DiagnosticSeverity::Warning,
            DiagnosticCode::Boundary(c) => match c {
                BoundaryDiagnosticCode::FailedToSerialize => DiagnosticSeverity::Fatal,
                BoundaryDiagnosticCode::FailedToWriteCliWarning => DiagnosticSeverity::Fatal,
                BoundaryDiagnosticCode::FailedToWriteJson => DiagnosticSeverity::Fatal,
                BoundaryDiagnosticCode::FailedToWriteProtocolResponse => DiagnosticSeverity::Fatal,
                BoundaryDiagnosticCode::FailedToWriteReadableView => DiagnosticSeverity::Fatal,
                BoundaryDiagnosticCode::ReadableViewRenderFailed => DiagnosticSeverity::Fatal,
                _ => DiagnosticSeverity::Error,
            },
        }
    }

    pub fn default_effect(self) -> (r: DiagnosticEffect)
        ensures
            r == self.spec_default_effect(),
    {
        match self {
            DiagnosticCode::ReadableWarning(ReadableWarningDiagnosticCode::AdapterCandidateFailure) =>
                DiagnosticEffect::CandidateSkipped,
            DiagnosticCode::ReadableWarning(_) => DiagnosticEffect::OperationContinued,
            _ => match self.category() {
                DiagnosticCategory::Request => DiagnosticEffect::InputRejected,
                DiagnosticCategory::Document => DiagnosticEffect::DocumentFailed,
                DiagnosticCategory::AdapterBoundary => DiagnosticEffect::AdapterBoundaryFailed,
                DiagnosticCategory::Internal => DiagnosticEffect::InternalFailure,
            },
        }
    }

    /// The details shape that the code's rule requires.
    pub fn shape(self) -> (r: DetailShape)
        ensures
            r == self.spec_shape(),
    {
        match self {
            DiagnosticCode::Protocol(c) => match c {
                ProtocolDiagnosticCode::InvalidRequest => DetailShape::FieldReason,
                ProtocolDiagnosticCode::DocumentNotFound => DetailShape::Path,
                ProtocolDiagnosticCode::DocumentPathInvalid => DetailShape::PathReason,
                ProtocolDiagnosticCode::DocumentEncodingUnsupported => DetailShape::PathEncoding,
                ProtocolDiagnosticCode::FormatUnknown => DetailShape::FormatUnknown,
                ProtocolDiagnosticCode::FormatAmbiguous => DetailShape::FormatAmbiguous,
                ProtocolDiagnosticCode::CapabilityUnsupported => DetailShape::CapabilityAdapter,
                ProtocolDiagnosticCode::RefNotFound => DetailShape::Ref,
                ProtocolDiagnosticCode::RefAmbiguous => DetailShape::RefCandidateCount,
                ProtocolDiagnosticCode::RefInvalid => DetailShape::RefReason,
                ProtocolDiagnosticCode::AdapterUnavailable => DetailShape::AdapterReason,
                ProtocolDiagnosticCode::AdapterInvokeFailed => DetailShape::AdapterReason,
                ProtocolDiagnosticCode::InternalError => DetailShape::Internal,
            },
            DiagnosticCode::ReadableWarning(c) => match c {
                ReadableWarningDiagnosticCode::CliArgvIgnored => DetailShape::CliArgv,
                ReadableWarningDiagnosticCode::AdapterCandidateFailure =>
                    DetailShape::AdapterCandidate,
                ReadableWarningDiagnosticCode::AdapterConfigSourceSkipped =>
                    DetailShape::AdapterConfigSource,
            },
            DiagnosticCode::Boundary(_) => DetailShape::Boundary,
        }
    }

    /// Where the code is projected: protocol codes to the protocol error
    /// code, readable warnings to their warning id, and every code to stderr.
    pub fn projection_rule(self) -> (r: DiagnosticProjectionRule)
        ensures
            r.stderr,
            match self {
                DiagnosticCode::Protocol(c) => r.protocol_code matches Some(p) && p@
                    == c.spec_protocol_code() && r.readable_warning_id is None,
                DiagnosticCode::ReadableWarning(c) => r.readable_warning_id matches Some(w) && w@
                    == c.spec_warning_id() && r.protocol_code is None,
                DiagnosticCode::Boundary(_) => r.protocol_code is None
                    && r.readable_warning_id is None,
            },
    {
        match self {
            DiagnosticCode::Protocol(c) => DiagnosticProjectionRule {
                protocol_code: Some(c.protocol_code()),
                readable_warning_id: None,
                stderr: true,
            },
            DiagnosticCode::ReadableWarning(c) => DiagnosticProjectionRule {
                protocol_code: None,
                readable_warning_id: Some(c.warning_id()),
                stderr: true,
            },
            DiagnosticCode::Boundary(_) => DiagnosticProjectionRule {
                protocol_code: None,
                readable_warning_id: None,
                stderr: true,
            },
        }
    }
}

impl From<ProtocolDiagnosticCode> for DiagnosticCode {
    fn from(code: ProtocolDiagnosticCode) -> (r: Self)
        ensures
            r == DiagnosticCode::Protocol(code),
    {
        DiagnosticCode::Protocol(code)
    }
}

impl vstd::std_specs::convert::FromSpecImpl<ProtocolDiagnosticCode> for DiagnosticCode {
    open spec fn obeys_from_spec() -> bool {
        true
    }

    open spec fn from_spec(code: ProtocolDiagnosticCode) -> DiagnosticCode {
        DiagnosticCode::Protocol(code)
    }
}

impl From<ReadableWarningDiagnosticCode> for DiagnosticCode {
    fn from(code: ReadableWarningDiagnosticCode) -> (r: Self)
        ensures
            r == DiagnosticCode::ReadableWarning(code),
    {
        DiagnosticCode::ReadableWarning(code)
    }
}

impl vstd::std_specs::convert::FromSpecImpl<ReadableWarningDiagnosticCode> for DiagnosticCode {
    open spec fn obeys_from_spec() -> bool {
        true
    }

    open spec fn from_spec(code: ReadableWarningDiagnosticCode) -> DiagnosticCode {
        DiagnosticCode::ReadableWarning(code)
    }
}

impl From<BoundaryDiagnosticCode> for DiagnosticCode {
    fn from(code: BoundaryDiagnosticCode) -> (r: Self)
        ensures
            r == DiagnosticCode::Boundary(code),
    {
        DiagnosticCode::Boundary(code)
    }
}

impl vstd::std_specs::convert::FromSpecImpl<BoundaryDiagnosticCode> for DiagnosticCode {
    open spec fn obeys_from_spec() -> bool {
        true
    }

    open spec fn from_spec(code: BoundaryDiagnosticCode) -> DiagnosticCode {
        DiagnosticCode::Boundary(code)
    }
}

/// Reading a protocol code's stable text back gives the same code.
pub proof fn law_protocol_code_roundtrip(code: ProtocolDiagnosticCode)
    ensures
        ProtocolDiagnosticCode::spec_from_protocol_code(code.spec_protocol_code()) == Some(code),
{
    reveal_strlit("INVALID_REQUEST");
    reveal_strlit("DOCUMENT_NOT_FOUND");
    reveal_strlit("DOCUMENT_PATH_INVALID");
    reveal_strlit("DOCUMENT_ENCODING_UNSUPPORTED");
    reveal_strlit("FORMAT_UNKNOWN");
    reveal_strlit("FORMAT_AMBIGUOUS");
    reveal_strlit("CAPABILITY_UNSUPPORTED");
    reveal_strlit("REF_NOT_FOUND");
    reveal_strlit("REF_AMBIGUOUS");
    reveal_strlit("REF_INVALID");
    reveal_strlit("ADAPTER_UNAVAILABLE");
    reveal_strlit("ADAPTER_INVOKE_FAILED");
    reveal_strlit("INTERNAL_ERROR");
    assert("INVALID_REQUEST"@.len() == 15);
    assert("DOCUMENT_NOT_FOUND"@.len() == 18);
    assert("DOCUMENT_PATH_INVALID"@.len() == 21);
    assert("DOCUMENT_ENCODING_UNSUPPORTED"@.len() == 29);
    assert("FORMAT_UNKNOWN"@.len() == 14);
    assert("FORMAT_AMBIGUOUS"@.len() == 16);
    assert("CAPABILITY_UNSUPPORTED"@.len() == 22);
    assert("REF_NOT_FOUND"@.len() == 13);
    assert("REF_AMBIGUOUS"@.len() == 13);
    assert("REF_INVALID"@.len() == 11);
    assert("ADAPTER_UNAVAILABLE"@.len() == 19);
    assert("ADAPTER_INVOKE_FAILED"@.len() == 21);
    assert("INTERNAL_ERROR"@.len() == 14);
    assert("DOCUMENT_PATH_INVALID"@[0] == 'D' && "ADAPTER_INVOKE_FAILED"@[0] == 'A');
    assert("FORMAT_UNKNOWN"@[0] == 'F' && "INTERNAL_ERROR"@[0] == 'I');
    assert("REF_NOT_FOUND"@[4] == 'N' && "REF_AMBIGUOUS"@[4] == 'A');
}

/// Reading a readable warning's id back gives the same code.
pub proof fn law_warning_id_roundtrip(code: ReadableWarningDiagnosticCode)
    ensures
        ReadableWarningDiagnosticCode::spec_from_warning_id(code.spec_warning_id()) == Some(code),
{
    reveal_strlit("cli_argv_ignored");
    reveal_strlit("adapter_candidate_failure");
    reveal_strlit("adapter_config_source_skipped");
    assert("cli_argv_ignored"@.len() == 16);
    assert("adapter_candidate_failure"@.len() == 25);
    assert("adapter_config_source_skipped"@.len() == 29);
}

/// The code whose text is `value`, if any: protocol codes, then readable
/// warnings, then boundary codes.
pub open spec fn code_of_text(value: Seq<char>) -> Option<DiagnosticCode> {
    match ProtocolDiagnosticCode::spec_from_protocol_code(value) {
        Some(c) => Some(DiagnosticCode::Protocol(c)),
        None => match ReadableWarningDiagnosticCode::spec_from_warning_id(value) {
            Some(c) => Some(DiagnosticCode::ReadableWarning(c)),
            None => match BoundaryDiagnosticCode::spec_from_str(value) {
                Some(c) => Some(DiagnosticCode::Boundary(c)),
                None => None,
            },
        },
    }
}

#[verifier::rlimit(50)]
proof fn lemma_code_text_reads_back(code: DiagnosticCode)
    ensures
        code_of_text(code.spec_as_str()) == Some(code),
        code.spec_as_str().len() > 0,
{
    reveal_strlit("INVALID_REQUEST");
    reveal_strlit("DOCUMENT_NOT_FOUND");
    reveal_strlit("DOCUMENT_PATH_INVALID");
    reveal_strlit("DOCUMENT_ENCODING_UNSUPPORTED");
    reveal_strlit("FORMAT_UNKNOWN");
    reveal_strlit("FORMAT_AMBIGUOUS");
    reveal_strlit("CAPABILITY_UNSUPPORTED");
    reveal_strlit("REF_NOT_FOUND");
    reveal_strlit("REF_AMBIGUOUS");
    reveal_strlit("REF_INVALID");
    reveal_strlit("ADAPTER_UNAVAILABLE");
    reveal_strlit("ADAPTER_INVOKE_FAILED");
    reveal_strlit("INTERNAL_ERROR");
    reveal_strlit("cli_argv_ignored");
    reveal_strlit("adapter_candidate_failure");
    reveal_strlit("adapter_config_source_skipped");
    reveal_strlit("adapter_error_exit_code_cannot_be");
    reveal_strlit("failed_to_read_request");
    reveal_strlit("failed_to_serialize");
    reveal_strlit("failed_to_write_cli_warning");
    reveal_strlit("failed_to_write_json");
    reveal_strlit("failed_to_write_protocol_response");
    reveal_strlit("failed_to_write_readable_view");
    reveal_strlit("invalid_request_json");
    reveal_strlit("manifest_adapter_id_mismatch");
    reveal_strlit("manifest_schema_validation_failed");
    reveal_strlit("manifest_semantic_validation_failed");
    reveal_strlit("probe_result_adapter_id_mismatch");
    reveal_strlit("probe_result_schema_validation_failed");
    reveal_strlit("probe_result_semantic_validation_failed");
    reveal_strlit("protocol_response_schema_validation_failed");
    reveal_strlit("protocol_response_semantic_validation_failed");
    reveal_strlit("readable_view_render_failed");
    reveal_strlit("request_deserialization_failed");
    reveal_strlit("request_schema_validation_failed");
    assert("INVALID_REQUEST"@.len() == 15 && "INVALID_REQUEST"@[0] == 'I' && "INVALID_REQUEST"@[4] == 'L');
    assert("DOCUMENT_NOT_FOUND"@.len() == 18 && "DOCUMENT_NOT_FOUND"@[0] == 'D' && "DOCUMENT_NOT_FOUND"@[4] == 'M');
    assert("DOCUMENT_PATH_INVALID"@.len() == 21 && "DOCUMENT_PATH_INVALID"@[0] == 'D' && "DOCUMENT_PATH_INVALID"@[4] == 'M');
    assert("DOCUMENT_ENCODING_UNSUPPORTED"@.len() == 29 && "DOCUMENT_ENCODING_UNSUPPORTED"@[0] == 'D' && "DOCUMENT_ENCODING_UNSUPPORTED"@[4] == 'M');
    assert("FORMAT_UNKNOWN"@.len() == 14 && "FORMAT_UNKNOWN"@[0] == 'F' && "FORMAT_UNKNOWN"@[4] == 'A');
    assert("FORMAT_AMBIGUOUS"@.len() == 16 && "FORMAT_AMBIGUOUS"@[0] == 'F' && "FORMAT_AMBIGUOUS"@[4] == 'A');
    assert("CAPABILITY_UNSUPPORTED"@.len() == 22 && "CAPABILITY_UNSUPPORTED"@[0] == 'C' && "CAPABILITY_UNSUPPORTED"@[4] == 'B');
    assert("REF_NOT_FOUND"@.len() == 13 && "REF_NOT_FOUND"@[0] == 'R' && "REF_NOT_FOUND"@[4] == 'N');
    assert("REF_AMBIGUOUS"@.len() == 13 && "REF_AMBIGUOUS"@[0] == 'R' && "REF_AMBIGUOUS"@[4] == 'A');
    assert("REF_INVALID"@.len() == 11 && "REF_INVALID"@[0] == 'R' && "REF_INVALID"@[4] == 'I');
    assert("ADAPTER_UNAVAILABLE"@.len() == 19 && "ADAPTER_UNAVAILABLE"@[0] == 'A' && "ADAPTER_UNAVAILABLE"@[4] == 'T');
    assert("ADAPTER_INVOKE_FAILED"@.len() == 21 && "ADAPTER_INVOKE_FAILED"@[0] == 'A' && "ADAPTER_INVOKE_FAILED"@[4] == 'T');
    assert("INTERNAL_ERROR"@.len() == 14 && "INTERNAL_ERROR"@[0] == 'I' && "INTERNAL_ERROR"@[4] == 'R');
    assert("cli_argv_ignored"@.len() == 16 && "cli_argv_ignored"@[0] == 'c' && "cli_argv_ignored"@[4] == 'a');
    assert("adapter_candidate_failure"@.len() == 25 && "adapter_candidate_failure"@[0] == 'a' && "adapter_candidate_failure"@[4] == 't');
    assert("adapter_config_source_skipped"@.len() == 29 && "adapter_config_source_skipped"@[0] == 'a' && "adapter_config_source_skipped"@[4] == 't');
    assert("adapter_error_exit_code_cannot_be"@.len() == 33 && "adapter_error_exit_code_cannot_be"@[0] == 'a' && "adapter_error_exit_code_cannot_be"@[4] == 't');
    assert("failed_to_read_request"@.len() == 22 && "failed_to_read_request"@[0] == 'f' && "failed_to_read_request"@[4] == 'e');
    assert("failed_to_serialize"@.len() == 19 && "failed_to_serialize"@[0] == 'f' && "failed_to_serialize"@[4] == 'e');
    assert("failed_to_write_cli_warning"@.len() == 27 && "failed_to_write_cli_warning"@[0] == 'f' && "failed_to_write_cli_warning"@[4] == 'e');
    assert("failed_to_write_json"@.len() == 20 && "failed_to_write_json"@[0] == 'f' && "failed_to_write_json"@[4] == 'e');
    assert("failed_to_write_protocol_response"@.len() == 33 && "failed_to_write_protocol_response"@[0] == 'f' && "failed_to_write_protocol_response"@[4] == 'e');
    assert("failed_to_write_readable_view"@.len() == 29 && "failed_to_write_readable_view"@[0] == 'f' && "failed_to_write_readable_view"@[4] == 'e');
    assert("invalid_request_json"@.len() == 20 && "invalid_request_json"@[0] == 'i' && "invalid_request_json"@[4] == 'l');
    assert("manifest_adapter_id_mismatch"@.len() == 28 && "manifest_adapter_id_mismatch"@[0] == 'm' && "manifest_adapter_id_mismatch"@[4] == 'f');
    assert("manifest_schema_validation_failed"@.len() == 33 && "manifest_schema_validation_failed"@[0] == 'm' && "manifest_schema_validation_failed"@[4] == 'f');
    assert("manifest_semantic_validation_failed"@.len() == 35 && "manifest_semantic_validation_failed"@[0] == 'm' && "manifest_semantic_validation_failed"@[4] == 'f');
    assert("probe_result_adapter_id_mismatch"@.len() == 32 && "probe_result_adapter_id_mismatch"@[0] == 'p' && "probe_result_adapter_id_mismatch"@[4] == 'e');
    assert("probe_result_schema_validation_failed"@.len() == 37 && "probe_result_schema_validation_failed"@[0] == 'p' && "probe_result_schema_validation_failed"@[4] == 'e');
    assert("probe_result_semantic_validation_failed"@.len() == 39 && "probe_result_semantic_validation_failed"@[0] == 'p' && "probe_result_semantic_validation_failed"@[4] == 'e');
    assert("protocol_response_schema_validation_failed"@.len() == 42 && "protocol_response_schema_validation_failed"@[0] == 'p' && "protocol_response_schema_validation_failed"@[4] == 'o');
    assert("protocol_response_semantic_validation_failed"@.len() == 44 && "protocol_response_semantic_validation_failed"@[0] == 'p' && "protocol_response_semantic_validation_failed"@[4] == 'o');
    assert("readable_view_render_failed"@.len() == 27 && "readable_view_render_failed"@[0] == 'r' && "readable_view_render_failed"@[4] == 'a');
    assert("request_deserialization_failed"@.len() == 30 && "request_deserialization_failed"@[0] == 'r' && "request_deserialization_failed"@[4] == 'e');
    assert("request_schema_validation_failed"@.len() == 32 && "request_schema_validation_failed"@[0] == 'r' && "request_schema_validation_failed"@[4] == 'e');
}

/// Every code has a non-empty text of its own: the texts of two different
/// codes differ. A protocol code's text is its protocol code, a warning's its
/// warning id, a boundary code's its id.
pub proof fn law_code_texts_distinct(a: DiagnosticCode, b: DiagnosticCode)
    ensures
        a.spec_as_str().len() > 0,
        a != b ==> a.spec_as_str() != b.spec_as_str(),
        a matches DiagnosticCode::Protocol(p) ==> a.spec_as_str() == p.spec_protocol_code(),
        a matches DiagnosticCode::ReadableWarning(w) ==> a.spec_as_str() == w.spec_warning_id(),
        a matches DiagnosticCode::Boundary(x) ==> a.spec_as_str() == x.spec_as_str(),
{
    lemma_code_text_reads_back(a);
    lemma_code_text_reads_back(b);
}

} // verus!

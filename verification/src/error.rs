//! Adapter errors: a protocol diagnostic with the exit code the adapter
//! process ends with.

use vstd::prelude::*;

use crate::codes::{DiagnosticCategory, DiagnosticCode, ProtocolDiagnosticCode};
use crate::details::{extra_member, field_error, rule_names, validate_spec};
use crate::json::{member, JsonModel};
use crate::markers::{DiagnosticCodeMarker, DiagnosticDetailsPayload, ProtocolDiagnosticMarker};
use crate::payload::{CapabilityAdapterDetails, DiagnosticDetails, FieldReasonDetails, InternalDetails, PathDetails, PathEncodingDetails, PathReasonDetails, RefDetails, RefReasonDetails};
use crate::record::{code_rule, effect_is_recoverable, DiagnosticRecordDraft, DiagnosticSource};
use crate::typed_codes::protocol::{CapabilityUnsupported, DocumentEncodingUnsupported, DocumentNotFound, DocumentPathInvalid, InternalError, InvalidRequest, RefInvalid, RefNotFound};

verus! {

/// The exit code of an adapter process.
#[derive(Clone, Copy, Debug, PartialEq, Eq, Structural)]
pub enum AdapterExitCode {
    Success,
    InternalError,
    ProtocolError,
    HandlerError,
    IoError,
}

impl AdapterExitCode {
    pub open spec fn spec_code(self) -> i32 {
        match self {
            AdapterExitCode::Success => 0,
            AdapterExitCode::InternalError => 1,
            AdapterExitCode::ProtocolError => 2,
            AdapterExitCode::HandlerError => 3,
            AdapterExitCode::IoError => 4,
        }
    }

    /// The number the process exits with.
    pub fn code(self) -> (r: i32)
        ensures
            r == self.spec_code(),
    {
        match self {
            AdapterExitCode::Success => 0,
            AdapterExitCode::InternalError => 1,
            AdapterExitCode::ProtocolError => 2,
            AdapterExitCode::HandlerError => 3,
            AdapterExitCode::IoError => 4,
        }
    }
}

/// The exit code of each diagnostic category.
pub open spec fn category_exit_code(category: DiagnosticCategory) -> AdapterExitCode {
    match category {
        DiagnosticCategory::Request => AdapterExitCode::ProtocolError,
        DiagnosticCategory::Document => AdapterExitCode::HandlerError,
        DiagnosticCategory::AdapterBoundary => AdapterExitCode::IoError,
        DiagnosticCategory::Internal => AdapterExitCode::InternalError,
    }
}

/// The exit code for a diagnostic code, by its category.
pub fn exit_code_for_diagnostic(code: DiagnosticCode) -> (r: AdapterExitCode)
    ensures
        r == category_exit_code(code.spec_category()),
{
    match code.category() {
        DiagnosticCategory::Request => AdapterExitCode::ProtocolError,
        DiagnosticCategory::Document => AdapterExitCode::HandlerError,
        DiagnosticCategory::AdapterBoundary => AdapterExitCode::IoError,
        DiagnosticCategory::Internal => AdapterExitCode::InternalError,
    }
}

/// The operations an adapter serves.
#[derive(Clone, Copy, Debug, PartialEq, Eq, Structural)]
pub enum Operation {
    Outline,
    Read,
    Find,
    Info,
}

impl Operation {
    pub open spec fn spec_as_str(self) -> Seq<char> {
        match self {
            Operation::Outline => "outline"@,
            Operation::Read => "read"@,
            Operation::Find => "find"@,
            Operation::Info => "info"@,
        }
    }

    /// The name of the operation.
    pub fn as_str(self) -> (r: &'static str)
        ensures
            r@ == self.spec_as_str(),
    {
        match self {
            Operation::Outline => "outline",
            Operation::Read => "read",
            Operation::Find => "find",
            Operation::Info => "info",
        }
    }
}

/// The summary that a protocol error draft carries by default.
pub open spec fn protocol_summary(code: ProtocolDiagnosticCode) -> Seq<char> {
    match code {
        ProtocolDiagnosticCode::InvalidRequest => "invalid request"@,
        ProtocolDiagnosticCode::DocumentNotFound => "document not found"@,
        ProtocolDiagnosticCode::DocumentPathInvalid => "document path invalid"@,
        ProtocolDiagnosticCode::DocumentEncodingUnsupported => "document encoding unsupported"@,
        ProtocolDiagnosticCode::FormatUnknown => "document format unknown"@,
        ProtocolDiagnosticCode::FormatAmbiguous => "document format ambiguous"@,
        ProtocolDiagnosticCode::CapabilityUnsupported => "capability unsupported"@,
        ProtocolDiagnosticCode::RefNotFound => "ref not found"@,
        ProtocolDiagnosticCode::RefAmbiguous => "ref ambiguous"@,
        ProtocolDiagnosticCode::RefInvalid => "ref invalid"@,
        ProtocolDiagnosticCode::AdapterUnavailable => "adapter unavailable"@,
        ProtocolDiagnosticCode::AdapterInvokeFailed => "adapter invoke failed"@,
        ProtocolDiagnosticCode::InternalError => "internal error"@,
    }
}

fn protocol_summary_text(code: ProtocolDiagnosticCode) -> (r: &'static str)
    ensures
        r@ == protocol_summary(code),
        r@.len() > 0,
{
    proof {
        reveal_strlit("invalid request");
        reveal_strlit("document not found");
        reveal_strlit("document path invalid");
        reveal_strlit("document encoding unsupported");
        reveal_strlit("document format unknown");
        reveal_strlit("document format ambiguous");
        reveal_strlit("capability unsupported");
        reveal_strlit("ref not found");
        reveal_strlit("ref ambiguous");
        reveal_strlit("ref invalid");
        reveal_strlit("adapter unavailable");
        reveal_strlit("adapter invoke failed");
        reveal_strlit("internal error");
    }
    match code {
        ProtocolDiagnosticCode::InvalidRequest => "invalid request",
        ProtocolDiagnosticCode::DocumentNotFound => "document not found",
        ProtocolDiagnosticCode::DocumentPathInvalid => "document path invalid",
        ProtocolDiagnosticCode::DocumentEncodingUnsupported => "document encoding unsupported",
        ProtocolDiagnosticCode::FormatUnknown => "document format unknown",
        ProtocolDiagnosticCode::FormatAmbiguous => "document format ambiguous",
        ProtocolDiagnosticCode::CapabilityUnsupported => "capability unsupported",
        ProtocolDiagnosticCode::RefNotFound => "ref not found",
        ProtocolDiagnosticCode::RefAmbiguous => "ref ambiguous",
        ProtocolDiagnosticCode::RefInvalid => "ref invalid",
        ProtocolDiagnosticCode::AdapterUnavailable => "adapter unavailable",
        ProtocolDiagnosticCode::AdapterInvokeFailed => "adapter invoke failed",
        ProtocolDiagnosticCode::InternalError => "internal error",
    }
}

/// `d` is the draft of `code` with the code's defaults, the given summary,
/// details and source.
pub open spec fn default_draft(d: DiagnosticRecordDraft, code: DiagnosticCode, summary: Seq<char>, details: DiagnosticDetails, source: DiagnosticSource) -> bool {
    &&& d.summary@ == summary
    &&& d.code == code
    &&& d.severity == code.spec_default_severity()
    &&& d.effect == code.spec_default_effect()
    &&& d.details == details
    &&& d.guidance is None
    &&& d.source == source
    &&& d.recoverable == effect_is_recoverable(code.spec_default_effect())
}

/// A draft of a protocol marker's code with the code's default summary.
pub fn protocol_error_record_draft<C: ProtocolDiagnosticMarker>(details: C::Details, source: DiagnosticSource) -> (r: DiagnosticRecordDraft)
    ensures
        default_draft(r, C::spec_code(), protocol_summary(C::spec_protocol_code()), details.spec_details(), source),
        C::spec_code() == DiagnosticCode::Protocol(C::spec_protocol_code()),
{
    let summary = protocol_summary_text(C::protocol_code());
    DiagnosticRecordDraft::new::<C>(summary, details, source)
}

/// A draft that an adapter error can carry as it is: a protocol code with
/// a summary and details that pass the record checks.
pub open spec fn valid_protocol_draft(d: DiagnosticRecordDraft) -> bool {
    d.code is Protocol && d.draft_error() is None
}

/// The source of drafts made by the adapter SDK at `stage`.
pub open spec fn sdk_source(s: DiagnosticSource, stage: Seq<char>) -> bool {
    &&& s.component@ == "docnav-adapter-sdk"@
    &&& s.stage matches Some(st) && st@ == stage
}

/// The internal-error draft that stands in for a draft an adapter error
/// cannot carry.
pub open spec fn internal_fallback(d: DiagnosticRecordDraft, error_id: Seq<char>) -> bool {
    &&& d.summary@ == "internal error"@
    &&& d.code == DiagnosticCode::Protocol(ProtocolDiagnosticCode::InternalError)
    &&& d.severity == d.code.spec_default_severity()
    &&& d.effect == d.code.spec_default_effect()
    &&& d.details matches DiagnosticDetails::Internal { error_id: e } && e@ == error_id
    &&& d.guidance is None
    &&& sdk_source(d.source, "adapter-error"@)
    &&& d.recoverable == effect_is_recoverable(d.effect)
}

/// The error id of the stand-in for a draft an adapter error cannot carry.
pub open spec fn fallback_error_id(d: DiagnosticRecordDraft) -> Seq<char> {
    if d.code is Protocol {
        "adapter-error-diagnostic-invalid"@
    } else {
        "adapter-error-diagnostic-not-protocol"@
    }
}

/// What an adapter error keeps of a draft: the draft itself when it is a
/// valid protocol draft, else the internal-error stand-in.
pub open spec fn normalized(d: DiagnosticRecordDraft, r: DiagnosticRecordDraft) -> bool {
    if valid_protocol_draft(d) {
        r == d
    } else {
        internal_fallback(r, fallback_error_id(d))
    }
}

/// The lengths of the member names that protocol details use.
proof fn lemma_detail_keys()
    ensures
        "field"@.len() == 5,
        "reason"@.len() == 6,
        "path"@.len() == 4,
        "received"@.len() == 8,
        "accepted"@.len() == 8,
        "field_issues"@.len() == 12,
        "config_issues"@.len() == 13,
        "typed_validation_failures"@.len() == 25,
        "option_issues"@.len() == 13,
        "encoding"@.len() == 8,
        "capability"@.len() == 10,
        "adapter_id"@.len() == 10,
        "ref"@.len() == 3,
        "error_id"@.len() == 8,
        "internal error"@.len() == 14,
{
    reveal_strlit("field");
    reveal_strlit("reason");
    reveal_strlit("path");
    reveal_strlit("received");
    reveal_strlit("accepted");
    reveal_strlit("field_issues");
    reveal_strlit("config_issues");
    reveal_strlit("typed_validation_failures");
    reveal_strlit("option_issues");
    reveal_strlit("encoding");
    reveal_strlit("capability");
    reveal_strlit("adapter_id");
    reveal_strlit("ref");
    reveal_strlit("error_id");
    reveal_strlit("internal error");
}

/// Details made of text members, each named by the rule in the rule's
/// order, pass the rule when the rule asks for nothing else.
proof fn lemma_text_details_valid(d: DiagnosticDetails, code: DiagnosticCode)
    requires
        match code {
            DiagnosticCode::Protocol(p) => match p {
                ProtocolDiagnosticCode::InvalidRequest => d matches DiagnosticDetails::FieldReason { path, received, accepted, field_issues, config_issues, typed_validation_failures, option_issues, .. }
                    && path is None && received is None && accepted is None && field_issues is None && config_issues is None
                    && typed_validation_failures is None && option_issues is None,
                ProtocolDiagnosticCode::DocumentNotFound => d is Path,
                ProtocolDiagnosticCode::DocumentPathInvalid => d is PathReason,
                ProtocolDiagnosticCode::DocumentEncodingUnsupported => d is PathEncoding,
                ProtocolDiagnosticCode::CapabilityUnsupported => d is CapabilityAdapter,
                ProtocolDiagnosticCode::RefNotFound => d is Ref,
                ProtocolDiagnosticCode::RefInvalid => d is RefReason,
                ProtocolDiagnosticCode::InternalError => d is Internal,
                _ => false,
            },
            _ => false,
        },
    ensures
        validate_spec(code_rule(code), d.spec_json()) is Ok,
{
    lemma_detail_keys();
    reveal_with_fuel(field_error, 10);
    reveal_with_fuel(extra_member, 3);
    reveal_with_fuel(member, 3);
    let rule = code_rule(code);
    let m = d.spec_json()->Object_0;
    assert forall|k: int| 0 <= k < m.len() implies rule_names(rule.fields, #[trigger] m[k].0) by {
        assert(rule.fields[k].0 == m[k].0);
    }
    if d is FieldReason {
        assert(m =~= seq![m[0], m[1]]);
    }
}

/// An error of an adapter: a valid protocol diagnostic and a failing exit
/// code.
#[derive(Debug, PartialEq)]
pub struct AdapterError {
    diagnostic: DiagnosticRecordDraft,
    exit_code: AdapterExitCode,
}

pub struct AdapterErrorModel {
    pub diagnostic: DiagnosticRecordDraft,
    pub exit_code: AdapterExitCode,
}

impl View for AdapterError {
    type V = AdapterErrorModel;

    closed spec fn view(&self) -> AdapterErrorModel {
        AdapterErrorModel { diagnostic: self.diagnostic, exit_code: self.exit_code }
    }
}

/// A failing exit code was asked for with the success code.
#[derive(Clone, Copy, Debug, PartialEq, Eq)]
pub struct AdapterExitCodeError {
    exit_code: AdapterExitCode,
}

impl AdapterExitCode {
    /// The name of the exit code, as `Debug` writes it.
    pub open spec fn spec_name(self) -> Seq<char> {
        match self {
            AdapterExitCode::Success => "Success"@,
            AdapterExitCode::InternalError => "InternalError"@,
            AdapterExitCode::ProtocolError => "ProtocolError"@,
            AdapterExitCode::HandlerError => "HandlerError"@,
            AdapterExitCode::IoError => "IoError"@,
        }
    }

    pub fn name(self) -> (r: &'static str)
        ensures
            r@ == self.spec_name(),
    {
        match self {
            AdapterExitCode::Success => "Success",
            AdapterExitCode::InternalError => "InternalError",
            AdapterExitCode::ProtocolError => "ProtocolError",
            AdapterExitCode::HandlerError => "HandlerError",
            AdapterExitCode::IoError => "IoError",
        }
    }
}

impl AdapterExitCodeError {
    pub closed spec fn spec_exit_code(self) -> AdapterExitCode {
        self.exit_code
    }

    /// The message of the error.
    pub fn message(&self) -> (r: String)
        ensures
            r@ == "adapter error exit code cannot be "@ + self.spec_exit_code().spec_name(),
    {
        let mut m = String::from_str("adapter error exit code cannot be ");
        m.append(self.exit_code.name());
        m
    }

    pub fn exit_code(self) -> (r: AdapterExitCode)
        ensures
            r == self.spec_exit_code(),
    {
        self.exit_code
    }
}

/// The internal-error draft with the given error id.
fn internal_diagnostic(error_id: &str) -> (r: DiagnosticRecordDraft)
    ensures
        internal_fallback(r, error_id@),
        valid_protocol_draft(r),
{
    let r = protocol_error_record_draft::<InternalError>(
        InternalDetails::new(error_id),
        DiagnosticSource::with_stage("docnav-adapter-sdk", "adapter-error"),
    );
    proof {
        lemma_detail_keys();
        lemma_text_details_valid(r.details, r.code);
    }
    r
}

/// Whether the draft is a valid protocol draft.
fn is_valid_protocol_diagnostic(d: &DiagnosticRecordDraft) -> (r: bool)
    ensures
        r == valid_protocol_draft(*d),
{
    match d.code {
        DiagnosticCode::Protocol(_) => {},
        _ => {
            return false;
        },
    }
    if d.summary.unicode_len() == 0 {
        return false;
    }
    let rule = d.code.details_rule();
    assert(rule@ =~= code_rule(d.code));
    match rule.validate_value(&d.details.to_value()) {
        Ok(()) => true,
        Err(_) => false,
    }
}

fn normalize_protocol_diagnostic(d: DiagnosticRecordDraft) -> (r: DiagnosticRecordDraft)
    ensures
        normalized(d, r),
        valid_protocol_draft(r),
{
    if is_valid_protocol_diagnostic(&d) {
        return d;
    }
    let error_id = match d.code {
        DiagnosticCode::Protocol(_) => "adapter-error-diagnostic-invalid",
        _ => "adapter-error-diagnostic-not-protocol",
    };
    internal_diagnostic(error_id)
}

impl AdapterError {
    #[verifier::type_invariant]
    closed spec fn carries_protocol_failure(self) -> bool {
        &&& valid_protocol_draft(self.diagnostic)
        &&& self.exit_code != AdapterExitCode::Success
    }

    /// An error with the draft, or its internal-error stand-in, and the exit
    /// code of its category.
    pub fn new(diagnostic: DiagnosticRecordDraft) -> (r: Self)
        ensures
            normalized(diagnostic, r@.diagnostic),
            r@.exit_code == category_exit_code(r@.diagnostic.code.spec_category()),
    {
        let diagnostic = normalize_protocol_diagnostic(diagnostic);
        let exit_code = exit_code_for_diagnostic(diagnostic.code);
        AdapterError { diagnostic, exit_code }
    }

    /// An error with the given exit code; the success code is refused.
    pub fn with_exit_code(diagnostic: DiagnosticRecordDraft, exit_code: AdapterExitCode) -> (r: Result<Self, AdapterExitCodeError>)
        ensures
            match r {
                Ok(e) => exit_code != AdapterExitCode::Success && normalized(diagnostic, e@.diagnostic) && e@.exit_code == exit_code,
                Err(e) => exit_code == AdapterExitCode::Success && e.spec_exit_code() == exit_code,
            },
    {
        if exit_code == AdapterExitCode::Success {
            Err(AdapterExitCodeError { exit_code })
        } else {
            let diagnostic = normalize_protocol_diagnostic(diagnostic);
            Ok(AdapterError { diagnostic, exit_code })
        }
    }

    /// The diagnostic, which is always a valid protocol draft.
    pub fn diagnostic(&self) -> (r: &DiagnosticRecordDraft)
        ensures
            *r == self@.diagnostic,
            valid_protocol_draft(*r),
    {
        proof {
            use_type_invariant(self);
        }
        &self.diagnostic
    }

    pub fn into_diagnostic(self) -> (r: DiagnosticRecordDraft)
        ensures
            r == self@.diagnostic,
            valid_protocol_draft(r),
    {
        proof {
            use_type_invariant(&self);
        }
        self.diagnostic
    }

    /// The exit code, which is never success.
    pub fn exit_code(&self) -> (r: AdapterExitCode)
        ensures
            r == self@.exit_code,
            r != AdapterExitCode::Success,
    {
        proof {
            use_type_invariant(self);
        }
        self.exit_code
    }

    fn from_valid<C: ProtocolDiagnosticMarker>(details: C::Details) -> (r: Self)
        requires
            validate_spec(code_rule(C::spec_code()), details.spec_details().spec_json()) is Ok,
        ensures
            default_draft(r@.diagnostic, C::spec_code(), protocol_summary(C::spec_protocol_code()), details.spec_details(), r@.diagnostic.source),
            sdk_source(r@.diagnostic.source, "adapter"@),
            r@.exit_code == category_exit_code(C::spec_code().spec_category()),
    {
        let d = protocol_error_record_draft::<C>(details, DiagnosticSource::with_stage("docnav-adapter-sdk", "adapter"));
        proof {
            let p = C::spec_protocol_code();
            reveal_strlit("invalid request");
            reveal_strlit("document not found");
            reveal_strlit("document path invalid");
            reveal_strlit("document encoding unsupported");
            reveal_strlit("document format unknown");
            reveal_strlit("document format ambiguous");
            reveal_strlit("capability unsupported");
            reveal_strlit("ref not found");
            reveal_strlit("ref ambiguous");
            reveal_strlit("ref invalid");
            reveal_strlit("adapter unavailable");
            reveal_strlit("adapter invoke failed");
            reveal_strlit("internal error");
            assert(protocol_summary(p).len() > 0);
        }
        Self::new(d)
    }

    /// An invalid-request error for a field and the reason it was refused.
    pub fn invalid_request(field: &str, reason: &str) -> (r: Self)
        ensures
            r@.diagnostic.code == DiagnosticCode::Protocol(ProtocolDiagnosticCode::InvalidRequest),
            r@.diagnostic.summary@ == "invalid request"@,
            r@.diagnostic.details.spec_json() == JsonModel::Object(
                seq![("field"@, JsonModel::String(field@)), ("reason"@, JsonModel::String(reason@))],
            ),
            sdk_source(r@.diagnostic.source, "adapter"@),
            r@.exit_code == AdapterExitCode::ProtocolError,
    {
        let details = FieldReasonDetails::new(field, reason);
        proof {
            lemma_text_details_valid(details.spec_details(), DiagnosticCode::Protocol(ProtocolDiagnosticCode::InvalidRequest));
        }
        let r = Self::from_valid::<InvalidRequest>(details);
        assert(r@.diagnostic.details.spec_json()->Object_0 =~= seq![("field"@, JsonModel::String(field@)), ("reason"@, JsonModel::String(reason@))]);
        r
    }

    pub fn document_not_found(path: &str) -> (r: Self)
        ensures
            r@.diagnostic.code == DiagnosticCode::Protocol(ProtocolDiagnosticCode::DocumentNotFound),
            r@.diagnostic.summary@ == "document not found"@,
            r@.diagnostic.details.spec_json() == JsonModel::Object(seq![("path"@, JsonModel::String(path@))]),
            sdk_source(r@.diagnostic.source, "adapter"@),
            r@.exit_code == AdapterExitCode::HandlerError,
    {
        let details = PathDetails::new(path);
        proof {
            lemma_text_details_valid(details.spec_details(), DiagnosticCode::Protocol(ProtocolDiagnosticCode::DocumentNotFound));
        }
        Self::from_valid::<DocumentNotFound>(details)
    }

    pub fn document_path_invalid(path: &str, reason: &str) -> (r: Self)
        ensures
            r@.diagnostic.code == DiagnosticCode::Protocol(ProtocolDiagnosticCode::DocumentPathInvalid),
            r@.diagnostic.summary@ == "document path invalid"@,
            r@.diagnostic.details.spec_json() == JsonModel::Object(
                seq![("path"@, JsonModel::String(path@)), ("reason"@, JsonModel::String(reason@))],
            ),
            sdk_source(r@.diagnostic.source, "adapter"@),
            r@.exit_code == AdapterExitCode::HandlerError,
    {
        let details = PathReasonDetails::new(path, reason);
        proof {
            lemma_text_details_valid(details.spec_details(), DiagnosticCode::Protocol(ProtocolDiagnosticCode::DocumentPathInvalid));
        }
        Self::from_valid::<DocumentPathInvalid>(details)
    }

    pub fn document_encoding_unsupported(path: &str, encoding: &str) -> (r: Self)
        ensures
            r@.diagnostic.code == DiagnosticCode::Protocol(ProtocolDiagnosticCode::DocumentEncodingUnsupported),
            r@.diagnostic.summary@ == "document encoding unsupported"@,
            r@.diagnostic.details.spec_json() == JsonModel::Object(
                seq![("path"@, JsonModel::String(path@)), ("encoding"@, JsonModel::String(encoding@))],
            ),
            sdk_source(r@.diagnostic.source, "adapter"@),
            r@.exit_code == AdapterExitCode::HandlerError,
    {
        let details = PathEncodingDetails::new(path, encoding);
        proof {
            lemma_text_details_valid(details.spec_details(), DiagnosticCode::Protocol(ProtocolDiagnosticCode::DocumentEncodingUnsupported));
        }
        Self::from_valid::<DocumentEncodingUnsupported>(details)
    }

    pub fn ref_not_found(ref_id: &str) -> (r: Self)
        ensures
            r@.diagnostic.code == DiagnosticCode::Protocol(ProtocolDiagnosticCode::RefNotFound),
            r@.diagnostic.summary@ == "ref not found"@,
            r@.diagnostic.details.spec_json() == JsonModel::Object(seq![("ref"@, JsonModel::String(ref_id@))]),
            sdk_source(r@.diagnostic.source, "adapter"@),
            r@.exit_code == AdapterExitCode::HandlerError,
    {
        let details = RefDetails::new(ref_id);
        proof {
            lemma_text_details_valid(details.spec_details(), DiagnosticCode::Protocol(ProtocolDiagnosticCode::RefNotFound));
        }
        Self::from_valid::<RefNotFound>(details)
    }

    pub fn ref_invalid(ref_id: &str, reason: &str) -> (r: Self)
        ensures
            r@.diagnostic.code == DiagnosticCode::Protocol(ProtocolDiagnosticCode::RefInvalid),
            r@.diagnostic.summary@ == "ref invalid"@,
            r@.diagnostic.details.spec_json() == JsonModel::Object(
                seq![("ref"@, JsonModel::String(ref_id@)), ("reason"@, JsonModel::String(reason@))],
            ),
            sdk_source(r@.diagnostic.source, "adapter"@),
            r@.exit_code == AdapterExitCode::HandlerError,
    {
        let details = RefReasonDetails::new(ref_id, reason);
        proof {
            lemma_text_details_valid(details.spec_details(), DiagnosticCode::Protocol(ProtocolDiagnosticCode::RefInvalid));
        }
        Self::from_valid::<RefInvalid>(details)
    }

    /// The error for an operation the adapter does not serve.
    pub fn capability_unsupported(operation: Operation, adapter_id: &str) -> (r: Self)
        ensures
            r@.diagnostic.code == DiagnosticCode::Protocol(ProtocolDiagnosticCode::CapabilityUnsupported),
            r@.diagnostic.summary@ == "capability unsupported"@,
            r@.diagnostic.details.spec_json() == JsonModel::Object(
                seq![
                    ("capability"@, JsonModel::String(operation.spec_as_str())),
                    ("adapter_id"@, JsonModel::String(adapter_id@)),
                ],
            ),
            sdk_source(r@.diagnostic.source, "adapter"@),
            r@.exit_code == AdapterExitCode::ProtocolError,
    {
        let details = CapabilityAdapterDetails::new(operation.as_str(), adapter_id);
        proof {
            lemma_text_details_valid(details.spec_details(), DiagnosticCode::Protocol(ProtocolDiagnosticCode::CapabilityUnsupported));
        }
        Self::from_valid::<CapabilityUnsupported>(details)
    }

    pub fn internal(error_id: &str) -> (r: Self)
        ensures
            r@.diagnostic.code == DiagnosticCode::Protocol(ProtocolDiagnosticCode::InternalError),
            r@.diagnostic.summary@ == "internal error"@,
            r@.diagnostic.details.spec_json() == JsonModel::Object(seq![("error_id"@, JsonModel::String(error_id@))]),
            sdk_source(r@.diagnostic.source, "adapter"@),
            r@.exit_code == AdapterExitCode::InternalError,
    {
        let details = InternalDetails::new(error_id);
        proof {
            lemma_text_details_valid(details.spec_details(), DiagnosticCode::Protocol(ProtocolDiagnosticCode::InternalError));
        }
        Self::from_valid::<InternalError>(details)
    }
}

/// The boundary codes of a request's own input (its text is no JSON, it
/// fails the request schema, it does not decode) are request errors: they
/// reject the input and end with the protocol-error exit code. Every other
/// boundary code ends with another exit code.
pub proof fn law_request_input_codes(c: crate::codes::BoundaryDiagnosticCode)
    ensures
        ({
            let input = c == crate::codes::BoundaryDiagnosticCode::InvalidRequestJson
                || c == crate::codes::BoundaryDiagnosticCode::RequestSchemaValidationFailed
                || c == crate::codes::BoundaryDiagnosticCode::RequestDeserializationFailed;
            let code = DiagnosticCode::Boundary(c);
            &&& input <==> code.spec_category() == DiagnosticCategory::Request
            &&& input <==> category_exit_code(code.spec_category()) == AdapterExitCode::ProtocolError
            &&& input ==> code.spec_default_effect() == crate::codes::DiagnosticEffect::InputRejected
                && code.spec_default_severity() == crate::codes::DiagnosticSeverity::Error
        }),
{
}

} // verus!

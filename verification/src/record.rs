//! Diagnostic records: the draft a caller fills in, and the validated record
//! that a stack keeps.

use vstd::prelude::*;

use crate::codes::{DiagnosticCode, DiagnosticEffect, DiagnosticSeverity};
use crate::details::{shape_fields, validate_spec, DetailsRuleModel, DetailsErrorModel, DiagnosticDetailsError};
use crate::markers::{DiagnosticCodeMarker, DiagnosticDetailsPayload};
use crate::payload::DiagnosticDetails;
use crate::stack::DiagnosticId;

verus! {

/// Where a diagnostic came from.
#[derive(Clone, Debug, PartialEq)]
pub struct DiagnosticSource {
    pub component: String,
    pub stage: Option<String>,
}

impl DiagnosticSource {
    pub fn new(component: &str) -> (r: Self)
        ensures
            r.component@ == component@,
            r.stage is None,
    {
        DiagnosticSource { component: String::from_str(component), stage: None }
    }

    pub fn with_stage(component: &str, stage: &str) -> (r: Self)
        ensures
            r.component@ == component@,
            r.stage matches Some(s) && s@ == stage@,
    {
        DiagnosticSource { component: String::from_str(component), stage: Some(String::from_str(stage)) }
    }
}

/// An effect lets the operation go on exactly when it continued the
/// operation or skipped a candidate.
pub open spec fn effect_is_recoverable(effect: DiagnosticEffect) -> bool {
    effect is OperationContinued || effect is CandidateSkipped
}

pub fn is_recoverable_effect(effect: DiagnosticEffect) -> (r: bool)
    ensures
        r == effect_is_recoverable(effect),
{
    match effect {
        DiagnosticEffect::OperationContinued => true,
        DiagnosticEffect::CandidateSkipped => true,
        _ => false,
    }
}

/// The rule that the details of a record with this code must satisfy.
pub open spec fn code_rule(code: DiagnosticCode) -> DetailsRuleModel {
    DetailsRuleModel { fields: shape_fields(code.spec_shape()), allow_extra_fields: false }
}

/// A diagnostic before it is given an id and checked.
#[derive(Debug, PartialEq)]
pub struct DiagnosticRecordDraft {
    pub summary: String,
    pub severity: DiagnosticSeverity,
    pub code: DiagnosticCode,
    pub effect: DiagnosticEffect,
    pub details: DiagnosticDetails,
    pub guidance: Option<Vec<String>>,
    pub source: DiagnosticSource,
    pub recoverable: bool,
}

impl DiagnosticRecordDraft {
    /// A draft for the code of marker `C`, with details of `C`'s payload type.
    pub fn new<C: DiagnosticCodeMarker>(summary: &str, details: C::Details, source: DiagnosticSource) -> (r: Self)
        ensures
            r.summary@ == summary@,
            r.code == C::spec_code(),
            r.severity == C::spec_code().spec_default_severity(),
            r.effect == C::spec_code().spec_default_effect(),
            r.details == details.spec_details(),
            r.guidance is None,
            r.source == source,
            r.recoverable == effect_is_recoverable(C::spec_code().spec_default_effect()),
    {
        Self::from_erased_for_test(C::code(), summary, details.into_details(), source)
    }

    /// A draft for any code with any details; `into_record` still checks that
    /// the details fit the code.
    pub fn from_erased_for_test(code: DiagnosticCode, summary: &str, details: DiagnosticDetails, source: DiagnosticSource) -> (r: Self)
        ensures
            r.summary@ == summary@,
            r.code == code,
            r.severity == code.spec_default_severity(),
            r.effect == code.spec_default_effect(),
            r.details == details,
            r.guidance is None,
            r.source == source,
            r.recoverable == effect_is_recoverable(code.spec_default_effect()),
    {
        let effect = code.default_effect();
        DiagnosticRecordDraft {
            summary: String::from_str(summary),
            severity: code.default_severity(),
            code,
            effect,
            details,
            guidance: None,
            source,
            recoverable: is_recoverable_effect(effect),
        }
    }

    pub fn with_severity(self, severity: DiagnosticSeverity) -> (r: Self)
        ensures
            r == (DiagnosticRecordDraft { severity, ..self }),
    {
        DiagnosticRecordDraft { severity, ..self }
    }

    /// Sets the effect, and recoverability from it.
    pub fn with_effect(self, effect: DiagnosticEffect) -> (r: Self)
        ensures
            r == (DiagnosticRecordDraft { effect, recoverable: effect_is_recoverable(effect), ..self }),
    {
        DiagnosticRecordDraft { effect, recoverable: is_recoverable_effect(effect), ..self }
    }

    pub fn recoverable(self, recoverable: bool) -> (r: Self)
        ensures
            r == (DiagnosticRecordDraft { recoverable, ..self }),
    {
        DiagnosticRecordDraft { recoverable, ..self }
    }

    pub fn with_guidance(self, guidance: Vec<String>) -> (r: Self)
        ensures
            r == (DiagnosticRecordDraft { guidance: Some(guidance), ..self }),
    {
        DiagnosticRecordDraft { guidance: Some(guidance), ..self }
    }

    /// Why the draft cannot become a record, if it cannot: an empty summary
    /// is refused first, then details that break the rule of the code.
    pub open spec fn draft_error(self) -> Option<RecordErrorModel> {
        if self.summary@.len() == 0 {
            Some(RecordErrorModel::EmptySummary)
        } else {
            match validate_spec(code_rule(self.code), self.details.spec_json()) {
                Err(e) => Some(RecordErrorModel::InvalidDetails(e)),
                Ok(()) => None,
            }
        }
    }

    pub(crate) fn into_record(self, id: DiagnosticId) -> (r: Result<DiagnosticRecord, DiagnosticRecordError>)
        ensures
            match r {
                Ok(rec) => self.draft_error() is None && rec@ == (RecordModel { id, content: self }),
                Err(e) => self.draft_error() == Some(e@),
            },
    {
        if self.summary.unicode_len() == 0 {
            return Err(DiagnosticRecordError::EmptySummary);
        }
        let rule = self.code.details_rule();
        proof {
            assert(rule@ =~= code_rule(self.code));
        }
        let value = self.details.to_value();
        match rule.validate_value(&value) {
            Err(e) => Err(DiagnosticRecordError::InvalidDetails(e)),
            Ok(()) => {
                let ghost content = self;
                let rec = DiagnosticRecord {
                    id,
                    summary: self.summary,
                    severity: self.severity,
                    code: self.code,
                    effect: self.effect,
                    details: self.details,
                    guidance: self.guidance,
                    source: self.source,
                    recoverable: self.recoverable,
                };
                assert(rec@.content == content);
                Ok(rec)
            },
        }
    }
}

/// A record as the model sees it: its id and the draft it was made from.
pub struct RecordModel {
    pub id: DiagnosticId,
    pub content: DiagnosticRecordDraft,
}

/// A diagnostic that passed its checks: its summary is not empty and its
/// details fit the rule of its code.
#[derive(Debug, PartialEq)]
pub struct DiagnosticRecord {
    id: DiagnosticId,
    summary: String,
    severity: DiagnosticSeverity,
    code: DiagnosticCode,
    effect: DiagnosticEffect,
    details: DiagnosticDetails,
    guidance: Option<Vec<String>>,
    source: DiagnosticSource,
    recoverable: bool,
}

impl View for DiagnosticRecord {
    type V = RecordModel;

    closed spec fn view(&self) -> RecordModel {
        RecordModel {
            id: self.id,
            content: DiagnosticRecordDraft {
                summary: self.summary,
                severity: self.severity,
                code: self.code,
                effect: self.effect,
                details: self.details,
                guidance: self.guidance,
                source: self.source,
                recoverable: self.recoverable,
            },
        }
    }
}

impl DiagnosticRecord {
    #[verifier::type_invariant]
    closed spec fn valid(self) -> bool {
        &&& self.summary@.len() > 0
        &&& validate_spec(code_rule(self.code), self.details.spec_json()) is Ok
    }

    pub fn id(&self) -> (r: DiagnosticId)
        ensures
            r == self@.id,
    {
        self.id
    }

    /// The summary, which is never empty.
    pub fn summary(&self) -> (r: &str)
        ensures
            r@ == self@.content.summary@,
            r@.len() > 0,
    {
        proof {
            use_type_invariant(self);
        }
        self.summary.as_str()
    }

    pub fn severity(&self) -> (r: DiagnosticSeverity)
        ensures
            r == self@.content.severity,
    {
        self.severity
    }

    pub fn code(&self) -> (r: DiagnosticCode)
        ensures
            r == self@.content.code,
    {
        self.code
    }

    pub fn effect(&self) -> (r: DiagnosticEffect)
        ensures
            r == self@.content.effect,
    {
        self.effect
    }

    /// The details, which always fit the rule of the record's code.
    pub fn details(&self) -> (r: &DiagnosticDetails)
        ensures
            *r == self@.content.details,
            validate_spec(code_rule(self@.content.code), r.spec_json()) is Ok,
    {
        proof {
            use_type_invariant(self);
        }
        &self.details
    }

    pub fn guidance(&self) -> (r: &Option<Vec<String>>)
        ensures
            *r == self@.content.guidance,
    {
        &self.guidance
    }

    pub fn source(&self) -> (r: &DiagnosticSource)
        ensures
            *r == self@.content.source,
    {
        &self.source
    }

    pub fn recoverable(&self) -> (r: bool)
        ensures
            r == self@.content.recoverable,
    {
        self.recoverable
    }
}

/// Why a draft did not become a record.
#[derive(Clone, Debug, PartialEq)]
pub enum DiagnosticRecordError {
    EmptySummary,
    InvalidDetails(DiagnosticDetailsError),
}

pub enum RecordErrorModel {
    EmptySummary,
    InvalidDetails(DetailsErrorModel),
}

impl View for DiagnosticRecordError {
    type V = RecordErrorModel;

    open spec fn view(&self) -> RecordErrorModel {
        match self {
            DiagnosticRecordError::EmptySummary => RecordErrorModel::EmptySummary,
            DiagnosticRecordError::InvalidDetails(e) => RecordErrorModel::InvalidDetails(e@),
        }
    }
}

impl DiagnosticRecordError {
    /// The message of the error.
    pub fn message(&self) -> (r: String)
        ensures
            r@ == match self@ {
                RecordErrorModel::EmptySummary => "diagnostic summary must not be empty"@,
                RecordErrorModel::InvalidDetails(e) => crate::details::details_error_text(e),
            },
    {
        match self {
            DiagnosticRecordError::EmptySummary => String::from_str("diagnostic summary must not be empty"),
            DiagnosticRecordError::InvalidDetails(e) => e.message(),
        }
    }
}

} // verus!

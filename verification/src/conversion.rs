//! Each typed details payload converts into the erased details enum, field for field.

use vstd::prelude::*;

use crate::markers::DiagnosticDetailsPayload;
use crate::payload::{AdapterCandidateDetails, AdapterConfigSourceDetails, AdapterReasonDetails, BoundaryDetails, CapabilityAdapterDetails, CliArgvDetails, DiagnosticDetails, FieldReasonDetails, FormatAmbiguousDetails, FormatUnknownDetails, InternalDetails, PathDetails, PathEncodingDetails, PathReasonDetails, RefCandidateCountDetails, RefDetails, RefReasonDetails};

verus! {

impl DiagnosticDetailsPayload for FieldReasonDetails {
    open spec fn spec_details(self) -> DiagnosticDetails {
        DiagnosticDetails::FieldReason { field: self.field, reason: self.reason, path: self.path, received: self.received, accepted: self.accepted, field_issues: self.field_issues, config_issues: self.config_issues, typed_validation_failures: self.typed_validation_failures, option_issues: self.option_issues }
    }

    fn into_details(self) -> (r: DiagnosticDetails) {
        DiagnosticDetails::FieldReason { field: self.field, reason: self.reason, path: self.path, received: self.received, accepted: self.accepted, field_issues: self.field_issues, config_issues: self.config_issues, typed_validation_failures: self.typed_validation_failures, option_issues: self.option_issues }
    }
}

impl DiagnosticDetailsPayload for PathDetails {
    open spec fn spec_details(self) -> DiagnosticDetails {
        DiagnosticDetails::Path { path: self.path }
    }

    fn into_details(self) -> (r: DiagnosticDetails) {
        DiagnosticDetails::Path { path: self.path }
    }
}

impl DiagnosticDetailsPayload for PathReasonDetails {
    open spec fn spec_details(self) -> DiagnosticDetails {
        DiagnosticDetails::PathReason { path: self.path, reason: self.reason }
    }

    fn into_details(self) -> (r: DiagnosticDetails) {
        DiagnosticDetails::PathReason { path: self.path, reason: self.reason }
    }
}

impl DiagnosticDetailsPayload for PathEncodingDetails {
    open spec fn spec_details(self) -> DiagnosticDetails {
        DiagnosticDetails::PathEncoding { path: self.path, encoding: self.encoding }
    }

    fn into_details(self) -> (r: DiagnosticDetails) {
        DiagnosticDetails::PathEncoding { path: self.path, encoding: self.encoding }
    }
}

impl DiagnosticDetailsPayload for FormatUnknownDetails {
    open spec fn spec_details(self) -> DiagnosticDetails {
        DiagnosticDetails::FormatUnknown { path: self.path, reason: self.reason, candidates: self.candidates }
    }

    fn into_details(self) -> (r: DiagnosticDetails) {
        DiagnosticDetails::FormatUnknown { path: self.path, reason: self.reason, candidates: self.candidates }
    }
}

impl DiagnosticDetailsPayload for FormatAmbiguousDetails {
    open spec fn spec_details(self) -> DiagnosticDetails {
        DiagnosticDetails::FormatAmbiguous { path: self.path, candidates: self.candidates }
    }

    fn into_details(self) -> (r: DiagnosticDetails) {
        DiagnosticDetails::FormatAmbiguous { path: self.path, candidates: self.candidates }
    }
}

impl DiagnosticDetailsPayload for CapabilityAdapterDetails {
    open spec fn spec_details(self) -> DiagnosticDetails {
        DiagnosticDetails::CapabilityAdapter { capability: self.capability, adapter_id: self.adapter_id }
    }

    fn into_details(self) -> (r: DiagnosticDetails) {
        DiagnosticDetails::CapabilityAdapter { capability: self.capability, adapter_id: self.adapter_id }
    }
}

impl DiagnosticDetailsPayload for RefDetails {
    open spec fn spec_details(self) -> DiagnosticDetails {
        DiagnosticDetails::Ref { ref_id: self.ref_id }
    }

    fn into_details(self) -> (r: DiagnosticDetails) {
        DiagnosticDetails::Ref { ref_id: self.ref_id }
    }
}

impl DiagnosticDetailsPayload for RefCandidateCountDetails {
    open spec fn spec_details(self) -> DiagnosticDetails {
        DiagnosticDetails::RefCandidateCount { ref_id: self.ref_id, candidate_count: self.candidate_count }
    }

    fn into_details(self) -> (r: DiagnosticDetails) {
        DiagnosticDetails::RefCandidateCount { ref_id: self.ref_id, candidate_count: self.candidate_count }
    }
}

impl DiagnosticDetailsPayload for RefReasonDetails {
    open spec fn spec_details(self) -> DiagnosticDetails {
        DiagnosticDetails::RefReason { ref_id: self.ref_id, reason: self.reason }
    }

    fn into_details(self) -> (r: DiagnosticDetails) {
        DiagnosticDetails::RefReason { ref_id: self.ref_id, reason: self.reason }
    }
}

impl DiagnosticDetailsPayload for AdapterReasonDetails {
    open spec fn spec_details(self) -> DiagnosticDetails {
        DiagnosticDetails::AdapterReason { adapter_id: self.adapter_id, reason: self.reason, selection_source: self.selection_source, stage: self.stage }
    }

    fn into_details(self) -> (r: DiagnosticDetails) {
        DiagnosticDetails::AdapterReason { adapter_id: self.adapter_id, reason: self.reason, selection_source: self.selection_source, stage: self.stage }
    }
}

impl DiagnosticDetailsPayload for InternalDetails {
    open spec fn spec_details(self) -> DiagnosticDetails {
        DiagnosticDetails::Internal { error_id: self.error_id }
    }

    fn into_details(self) -> (r: DiagnosticDetails) {
        DiagnosticDetails::Internal { error_id: self.error_id }
    }
}

impl DiagnosticDetailsPayload for CliArgvDetails {
    open spec fn spec_details(self) -> DiagnosticDetails {
        DiagnosticDetails::CliArgv { tokens: self.tokens }
    }

    fn into_details(self) -> (r: DiagnosticDetails) {
        DiagnosticDetails::CliArgv { tokens: self.tokens }
    }
}

impl DiagnosticDetailsPayload for AdapterCandidateDetails {
    open spec fn spec_details(self) -> DiagnosticDetails {
        DiagnosticDetails::AdapterCandidate { adapter_id: self.adapter_id, stage: self.stage, code: self.code, preselected: self.preselected }
    }

    fn into_details(self) -> (r: DiagnosticDetails) {
        DiagnosticDetails::AdapterCandidate { adapter_id: self.adapter_id, stage: self.stage, code: self.code, preselected: self.preselected }
    }
}

impl DiagnosticDetailsPayload for AdapterConfigSourceDetails {
    open spec fn spec_details(self) -> DiagnosticDetails {
        DiagnosticDetails::AdapterConfigSource { source_level: self.source_level, path_origin: self.path_origin, path: self.path, field: self.field, reason_code: self.reason_code }
    }

    fn into_details(self) -> (r: DiagnosticDetails) {
        DiagnosticDetails::AdapterConfigSource { source_level: self.source_level, path_origin: self.path_origin, path: self.path, field: self.field, reason_code: self.reason_code }
    }
}

impl DiagnosticDetailsPayload for BoundaryDetails {
    open spec fn spec_details(self) -> DiagnosticDetails {
        DiagnosticDetails::Boundary { reason: self.reason, label: self.label }
    }

    fn into_details(self) -> (r: DiagnosticDetails) {
        DiagnosticDetails::Boundary { reason: self.reason, label: self.label }
    }
}

} // verus!

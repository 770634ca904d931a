//! Marker types of the readable warning diagnostic codes.

use vstd::prelude::*;

use crate::codes::{DiagnosticCode, ReadableWarningDiagnosticCode};
use crate::markers::{DiagnosticCodeMarker, ReadableWarningDiagnosticMarker};
use crate::sealed::Sealed;
use crate::payload::{AdapterCandidateDetails, AdapterConfigSourceDetails, CliArgvDetails};

verus! {

pub struct CliArgvIgnored;

impl Sealed for CliArgvIgnored {}

impl DiagnosticCodeMarker for CliArgvIgnored {
    type Details = CliArgvDetails;

    open spec fn spec_code() -> DiagnosticCode {
        DiagnosticCode::ReadableWarning(ReadableWarningDiagnosticCode::CliArgvIgnored)
    }

    fn code() -> (r: DiagnosticCode) {
        DiagnosticCode::ReadableWarning(ReadableWarningDiagnosticCode::CliArgvIgnored)
    }
}

impl ReadableWarningDiagnosticMarker for CliArgvIgnored {
    open spec fn spec_warning_code() -> ReadableWarningDiagnosticCode {
        ReadableWarningDiagnosticCode::CliArgvIgnored
    }

    fn warning_code() -> (r: ReadableWarningDiagnosticCode) {
        ReadableWarningDiagnosticCode::CliArgvIgnored
    }

    proof fn lemma_details_fit(details: CliArgvDetails) {
    }
}

pub struct AdapterCandidateFailure;

impl Sealed for AdapterCandidateFailure {}

impl DiagnosticCodeMarker for AdapterCandidateFailure {
    type Details = AdapterCandidateDetails;

    open spec fn spec_code() -> DiagnosticCode {
        DiagnosticCode::ReadableWarning(ReadableWarningDiagnosticCode::AdapterCandidateFailure)
    }

    fn code() -> (r: DiagnosticCode) {
        DiagnosticCode::ReadableWarning(ReadableWarningDiagnosticCode::AdapterCandidateFailure)
    }
}

impl ReadableWarningDiagnosticMarker for AdapterCandidateFailure {
    open spec fn spec_warning_code() -> ReadableWarningDiagnosticCode {
        ReadableWarningDiagnosticCode::AdapterCandidateFailure
    }

    fn warning_code() -> (r: ReadableWarningDiagnosticCode) {
        ReadableWarningDiagnosticCode::AdapterCandidateFailure
    }

    proof fn lemma_details_fit(details: AdapterCandidateDetails) {
    }
}

pub struct AdapterConfigSourceSkipped;

impl Sealed for AdapterConfigSourceSkipped {}

impl DiagnosticCodeMarker for AdapterConfigSourceSkipped {
    type Details = AdapterConfigSourceDetails;

    open spec fn spec_code() -> DiagnosticCode {
        DiagnosticCode::ReadableWarning(ReadableWarningDiagnosticCode::AdapterConfigSourceSkipped)
    }

    fn code() -> (r: DiagnosticCode) {
        DiagnosticCode::ReadableWarning(ReadableWarningDiagnosticCode::AdapterConfigSourceSkipped)
    }
}

impl ReadableWarningDiagnosticMarker for AdapterConfigSourceSkipped {
    open spec fn spec_warning_code() -> ReadableWarningDiagnosticCode {
        ReadableWarningDiagnosticCode::AdapterConfigSourceSkipped
    }

    fn warning_code() -> (r: ReadableWarningDiagnosticCode) {
        ReadableWarningDiagnosticCode::AdapterConfigSourceSkipped
    }

    proof fn lemma_details_fit(details: AdapterConfigSourceDetails) {
    }
}

} // verus!

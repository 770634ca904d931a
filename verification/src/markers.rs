//! Traits that tie a marker type to its diagnostic code and details payload.

use vstd::prelude::*;

use crate::codes::{BoundaryDiagnosticCode, DiagnosticCode, ProtocolDiagnosticCode, ReadableWarningDiagnosticCode};
use crate::payload::DiagnosticDetails;
use crate::sealed::Sealed;

verus! {

/// A typed details payload that converts into the erased details enum.
pub trait DiagnosticDetailsPayload: Sized {
    spec fn spec_details(self) -> DiagnosticDetails;

    fn into_details(self) -> (r: DiagnosticDetails)
        ensures
            r == self.spec_details(),
    ;
}

/// A marker type that stands for one diagnostic code.
pub trait DiagnosticCodeMarker: Sealed {
    type Details: DiagnosticDetailsPayload;

    spec fn spec_code() -> DiagnosticCode;

    fn code() -> (r: DiagnosticCode)
        ensures
            r == Self::spec_code(),
    ;
}

/// A marker of a protocol diagnostic code.
pub trait ProtocolDiagnosticMarker: DiagnosticCodeMarker {
    spec fn spec_protocol_code() -> ProtocolDiagnosticCode;

    fn protocol_code() -> (r: ProtocolDiagnosticCode)
        ensures
            r == Self::spec_protocol_code(),
            Self::spec_code() == DiagnosticCode::Protocol(r),
    ;
}

/// A marker of a readable warning diagnostic code.
pub trait ReadableWarningDiagnosticMarker: DiagnosticCodeMarker {
    spec fn spec_warning_code() -> ReadableWarningDiagnosticCode;

    fn warning_code() -> (r: ReadableWarningDiagnosticCode)
        ensures
            r == Self::spec_warning_code(),
            Self::spec_code() == DiagnosticCode::ReadableWarning(r),
    ;

    /// The payload of the marker is the details variant of its code.
    proof fn lemma_details_fit(details: Self::Details)
        ensures
            warning_details_fit(Self::spec_warning_code(), details.spec_details()),
    ;
}

/// The details variant that belongs to each readable warning code.
pub open spec fn warning_details_fit(code: ReadableWarningDiagnosticCode, details: DiagnosticDetails) -> bool {
    match code {
        ReadableWarningDiagnosticCode::CliArgvIgnored => details is CliArgv,
        ReadableWarningDiagnosticCode::AdapterCandidateFailure => details is AdapterCandidate,
        ReadableWarningDiagnosticCode::AdapterConfigSourceSkipped => details is AdapterConfigSource,
    }
}

/// A marker of a boundary diagnostic code.
pub trait BoundaryDiagnosticMarker: DiagnosticCodeMarker {
    spec fn spec_boundary_code() -> BoundaryDiagnosticCode;

    fn boundary_code() -> (r: BoundaryDiagnosticCode)
        ensures
            r == Self::spec_boundary_code(),
            Self::spec_code() == DiagnosticCode::Boundary(r),
    ;
}

} // verus!

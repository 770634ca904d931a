//! Marker types of the boundary diagnostic codes.

use vstd::prelude::*;

use crate::codes::{DiagnosticCode, BoundaryDiagnosticCode};
use crate::markers::{BoundaryDiagnosticMarker, DiagnosticCodeMarker};
use crate::sealed::Sealed;
use crate::payload::{BoundaryDetails};

verus! {

pub struct AdapterErrorExitCodeCannotBe;

impl Sealed for AdapterErrorExitCodeCannotBe {}

impl DiagnosticCodeMarker for AdapterErrorExitCodeCannotBe {
    type Details = BoundaryDetails;

    open spec fn spec_code() -> DiagnosticCode {
        DiagnosticCode::Boundary(BoundaryDiagnosticCode::AdapterErrorExitCodeCannotBe)
    }

    fn code() -> (r: DiagnosticCode) {
        DiagnosticCode::Boundary(BoundaryDiagnosticCode::AdapterErrorExitCodeCannotBe)
    }
}

impl BoundaryDiagnosticMarker for AdapterErrorExitCodeCannotBe {
    open spec fn spec_boundary_code() -> BoundaryDiagnosticCode {
        BoundaryDiagnosticCode::AdapterErrorExitCodeCannotBe
    }

    fn boundary_code() -> (r: BoundaryDiagnosticCode) {
        BoundaryDiagnosticCode::AdapterErrorExitCodeCannotBe
    }
}

pub struct FailedToReadRequest;

impl Sealed for FailedToReadRequest {}

impl DiagnosticCodeMarker for FailedToReadRequest {
    type Details = BoundaryDetails;

    open spec fn spec_code() -> DiagnosticCode {
        DiagnosticCode::Boundary(BoundaryDiagnosticCode::FailedToReadRequest)
    }

    fn code() -> (r: DiagnosticCode) {
        DiagnosticCode::Boundary(BoundaryDiagnosticCode::FailedToReadRequest)
    }
}

impl BoundaryDiagnosticMarker for FailedToReadRequest {
    open spec fn spec_boundary_code() -> BoundaryDiagnosticCode {
        BoundaryDiagnosticCode::FailedToReadRequest
    }

    fn boundary_code() -> (r: BoundaryDiagnosticCode) {
        BoundaryDiagnosticCode::FailedToReadRequest
    }
}

pub struct FailedToSerialize;

impl Sealed for FailedToSerialize {}

impl DiagnosticCodeMarker for FailedToSerialize {
    type Details = BoundaryDetails;

    open spec fn spec_code() -> DiagnosticCode {
        DiagnosticCode::Boundary(BoundaryDiagnosticCode::FailedToSerialize)
    }

    fn code() -> (r: DiagnosticCode) {
        DiagnosticCode::Boundary(BoundaryDiagnosticCode::FailedToSerialize)
    }
}

impl BoundaryDiagnosticMarker for FailedToSerialize {
    open spec fn spec_boundary_code() -> BoundaryDiagnosticCode {
        BoundaryDiagnosticCode::FailedToSerialize
    }

    fn boundary_code() -> (r: BoundaryDiagnosticCode) {
        BoundaryDiagnosticCode::FailedToSerialize
    }
}

pub struct FailedToWriteCliWarning;

impl Sealed for FailedToWriteCliWarning {}

impl DiagnosticCodeMarker for FailedToWriteCliWarning {
    type Details = BoundaryDetails;

    open spec fn spec_code() -> DiagnosticCode {
        DiagnosticCode::Boundary(BoundaryDiagnosticCode::FailedToWriteCliWarning)
    }

    fn code() -> (r: DiagnosticCode) {
        DiagnosticCode::Boundary(BoundaryDiagnosticCode::FailedToWriteCliWarning)
    }
}

impl BoundaryDiagnosticMarker for FailedToWriteCliWarning {
    open spec fn spec_boundary_code() -> BoundaryDiagnosticCode {
        BoundaryDiagnosticCode::FailedToWriteCliWarning
    }

    fn boundary_code() -> (r: BoundaryDiagnosticCode) {
        BoundaryDiagnosticCode::FailedToWriteCliWarning
    }
}

pub struct FailedToWriteJson;

impl Sealed for FailedToWriteJson {}

impl DiagnosticCodeMarker for FailedToWriteJson {
    type Details = BoundaryDetails;

    open spec fn spec_code() -> DiagnosticCode {
        DiagnosticCode::Boundary(BoundaryDiagnosticCode::FailedToWriteJson)
    }

    fn code() -> (r: DiagnosticCode) {
        DiagnosticCode::Boundary(BoundaryDiagnosticCode::FailedToWriteJson)
    }
}

impl BoundaryDiagnosticMarker for FailedToWriteJson {
    open spec fn spec_boundary_code() -> BoundaryDiagnosticCode {
        BoundaryDiagnosticCode::FailedToWriteJson
    }

    fn boundary_code() -> (r: BoundaryDiagnosticCode) {
        BoundaryDiagnosticCode::FailedToWriteJson
    }
}

pub struct FailedToWriteProtocolResponse;

impl Sealed for FailedToWriteProtocolResponse {}

impl DiagnosticCodeMarker for FailedToWriteProtocolResponse {
    type Details = BoundaryDetails;

    open spec fn spec_code() -> DiagnosticCode {
        DiagnosticCode::Boundary(BoundaryDiagnosticCode::FailedToWriteProtocolResponse)
    }

    fn code() -> (r: DiagnosticCode) {
        DiagnosticCode::Boundary(BoundaryDiagnosticCode::FailedToWriteProtocolResponse)
    }
}

impl BoundaryDiagnosticMarker for FailedToWriteProtocolResponse {
    open spec fn spec_boundary_code() -> BoundaryDiagnosticCode {
        BoundaryDiagnosticCode::FailedToWriteProtocolResponse
    }

    fn boundary_code() -> (r: BoundaryDiagnosticCode) {
        BoundaryDiagnosticCode::FailedToWriteProtocolResponse
    }
}

pub struct FailedToWriteReadableView;

impl Sealed for FailedToWriteReadableView {}

impl DiagnosticCodeMarker for FailedToWriteReadableView {
    type Details = BoundaryDetails;

    open spec fn spec_code() -> DiagnosticCode {
        DiagnosticCode::Boundary(BoundaryDiagnosticCode::FailedToWriteReadableView)
    }

    fn code() -> (r: DiagnosticCode) {
        DiagnosticCode::Boundary(BoundaryDiagnosticCode::FailedToWriteReadableView)
    }
}

impl BoundaryDiagnosticMarker for FailedToWriteReadableView {
    open spec fn spec_boundary_code() -> BoundaryDiagnosticCode {
        BoundaryDiagnosticCode::FailedToWriteReadableView
    }

    fn boundary_code() -> (r: BoundaryDiagnosticCode) {
        BoundaryDiagnosticCode::FailedToWriteReadableView
    }
}

pub struct InvalidRequestJson;

impl Sealed for InvalidRequestJson {}

impl DiagnosticCodeMarker for InvalidRequestJson {
    type Details = BoundaryDetails;

    open spec fn spec_code() -> DiagnosticCode {
        DiagnosticCode::Boundary(BoundaryDiagnosticCode::InvalidRequestJson)
    }

    fn code() -> (r: DiagnosticCode) {
        DiagnosticCode::Boundary(BoundaryDiagnosticCode::InvalidRequestJson)
    }
}

impl BoundaryDiagnosticMarker for InvalidRequestJson {
    open spec fn spec_boundary_code() -> BoundaryDiagnosticCode {
        BoundaryDiagnosticCode::InvalidRequestJson
    }

    fn boundary_code() -> (r: BoundaryDiagnosticCode) {
        BoundaryDiagnosticCode::InvalidRequestJson
    }
}

pub struct ManifestAdapterIdMismatch;

impl Sealed for ManifestAdapterIdMismatch {}

impl DiagnosticCodeMarker for ManifestAdapterIdMismatch {
    type Details = BoundaryDetails;

    open spec fn spec_code() -> DiagnosticCode {
        DiagnosticCode::Boundary(BoundaryDiagnosticCode::ManifestAdapterIdMismatch)
    }

    fn code() -> (r: DiagnosticCode) {
        DiagnosticCode::Boundary(BoundaryDiagnosticCode::ManifestAdapterIdMismatch)
    }
}

impl BoundaryDiagnosticMarker for ManifestAdapterIdMismatch {
    open spec fn spec_boundary_code() -> BoundaryDiagnosticCode {
        BoundaryDiagnosticCode::ManifestAdapterIdMismatch
    }

    fn boundary_code() -> (r: BoundaryDiagnosticCode) {
        BoundaryDiagnosticCode::ManifestAdapterIdMismatch
    }
}

pub struct ManifestSchemaValidationFailed;

impl Sealed for ManifestSchemaValidationFailed {}

impl DiagnosticCodeMarker for ManifestSchemaValidationFailed {
    type Details = BoundaryDetails;

    open spec fn spec_code() -> DiagnosticCode {
        DiagnosticCode::Boundary(BoundaryDiagnosticCode::ManifestSchemaValidationFailed)
    }

    fn code() -> (r: DiagnosticCode) {
        DiagnosticCode::Boundary(BoundaryDiagnosticCode::ManifestSchemaValidationFailed)
    }
}

impl BoundaryDiagnosticMarker for ManifestSchemaValidationFailed {
    open spec fn spec_boundary_code() -> BoundaryDiagnosticCode {
        BoundaryDiagnosticCode::ManifestSchemaValidationFailed
    }

    fn boundary_code() -> (r: BoundaryDiagnosticCode) {
        BoundaryDiagnosticCode::ManifestSchemaValidationFailed
    }
}

pub struct ManifestSemanticValidationFailed;

impl Sealed for ManifestSemanticValidationFailed {}

impl DiagnosticCodeMarker for ManifestSemanticValidationFailed {
    type Details = BoundaryDetails;

    open spec fn spec_code() -> DiagnosticCode {
        DiagnosticCode::Boundary(BoundaryDiagnosticCode::ManifestSemanticValidationFailed)
    }

    fn code() -> (r: DiagnosticCode) {
        DiagnosticCode::Boundary(BoundaryDiagnosticCode::ManifestSemanticValidationFailed)
    }
}

impl BoundaryDiagnosticMarker for ManifestSemanticValidationFailed {
    open spec fn spec_boundary_code() -> BoundaryDiagnosticCode {
        BoundaryDiagnosticCode::ManifestSemanticValidationFailed
    }

    fn boundary_code() -> (r: BoundaryDiagnosticCode) {
        BoundaryDiagnosticCode::ManifestSemanticValidationFailed
    }
}

pub struct ProbeResultAdapterIdMismatch;

impl Sealed for ProbeResultAdapterIdMismatch {}

impl DiagnosticCodeMarker for ProbeResultAdapterIdMismatch {
    type Details = BoundaryDetails;

    open spec fn spec_code() -> DiagnosticCode {
        DiagnosticCode::Boundary(BoundaryDiagnosticCode::ProbeResultAdapterIdMismatch)
    }

    fn code() -> (r: DiagnosticCode) {
        DiagnosticCode::Boundary(BoundaryDiagnosticCode::ProbeResultAdapterIdMismatch)
    }
}

impl BoundaryDiagnosticMarker for ProbeResultAdapterIdMismatch {
    open spec fn spec_boundary_code() -> BoundaryDiagnosticCode {
        BoundaryDiagnosticCode::ProbeResultAdapterIdMismatch
    }

    fn boundary_code() -> (r: BoundaryDiagnosticCode) {
        BoundaryDiagnosticCode::ProbeResultAdapterIdMismatch
    }
}

pub struct ProbeResultSchemaValidationFailed;

impl Sealed for ProbeResultSchemaValidationFailed {}

impl DiagnosticCodeMarker for ProbeResultSchemaValidationFailed {
    type Details = BoundaryDetails;

    open spec fn spec_code() -> DiagnosticCode {
        DiagnosticCode::Boundary(BoundaryDiagnosticCode::ProbeResultSchemaValidationFailed)
    }

    fn code() -> (r: DiagnosticCode) {
        DiagnosticCode::Boundary(BoundaryDiagnosticCode::ProbeResultSchemaValidationFailed)
    }
}

impl BoundaryDiagnosticMarker for ProbeResultSchemaValidationFailed {
    open spec fn spec_boundary_code() -> BoundaryDiagnosticCode {
        BoundaryDiagnosticCode::ProbeResultSchemaValidationFailed
    }

    fn boundary_code() -> (r: BoundaryDiagnosticCode) {
        BoundaryDiagnosticCode::ProbeResultSchemaValidationFailed
    }
}

pub struct ProbeResultSemanticValidationFailed;

impl Sealed for ProbeResultSemanticValidationFailed {}

impl DiagnosticCodeMarker for ProbeResultSemanticValidationFailed {
    type Details = BoundaryDetails;

    open spec fn spec_code() -> DiagnosticCode {
        DiagnosticCode::Boundary(BoundaryDiagnosticCode::ProbeResultSemanticValidationFailed)
    }

    fn code() -> (r: DiagnosticCode) {
        DiagnosticCode::Boundary(BoundaryDiagnosticCode::ProbeResultSemanticValidationFailed)
    }
}

impl BoundaryDiagnosticMarker for ProbeResultSemanticValidationFailed {
    open spec fn spec_boundary_code() -> BoundaryDiagnosticCode {
        BoundaryDiagnosticCode::ProbeResultSemanticValidationFailed
    }

    fn boundary_code() -> (r: BoundaryDiagnosticCode) {
        BoundaryDiagnosticCode::ProbeResultSemanticValidationFailed
    }
}

pub struct ProtocolResponseSchemaValidationFailed;

impl Sealed for ProtocolResponseSchemaValidationFailed {}

impl DiagnosticCodeMarker for ProtocolResponseSchemaValidationFailed {
    type Details = BoundaryDetails;

    open spec fn spec_code() -> DiagnosticCode {
        DiagnosticCode::Boundary(BoundaryDiagnosticCode::ProtocolResponseSchemaValidationFailed)
    }

    fn code() -> (r: DiagnosticCode) {
        DiagnosticCode::Boundary(BoundaryDiagnosticCode::ProtocolResponseSchemaValidationFailed)
    }
}

impl BoundaryDiagnosticMarker for ProtocolResponseSchemaValidationFailed {
    open spec fn spec_boundary_code() -> BoundaryDiagnosticCode {
        BoundaryDiagnosticCode::ProtocolResponseSchemaValidationFailed
    }

    fn boundary_code() -> (r: BoundaryDiagnosticCode) {
        BoundaryDiagnosticCode::ProtocolResponseSchemaValidationFailed
    }
}

pub struct ProtocolResponseSemanticValidationFailed;

impl Sealed for ProtocolResponseSemanticValidationFailed {}

impl DiagnosticCodeMarker for ProtocolResponseSemanticValidationFailed {
    type Details = BoundaryDetails;

    open spec fn spec_code() -> DiagnosticCode {
        DiagnosticCode::Boundary(BoundaryDiagnosticCode::ProtocolResponseSemanticValidationFailed)
    }

    fn code() -> (r: DiagnosticCode) {
        DiagnosticCode::Boundary(BoundaryDiagnosticCode::ProtocolResponseSemanticValidationFailed)
    }
}

impl BoundaryDiagnosticMarker for ProtocolResponseSemanticValidationFailed {
    open spec fn spec_boundary_code() -> BoundaryDiagnosticCode {
        BoundaryDiagnosticCode::ProtocolResponseSemanticValidationFailed
    }

    fn boundary_code() -> (r: BoundaryDiagnosticCode) {
        BoundaryDiagnosticCode::ProtocolResponseSemanticValidationFailed
    }
}

pub struct ReadableViewRenderFailed;

impl Sealed for ReadableViewRenderFailed {}

impl DiagnosticCodeMarker for ReadableViewRenderFailed {
    type Details = BoundaryDetails;

    open spec fn spec_code() -> DiagnosticCode {
        DiagnosticCode::Boundary(BoundaryDiagnosticCode::ReadableViewRenderFailed)
    }

    fn code() -> (r: DiagnosticCode) {
        DiagnosticCode::Boundary(BoundaryDiagnosticCode::ReadableViewRenderFailed)
    }
}

impl BoundaryDiagnosticMarker for ReadableViewRenderFailed {
    open spec fn spec_boundary_code() -> BoundaryDiagnosticCode {
        BoundaryDiagnosticCode::ReadableViewRenderFailed
    }

    fn boundary_code() -> (r: BoundaryDiagnosticCode) {
        BoundaryDiagnosticCode::ReadableViewRenderFailed
    }
}

pub struct RequestDeserializationFailed;

impl Sealed for RequestDeserializationFailed {}

impl DiagnosticCodeMarker for RequestDeserializationFailed {
    type Details = BoundaryDetails;

    open spec fn spec_code() -> DiagnosticCode {
        DiagnosticCode::Boundary(BoundaryDiagnosticCode::RequestDeserializationFailed)
    }

    fn code() -> (r: DiagnosticCode) {
        DiagnosticCode::Boundary(BoundaryDiagnosticCode::RequestDeserializationFailed)
    }
}

impl BoundaryDiagnosticMarker for RequestDeserializationFailed {
    open spec fn spec_boundary_code() -> BoundaryDiagnosticCode {
        BoundaryDiagnosticCode::RequestDeserializationFailed
    }

    fn boundary_code() -> (r: BoundaryDiagnosticCode) {
        BoundaryDiagnosticCode::RequestDeserializationFailed
    }
}

pub struct RequestSchemaValidationFailed;

impl Sealed for RequestSchemaValidationFailed {}

impl DiagnosticCodeMarker for RequestSchemaValidationFailed {
    type Details = BoundaryDetails;

    open spec fn spec_code() -> DiagnosticCode {
        DiagnosticCode::Boundary(BoundaryDiagnosticCode::RequestSchemaValidationFailed)
    }

    fn code() -> (r: DiagnosticCode) {
        DiagnosticCode::Boundary(BoundaryDiagnosticCode::RequestSchemaValidationFailed)
    }
}

impl BoundaryDiagnosticMarker for RequestSchemaValidationFailed {
    open spec fn spec_boundary_code() -> BoundaryDiagnosticCode {
        BoundaryDiagnosticCode::RequestSchemaValidationFailed
    }

    fn boundary_code() -> (r: BoundaryDiagnosticCode) {
        BoundaryDiagnosticCode::RequestSchemaValidationFailed
    }
}

} // verus!

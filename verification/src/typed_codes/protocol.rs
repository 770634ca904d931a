//! Marker types of the protocol diagnostic codes.

use vstd::prelude::*;

use crate::codes::{DiagnosticCode, ProtocolDiagnosticCode};
use crate::markers::{DiagnosticCodeMarker, ProtocolDiagnosticMarker};
use crate::sealed::Sealed;
use crate::payload::{AdapterReasonDetails, CapabilityAdapterDetails, FieldReasonDetails, FormatAmbiguousDetails, FormatUnknownDetails, InternalDetails, PathDetails, PathEncodingDetails, PathReasonDetails, RefCandidateCountDetails, RefDetails, RefReasonDetails};

verus! {

pub struct InvalidRequest;

impl Sealed for InvalidRequest {}

impl DiagnosticCodeMarker for InvalidRequest {
    type Details = FieldReasonDetails;

    open spec fn spec_code() -> DiagnosticCode {
        DiagnosticCode::Protocol(ProtocolDiagnosticCode::InvalidRequest)
    }

    fn code() -> (r: DiagnosticCode) {
        DiagnosticCode::Protocol(ProtocolDiagnosticCode::InvalidRequest)
    }
}

impl ProtocolDiagnosticMarker for InvalidRequest {
    open spec fn spec_protocol_code() -> ProtocolDiagnosticCode {
        ProtocolDiagnosticCode::InvalidRequest
    }

    fn protocol_code() -> (r: ProtocolDiagnosticCode) {
        ProtocolDiagnosticCode::InvalidRequest
    }
}

pub struct DocumentNotFound;

impl Sealed for DocumentNotFound {}

impl DiagnosticCodeMarker for DocumentNotFound {
    type Details = PathDetails;

    open spec fn spec_code() -> DiagnosticCode {
        DiagnosticCode::Protocol(ProtocolDiagnosticCode::DocumentNotFound)
    }

    fn code() -> (r: DiagnosticCode) {
        DiagnosticCode::Protocol(ProtocolDiagnosticCode::DocumentNotFound)
    }
}

impl ProtocolDiagnosticMarker for DocumentNotFound {
    open spec fn spec_protocol_code() -> ProtocolDiagnosticCode {
        ProtocolDiagnosticCode::DocumentNotFound
    }

    fn protocol_code() -> (r: ProtocolDiagnosticCode) {
        ProtocolDiagnosticCode::DocumentNotFound
    }
}

pub struct DocumentPathInvalid;

impl Sealed for DocumentPathInvalid {}

impl DiagnosticCodeMarker for DocumentPathInvalid {
    type Details = PathReasonDetails;

    open spec fn spec_code() -> DiagnosticCode {
        DiagnosticCode::Protocol(ProtocolDiagnosticCode::DocumentPathInvalid)
    }

    fn code() -> (r: DiagnosticCode) {
        DiagnosticCode::Protocol(ProtocolDiagnosticCode::DocumentPathInvalid)
    }
}

impl ProtocolDiagnosticMarker for DocumentPathInvalid {
    open spec fn spec_protocol_code() -> ProtocolDiagnosticCode {
        ProtocolDiagnosticCode::DocumentPathInvalid
    }

    fn protocol_code() -> (r: ProtocolDiagnosticCode) {
        ProtocolDiagnosticCode::DocumentPathInvalid
    }
}

pub struct DocumentEncodingUnsupported;

impl Sealed for DocumentEncodingUnsupported {}

impl DiagnosticCodeMarker for DocumentEncodingUnsupported {
    type Details = PathEncodingDetails;

    open spec fn spec_code() -> DiagnosticCode {
        DiagnosticCode::Protocol(ProtocolDiagnosticCode::DocumentEncodingUnsupported)
    }

    fn code() -> (r: DiagnosticCode) {
        DiagnosticCode::Protocol(ProtocolDiagnosticCode::DocumentEncodingUnsupported)
    }
}

impl ProtocolDiagnosticMarker for DocumentEncodingUnsupported {
    open spec fn spec_protocol_code() -> ProtocolDiagnosticCode {
        ProtocolDiagnosticCode::DocumentEncodingUnsupported
    }

    fn protocol_code() -> (r: ProtocolDiagnosticCode) {
        ProtocolDiagnosticCode::DocumentEncodingUnsupported
    }
}

pub struct FormatUnknown;

impl Sealed for FormatUnknown {}

impl DiagnosticCodeMarker for FormatUnknown {
    type Details = FormatUnknownDetails;

    open spec fn spec_code() -> DiagnosticCode {
        DiagnosticCode::Protocol(ProtocolDiagnosticCode::FormatUnknown)
    }

    fn code() -> (r: DiagnosticCode) {
        DiagnosticCode::Protocol(ProtocolDiagnosticCode::FormatUnknown)
    }
}

impl ProtocolDiagnosticMarker for FormatUnknown {
    open spec fn spec_protocol_code() -> ProtocolDiagnosticCode {
        ProtocolDiagnosticCode::FormatUnknown
    }

    fn protocol_code() -> (r: ProtocolDiagnosticCode) {
        ProtocolDiagnosticCode::FormatUnknown
    }
}

pub struct FormatAmbiguous;

impl Sealed for FormatAmbiguous {}

impl DiagnosticCodeMarker for FormatAmbiguous {
    type Details = FormatAmbiguousDetails;

    open spec fn spec_code() -> DiagnosticCode {
        DiagnosticCode::Protocol(ProtocolDiagnosticCode::FormatAmbiguous)
    }

    fn code() -> (r: DiagnosticCode) {
        DiagnosticCode::Protocol(ProtocolDiagnosticCode::FormatAmbiguous)
    }
}

impl ProtocolDiagnosticMarker for FormatAmbiguous {
    open spec fn spec_protocol_code() -> ProtocolDiagnosticCode {
        ProtocolDiagnosticCode::FormatAmbiguous
    }

    fn protocol_code() -> (r: ProtocolDiagnosticCode) {
        ProtocolDiagnosticCode::FormatAmbiguous
    }
}

pub struct CapabilityUnsupported;

impl Sealed for CapabilityUnsupported {}

impl DiagnosticCodeMarker for CapabilityUnsupported {
    type Details = CapabilityAdapterDetails;

    open spec fn spec_code() -> DiagnosticCode {
        DiagnosticCode::Protocol(ProtocolDiagnosticCode::CapabilityUnsupported)
    }

    fn code() -> (r: DiagnosticCode) {
        DiagnosticCode::Protocol(ProtocolDiagnosticCode::CapabilityUnsupported)
    }
}

impl ProtocolDiagnosticMarker for CapabilityUnsupported {
    open spec fn spec_protocol_code() -> ProtocolDiagnosticCode {
        ProtocolDiagnosticCode::CapabilityUnsupported
    }

    fn protocol_code() -> (r: ProtocolDiagnosticCode) {
        ProtocolDiagnosticCode::CapabilityUnsupported
    }
}

pub struct RefNotFound;

impl Sealed for RefNotFound {}

impl DiagnosticCodeMarker for RefNotFound {
    type Details = RefDetails;

    open spec fn spec_code() -> DiagnosticCode {
        DiagnosticCode::Protocol(ProtocolDiagnosticCode::RefNotFound)
    }

    fn code() -> (r: DiagnosticCode) {
        DiagnosticCode::Protocol(ProtocolDiagnosticCode::RefNotFound)
    }
}

impl ProtocolDiagnosticMarker for RefNotFound {
    open spec fn spec_protocol_code() -> ProtocolDiagnosticCode {
        ProtocolDiagnosticCode::RefNotFound
    }

    fn protocol_code() -> (r: ProtocolDiagnosticCode) {
        ProtocolDiagnosticCode::RefNotFound
    }
}

pub struct RefAmbiguous;

impl Sealed for RefAmbiguous {}

impl DiagnosticCodeMarker for RefAmbiguous {
    type Details = RefCandidateCountDetails;

    open spec fn spec_code() -> DiagnosticCode {
        DiagnosticCode::Protocol(ProtocolDiagnosticCode::RefAmbiguous)
    }

    fn code() -> (r: DiagnosticCode) {
        DiagnosticCode::Protocol(ProtocolDiagnosticCode::RefAmbiguous)
    }
}

impl ProtocolDiagnosticMarker for RefAmbiguous {
    open spec fn spec_protocol_code() -> ProtocolDiagnosticCode {
        ProtocolDiagnosticCode::RefAmbiguous
    }

    fn protocol_code() -> (r: ProtocolDiagnosticCode) {
        ProtocolDiagnosticCode::RefAmbiguous
    }
}

pub struct RefInvalid;

impl Sealed for RefInvalid {}

impl DiagnosticCodeMarker for RefInvalid {
    type Details = RefReasonDetails;

    open spec fn spec_code() -> DiagnosticCode {
        DiagnosticCode::Protocol(ProtocolDiagnosticCode::RefInvalid)
    }

    fn code() -> (r: DiagnosticCode) {
        DiagnosticCode::Protocol(ProtocolDiagnosticCode::RefInvalid)
    }
}

impl ProtocolDiagnosticMarker for RefInvalid {
    open spec fn spec_protocol_code() -> ProtocolDiagnosticCode {
        ProtocolDiagnosticCode::RefInvalid
    }

    fn protocol_code() -> (r: ProtocolDiagnosticCode) {
        ProtocolDiagnosticCode::RefInvalid
    }
}

pub struct AdapterUnavailable;

impl Sealed for AdapterUnavailable {}

impl DiagnosticCodeMarker for AdapterUnavailable {
    type Details = AdapterReasonDetails;

    open spec fn spec_code() -> DiagnosticCode {
        DiagnosticCode::Protocol(ProtocolDiagnosticCode::AdapterUnavailable)
    }

    fn code() -> (r: DiagnosticCode) {
        DiagnosticCode::Protocol(ProtocolDiagnosticCode::AdapterUnavailable)
    }
}

impl ProtocolDiagnosticMarker for AdapterUnavailable {
    open spec fn spec_protocol_code() -> ProtocolDiagnosticCode {
        ProtocolDiagnosticCode::AdapterUnavailable
    }

    fn protocol_code() -> (r: ProtocolDiagnosticCode) {
        ProtocolDiagnosticCode::AdapterUnavailable
    }
}

pub struct AdapterInvokeFailed;

impl Sealed for AdapterInvokeFailed {}

impl DiagnosticCodeMarker for AdapterInvokeFailed {
    type Details = AdapterReasonDetails;

    open spec fn spec_code() -> DiagnosticCode {
        DiagnosticCode::Protocol(ProtocolDiagnosticCode::AdapterInvokeFailed)
    }

    fn code() -> (r: DiagnosticCode) {
        DiagnosticCode::Protocol(ProtocolDiagnosticCode::AdapterInvokeFailed)
    }
}

impl ProtocolDiagnosticMarker for AdapterInvokeFailed {
    open spec fn spec_protocol_code() -> ProtocolDiagnosticCode {
        ProtocolDiagnosticCode::AdapterInvokeFailed
    }

    fn protocol_code() -> (r: ProtocolDiagnosticCode) {
        ProtocolDiagnosticCode::AdapterInvokeFailed
    }
}

pub struct InternalError;

impl Sealed for InternalError {}

impl DiagnosticCodeMarker for InternalError {
    type Details = InternalDetails;

    open spec fn spec_code() -> DiagnosticCode {
        DiagnosticCode::Protocol(ProtocolDiagnosticCode::InternalError)
    }

    fn code() -> (r: DiagnosticCode) {
        DiagnosticCode::Protocol(ProtocolDiagnosticCode::InternalError)
    }
}

impl ProtocolDiagnosticMarker for InternalError {
    open spec fn spec_protocol_code() -> ProtocolDiagnosticCode {
        ProtocolDiagnosticCode::InternalError
    }

    fn protocol_code() -> (r: ProtocolDiagnosticCode) {
        ProtocolDiagnosticCode::InternalError
    }
}

} // verus!

//! Warning ids: stable snake-case names of warnings.

use vstd::prelude::*;

use crate::codes::ReadableWarningDiagnosticCode;
use crate::direct::output_mode::{debug_quoted, debug_text};

verus! {

/// A character allowed in a warning id.
pub open spec fn id_char(c: char) -> bool {
    ('a' <= c && c <= 'z') || ('0' <= c && c <= '9') || c == '_'
}

/// A warning id is non-empty and made of lower-case ASCII letters, digits
/// and underscores.
pub open spec fn valid_warning_id(s: Seq<char>) -> bool {
    s.len() > 0 && forall|i: int| 0 <= i < s.len() ==> id_char(#[trigger] s[i])
}

/// The id of a warning.
#[derive(Clone, Debug, PartialEq, Eq, Hash)]
pub struct WarningId {
    value: String,
}

impl View for WarningId {
    type V = Seq<char>;

    closed spec fn view(&self) -> Seq<char> {
        self.value@
    }
}

/// A text that is no valid warning id.
#[derive(Clone, Debug, PartialEq, Eq)]
pub struct InvalidWarningId {
    pub value: String,
}

impl WarningId {
    /// An id from a fixed text, taken as it is.
    pub fn from_static(value: &'static str) -> (r: Self)
        ensures
            r@ == value@,
    {
        WarningId { value: String::from_str(value) }
    }

    /// An id from a text, which must be a valid warning id.
    pub fn new(value: &str) -> (r: Result<Self, InvalidWarningId>)
        ensures
            match r {
                Ok(id) => valid_warning_id(value@) && id@ == value@,
                Err(e) => !valid_warning_id(value@) && e.value@ == value@,
            },
    {
        if validate_warning_id(value) {
            Ok(WarningId { value: String::from_str(value) })
        } else {
            Err(InvalidWarningId { value: String::from_str(value) })
        }
    }

    pub fn cli_argv_ignored() -> (r: Self)
        ensures
            r@ == ReadableWarningDiagnosticCode::CliArgvIgnored.spec_warning_id(),
    {
        Self::from_static(ReadableWarningDiagnosticCode::CliArgvIgnored.warning_id())
    }

    pub fn adapter_candidate_failure() -> (r: Self)
        ensures
            r@ == ReadableWarningDiagnosticCode::AdapterCandidateFailure.spec_warning_id(),
    {
        Self::from_static(ReadableWarningDiagnosticCode::AdapterCandidateFailure.warning_id())
    }

    pub fn adapter_config_source_skipped() -> (r: Self)
        ensures
            r@ == ReadableWarningDiagnosticCode::AdapterConfigSourceSkipped.spec_warning_id(),
    {
        Self::from_static(ReadableWarningDiagnosticCode::AdapterConfigSourceSkipped.warning_id())
    }

    pub fn as_str(&self) -> (r: &str)
        ensures
            r@ == self@,
    {
        self.value.as_str()
    }
}

impl InvalidWarningId {
    /// The message of the error: the text, quoted as `Debug` quotes it.
    pub fn message(&self) -> (r: String)
        ensures
            r@ == "invalid warning id "@ + debug_text(self.value@),
    {
        let mut m = String::from_str("invalid warning id ");
        let quoted = debug_quoted(self.value.as_str());
        m.append(quoted.as_str());
        m
    }
}

/// Whether `value` is a valid warning id.
fn validate_warning_id(value: &str) -> (r: bool)
    ensures
        r == valid_warning_id(value@),
{
    let n = value.unicode_len();
    if n == 0 {
        return false;
    }
    let mut i: usize = 0;
    while i < n
        invariant
            n == value@.len(),
            i <= n,
            forall|j: int| 0 <= j < i ==> id_char(#[trigger] value@[j]),
        decreases n - i,
    {
        let c = value.get_char(i);
        if !(('a' <= c && c <= 'z') || ('0' <= c && c <= '9') || c == '_') {
            return false;
        }
        i = i + 1;
    }
    true
}

} // verus!

//! Readable warnings: the projection of a readable-warning diagnostic that
//! is shown to a user, its record form, and its text and JSON forms.

use vstd::prelude::*;

use crate::codes::{DiagnosticCode, DiagnosticEffect, ReadableWarningDiagnosticCode};
use crate::json::{find_member, json_view, member, set_member, JsonModel, JsonValue};
use crate::stack::DiagnosticId;
use crate::details::{extra_member, field_error, rule_names, validate_spec};
use crate::record::{code_rule, effect_is_recoverable, DiagnosticRecord, DiagnosticRecordDraft, DiagnosticSource, RecordModel};
use crate::markers::{warning_details_fit, DiagnosticDetailsPayload, ReadableWarningDiagnosticMarker};
use crate::payload::{AdapterCandidateDetails, AdapterConfigSourceDetails, CliArgvDetails, DiagnosticDetails};
use crate::typed_codes::readable_warning::{AdapterCandidateFailure, AdapterConfigSourceSkipped, CliArgvIgnored};

verus! {

pub const CLI_ARGV_IGNORED: ReadableWarningDiagnosticCode = ReadableWarningDiagnosticCode::CliArgvIgnored;

pub const ADAPTER_CANDIDATE_FAILURE: ReadableWarningDiagnosticCode = ReadableWarningDiagnosticCode::AdapterCandidateFailure;

pub const ADAPTER_CONFIG_SOURCE_SKIPPED: ReadableWarningDiagnosticCode = ReadableWarningDiagnosticCode::AdapterConfigSourceSkipped;

/// The effect that a readable warning code has by default.
pub open spec fn warning_effect(code: ReadableWarningDiagnosticCode) -> DiagnosticEffect {
    DiagnosticCode::ReadableWarning(code).spec_default_effect()
}

/// A warning as the model sees it: its code, reason, effect and the JSON of
/// its details.
pub struct WarningModel {
    pub code: ReadableWarningDiagnosticCode,
    pub reason: Seq<char>,
    pub effect: DiagnosticEffect,
    pub details: JsonModel,
}

/// A readable warning. Its effect is always the default effect of its code,
/// and its details are always the details variant of its code.
#[derive(Debug, PartialEq)]
pub struct WarningProjection {
    code: ReadableWarningDiagnosticCode,
    reason: String,
    effect: DiagnosticEffect,
    details: DiagnosticDetails,
}

impl View for WarningProjection {
    type V = WarningModel;

    closed spec fn view(&self) -> WarningModel {
        WarningModel {
            code: self.code,
            reason: self.reason@,
            effect: self.effect,
            details: self.details.spec_json(),
        }
    }
}

/// The model of a warning made from a code's marker, reason and payload.
pub open spec fn typed_warning(code: ReadableWarningDiagnosticCode, reason: Seq<char>, details: DiagnosticDetails) -> WarningModel {
    WarningModel { code, reason, effect: warning_effect(code), details: details.spec_json() }
}

/// The token list of a `cli_argv` warning.
pub open spec fn tokens_json(tokens: Seq<Seq<char>>) -> JsonModel {
    JsonModel::Object(
        seq![("tokens"@, JsonModel::Array(Seq::new(tokens.len(), |i: int| JsonModel::String(tokens[i]))))],
    )
}

pub open spec fn strings_view(v: Seq<String>) -> Seq<Seq<char>> {
    Seq::new(v.len(), |i: int| v[i]@)
}

/// A warning's reason on one line: each carriage return and line feed
/// becomes a space.
pub open spec fn one_line(s: Seq<char>) -> Seq<char> {
    Seq::new(s.len(), |i: int| if s[i] == '\r' || s[i] == '\n' { ' ' } else { s[i] })
}

proof fn lemma_strings_json(v: Seq<String>)
    ensures
        crate::payload::strings_json(v) == tokens_json(strings_view(v))->Object_0[0].1,
{
    assert(crate::payload::strings_json(v)->Array_0 =~= tokens_json(strings_view(v))->Object_0[0].1->Array_0);
}

impl WarningProjection {
    #[verifier::type_invariant]
    closed spec fn fits(self) -> bool {
        &&& self.effect == warning_effect(self.code)
        &&& warning_details_fit(self.code, self.details)
    }

    fn from_typed_parts<C: ReadableWarningDiagnosticMarker>(reason: String, details: C::Details) -> (r: Self)
        ensures
            r@ == typed_warning(C::spec_warning_code(), reason@, details.spec_details()),
    {
        let code = C::warning_code();
        proof {
            C::lemma_details_fit(details);
        }
        let effect = DiagnosticCode::ReadableWarning(code).default_effect();
        WarningProjection { code, reason, effect, details: details.into_details() }
    }

    /// A warning of marker `C`; an empty reason is refused.
    pub fn new<C: ReadableWarningDiagnosticMarker>(reason: &str, details: C::Details) -> (r: Result<Self, EmptyWarningReason>)
        ensures
            match r {
                Ok(w) => reason@.len() > 0 && w@ == typed_warning(C::spec_warning_code(), reason@, details.spec_details()),
                Err(_) => reason@.len() == 0,
            },
    {
        if reason.unicode_len() == 0 {
            return Err(EmptyWarningReason);
        }
        Ok(Self::from_typed_parts::<C>(String::from_str(reason), details))
    }

    pub fn code(&self) -> (r: ReadableWarningDiagnosticCode)
        ensures
            r == self@.code,
    {
        self.code
    }

    pub fn reason(&self) -> (r: &str)
        ensures
            r@ == self@.reason,
    {
        self.reason.as_str()
    }

    /// The effect, which is always the default effect of the code.
    pub fn effect(&self) -> (r: DiagnosticEffect)
        ensures
            r == self@.effect,
            r == warning_effect(self@.code),
    {
        proof {
            use_type_invariant(self);
        }
        self.effect
    }

    pub fn details(&self) -> (r: &DiagnosticDetails)
        ensures
            r.spec_json() == self@.details,
            warning_details_fit(self@.code, *r),
    {
        proof {
            use_type_invariant(self);
        }
        &self.details
    }

    /// A `cli_argv_ignored` warning for the given tokens.
    pub fn cli_argv_ignored(tokens: Vec<String>, reason: &str) -> (r: Self)
        ensures
            r@ == (WarningModel {
                code: ReadableWarningDiagnosticCode::CliArgvIgnored,
                reason: reason@,
                effect: DiagnosticEffect::OperationContinued,
                details: tokens_json(strings_view(tokens@)),
            }),
    {
        let ghost t = tokens;
        let r = Self::from_typed_parts::<CliArgvIgnored>(String::from_str(reason), CliArgvDetails::new(tokens));
        proof {
            lemma_strings_json(t@);
            assert(r@.details->Object_0 =~= tokens_json(strings_view(t@))->Object_0);
        }
        r
    }

    /// The warning for an unknown flag, which was ignored.
    pub fn unknown_flag(token: &str) -> (r: Self)
        ensures
            r@ == (WarningModel {
                code: ReadableWarningDiagnosticCode::CliArgvIgnored,
                reason: "unknown CLI flag ignored"@,
                effect: DiagnosticEffect::OperationContinued,
                details: tokens_json(seq![token@]),
            }),
    {
        let mut tokens: Vec<String> = Vec::new();
        tokens.push(String::from_str(token));
        assert(strings_view(tokens@) =~= seq![token@]);
        Self::cli_argv_ignored(tokens, "unknown CLI flag ignored")
    }

    /// The warning for a positional argument past the last slot.
    pub fn extra_positional(token: &str) -> (r: Self)
        ensures
            r@ == (WarningModel {
                code: ReadableWarningDiagnosticCode::CliArgvIgnored,
                reason: "extra positional argument ignored"@,
                effect: DiagnosticEffect::OperationContinued,
                details: tokens_json(seq![token@]),
            }),
    {
        let mut tokens: Vec<String> = Vec::new();
        tokens.push(String::from_str(token));
        assert(strings_view(tokens@) =~= seq![token@]);
        Self::cli_argv_ignored(tokens, "extra positional argument ignored")
    }

    /// The warning for a flag, and its value if it took one, that the command
    /// does not use.
    pub fn unused_operation_flag(flag: &str, value: Option<&str>, command: &str) -> (r: Self)
        ensures
            r@ == (WarningModel {
                code: ReadableWarningDiagnosticCode::CliArgvIgnored,
                reason: "flag is not used by "@ + command@ + " command"@,
                effect: DiagnosticEffect::OperationContinued,
                details: tokens_json(
                    match value {
                        Some(v) => seq![flag@, v@],
                        None => seq![flag@],
                    },
                ),
            }),
    {
        let mut tokens: Vec<String> = Vec::new();
        tokens.push(String::from_str(flag));
        match value {
            Some(v) => {
                tokens.push(String::from_str(v));
                assert(strings_view(tokens@) =~= seq![flag@, v@]);
            },
            None => {
                assert(strings_view(tokens@) =~= seq![flag@]);
            },
        }
        let mut reason = String::from_str("flag is not used by ");
        reason.append(command);
        reason.append(" command");
        Self::cli_argv_ignored(tokens, reason.as_str())
    }

    /// The warning for an adapter candidate that was not used; a preselected
    /// adapter says so in its reason and in its details.
    pub fn adapter_candidate_failure(adapter_id: &str, stage: &str, code: &str, reason: &str, preselected: bool) -> (r: Self)
        ensures
            r@ == (WarningModel {
                code: ReadableWarningDiagnosticCode::AdapterCandidateFailure,
                reason: if preselected {
                    "preselected adapter was not used: "@ + reason@
                } else {
                    "adapter candidate was not used: "@ + reason@
                },
                effect: DiagnosticEffect::CandidateSkipped,
                details: candidate_json(adapter_id@, stage@, code@, if preselected { Some(true) } else { None }),
            }),
    {
        let mut text = if preselected {
            String::from_str("preselected adapter was not used: ")
        } else {
            String::from_str("adapter candidate was not used: ")
        };
        text.append(reason);
        let details = AdapterCandidateDetails::new(adapter_id, stage, code, if preselected { Some(true) } else { None });
        let r = Self::from_typed_parts::<AdapterCandidateFailure>(text, details);
        assert(r@.details =~= candidate_json(adapter_id@, stage@, code@, if preselected { Some(true) } else { None }));
        r
    }

    /// The warning for an adapter config source that was skipped.
    pub fn adapter_config_source_skipped(source_level: &str, path_origin: &str, path: &str, reason_code: &str) -> (r: Self)
        ensures
            r@ == (WarningModel {
                code: ReadableWarningDiagnosticCode::AdapterConfigSourceSkipped,
                reason: "adapter config source skipped"@,
                effect: DiagnosticEffect::OperationContinued,
                details: config_source_json(source_level@, path_origin@, path@, None, reason_code@),
            }),
    {
        let details = AdapterConfigSourceDetails::new(source_level, path_origin, path, reason_code);
        let r = Self::from_typed_parts::<AdapterConfigSourceSkipped>(String::from_str("adapter config source skipped"), details);
        assert(r@.details =~= config_source_json(source_level@, path_origin@, path@, None, reason_code@));
        r
    }
}

/// The details of an `adapter_candidate_failure` warning.
pub open spec fn candidate_json(adapter_id: Seq<char>, stage: Seq<char>, code: Seq<char>, preselected: Option<bool>) -> JsonModel {
    JsonModel::Object(
        seq![
            ("adapter_id"@, JsonModel::String(adapter_id)),
            ("stage"@, JsonModel::String(stage)),
            ("code"@, JsonModel::String(code)),
        ] + match preselected {
            Some(b) => seq![("preselected"@, JsonModel::Bool(b))],
            None => Seq::empty(),
        },
    )
}

/// The details of an `adapter_config_source_skipped` warning.
pub open spec fn config_source_json(source_level: Seq<char>, path_origin: Seq<char>, path: Seq<char>, field: Option<Seq<char>>, reason_code: Seq<char>) -> JsonModel {
    JsonModel::Object(
        seq![
            ("source_level"@, JsonModel::String(source_level)),
            ("path_origin"@, JsonModel::String(path_origin)),
            ("path"@, JsonModel::String(path)),
        ] + match field {
            Some(f) => seq![("field"@, JsonModel::String(f))],
            None => Seq::empty(),
        } + seq![("reason_code"@, JsonModel::String(reason_code))],
    )
}

/// A warning reason was empty.
#[derive(Clone, Copy, Debug, PartialEq, Eq)]
pub struct EmptyWarningReason;

impl EmptyWarningReason {
    pub fn message(&self) -> (r: &'static str)
        ensures
            r@ == "warning reason must not be empty"@,
    {
        "warning reason must not be empty"
    }
}

/// The value of a text member.
pub open spec fn json_text(v: Option<JsonModel>) -> Option<Seq<char>> {
    match v {
        Some(JsonModel::String(s)) => Some(s),
        _ => None,
    }
}

/// An optional text member: absent or null reads as none, anything else
/// but text does not read.
pub open spec fn json_opt_text(v: Option<JsonModel>) -> Option<Option<Seq<char>>> {
    match v {
        None => Some(None),
        Some(JsonModel::Null) => Some(None),
        Some(JsonModel::String(s)) => Some(Some(s)),
        _ => None,
    }
}

/// An optional boolean member: absent or null reads as none.
pub open spec fn json_opt_bool(v: Option<JsonModel>) -> Option<Option<bool>> {
    match v {
        None => Some(None),
        Some(JsonModel::Null) => Some(None),
        Some(JsonModel::Bool(b)) => Some(Some(b)),
        _ => None,
    }
}

/// A member that is an array of texts.
pub open spec fn json_texts(v: Option<JsonModel>) -> Option<Seq<Seq<char>>> {
    match v {
        Some(JsonModel::Array(items)) => if forall|i: int| 0 <= i < items.len() ==> #[trigger] items[i] is String {
            Some(Seq::new(items.len(), |i: int| items[i]->String_0))
        } else {
            None
        },
        _ => None,
    }
}

/// Reading the details of a warning with this code back from JSON, given as
/// the JSON of the details read.
pub open spec fn decode_warning_details(code: ReadableWarningDiagnosticCode, j: JsonModel) -> Option<JsonModel> {
    match j {
        JsonModel::Object(m) => match code {
            ReadableWarningDiagnosticCode::CliArgvIgnored => match json_texts(member(m, "tokens"@)) {
                Some(t) => Some(tokens_json(t)),
                None => None,
            },
            ReadableWarningDiagnosticCode::AdapterCandidateFailure => match (
                json_text(member(m, "adapter_id"@)),
                json_text(member(m, "stage"@)),
                json_text(member(m, "code"@)),
                json_opt_bool(member(m, "preselected"@)),
            ) {
                (Some(a), Some(s), Some(c), Some(p)) => Some(candidate_json(a, s, c, p)),
                _ => None,
            },
            ReadableWarningDiagnosticCode::AdapterConfigSourceSkipped => match (
                json_text(member(m, "source_level"@)),
                json_text(member(m, "path_origin"@)),
                json_text(member(m, "path"@)),
                json_opt_text(member(m, "field"@)),
                json_text(member(m, "reason_code"@)),
            ) {
                (Some(l), Some(o), Some(p), Some(f), Some(c)) => Some(config_source_json(l, o, p, f, c)),
                _ => None,
            },
        },
        _ => None,
    }
}

/// The warning that a record reads back as: only records of readable
/// warning codes with a summary and details of the code's form do.
pub open spec fn warning_of_record(rec: RecordModel) -> Option<WarningModel> {
    match rec.content.code {
        DiagnosticCode::ReadableWarning(c) => if rec.content.summary@.len() == 0 {
            None
        } else {
            match decode_warning_details(c, rec.content.details.spec_json()) {
                Some(d) => Some(WarningModel { code: c, reason: rec.content.summary@, effect: warning_effect(c), details: d }),
                None => None,
            }
        },
        _ => None,
    }
}

/// The record draft of a warning: its code, its reason as summary, the
/// defaults of the code, and its details in the code's variant.
pub open spec fn warning_draft(w: WarningModel, source: DiagnosticSource, d: DiagnosticRecordDraft) -> bool {
    &&& d.code == DiagnosticCode::ReadableWarning(w.code)
    &&& d.summary@ == w.reason
    &&& d.severity == d.code.spec_default_severity()
    &&& d.effect == d.code.spec_default_effect()
    &&& d.guidance is None
    &&& d.source == source
    &&& d.recoverable == effect_is_recoverable(d.effect)
    &&& warning_details_fit(w.code, d.details)
    &&& d.details.spec_json() == w.details
    &&& w.effect == warning_effect(w.code)
}

pub open spec fn object_view(m: Vec<(String, JsonValue)>) -> Seq<(Seq<char>, JsonModel)> {
    json_view(JsonValue::Object(m))->Object_0
}

fn read_text(m: &Vec<(String, JsonValue)>, key: &str) -> (r: Option<String>)
    ensures
        match r {
            Some(s) => json_text(member(object_view(*m), key@)) == Some(s@),
            None => json_text(member(object_view(*m), key@)) is None,
        },
{
    match find_member(m, key) {
        Some(JsonValue::String(s)) => Some(s.clone()),
        _ => None,
    }
}

fn read_opt_text(m: &Vec<(String, JsonValue)>, key: &str) -> (r: Option<Option<String>>)
    ensures
        match r {
            Some(Some(s)) => json_opt_text(member(object_view(*m), key@)) == Some(Some(s@)),
            Some(None) => json_opt_text(member(object_view(*m), key@)) == Some(None::<Seq<char>>),
            None => json_opt_text(member(object_view(*m), key@)) is None,
        },
{
    match find_member(m, key) {
        None => Some(None),
        Some(JsonValue::Null) => Some(None),
        Some(JsonValue::String(s)) => Some(Some(s.clone())),
        _ => None,
    }
}

fn read_opt_bool(m: &Vec<(String, JsonValue)>, key: &str) -> (r: Option<Option<bool>>)
    ensures
        r == json_opt_bool(member(object_view(*m), key@)),
{
    match find_member(m, key) {
        None => Some(None),
        Some(JsonValue::Null) => Some(None),
        Some(JsonValue::Bool(b)) => Some(Some(*b)),
        _ => None,
    }
}

fn read_texts(m: &Vec<(String, JsonValue)>, key: &str) -> (r: Option<Vec<String>>)
    ensures
        match r {
            Some(t) => json_texts(member(object_view(*m), key@)) == Some(strings_view(t@)),
            None => json_texts(member(object_view(*m), key@)) is None,
        },
{
    let items = match find_member(m, key) {
        Some(JsonValue::Array(items)) => items,
        _ => {
            return None;
        },
    };
    let ghost iv = json_view(JsonValue::Array(*items))->Array_0;
    assert(member(object_view(*m), key@) == Some(JsonModel::Array(iv)));
    assert(iv.len() == items@.len());
    let mut out: Vec<String> = Vec::new();
    let mut i: usize = 0;
    while i < items.len()
        invariant
            iv == json_view(JsonValue::Array(*items))->Array_0,
            iv.len() == items@.len(),
            member(object_view(*m), key@) == Some(JsonModel::Array(iv)),
            i <= items@.len(),
            out@.len() == i,
            forall|j: int| 0 <= j < i ==> #[trigger] iv[j] is String,
            strings_view(out@) =~= Seq::new(i as nat, |j: int| iv[j]->String_0),
        decreases items.len() - i,
    {
        assert(iv[i as int] == json_view(items@[i as int]));
        match &items[i] {
            JsonValue::String(s) => {
                let ghost before = out@;
                let c = s.clone();
                assert(iv[i as int] == JsonModel::String(s@));
                out.push(c);
                assert(strings_view(out@) =~= strings_view(before).push(c@));
                assert(strings_view(out@) =~= Seq::new((i + 1) as nat, |j: int| iv[j]->String_0));
            },
            _ => {
                assert(!(iv[i as int] is String));
                return None;
            },
        }
        i = i + 1;
    }
    Some(out)
}

/// Copies a list of texts.
pub fn strings_clone(v: &Vec<String>) -> (r: Vec<String>)
    ensures
        r@ == v@,
{
    let mut out: Vec<String> = Vec::new();
    let mut i: usize = 0;
    while i < v.len()
        invariant
            i <= v@.len(),
            out@ == v@.take(i as int),
        decreases v.len() - i,
    {
        out.push(v[i].clone());
        assert(out@ =~= v@.take(i + 1));
        i = i + 1;
    }
    assert(v@.take(v@.len() as int) =~= v@);
    out
}

impl WarningProjection {
    /// The record draft of the warning.
    pub fn to_record_draft(&self, source: DiagnosticSource) -> (r: DiagnosticRecordDraft)
        ensures
            warning_draft(self@, source, r),
    {
        proof {
            use_type_invariant(self);
        }
        match &self.details {
            DiagnosticDetails::CliArgv { tokens } => {
                DiagnosticRecordDraft::new::<CliArgvIgnored>(self.reason.as_str(), CliArgvDetails::new(strings_clone(tokens)), source)
            },
            DiagnosticDetails::AdapterCandidate { adapter_id, stage, code, preselected } => {
                let d = AdapterCandidateDetails::new(adapter_id.as_str(), stage.as_str(), code.as_str(), *preselected);
                DiagnosticRecordDraft::new::<AdapterCandidateFailure>(self.reason.as_str(), d, source)
            },
            DiagnosticDetails::AdapterConfigSource { source_level, path_origin, path, field, reason_code } => {
                let d = AdapterConfigSourceDetails::new(source_level.as_str(), path_origin.as_str(), path.as_str(), reason_code.as_str());
                let d = match field {
                    Some(f) => d.with_field(f.as_str()),
                    None => d,
                };
                DiagnosticRecordDraft::new::<AdapterConfigSourceSkipped>(self.reason.as_str(), d, source)
            },
            _ => {
                // The type invariant ties the details to the variant of the code.
                proof {
                    assert(false);
                }
                DiagnosticRecordDraft::from_erased_for_test(DiagnosticCode::ReadableWarning(self.code), self.reason.as_str(), DiagnosticDetails::CliArgv { tokens: Vec::new() }, source)
            },
        }
    }

    /// The warning that a record reads back as, if it is one: the record's
    /// code must be a readable warning code, its summary the reason, and its
    /// details readable as the details of that code.
    pub fn from_record(record: &DiagnosticRecord) -> (r: Option<Self>)
        ensures
            match r {
                Some(w) => warning_of_record(record@) == Some(w@),
                None => warning_of_record(record@) is None,
            },
    {
        let c = match record.code() {
            DiagnosticCode::ReadableWarning(c) => c,
            _ => {
                return None;
            },
        };
        let value = record.details().to_value();
        let m = match &value {
            JsonValue::Object(m) => m,
            _ => {
                return None;
            },
        };
        let summary = record.summary();
        match c {
            ReadableWarningDiagnosticCode::CliArgvIgnored => {
                let tokens = match read_texts(m, "tokens") {
                    Some(t) => t,
                    None => {
                        return None;
                    },
                };
                let ghost t = tokens;
                match Self::new::<CliArgvIgnored>(summary, CliArgvDetails::new(tokens)) {
                    Ok(w) => {
                        proof {
                            lemma_strings_json(t@);
                            assert(w@.details->Object_0 =~= tokens_json(strings_view(t@))->Object_0);
                        }
                        Some(w)
                    },
                    Err(_) => None,
                }
            },
            ReadableWarningDiagnosticCode::AdapterCandidateFailure => {
                let a = read_text(m, "adapter_id");
                let s = read_text(m, "stage");
                let k = read_text(m, "code");
                let p = read_opt_bool(m, "preselected");
                match (a, s, k, p) {
                    (Some(a), Some(s), Some(k), Some(p)) => {
                        let d = AdapterCandidateDetails::new(a.as_str(), s.as_str(), k.as_str(), p);
                        match Self::new::<AdapterCandidateFailure>(summary, d) {
                            Ok(w) => {
                                assert(w@.details =~= candidate_json(a@, s@, k@, p));
                                Some(w)
                            },
                            Err(_) => None,
                        }
                    },
                    _ => None,
                }
            },
            ReadableWarningDiagnosticCode::AdapterConfigSourceSkipped => {
                let l = read_text(m, "source_level");
                let o = read_text(m, "path_origin");
                let p = read_text(m, "path");
                let f = read_opt_text(m, "field");
                let k = read_text(m, "reason_code");
                match (l, o, p, f, k) {
                    (Some(l), Some(o), Some(p), Some(f), Some(k)) => {
                        let d = AdapterConfigSourceDetails::new(l.as_str(), o.as_str(), p.as_str(), k.as_str());
                        let ghost fv: Option<Seq<char>> = match &f {
                            Some(x) => Some(x@),
                            None => None,
                        };
                        let d = match f {
                            Some(x) => d.with_field(x.as_str()),
                            None => d,
                        };
                        match Self::new::<AdapterConfigSourceSkipped>(summary, d) {
                            Ok(w) => {
                                assert(w@.details =~= config_source_json(l@, o@, p@, fv, k@));
                                Some(w)
                            },
                            Err(_) => None,
                        }
                    },
                    _ => None,
                }
            },
        }
    }
}

/// The member names of the warning details differ from one another.
proof fn lemma_warning_keys()
    ensures
        "tokens"@.len() == 6,
        "adapter_id"@.len() == 10,
        "stage"@.len() == 5,
        "code"@.len() == 4,
        "preselected"@.len() == 11,
        "source_level"@.len() == 12,
        "path_origin"@.len() == 11,
        "path"@.len() == 4,
        "field"@.len() == 5,
        "reason_code"@.len() == 11,
        "path_origin"@ != "reason_code"@,
{
    reveal_strlit("tokens");
    reveal_strlit("adapter_id");
    reveal_strlit("stage");
    reveal_strlit("code");
    reveal_strlit("preselected");
    reveal_strlit("source_level");
    reveal_strlit("path_origin");
    reveal_strlit("path");
    reveal_strlit("field");
    reveal_strlit("reason_code");
    assert("path_origin"@[0] == 'p' && "reason_code"@[0] == 'r');
}

/// A warning with a non-empty reason becomes a record draft that passes the
/// record checks, and the record made from that draft reads back as the same
/// warning, whatever id it was given.
pub proof fn law_warning_record_roundtrip(w: WarningModel, source: DiagnosticSource, draft: DiagnosticRecordDraft, id: DiagnosticId)
    requires
        warning_draft(w, source, draft),
        w.reason.len() > 0,
    ensures
        draft.draft_error() is None,
        warning_of_record(RecordModel { id, content: draft }) == Some(w),
{
    lemma_warning_keys();
    reveal_with_fuel(field_error, 7);
    reveal_with_fuel(extra_member, 7);
    reveal_with_fuel(member, 7);
    let rule = code_rule(draft.code);
    let j = draft.details.spec_json();
    match draft.details {
        DiagnosticDetails::CliArgv { tokens } => {
            let m = j->Object_0;
            assert(rule_names(rule.fields, m[0].0)) by {
                assert(rule.fields[0].0 == m[0].0);
            }
            assert(m.drop_first().len() == 0);
            assert(validate_spec(rule, j) is Ok);
            lemma_strings_json(tokens@);
            let items = crate::payload::strings_json(tokens@)->Array_0;
            assert(Seq::new(items.len(), |i: int| items[i]->String_0) =~= strings_view(tokens@));
        },
        DiagnosticDetails::AdapterCandidate { adapter_id, stage, code, preselected } => {
            let m = j->Object_0;
            assert forall|k: int| 0 <= k < m.len() implies rule_names(rule.fields, #[trigger] m[k].0) by {
                if k == 0 {
                    assert(rule.fields[0].0 == m[k].0);
                } else if k == 1 {
                    assert(rule.fields[1].0 == m[k].0);
                } else if k == 2 {
                    assert(rule.fields[2].0 == m[k].0);
                } else {
                    assert(rule.fields[3].0 == m[k].0);
                }
            }
            assert(validate_spec(rule, j) is Ok);
            assert(candidate_json(adapter_id@, stage@, code@, preselected) =~= j);
        },
        DiagnosticDetails::AdapterConfigSource { source_level, path_origin, path, field, reason_code } => {
            let m = j->Object_0;
            assert forall|k: int| 0 <= k < m.len() implies rule_names(rule.fields, #[trigger] m[k].0) by {
                if k == 0 {
                    assert(rule.fields[0].0 == m[k].0);
                } else if k == 1 {
                    assert(rule.fields[1].0 == m[k].0);
                } else if k == 2 {
                    assert(rule.fields[2].0 == m[k].0);
                } else if k == 3 && field is Some {
                    assert(rule.fields[3].0 == m[k].0);
                } else {
                    assert(rule.fields[4].0 == m[k].0);
                }
            }
            assert(validate_spec(rule, j) is Ok);
            let fv: Option<Seq<char>> = match field {
                Some(f) => Some(f@),
                None => None,
            };
            assert(config_source_json(source_level@, path_origin@, path@, fv, reason_code@) =~= j);
        },
        _ => {},
    }
}

/// The stable text of an effect.
pub open spec fn effect_text(effect: DiagnosticEffect) -> Seq<char> {
    match effect {
        DiagnosticEffect::OperationContinued => "operation_continued"@,
        DiagnosticEffect::CandidateSkipped => "candidate_skipped"@,
        DiagnosticEffect::InputRejected => "input_rejected"@,
        DiagnosticEffect::DocumentFailed => "document_failed"@,
        DiagnosticEffect::AdapterBoundaryFailed => "adapter_boundary_failed"@,
        DiagnosticEffect::InternalFailure => "internal_failure"@,
    }
}

pub fn diagnostic_effect_as_str(effect: DiagnosticEffect) -> (r: &'static str)
    ensures
        r@ == effect_text(effect),
{
    match effect {
        DiagnosticEffect::OperationContinued => "operation_continued",
        DiagnosticEffect::CandidateSkipped => "candidate_skipped",
        DiagnosticEffect::InputRejected => "input_rejected",
        DiagnosticEffect::DocumentFailed => "document_failed",
        DiagnosticEffect::AdapterBoundaryFailed => "adapter_boundary_failed",
        DiagnosticEffect::InternalFailure => "internal_failure",
    }
}

/// The JSON of a warning: its id, reason, effect and details.
pub open spec fn warning_json(w: WarningModel) -> JsonModel {
    JsonModel::Object(
        seq![
            ("id"@, JsonModel::String(w.code.spec_warning_id())),
            ("reason"@, JsonModel::String(w.reason)),
            ("effect"@, JsonModel::String(effect_text(w.effect))),
            ("details"@, w.details),
        ],
    )
}

/// The stderr line of a warning, given the JSON text of its details.
pub open spec fn warning_line(w: WarningModel, details_text: Seq<char>) -> Seq<char> {
    "warning: id="@ + w.code.spec_warning_id() + ", effect="@ + effect_text(w.effect) + ", reason="@
        + one_line(w.reason) + ", details="@ + details_text
}

/// Replaces each carriage return and line feed of `s` with a space.
pub fn single_line(s: &str) -> (r: String)
    ensures
        r@ == one_line(s@),
{
    let n = s.unicode_len();
    let mut out = String::new();
    let mut i: usize = 0;
    while i < n
        invariant
            n == s@.len(),
            i <= n,
            out@ == one_line(s@).take(i as int),
        decreases n - i,
    {
        let c = s.get_char(i);
        if c == '\r' || c == '\n' {
            out.append(" ");
            proof {
                reveal_strlit(" ");
            }
        } else {
            out.append(s.substring_char(i, i + 1));
        }
        assert(out@ =~= one_line(s@).take(i + 1));
        i = i + 1;
    }
    assert(one_line(s@).take(n as int) =~= one_line(s@));
    out
}

impl WarningProjection {
    /// The JSON form of the warning.
    pub fn to_value(&self) -> (r: JsonValue)
        ensures
            r@ == warning_json(self@),
    {
        let mut m: Vec<(String, JsonValue)> = Vec::new();
        m.push((String::from_str("id"), crate::json::json_string(self.code.warning_id())));
        m.push((String::from_str("reason"), crate::json::json_string(self.reason.as_str())));
        m.push((String::from_str("effect"), crate::json::json_string(diagnostic_effect_as_str(self.effect))));
        m.push((String::from_str("details"), self.details.to_value()));
        let r = crate::payload::object(m);
        assert(r@->Object_0 =~= warning_json(self@)->Object_0);
        r
    }
}

/// The stderr line of a warning: its id, effect, reason on one line, and
/// the JSON text of its details, which the caller renders.
pub fn warning_text_line(warning: &WarningProjection, details_text: &str) -> (r: String)
    ensures
        r@ == warning_line(warning@, details_text@),
{
    let mut line = String::from_str("warning: id=");
    line.append(warning.code().warning_id());
    line.append(", effect=");
    line.append(diagnostic_effect_as_str(warning.effect()));
    line.append(", reason=");
    let reason = single_line(warning.reason());
    line.append(reason.as_str());
    line.append(", details=");
    line.append(details_text);
    line
}

/// A payload with warnings attached: unchanged without warnings; an object
/// gets a `warnings` member; any other value is wrapped with its warnings.
pub open spec fn attach_spec(v: JsonModel, warnings: Seq<JsonModel>) -> JsonModel {
    if warnings.len() == 0 {
        v
    } else {
        match v {
            JsonModel::Object(m) => JsonModel::Object(set_member(m, "warnings"@, JsonModel::Array(warnings))),
            _ => JsonModel::Object(seq![("value"@, v), ("warnings"@, JsonModel::Array(warnings))]),
        }
    }
}

pub open spec fn warnings_json(w: Seq<WarningProjection>) -> Seq<JsonModel> {
    Seq::new(w.len(), |i: int| warning_json(w[i]@))
}

/// Attaches the JSON of the warnings to a JSON payload.
pub fn attach_warnings_to_value(value: JsonValue, warnings: &Vec<WarningProjection>) -> (r: JsonValue)
    ensures
        r@ == attach_spec(value@, warnings_json(warnings@)),
{
    if warnings.len() == 0 {
        return value;
    }
    let mut items: Vec<JsonValue> = Vec::new();
    let mut i: usize = 0;
    while i < warnings.len()
        invariant
            i <= warnings@.len(),
            items@.len() == i,
            forall|j: int| 0 <= j < i ==> json_view(#[trigger] items@[j]) == warning_json(warnings@[j]@),
        decreases warnings.len() - i,
    {
        items.push(warnings[i].to_value());
        i = i + 1;
    }
    let list = crate::payload::json_items(&items);
    assert(list@ == JsonModel::Array(warnings_json(warnings@))) by {
        assert(list@->Array_0 =~= warnings_json(warnings@));
    }
    let ghost vv = value@;
    match value {
        JsonValue::Object(members) => {
            let mut members = members;
            let ghost mv = crate::payload::members_view(members@);
            assert(vv == JsonModel::Object(mv)) by {
                assert(object_view(members) =~= mv);
            }
            crate::payload::set_member_in(&mut members, "warnings", list);
            crate::payload::object(members)
        },
        other => {
            let ghost ov = other@;
            let mut m: Vec<(String, JsonValue)> = Vec::new();
            m.push((String::from_str("value"), other));
            m.push((String::from_str("warnings"), list));
            let r = crate::payload::object(m);
            assert(r@->Object_0 =~= seq![("value"@, ov), ("warnings"@, JsonModel::Array(warnings_json(warnings@)))]);
            r
        },
    }
}

} // verus!

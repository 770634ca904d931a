//! Typed detail payloads, the details enum that carries them, and its JSON form.

use vstd::prelude::*;

use crate::json::{is_first_key, json_view, set_member, JsonModel, JsonValue, JsonNumber};

verus! {

/// The members of an object value, as the model sees them.
pub open spec fn members_view(m: Seq<(String, JsonValue)>) -> Seq<(Seq<char>, JsonModel)> {
    Seq::new(m.len(), |i: int| (m[i].0@, json_view(m[i].1)))
}

pub open spec fn items_view(m: Seq<JsonValue>) -> Seq<JsonModel> {
    Seq::new(m.len(), |i: int| json_view(m[i]))
}

pub open spec fn strings_json(v: Seq<String>) -> JsonModel {
    JsonModel::Array(Seq::new(v.len(), |i: int| JsonModel::String(v[i]@)))
}

pub open spec fn opt_member(key: Seq<char>, v: Option<JsonModel>) -> Seq<(Seq<char>, JsonModel)> {
    match v {
        Some(x) => seq![(key, x)],
        None => Seq::empty(),
    }
}

pub open spec fn opt_string_json(v: Option<String>) -> Option<JsonModel> {
    match v {
        Some(s) => Some(JsonModel::String(s@)),
        None => None,
    }
}

proof fn lemma_object_view(m: Vec<(String, JsonValue)>)
    ensures
        json_view(JsonValue::Object(m)) == JsonModel::Object(members_view(m@)),
{
    assert(json_view(JsonValue::Object(m))->Object_0 =~= members_view(m@));
}

proof fn lemma_array_view(m: Vec<JsonValue>)
    ensures
        json_view(JsonValue::Array(m)) == JsonModel::Array(items_view(m@)),
{
    assert(json_view(JsonValue::Array(m))->Array_0 =~= items_view(m@));
}

/// An object value with the given members.
pub fn object(members: Vec<(String, JsonValue)>) -> (r: JsonValue)
    ensures
        r@ == JsonModel::Object(members_view(members@)),
{
    proof {
        lemma_object_view(members);
    }
    JsonValue::Object(members)
}

/// Appends a member.
pub fn push_member(members: &mut Vec<(String, JsonValue)>, key: &str, value: JsonValue)
    ensures
        members_view(final(members)@) == members_view(old(members)@).push((key@, value@)),
{
    let ghost before = members@;
    members.push((String::from_str(key), value));
    assert(members_view(members@) =~= members_view(before).push((key@, value@)));
}

/// Appends a string member.
pub fn push_string(members: &mut Vec<(String, JsonValue)>, key: &str, value: &String)
    ensures
        members_view(final(members)@) == members_view(old(members)@).push(
            (key@, JsonModel::String(value@)),
        ),
{
    push_member(members, key, JsonValue::String(value.clone()));
}

/// Appends a string member when the value is present.
pub fn push_opt_string(members: &mut Vec<(String, JsonValue)>, key: &str, value: &Option<String>)
    ensures
        members_view(final(members)@) == members_view(old(members)@) + opt_member(
            key@,
            opt_string_json(*value),
        ),
{
    match value {
        Some(v) => push_string(members, key, v),
        None => {
            assert(members_view(members@) + Seq::empty() =~= members_view(members@));
        },
    }
}

/// An array of strings.
pub fn string_array(v: &Vec<String>) -> (r: JsonValue)
    ensures
        r@ == strings_json(v@),
{
    let mut items: Vec<JsonValue> = Vec::new();
    let mut i: usize = 0;
    while i < v.len()
        invariant
            i <= v.len(),
            items@.len() == i,
            forall|j: int| 0 <= j < i ==> json_view(#[trigger] items@[j]) == JsonModel::String(v@[j]@),
        decreases v.len() - i,
    {
        items.push(JsonValue::String(v[i].clone()));
        i = i + 1;
    }
    proof {
        lemma_array_view(items);
        assert(items_view(items@) =~= strings_json(v@)->Array_0);
    }
    JsonValue::Array(items)
}

/// A copy of a JSON value.
pub fn json_clone(v: &JsonValue) -> (r: JsonValue)
    ensures
        r@ == v@,
    decreases v,
{
    match v {
        JsonValue::Null => JsonValue::Null,
        JsonValue::Bool(b) => JsonValue::Bool(*b),
        JsonValue::Number(n) => JsonValue::Number(
            match n {
                JsonNumber::PosInt(x) => JsonNumber::PosInt(*x),
                JsonNumber::NegInt(x) => JsonNumber::NegInt(*x),
                JsonNumber::Float(t) => JsonNumber::Float(t.clone()),
            },
        ),
        JsonValue::String(s) => JsonValue::String(s.clone()),
        JsonValue::Array(items) => {
            let mut out: Vec<JsonValue> = Vec::new();
            let mut i: usize = 0;
            while i < items.len()
                invariant
                    *v == JsonValue::Array(*items),
                    i <= items.len(),
                    out@.len() == i,
                    forall|j: int| 0 <= j < i ==> json_view(#[trigger] out@[j]) == json_view(items@[j]),
                decreases items.len() - i,
            {
                assert(decreases_to!(*v => (*v)->Array_0));
                assert((*v)->Array_0 == *items);
                assert(decreases_to!(*items => items@));
                assert(decreases_to!(items@ => items@[i as int]));
                out.push(json_clone(&items[i]));
                i = i + 1;
            }
            proof {
                lemma_array_view(out);
                lemma_array_view(*items);
                assert(items_view(out@) =~= items_view(items@));
            }
            JsonValue::Array(out)
        },
        JsonValue::Object(members) => {
            let mut out: Vec<(String, JsonValue)> = Vec::new();
            let mut i: usize = 0;
            while i < members.len()
                invariant
                    *v == JsonValue::Object(*members),
                    i <= members.len(),
                    out@.len() == i,
                    forall|j: int|
                        0 <= j < i ==> (#[trigger] out@[j]).0@ == members@[j].0@ && json_view(out@[j].1)
                            == json_view(members@[j].1),
                decreases members.len() - i,
            {
                assert(decreases_to!(*v => (*v)->Object_0));
                assert((*v)->Object_0 == *members);
                assert(decreases_to!(*members => members@));
                assert(decreases_to!(members@ => members@[i as int]));
                assert(decreases_to!(members@[i as int] => members@[i as int].1));
                let value = json_clone(&members[i].1);
                out.push((members[i].0.clone(), value));
                i = i + 1;
            }
            proof {
                lemma_object_view(out);
                lemma_object_view(*members);
                assert(members_view(out@) =~= members_view(members@));
            }
            JsonValue::Object(out)
        },
    }
}

/// A copy of a list of JSON values.
pub fn json_items(v: &Vec<JsonValue>) -> (r: JsonValue)
    ensures
        r@ == JsonModel::Array(items_view(v@)),
{
    let mut out: Vec<JsonValue> = Vec::new();
    let mut i: usize = 0;
    while i < v.len()
        invariant
            i <= v.len(),
            out@.len() == i,
            forall|j: int| 0 <= j < i ==> json_view(#[trigger] out@[j]) == json_view(v@[j]),
        decreases v.len() - i,
    {
        out.push(json_clone(&v[i]));
        i = i + 1;
    }
    proof {
        lemma_array_view(out);
        assert(items_view(out@) =~= items_view(v@));
    }
    JsonValue::Array(out)
}

#[derive(Debug, PartialEq)]
pub struct FieldReasonDetails {
    pub field: String,
    pub reason: String,
    pub path: Option<String>,
    pub received: Option<String>,
    pub accepted: Option<Vec<String>>,
    pub field_issues: Option<Vec<JsonValue>>,
    pub config_issues: Option<Vec<AdapterConfigSourceDetails>>,
    pub typed_validation_failures: Option<Vec<JsonValue>>,
    pub option_issues: Option<Vec<JsonValue>>,
}

impl FieldReasonDetails {
    pub fn new(field: &str, reason: &str) -> (r: Self)
        ensures
            r.field@ == field@,
            r.reason@ == reason@,
            r.path is None,
            r.received is None,
            r.accepted is None,
            r.field_issues is None,
            r.config_issues is None,
            r.typed_validation_failures is None,
            r.option_issues is None,
    {
        FieldReasonDetails {
            field: String::from_str(field),
            reason: String::from_str(reason),
            path: None,
            received: None,
            accepted: None,
            field_issues: None,
            config_issues: None,
            typed_validation_failures: None,
            option_issues: None,
        }
    }
}

#[derive(Clone, Debug, PartialEq)]
pub struct PathDetails {
    pub path: String,
}

impl PathDetails {
    pub fn new(path: &str) -> (r: Self)
        ensures
            r.path@ == path@,
    {
        PathDetails { path: String::from_str(path) }
    }
}

#[derive(Clone, Debug, PartialEq)]
pub struct PathReasonDetails {
    pub path: String,
    pub reason: String,
}

impl PathReasonDetails {
    pub fn new(path: &str, reason: &str) -> (r: Self)
        ensures
            r.path@ == path@,
            r.reason@ == reason@,
    {
        PathReasonDetails { path: String::from_str(path), reason: String::from_str(reason) }
    }
}

#[derive(Clone, Debug, PartialEq)]
pub struct PathEncodingDetails {
    pub path: String,
    pub encoding: String,
}

impl PathEncodingDetails {
    pub fn new(path: &str, encoding: &str) -> (r: Self)
        ensures
            r.path@ == path@,
            r.encoding@ == encoding@,
    {
        PathEncodingDetails { path: String::from_str(path), encoding: String::from_str(encoding) }
    }
}

#[derive(Clone, Debug, PartialEq)]
pub struct FormatCandidateDetails {
    pub adapter_id: String,
    pub stage: String,
    pub reason: String,
}

impl FormatCandidateDetails {
    pub fn new(adapter_id: &str, stage: &str, reason: &str) -> (r: Self)
        ensures
            r.adapter_id@ == adapter_id@,
            r.stage@ == stage@,
            r.reason@ == reason@,
    {
        FormatCandidateDetails {
            adapter_id: String::from_str(adapter_id),
            stage: String::from_str(stage),
            reason: String::from_str(reason),
        }
    }

    pub open spec fn spec_json(self) -> JsonModel {
        JsonModel::Object(
            seq![
                ("adapter_id"@, JsonModel::String(self.adapter_id@)),
                ("stage"@, JsonModel::String(self.stage@)),
                ("reason"@, JsonModel::String(self.reason@)),
            ],
        )
    }

    pub fn to_value(&self) -> (r: JsonValue)
        ensures
            r@ == self.spec_json(),
    {
        let mut m: Vec<(String, JsonValue)> = Vec::new();
        push_string(&mut m, "adapter_id", &self.adapter_id);
        push_string(&mut m, "stage", &self.stage);
        push_string(&mut m, "reason", &self.reason);
        assert(members_view(m@) =~= self.spec_json()->Object_0);
        object(m)
    }
}

pub open spec fn candidates_json(v: Seq<FormatCandidateDetails>) -> JsonModel {
    JsonModel::Array(Seq::new(v.len(), |i: int| v[i].spec_json()))
}

fn candidates_value(v: &Vec<FormatCandidateDetails>) -> (r: JsonValue)
    ensures
        r@ == candidates_json(v@),
{
    let mut items: Vec<JsonValue> = Vec::new();
    let mut i: usize = 0;
    while i < v.len()
        invariant
            i <= v.len(),
            items@.len() == i,
            forall|j: int| 0 <= j < i ==> json_view(#[trigger] items@[j]) == v@[j].spec_json(),
        decreases v.len() - i,
    {
        items.push(v[i].to_value());
        i = i + 1;
    }
    proof {
        lemma_array_view(items);
        assert(items_view(items@) =~= candidates_json(v@)->Array_0);
    }
    JsonValue::Array(items)
}

#[derive(Clone, Debug, PartialEq)]
pub struct FormatUnknownDetails {
    pub path: String,
    pub reason: String,
    pub candidates: Vec<FormatCandidateDetails>,
}

impl FormatUnknownDetails {
    pub fn new(path: &str, reason: &str, candidates: Vec<FormatCandidateDetails>) -> (r: Self)
        ensures
            r.path@ == path@,
            r.reason@ == reason@,
            r.candidates == candidates,
    {
        FormatUnknownDetails { path: String::from_str(path), reason: String::from_str(reason), candidates }
    }
}

#[derive(Clone, Debug, PartialEq)]
pub struct FormatAmbiguousDetails {
    pub path: String,
    pub candidates: Vec<FormatCandidateDetails>,
}

impl FormatAmbiguousDetails {
    pub fn new(path: &str, candidates: Vec<FormatCandidateDetails>) -> (r: Self)
        ensures
            r.path@ == path@,
            r.candidates == candidates,
    {
        FormatAmbiguousDetails { path: String::from_str(path), candidates }
    }
}

#[derive(Clone, Debug, PartialEq)]
pub struct CapabilityAdapterDetails {
    pub capability: String,
    pub adapter_id: String,
}

impl CapabilityAdapterDetails {
    pub fn new(capability: &str, adapter_id: &str) -> (r: Self)
        ensures
            r.capability@ == capability@,
            r.adapter_id@ == adapter_id@,
    {
        CapabilityAdapterDetails {
            capability: String::from_str(capability),
            adapter_id: String::from_str(adapter_id),
        }
    }
}

#[derive(Clone, Debug, PartialEq)]
pub struct RefDetails {
    pub ref_id: String,
}

impl RefDetails {
    pub fn new(ref_id: &str) -> (r: Self)
        ensures
            r.ref_id@ == ref_id@,
    {
        RefDetails { ref_id: String::from_str(ref_id) }
    }
}

#[derive(Clone, Debug, PartialEq)]
pub struct RefCandidateCountDetails {
    pub ref_id: String,
    pub candidate_count: u32,
}

impl RefCandidateCountDetails {
    pub fn new(ref_id: &str, candidate_count: u32) -> (r: Self)
        ensures
            r.ref_id@ == ref_id@,
            r.candidate_count == candidate_count,
    {
        RefCandidateCountDetails { ref_id: String::from_str(ref_id), candidate_count }
    }
}

#[derive(Clone, Debug, PartialEq)]
pub struct RefReasonDetails {
    pub ref_id: String,
    pub reason: String,
}

impl RefReasonDetails {
    pub fn new(ref_id: &str, reason: &str) -> (r: Self)
        ensures
            r.ref_id@ == ref_id@,
            r.reason@ == reason@,
    {
        RefReasonDetails { ref_id: String::from_str(ref_id), reason: String::from_str(reason) }
    }
}

#[derive(Clone, Debug, PartialEq)]
pub struct AdapterReasonDetails {
    pub adapter_id: String,
    pub reason: String,
    pub selection_source: Option<String>,
    pub stage: Option<String>,
}

impl AdapterReasonDetails {
    pub fn new(adapter_id: &str, reason: &str) -> (r: Self)
        ensures
            r.adapter_id@ == adapter_id@,
            r.reason@ == reason@,
            r.selection_source is None,
            r.stage is None,
    {
        AdapterReasonDetails {
            adapter_id: String::from_str(adapter_id),
            reason: String::from_str(reason),
            selection_source: None,
            stage: None,
        }
    }

    pub fn with_selection_context(self, selection_source: &str, stage: &str) -> (r: Self)
        ensures
            r.adapter_id == self.adapter_id,
            r.reason == self.reason,
            r.selection_source matches Some(s) && s@ == selection_source@,
            r.stage matches Some(s) && s@ == stage@,
    {
        AdapterReasonDetails {
            selection_source: Some(String::from_str(selection_source)),
            stage: Some(String::from_str(stage)),
            ..self
        }
    }
}

#[derive(Clone, Debug, PartialEq)]
pub struct InternalDetails {
    pub error_id: String,
}

impl InternalDetails {
    pub fn new(error_id: &str) -> (r: Self)
        ensures
            r.error_id@ == error_id@,
    {
        InternalDetails { error_id: String::from_str(error_id) }
    }
}

#[derive(Clone, Debug, PartialEq)]
pub struct CliArgvDetails {
    pub tokens: Vec<String>,
}

impl CliArgvDetails {
    pub fn new(tokens: Vec<String>) -> (r: Self)
        ensures
            r.tokens == tokens,
    {
        CliArgvDetails { tokens }
    }
}

#[derive(Clone, Debug, PartialEq)]
pub struct AdapterCandidateDetails {
    pub adapter_id: String,
    pub stage: String,
    pub code: String,
    pub preselected: Option<bool>,
}

impl AdapterCandidateDetails {
    pub fn new(adapter_id: &str, stage: &str, code: &str, preselected: Option<bool>) -> (r: Self)
        ensures
            r.adapter_id@ == adapter_id@,
            r.stage@ == stage@,
            r.code@ == code@,
            r.preselected == preselected,
    {
        AdapterCandidateDetails {
            adapter_id: String::from_str(adapter_id),
            stage: String::from_str(stage),
            code: String::from_str(code),
            preselected,
        }
    }
}

#[derive(Clone, Debug, PartialEq)]
pub struct AdapterConfigSourceDetails {
    pub source_level: String,
    pub path_origin: String,
    pub path: String,
    pub field: Option<String>,
    pub reason_code: String,
}

impl AdapterConfigSourceDetails {
    pub fn new(source_level: &str, path_origin: &str, path: &str, reason_code: &str) -> (r: Self)
        ensures
            r.source_level@ == source_level@,
            r.path_origin@ == path_origin@,
            r.path@ == path@,
            r.field is None,
            r.reason_code@ == reason_code@,
    {
        AdapterConfigSourceDetails {
            source_level: String::from_str(source_level),
            path_origin: String::from_str(path_origin),
            path: String::from_str(path),
            field: None,
            reason_code: String::from_str(reason_code),
        }
    }

    pub fn with_field(self, field: &str) -> (r: Self)
        ensures
            r.source_level == self.source_level,
            r.path_origin == self.path_origin,
            r.path == self.path,
            r.reason_code == self.reason_code,
            r.field matches Some(f) && f@ == field@,
    {
        AdapterConfigSourceDetails { field: Some(String::from_str(field)), ..self }
    }

    pub open spec fn spec_json(self) -> JsonModel {
        JsonModel::Object(
            seq![
                ("source_level"@, JsonModel::String(self.source_level@)),
                ("path_origin"@, JsonModel::String(self.path_origin@)),
                ("path"@, JsonModel::String(self.path@)),
            ] + opt_member("field"@, opt_string_json(self.field)) + seq![
                ("reason_code"@, JsonModel::String(self.reason_code@)),
            ],
        )
    }

    pub fn to_value(&self) -> (r: JsonValue)
        ensures
            r@ == self.spec_json(),
    {
        let mut m: Vec<(String, JsonValue)> = Vec::new();
        push_string(&mut m, "source_level", &self.source_level);
        push_string(&mut m, "path_origin", &self.path_origin);
        push_string(&mut m, "path", &self.path);
        push_opt_string(&mut m, "field", &self.field);
        push_string(&mut m, "reason_code", &self.reason_code);
        assert(members_view(m@) =~= self.spec_json()->Object_0);
        object(m)
    }
}

pub open spec fn config_issues_json(v: Seq<AdapterConfigSourceDetails>) -> JsonModel {
    JsonModel::Array(Seq::new(v.len(), |i: int| v[i].spec_json()))
}

fn config_issues_value(v: &Vec<AdapterConfigSourceDetails>) -> (r: JsonValue)
    ensures
        r@ == config_issues_json(v@),
{
    let mut items: Vec<JsonValue> = Vec::new();
    let mut i: usize = 0;
    while i < v.len()
        invariant
            i <= v.len(),
            items@.len() == i,
            forall|j: int| 0 <= j < i ==> json_view(#[trigger] items@[j]) == v@[j].spec_json(),
        decreases v.len() - i,
    {
        items.push(v[i].to_value());
        i = i + 1;
    }
    proof {
        lemma_array_view(items);
        assert(items_view(items@) =~= config_issues_json(v@)->Array_0);
    }
    JsonValue::Array(items)
}

#[derive(Clone, Debug, PartialEq)]
pub struct BoundaryDetails {
    pub reason: String,
    pub label: Option<String>,
}

impl BoundaryDetails {
    pub fn new(reason: &str) -> (r: Self)
        ensures
            r.reason@ == reason@,
            r.label is None,
    {
        BoundaryDetails { reason: String::from_str(reason), label: None }
    }
}

/// The details of a diagnostic record.
#[derive(Debug, PartialEq)]
#[allow(inconsistent_fields)]
pub enum DiagnosticDetails {
    FieldReason {
        field: String,
        reason: String,
        path: Option<String>,
        received: Option<String>,
        accepted: Option<Vec<String>>,
        field_issues: Option<Vec<JsonValue>>,
        config_issues: Option<Vec<AdapterConfigSourceDetails>>,
        typed_validation_failures: Option<Vec<JsonValue>>,
        option_issues: Option<Vec<JsonValue>>,
    },
    Path { path: String },
    PathReason { path: String, reason: String },
    PathEncoding { path: String, encoding: String },
    FormatUnknown { path: String, reason: String, candidates: Vec<FormatCandidateDetails> },
    FormatAmbiguous { path: String, candidates: Vec<FormatCandidateDetails> },
    CapabilityAdapter { capability: String, adapter_id: String },
    Ref { ref_id: String },
    RefCandidateCount { ref_id: String, candidate_count: u32 },
    RefReason { ref_id: String, reason: String },
    AdapterReason {
        adapter_id: String,
        reason: String,
        selection_source: Option<String>,
        stage: Option<String>,
    },
    Internal { error_id: String },
    CliArgv { tokens: Vec<String> },
    AdapterCandidate { adapter_id: String, stage: String, code: String, preselected: Option<bool> },
    AdapterConfigSource {
        source_level: String,
        path_origin: String,
        path: String,
        field: Option<String>,
        reason_code: String,
    },
    Boundary { reason: String, label: Option<String> },
    Object(Vec<(String, JsonValue)>),
}

pub open spec fn opt_items_json(v: Option<Vec<JsonValue>>) -> Option<JsonModel> {
    match v {
        Some(items) => Some(JsonModel::Array(items_view(items@))),
        None => None,
    }
}

pub open spec fn str_member(key: Seq<char>, v: String) -> (Seq<char>, JsonModel) {
    (key, JsonModel::String(v@))
}

impl DiagnosticDetails {
    /// The JSON form of the details: the variant's fields in declaration
    /// order, absent optional fields left out.
    pub open spec fn spec_json(self) -> JsonModel {
        match self {
            DiagnosticDetails::FieldReason {
                field,
                reason,
                path,
                received,
                accepted,
                field_issues,
                config_issues,
                typed_validation_failures,
                option_issues,
            } => JsonModel::Object(
                seq![str_member("field"@, field), str_member("reason"@, reason)] + opt_member(
                    "path"@,
                    opt_string_json(path),
                ) + opt_member("received"@, opt_string_json(received)) + opt_member(
                    "accepted"@,
                    match accepted {
                        Some(a) => Some(strings_json(a@)),
                        None => None,
                    },
                ) + opt_member("field_issues"@, opt_items_json(field_issues)) + opt_member(
                    "config_issues"@,
                    match config_issues {
                        Some(c) => Some(config_issues_json(c@)),
                        None => None,
                    },
                ) + opt_member("typed_validation_failures"@, opt_items_json(typed_validation_failures))
                    + opt_member("option_issues"@, opt_items_json(option_issues)),
            ),
            DiagnosticDetails::Path { path } => JsonModel::Object(seq![str_member("path"@, path)]),
            DiagnosticDetails::PathReason { path, reason } => JsonModel::Object(
                seq![str_member("path"@, path), str_member("reason"@, reason)],
            ),
            DiagnosticDetails::PathEncoding { path, encoding } => JsonModel::Object(
                seq![str_member("path"@, path), str_member("encoding"@, encoding)],
            ),
            DiagnosticDetails::FormatUnknown { path, reason, candidates } => JsonModel::Object(
                seq![
                    str_member("path"@, path),
                    str_member("reason"@, reason),
                    ("candidates"@, candidates_json(candidates@)),
                ],
            ),
            DiagnosticDetails::FormatAmbiguous { path, candidates } => JsonModel::Object(
                seq![str_member("path"@, path), ("candidates"@, candidates_json(candidates@))],
            ),
            DiagnosticDetails::CapabilityAdapter { capability, adapter_id } => JsonModel::Object(
                seq![str_member("capability"@, capability), str_member("adapter_id"@, adapter_id)],
            ),
            DiagnosticDetails::Ref { ref_id } => JsonModel::Object(seq![str_member("ref"@, ref_id)]),
            DiagnosticDetails::RefCandidateCount { ref_id, candidate_count } => JsonModel::Object(
                seq![
                    str_member("ref"@, ref_id),
                    (
                        "candidate_count"@,
                        JsonModel::Number(crate::json::NumberModel::PosInt(candidate_count as u64)),
                    ),
                ],
            ),
            DiagnosticDetails::RefReason { ref_id, reason } => JsonModel::Object(
                seq![str_member("ref"@, ref_id), str_member("reason"@, reason)],
            ),
            DiagnosticDetails::AdapterReason { adapter_id, reason, selection_source, stage } =>
                JsonModel::Object(
                seq![str_member("adapter_id"@, adapter_id), str_member("reason"@, reason)]
                    + opt_member("selection_source"@, opt_string_json(selection_source))
                    + opt_member("stage"@, opt_string_json(stage)),
            ),
            DiagnosticDetails::Internal { error_id } => JsonModel::Object(
                seq![str_member("error_id"@, error_id)],
            ),
            DiagnosticDetails::CliArgv { tokens } => JsonModel::Object(
                seq![("tokens"@, strings_json(tokens@))],
            ),
            DiagnosticDetails::AdapterCandidate { adapter_id, stage, code, preselected } =>
                JsonModel::Object(
                seq![
                    str_member("adapter_id"@, adapter_id),
                    str_member("stage"@, stage),
                    str_member("code"@, code),
                ] + opt_member(
                    "preselected"@,
                    match preselected {
                        Some(b) => Some(JsonModel::Bool(b)),
                        None => None,
                    },
                ),
            ),
            DiagnosticDetails::AdapterConfigSource {
                source_level,
                path_origin,
                path,
                field,
                reason_code,
            } => JsonModel::Object(
                seq![
                    str_member("source_level"@, source_level),
                    str_member("path_origin"@, path_origin),
                    str_member("path"@, path),
                ] + opt_member("field"@, opt_string_json(field)) + seq![
                    str_member("reason_code"@, reason_code),
                ],
            ),
            DiagnosticDetails::Boundary { reason, label } => JsonModel::Object(
                seq![str_member("reason"@, reason)] + opt_member("label"@, opt_string_json(label)),
            ),
            DiagnosticDetails::Object(members) => JsonModel::Object(members_view(members@)),
        }
    }

}

fn field_reason_members(
    field: &String,
    reason: &String,
    path: &Option<String>,
    received: &Option<String>,
    accepted: &Option<Vec<String>>,
    field_issues: &Option<Vec<JsonValue>>,
    config_issues: &Option<Vec<AdapterConfigSourceDetails>>,
    typed_validation_failures: &Option<Vec<JsonValue>>,
    option_issues: &Option<Vec<JsonValue>>,
) -> (m: Vec<(String, JsonValue)>)
    ensures
        JsonModel::Object(members_view(m@)) == (DiagnosticDetails::FieldReason {
            field: *field,
            reason: *reason,
            path: *path,
            received: *received,
            accepted: *accepted,
            field_issues: *field_issues,
            config_issues: *config_issues,
            typed_validation_failures: *typed_validation_failures,
            option_issues: *option_issues,
        }).spec_json(),
{
    let mut m: Vec<(String, JsonValue)> = Vec::new();
    push_string(&mut m, "field", field);
    push_string(&mut m, "reason", reason);
    assert(members_view(m@) =~= seq![str_member("field"@, *field), str_member("reason"@, *reason)]);
    push_opt_string(&mut m, "path", path);
    push_opt_string(&mut m, "received", received);
    let ghost acc = members_view(m@);
    match accepted {
        Some(a) => push_member(&mut m, "accepted", string_array(a)),
        None => {},
    }
    assert(members_view(m@) =~= acc + opt_member(
        "accepted"@,
        match *accepted {
            Some(a) => Some(strings_json(a@)),
            None => None,
        },
    ));
    let ghost acc = members_view(m@);
    match field_issues {
        Some(a) => push_member(&mut m, "field_issues", json_items(a)),
        None => {},
    }
    assert(members_view(m@) =~= acc + opt_member("field_issues"@, opt_items_json(*field_issues)));
    let ghost acc = members_view(m@);
    match config_issues {
        Some(a) => push_member(&mut m, "config_issues", config_issues_value(a)),
        None => {},
    }
    assert(members_view(m@) =~= acc + opt_member(
        "config_issues"@,
        match *config_issues {
            Some(c) => Some(config_issues_json(c@)),
            None => None,
        },
    ));
    let ghost acc = members_view(m@);
    match typed_validation_failures {
        Some(a) => push_member(&mut m, "typed_validation_failures", json_items(a)),
        None => {},
    }
    assert(members_view(m@) =~= acc + opt_member(
        "typed_validation_failures"@,
        opt_items_json(*typed_validation_failures),
    ));
    let ghost acc = members_view(m@);
    match option_issues {
        Some(a) => push_member(&mut m, "option_issues", json_items(a)),
        None => {},
    }
    assert(members_view(m@) =~= acc + opt_member("option_issues"@, opt_items_json(*option_issues)));
    m
}

impl DiagnosticDetails {
    /// The JSON form of the details.
    pub fn to_value(&self) -> (r: JsonValue)
        ensures
            r@ == self.spec_json(),
    {
        let mut m: Vec<(String, JsonValue)> = Vec::new();
        match self {
            DiagnosticDetails::FieldReason {
                field,
                reason,
                path,
                received,
                accepted,
                field_issues,
                config_issues,
                typed_validation_failures,
                option_issues,
            } => {
                m = field_reason_members(
                    field,
                    reason,
                    path,
                    received,
                    accepted,
                    field_issues,
                    config_issues,
                    typed_validation_failures,
                    option_issues,
                );
            },
            DiagnosticDetails::Path { path } => {
                push_string(&mut m, "path", path);
            },
            DiagnosticDetails::PathReason { path, reason } => {
                push_string(&mut m, "path", path);
                push_string(&mut m, "reason", reason);
            },
            DiagnosticDetails::PathEncoding { path, encoding } => {
                push_string(&mut m, "path", path);
                push_string(&mut m, "encoding", encoding);
            },
            DiagnosticDetails::FormatUnknown { path, reason, candidates } => {
                push_string(&mut m, "path", path);
                push_string(&mut m, "reason", reason);
                push_member(&mut m, "candidates", candidates_value(candidates));
            },
            DiagnosticDetails::FormatAmbiguous { path, candidates } => {
                push_string(&mut m, "path", path);
                push_member(&mut m, "candidates", candidates_value(candidates));
            },
            DiagnosticDetails::CapabilityAdapter { capability, adapter_id } => {
                push_string(&mut m, "capability", capability);
                push_string(&mut m, "adapter_id", adapter_id);
            },
            DiagnosticDetails::Ref { ref_id } => {
                push_string(&mut m, "ref", ref_id);
            },
            DiagnosticDetails::RefCandidateCount { ref_id, candidate_count } => {
                push_string(&mut m, "ref", ref_id);
                push_member(
                    &mut m,
                    "candidate_count",
                    JsonValue::Number(JsonNumber::PosInt(*candidate_count as u64)),
                );
            },
            DiagnosticDetails::RefReason { ref_id, reason } => {
                push_string(&mut m, "ref", ref_id);
                push_string(&mut m, "reason", reason);
            },
            DiagnosticDetails::AdapterReason { adapter_id, reason, selection_source, stage } => {
                push_string(&mut m, "adapter_id", adapter_id);
                push_string(&mut m, "reason", reason);
                push_opt_string(&mut m, "selection_source", selection_source);
                push_opt_string(&mut m, "stage", stage);
            },
            DiagnosticDetails::Internal { error_id } => {
                push_string(&mut m, "error_id", error_id);
            },
            DiagnosticDetails::CliArgv { tokens } => {
                push_member(&mut m, "tokens", string_array(tokens));
            },
            DiagnosticDetails::AdapterCandidate { adapter_id, stage, code, preselected } => {
                push_string(&mut m, "adapter_id", adapter_id);
                push_string(&mut m, "stage", stage);
                push_string(&mut m, "code", code);
                let ghost before = members_view(m@);
                match preselected {
                    Some(b) => push_member(&mut m, "preselected", JsonValue::Bool(*b)),
                    None => {},
                }
                assert(members_view(m@) =~= before + opt_member(
                    "preselected"@,
                    match *preselected {
                        Some(b) => Some(JsonModel::Bool(b)),
                        None => None,
                    },
                ));
            },
            DiagnosticDetails::AdapterConfigSource {
                source_level,
                path_origin,
                path,
                field,
                reason_code,
            } => {
                push_string(&mut m, "source_level", source_level);
                push_string(&mut m, "path_origin", path_origin);
                push_string(&mut m, "path", path);
                push_opt_string(&mut m, "field", field);
                push_string(&mut m, "reason_code", reason_code);
            },
            DiagnosticDetails::Boundary { reason, label } => {
                push_string(&mut m, "reason", reason);
                push_opt_string(&mut m, "label", label);
            },
            DiagnosticDetails::Object(members) => {
                let mut i: usize = 0;
                while i < members.len()
                    invariant
                        i <= members.len(),
                        m@.len() == i,
                        forall|j: int|
                            0 <= j < i ==> (#[trigger] m@[j]).0@ == members@[j].0@ && json_view(
                                m@[j].1,
                            ) == json_view(members@[j].1),
                    decreases members.len() - i,
                {
                    let value = json_clone(&members[i].1);
                    m.push((members[i].0.clone(), value));
                    i = i + 1;
                }
                assert(members_view(m@) =~= members_view(members@));
            },
        }
        assert(members_view(m@) =~= self.spec_json()->Object_0);
        object(m)
    }
}

/// Sets the member `key` of an object's members to `value`: the first member
/// of that name takes the value where it stands, or a new member goes last.
pub fn set_member_in(members: &mut Vec<(String, JsonValue)>, key: &str, value: JsonValue)
    ensures
        members_view(final(members)@) == set_member(members_view(old(members)@), key@, value@),
{
    let ghost mv = members_view(members@);
    let mut k: usize = 0;
    let mut found: Option<usize> = None;
    while k < members.len()
        invariant_except_break
            forall|j: int| 0 <= j < k ==> (#[trigger] mv[j]).0 != key@,
            found is None,
        invariant
            k <= members@.len(),
            mv == members_view(members@),
            mv.len() == members@.len(),
        ensures
            found matches Some(f) ==> is_first_key(mv, key@, f as int) && f < members@.len(),
            found is None ==> forall|j: int| 0 <= j < mv.len() ==> (#[trigger] mv[j]).0 != key@,
        decreases members.len() - k,
    {
        assert(mv[k as int].0 == members@[k as int].0@);
        if crate::text::text_eq(members[k].0.as_str(), key) {
            found = Some(k);
            break;
        }
        k = k + 1;
    }
    let ghost vv = value@;
    match found {
        Some(f) => {
            proof {
                let c = choose|i: int| is_first_key(mv, key@, i);
                assert(c == f) by {
                    if c < f {
                        assert(mv[c].0 != key@);
                    } else if c > f {
                        assert(mv[f as int].0 != key@);
                    }
                }
            }
            members.set(f, (String::from_str(key), value));
            assert(members_view(members@) =~= mv.update(f as int, (key@, vv)));
        },
        None => {
            members.push((String::from_str(key), value));
            assert(members_view(members@) =~= mv.push((key@, vv)));
            assert(!exists|i: int| is_first_key(mv, key@, i));
        },
    }
}

} // verus!

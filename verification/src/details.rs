//! Detail field rules: which fields a diagnostic's details carry, of which
//! JSON type, and the validation of a details value against them.

use vstd::prelude::*;

use crate::codes::{DetailShape, DiagnosticCode, ProtocolDiagnosticCode};
use crate::json::{find_member, json_view, member, JsonModel, JsonNumber, JsonValue, NumberModel};
use crate::text::{text_before, text_eq, text_less};

verus! {

#[derive(Clone, Copy, Debug, PartialEq, Eq, Structural)]
pub enum DetailFieldType {
    String,
    StringArray,
    Boolean,
    U32,
    I32,
    Object,
    ObjectArray,
    Any,
}

impl DetailFieldType {
    pub open spec fn spec_as_str(self) -> Seq<char> {
        match self {
            DetailFieldType::String => "string"@,
            DetailFieldType::StringArray => "array<string>"@,
            DetailFieldType::Boolean => "boolean"@,
            DetailFieldType::U32 => "u32"@,
            DetailFieldType::I32 => "i32"@,
            DetailFieldType::Object => "object"@,
            DetailFieldType::ObjectArray => "array<object>"@,
            DetailFieldType::Any => "any"@,
        }
    }

    /// The name of the type in messages.
    pub fn as_str(self) -> (r: &'static str)
        ensures
            r@ == self.spec_as_str(),
    {
        match self {
            DetailFieldType::String => "string",
            DetailFieldType::StringArray => "array<string>",
            DetailFieldType::Boolean => "boolean",
            DetailFieldType::U32 => "u32",
            DetailFieldType::I32 => "i32",
            DetailFieldType::Object => "object",
            DetailFieldType::ObjectArray => "array<object>",
            DetailFieldType::Any => "any",
        }
    }

    /// Whether a JSON value has this type.
    pub open spec fn spec_matches(self, v: JsonModel) -> bool {
        match self {
            DetailFieldType::String => v is String,
            DetailFieldType::StringArray => v matches JsonModel::Array(items) && forall|i: int|
                0 <= i < items.len() ==> #[trigger] items[i] is String,
            DetailFieldType::Boolean => v is Bool,
            DetailFieldType::U32 => v matches JsonModel::Number(NumberModel::PosInt(n)) && n
                <= u32::MAX,
            DetailFieldType::I32 => {
                ||| v matches JsonModel::Number(NumberModel::PosInt(n)) && n <= i32::MAX
                ||| v matches JsonModel::Number(NumberModel::NegInt(n)) && n >= i32::MIN
            },
            DetailFieldType::Object => v is Object,
            DetailFieldType::ObjectArray => v matches JsonModel::Array(items) && forall|i: int|
                0 <= i < items.len() ==> #[trigger] items[i] is Object,
            DetailFieldType::Any => true,
        }
    }

    pub fn matches(self, v: &JsonValue) -> (r: bool)
        ensures
            r == self.spec_matches(v@),
    {
        proof {
            lemma_json_view_variant(*v);
        }
        match self {
            DetailFieldType::String => match v {
                JsonValue::String(_) => {
                    assert(json_view(*v) is String);
                    assert(v@ is String);
                    true
                },
                _ => {
                    assert(!(json_view(*v) is String));
                    false
                },
            },
            DetailFieldType::StringArray => match v {
                JsonValue::Array(items) => {
                    let r = all_items(items, true);
                    proof {
                        let m = v@->Array_0;
                        if r {
                            assert forall|i: int| 0 <= i < m.len() implies #[trigger] m[i] is String by {
                                assert(m[i] == json_view(items@[i]));
                            }
                        } else {
                            let i = choose|i: int|
                                0 <= i < items@.len() && !(json_view(items@[i]) is String);
                            assert(m[i] == json_view(items@[i]));
                        }
                    }
                    r
                },
                _ => false,
            },
            DetailFieldType::Boolean => match v {
                JsonValue::Bool(_) => true,
                _ => false,
            },
            DetailFieldType::U32 => match v {
                JsonValue::Number(JsonNumber::PosInt(n)) => *n <= 4294967295u64,
                _ => false,
            },
            DetailFieldType::I32 => match v {
                JsonValue::Number(JsonNumber::PosInt(n)) => *n <= 2147483647u64,
                JsonValue::Number(JsonNumber::NegInt(n)) => *n >= -2147483648i64,
                _ => false,
            },
            DetailFieldType::Object => match v {
                JsonValue::Object(_) => true,
                _ => false,
            },
            DetailFieldType::ObjectArray => match v {
                JsonValue::Array(items) => {
                    let r = all_items(items, false);
                    proof {
                        let m = v@->Array_0;
                        if r {
                            assert forall|i: int| 0 <= i < m.len() implies #[trigger] m[i] is Object by {
                                assert(m[i] == json_view(items@[i]));
                            }
                        } else {
                            let i = choose|i: int|
                                0 <= i < items@.len() && !(json_view(items@[i]) is Object);
                            assert(m[i] == json_view(items@[i]));
                        }
                    }
                    r
                },
                _ => false,
            },
            DetailFieldType::Any => true,
        }
    }
}

proof fn lemma_json_view_variant(v: JsonValue)
    ensures
        (v is String) <==> (json_view(v) is String),
        (v is Bool) <==> (json_view(v) is Bool),
        (v is Object) <==> (json_view(v) is Object),
        (v is Array) <==> (json_view(v) is Array),
        v matches JsonValue::Number(n) ==> json_view(v) == JsonModel::Number(
            crate::json::number_view(n),
        ),
        v matches JsonValue::Array(items) ==> json_view(v)->Array_0.len() == items@.len()
            && forall|i: int| 0 <= i < items@.len() ==> json_view(v)->Array_0[i] == json_view(items@[i]),
{
}

/// Whether every item is a string (`strings`) or every item is an object.
fn all_items(items: &Vec<JsonValue>, strings: bool) -> (r: bool)
    ensures
        r == (forall|i: int|
            0 <= i < items@.len() ==> if strings {
                json_view(#[trigger] items@[i]) is String
            } else {
                json_view(items@[i]) is Object
            }),
{
    let mut i: usize = 0;
    while i < items.len()
        invariant
            i <= items.len(),
            forall|j: int|
                0 <= j < i ==> if strings {
                    json_view(#[trigger] items@[j]) is String
                } else {
                    json_view(items@[j]) is Object
                },
        decreases items.len() - i,
    {
        let ok = if strings {
            match &items[i] {
                JsonValue::String(_) => true,
                _ => false,
            }
        } else {
            match &items[i] {
                JsonValue::Object(_) => true,
                _ => false,
            }
        };
        if !ok {
            return false;
        }
        i = i + 1;
    }
    true
}

/// A field of a details rule: its name, its type and whether it must be present.
#[derive(Clone, Copy, Debug)]
pub struct DetailFieldRule {
    pub name: &'static str,
    pub kind: DetailFieldType,
    pub required: bool,
}

pub type FieldRuleModel = (Seq<char>, DetailFieldType, bool);

impl View for DetailFieldRule {
    type V = FieldRuleModel;

    open spec fn view(&self) -> FieldRuleModel {
        (self.name@, self.kind, self.required)
    }
}

impl DetailFieldRule {
    pub fn required(name: &'static str, kind: DetailFieldType) -> (r: Self)
        ensures
            r@ == (name@, kind, true),
    {
        DetailFieldRule { name, kind, required: true }
    }

    pub fn optional(name: &'static str, kind: DetailFieldType) -> (r: Self)
        ensures
            r@ == (name@, kind, false),
    {
        DetailFieldRule { name, kind, required: false }
    }
}

pub open spec fn rules_view(v: Seq<DetailFieldRule>) -> Seq<FieldRuleModel> {
    v.map_values(|f: DetailFieldRule| f@)
}

/// The fields that details must carry, and whether other fields are allowed.
#[derive(Clone, Debug)]
pub struct DiagnosticDetailsRule {
    fields: Vec<DetailFieldRule>,
    allow_extra_fields: bool,
}

pub struct DetailsRuleModel {
    pub fields: Seq<FieldRuleModel>,
    pub allow_extra_fields: bool,
}

impl View for DiagnosticDetailsRule {
    type V = DetailsRuleModel;

    closed spec fn view(&self) -> DetailsRuleModel {
        DetailsRuleModel {
            fields: rules_view(self.fields@),
            allow_extra_fields: self.allow_extra_fields,
        }
    }
}

/// Why details failed their rule.
#[allow(inconsistent_fields)]
#[derive(Clone, Debug, PartialEq)]
pub enum DiagnosticDetailsError {
    NotAnObject,
    MissingField { field: &'static str },
    WrongType { field: &'static str, expected: DetailFieldType },
    ExtraField { field: String },
}

pub enum DetailsErrorModel {
    NotAnObject,
    MissingField(Seq<char>),
    WrongType(Seq<char>, DetailFieldType),
    ExtraField(Seq<char>),
}

impl View for DiagnosticDetailsError {
    type V = DetailsErrorModel;

    open spec fn view(&self) -> DetailsErrorModel {
        match self {
            DiagnosticDetailsError::NotAnObject => DetailsErrorModel::NotAnObject,
            DiagnosticDetailsError::MissingField { field } => DetailsErrorModel::MissingField(
                field@,
            ),
            DiagnosticDetailsError::WrongType { field, expected } => DetailsErrorModel::WrongType(
                field@,
                *expected,
            ),
            DiagnosticDetailsError::ExtraField { field } => DetailsErrorModel::ExtraField(field@),
        }
    }
}

/// The first field, in rule order, that is present with the wrong type or
/// required and absent.
pub open spec fn field_error(fields: Seq<FieldRuleModel>, members: Seq<(Seq<char>, JsonModel)>) -> Option<
    DetailsErrorModel,
>
    decreases fields.len(),
{
    if fields.len() == 0 {
        None
    } else {
        let f = fields[0];
        match member(members, f.0) {
            Some(v) => if f.1.spec_matches(v) {
                field_error(fields.drop_first(), members)
            } else {
                Some(DetailsErrorModel::WrongType(f.0, f.1))
            },
            None => if f.2 {
                Some(DetailsErrorModel::MissingField(f.0))
            } else {
                field_error(fields.drop_first(), members)
            },
        }
    }
}

pub open spec fn rule_names(fields: Seq<FieldRuleModel>, key: Seq<char>) -> bool {
    exists|j: int| 0 <= j < fields.len() && (#[trigger] fields[j]).0 == key
}

/// The least key, in character order, of the members that no rule field
/// names: the key that a sorted map shows first.
pub open spec fn extra_member(fields: Seq<FieldRuleModel>, members: Seq<(Seq<char>, JsonModel)>) -> Option<
    Seq<char>,
>
    decreases members.len(),
{
    if members.len() == 0 {
        None
    } else {
        let rest = extra_member(fields, members.drop_last());
        let k = members.last().0;
        if rule_names(fields, k) {
            rest
        } else {
            match rest {
                None => Some(k),
                Some(b) => if text_less(k, b) {
                    Some(k)
                } else {
                    Some(b)
                },
            }
        }
    }
}

/// The outcome of validating `v` against a rule.
pub open spec fn validate_spec(rule: DetailsRuleModel, v: JsonModel) -> Result<(), DetailsErrorModel> {
    match v {
        JsonModel::Object(members) => match field_error(rule.fields, members) {
            Some(e) => Err(e),
            None => if rule.allow_extra_fields {
                Ok(())
            } else {
                match extra_member(rule.fields, members) {
                    Some(k) => Err(DetailsErrorModel::ExtraField(k)),
                    None => Ok(()),
                }
            },
        },
        _ => Err(DetailsErrorModel::NotAnObject),
    }
}

impl DiagnosticDetailsRule {
    /// A rule that allows exactly the given fields.
    pub fn exact(fields: Vec<DetailFieldRule>) -> (r: Self)
        ensures
            r@.fields == rules_view(fields@),
            !r@.allow_extra_fields,
    {
        DiagnosticDetailsRule { fields, allow_extra_fields: false }
    }

    pub fn fields(&self) -> (r: &Vec<DetailFieldRule>)
        ensures
            rules_view(r@) == self@.fields,
    {
        &self.fields
    }

    pub fn allows_extra_fields(&self) -> (r: bool)
        ensures
            r == self@.allow_extra_fields,
    {
        self.allow_extra_fields
    }

    /// Validates `details`: it must be an object; each rule field, in rule
    /// order, must have its type where present and be present where required;
    /// unless extra fields are allowed, every member must be named by a field.
    pub fn validate_value(&self, details: &JsonValue) -> (r: Result<(), DiagnosticDetailsError>)
        ensures
            match r {
                Ok(()) => validate_spec(self@, details@) is Ok,
                Err(e) => validate_spec(self@, details@) == Err::<(), DetailsErrorModel>(e@),
            },
    {
        let members = match details {
            JsonValue::Object(members) => members,
            _ => {
                return Err(DiagnosticDetailsError::NotAnObject);
            },
        };
        let ghost mm = json_view(JsonValue::Object(*members))->Object_0;
        let ghost fv = rules_view(self.fields@);
        assert(details@ == JsonModel::Object(mm));
        let mut i: usize = 0;
        assert(fv.skip(0) =~= fv);
        while i < self.fields.len()
            invariant
                details@ == JsonModel::Object(mm),
                mm == json_view(JsonValue::Object(*members))->Object_0,
                fv == rules_view(self.fields@),
                fv.len() == self.fields@.len(),
                i <= self.fields.len(),
                field_error(fv, mm) == field_error(fv.skip(i as int), mm),
            decreases self.fields.len() - i,
        {
            let rule = self.fields[i];
            let ghost rest = fv.skip(i as int);
            assert(rest[0] == rule@);
            assert(rest.drop_first() =~= fv.skip(i + 1));
            match find_member(members, rule.name) {
                Some(v) => {
                    if !rule.kind.matches(v) {
                        return Err(
                            DiagnosticDetailsError::WrongType { field: rule.name, expected: rule.kind },
                        );
                    }
                },
                None => {
                    if rule.required {
                        return Err(DiagnosticDetailsError::MissingField { field: rule.name });
                    }
                },
            }
            i = i + 1;
        }
        if self.allow_extra_fields {
            return Ok(());
        }
        let mut best: Option<&String> = None;
        let mut k: usize = 0;
        assert(mm.take(0) =~= Seq::<(Seq<char>, JsonModel)>::empty());
        while k < members.len()
            invariant
                details@ == JsonModel::Object(mm),
                mm == json_view(JsonValue::Object(*members))->Object_0,
                mm.len() == members@.len(),
                fv == rules_view(self.fields@),
                fv.len() == self.fields@.len(),
                k <= members.len(),
                field_error(fv, mm) is None,
                !self@.allow_extra_fields,
                match best {
                    Some(b) => extra_member(fv, mm.take(k as int)) == Some(b@),
                    None => extra_member(fv, mm.take(k as int)) is None,
                },
            decreases members.len() - k,
        {
            let key = &members[k].0;
            assert(mm[k as int].0 == key@);
            assert(mm.take(k + 1).drop_last() =~= mm.take(k as int));
            assert(mm.take(k + 1).last() == mm[k as int]);
            let mut named = false;
            let mut j: usize = 0;
            while j < self.fields.len()
                invariant
                    fv == rules_view(self.fields@),
                    fv.len() == self.fields@.len(),
                    j <= self.fields.len(),
                    named ==> rule_names(fv, key@),
                    !named ==> forall|t: int| 0 <= t < j ==> fv[t].0 != key@,
                decreases self.fields.len() - j,
            {
                if text_eq(self.fields[j].name, key.as_str()) {
                    assert(fv[j as int].0 == key@);
                    named = true;
                }
                j = j + 1;
            }
            if !named {
                best = match best {
                    None => Some(key),
                    Some(b) => if text_before(key.as_str(), b.as_str()) {
                        Some(key)
                    } else {
                        Some(b)
                    },
                };
            }
            k = k + 1;
        }
        assert(mm.take(mm.len() as int) =~= mm);
        match best {
            Some(b) => Err(DiagnosticDetailsError::ExtraField { field: b.clone() }),
            None => Ok(()),
        }
    }
}

/// The field list of a details shape.
pub open spec fn shape_fields(shape: DetailShape) -> Seq<FieldRuleModel> {
    match shape {
        DetailShape::FieldReason => seq![
            ("field"@, DetailFieldType::String, true),
            ("reason"@, DetailFieldType::String, true),
            ("path"@, DetailFieldType::String, false),
            ("received"@, DetailFieldType::String, false),
            ("accepted"@, DetailFieldType::StringArray, false),
            ("field_issues"@, DetailFieldType::ObjectArray, false),
            ("config_issues"@, DetailFieldType::ObjectArray, false),
            ("typed_validation_failures"@, DetailFieldType::ObjectArray, false),
            ("option_issues"@, DetailFieldType::ObjectArray, false),
        ],
        DetailShape::Path => seq![("path"@, DetailFieldType::String, true)],
        DetailShape::PathReason => seq![
            ("path"@, DetailFieldType::String, true),
            ("reason"@, DetailFieldType::String, true),
        ],
        DetailShape::PathEncoding => seq![
            ("path"@, DetailFieldType::String, true),
            ("encoding"@, DetailFieldType::String, true),
        ],
        DetailShape::FormatUnknown => seq![
            ("path"@, DetailFieldType::String, true),
            ("reason"@, DetailFieldType::String, true),
            ("candidates"@, DetailFieldType::ObjectArray, true),
        ],
        DetailShape::FormatAmbiguous => seq![
            ("path"@, DetailFieldType::String, true),
            ("candidates"@, DetailFieldType::ObjectArray, true),
        ],
        DetailShape::CapabilityAdapter => seq![
            ("capability"@, DetailFieldType::String, true),
            ("adapter_id"@, DetailFieldType::String, true),
        ],
        DetailShape::Ref => seq![("ref"@, DetailFieldType::String, true)],
        DetailShape::RefCandidateCount => seq![
            ("ref"@, DetailFieldType::String, true),
            ("candidate_count"@, DetailFieldType::U32, true),
        ],
        DetailShape::RefReason => seq![
            ("ref"@, DetailFieldType::String, true),
            ("reason"@, DetailFieldType::String, true),
        ],
        DetailShape::AdapterReason => seq![
            ("adapter_id"@, DetailFieldType::String, true),
            ("reason"@, DetailFieldType::String, true),
            ("selection_source"@, DetailFieldType::String, false),
            ("stage"@, DetailFieldType::String, false),
        ],
        DetailShape::Internal => seq![("error_id"@, DetailFieldType::String, true)],
        DetailShape::CliArgv => seq![("tokens"@, DetailFieldType::StringArray, true)],
        DetailShape::AdapterCandidate => seq![
            ("adapter_id"@, DetailFieldType::String, true),
            ("stage"@, DetailFieldType::String, true),
            ("code"@, DetailFieldType::String, true),
            ("preselected"@, DetailFieldType::Boolean, false),
        ],
        DetailShape::AdapterConfigSource => seq![
            ("source_level"@, DetailFieldType::String, true),
            ("path_origin"@, DetailFieldType::String, true),
            ("path"@, DetailFieldType::String, true),
            ("field"@, DetailFieldType::String, false),
            ("reason_code"@, DetailFieldType::String, true),
        ],
        DetailShape::Boundary => seq![
            ("reason"@, DetailFieldType::String, true),
            ("label"@, DetailFieldType::String, false),
        ],
    }
}

/// Whether the members satisfy one field rule: present with its type, or
/// absent and optional.
pub open spec fn field_fits(f: FieldRuleModel, members: Seq<(Seq<char>, JsonModel)>) -> bool {
    match member(members, f.0) {
        Some(v) => f.1.spec_matches(v),
        None => !f.2,
    }
}

/// Whether an object fits a field list exactly: every field fits and every
/// member is named by a field.
pub open spec fn fits_fields(fields: Seq<FieldRuleModel>, members: Seq<(Seq<char>, JsonModel)>) -> bool {
    &&& forall|j: int| 0 <= j < fields.len() ==> field_fits(#[trigger] fields[j], members)
    &&& forall|m: int| 0 <= m < members.len() ==> rule_names(fields, (#[trigger] members[m]).0)
}

/// The members without those named `key`.
pub open spec fn without_member(members: Seq<(Seq<char>, JsonModel)>, key: Seq<char>) -> Seq<(Seq<char>, JsonModel)>
    decreases members.len(),
{
    if members.len() == 0 {
        members
    } else if members[0].0 == key {
        without_member(members.drop_first(), key)
    } else {
        seq![members[0]] + without_member(members.drop_first(), key)
    }
}

/// The members with `key` set to `value`.
pub open spec fn with_member(members: Seq<(Seq<char>, JsonModel)>, key: Seq<char>, value: JsonModel) -> Seq<(Seq<char>, JsonModel)> {
    without_member(members, key).push((key, value))
}

proof fn lemma_without_member(members: Seq<(Seq<char>, JsonModel)>, key: Seq<char>, other: Seq<char>)
    ensures
        member(without_member(members, key), other) == if other == key {
            None
        } else {
            member(members, other)
        },
        forall|i: int| 0 <= i < without_member(members, key).len() ==> exists|j: int| 0 <= j < members.len() && (#[trigger] without_member(members, key)[i]).0 == (#[trigger] members[j]).0,
    decreases members.len(),
{
    if members.len() > 0 {
        let rest = members.drop_first();
        lemma_without_member(rest, key, other);
        let w = without_member(rest, key);
        if members[0].0 != key {
            let all = seq![members[0]] + w;
            assert(all[0] == members[0]);
            assert(all.drop_first() =~= w);
            assert forall|i: int| 0 <= i < all.len() implies exists|j: int| 0 <= j < members.len() && (#[trigger] all[i]).0 == (#[trigger] members[j]).0 by {
                if i == 0 {
                    assert(members[0].0 == all[0].0);
                } else {
                    assert(all[i] == w[i - 1]);
                    let j0 = choose|j: int| 0 <= j < rest.len() && w[i - 1].0 == (#[trigger] rest[j]).0;
                    assert(members[j0 + 1] == rest[j0]);
                }
            }
        } else {
            assert forall|i: int| 0 <= i < w.len() implies exists|j: int| 0 <= j < members.len() && (#[trigger] w[i]).0 == (#[trigger] members[j]).0 by {
                let j0 = choose|j: int| 0 <= j < rest.len() && w[i].0 == (#[trigger] rest[j]).0;
                assert(members[j0 + 1] == rest[j0]);
            }
        }
    }
}

proof fn lemma_member_push(members: Seq<(Seq<char>, JsonModel)>, x: (Seq<char>, JsonModel), key: Seq<char>)
    ensures
        member(members.push(x), key) == match member(members, key) {
            Some(v) => Some(v),
            None => if x.0 == key {
                Some(x.1)
            } else {
                None
            },
        },
    decreases members.len(),
{
    if members.len() > 0 {
        assert(members.push(x)[0] == members[0]);
        assert(members.push(x).drop_first() =~= members.drop_first().push(x));
        lemma_member_push(members.drop_first(), x, key);
    } else {
        assert(members.push(x)[0] == x);
        assert(members.push(x).drop_first() =~= Seq::<(Seq<char>, JsonModel)>::empty());
        assert(member(Seq::<(Seq<char>, JsonModel)>::empty(), key) is None);
    }
}

proof fn lemma_fields_fit_no_error(fields: Seq<FieldRuleModel>, members: Seq<(Seq<char>, JsonModel)>)
    requires
        forall|j: int| 0 <= j < fields.len() ==> field_fits(#[trigger] fields[j], members),
    ensures
        field_error(fields, members) is None,
    decreases fields.len(),
{
    if fields.len() > 0 {
        assert(field_fits(fields[0], members));
        assert forall|j: int| 0 <= j < fields.drop_first().len() implies field_fits(#[trigger] fields.drop_first()[j], members) by {
            assert(fields.drop_first()[j] == fields[j + 1]);
        }
        lemma_fields_fit_no_error(fields.drop_first(), members);
    }
}

proof fn lemma_field_error_at(fields: Seq<FieldRuleModel>, members: Seq<(Seq<char>, JsonModel)>, i: int)
    requires
        0 <= i < fields.len(),
        forall|j: int| 0 <= j < i ==> field_fits(#[trigger] fields[j], members),
        !field_fits(fields[i], members),
    ensures
        field_error(fields, members) == Some(match member(members, fields[i].0) {
            Some(v) => DetailsErrorModel::WrongType(fields[i].0, fields[i].1),
            None => DetailsErrorModel::MissingField(fields[i].0),
        }),
    decreases i,
{
    if i > 0 {
        assert(field_fits(fields[0], members));
        assert forall|j: int| 0 <= j < i - 1 implies field_fits(#[trigger] fields.drop_first()[j], members) by {
            assert(fields.drop_first()[j] == fields[j + 1]);
        }
        assert(fields.drop_first()[i - 1] == fields[i]);
        lemma_field_error_at(fields.drop_first(), members, i - 1);
    }
}

proof fn lemma_extra_member_none(fields: Seq<FieldRuleModel>, members: Seq<(Seq<char>, JsonModel)>)
    requires
        forall|m: int| 0 <= m < members.len() ==> rule_names(fields, (#[trigger] members[m]).0),
    ensures
        extra_member(fields, members) is None,
    decreases members.len(),
{
    if members.len() > 0 {
        assert(rule_names(fields, members[members.len() - 1].0));
        assert forall|m: int| 0 <= m < members.drop_last().len() implies rule_names(fields, (#[trigger] members.drop_last()[m]).0) by {
            assert(members.drop_last()[m] == members[m]);
        }
        lemma_extra_member_none(fields, members.drop_last());
    }
}

proof fn lemma_extra_member_push(fields: Seq<FieldRuleModel>, members: Seq<(Seq<char>, JsonModel)>, x: (Seq<char>, JsonModel))
    requires
        forall|m: int| 0 <= m < members.len() ==> rule_names(fields, (#[trigger] members[m]).0),
        !rule_names(fields, x.0),
    ensures
        extra_member(fields, members.push(x)) == Some(x.0),
{
    lemma_extra_member_none(fields, members);
    assert(members.push(x).drop_last() =~= members);
    assert(members.push(x).last() == x);
}

/// No two fields of a shape share a name.
proof fn lemma_shape_names_distinct(shape: DetailShape)
    ensures
        forall|i: int, j: int|
            0 <= i < j < shape_fields(shape).len() ==> (#[trigger] shape_fields(shape)[i]).0 != (#[trigger] shape_fields(shape)[j]).0,
{
    reveal_strlit("accepted");
    reveal_strlit("adapter_id");
    reveal_strlit("candidate_count");
    reveal_strlit("candidates");
    reveal_strlit("capability");
    reveal_strlit("code");
    reveal_strlit("config_issues");
    reveal_strlit("encoding");
    reveal_strlit("error_id");
    reveal_strlit("field");
    reveal_strlit("field_issues");
    reveal_strlit("label");
    reveal_strlit("option_issues");
    reveal_strlit("path");
    reveal_strlit("path_origin");
    reveal_strlit("preselected");
    reveal_strlit("reason");
    reveal_strlit("reason_code");
    reveal_strlit("received");
    reveal_strlit("ref");
    reveal_strlit("selection_source");
    reveal_strlit("source_level");
    reveal_strlit("stage");
    reveal_strlit("tokens");
    reveal_strlit("typed_validation_failures");
    assert("accepted"@.len() == 8 && "accepted"@[0] == 'a');
    assert("adapter_id"@.len() == 10 && "adapter_id"@[0] == 'a');
    assert("candidate_count"@.len() == 15 && "candidate_count"@[0] == 'c');
    assert("candidates"@.len() == 10 && "candidates"@[0] == 'c');
    assert("capability"@.len() == 10 && "capability"@[0] == 'c');
    assert("code"@.len() == 4 && "code"@[0] == 'c');
    assert("config_issues"@.len() == 13 && "config_issues"@[0] == 'c');
    assert("encoding"@.len() == 8 && "encoding"@[0] == 'e');
    assert("error_id"@.len() == 8 && "error_id"@[0] == 'e');
    assert("field"@.len() == 5 && "field"@[0] == 'f');
    assert("field_issues"@.len() == 12 && "field_issues"@[0] == 'f');
    assert("label"@.len() == 5 && "label"@[0] == 'l');
    assert("option_issues"@.len() == 13 && "option_issues"@[0] == 'o');
    assert("path"@.len() == 4 && "path"@[0] == 'p');
    assert("path_origin"@.len() == 11 && "path_origin"@[0] == 'p');
    assert("preselected"@.len() == 11 && "preselected"@[0] == 'p');
    assert("reason"@.len() == 6 && "reason"@[0] == 'r');
    assert("reason_code"@.len() == 11 && "reason_code"@[0] == 'r');
    assert("received"@.len() == 8 && "received"@[0] == 'r');
    assert("ref"@.len() == 3 && "ref"@[0] == 'r');
    assert("selection_source"@.len() == 16 && "selection_source"@[0] == 's');
    assert("source_level"@.len() == 12 && "source_level"@[0] == 's');
    assert("stage"@.len() == 5 && "stage"@[0] == 's');
    assert("tokens"@.len() == 6 && "tokens"@[0] == 't');
    assert("typed_validation_failures"@.len() == 25 && "typed_validation_failures"@[0] == 't');
}

/// The details rule of every code checks its fields: an object that fits
/// the rule passes; without a required field it fails with that field
/// missing; with a field set to a value of another type it fails with that
/// field's wrong type; with one more member that no field names it fails
/// with that extra field.
pub proof fn law_details_rule_checks_fields(
    code: DiagnosticCode,
    members: Seq<(Seq<char>, JsonModel)>,
    i: int,
    wrong: JsonModel,
    key: Seq<char>,
    value: JsonModel,
)
    requires
        fits_fields(shape_fields(code.spec_shape()), members),
    ensures
        ({
            let fields = shape_fields(code.spec_shape());
            let rule = DetailsRuleModel { fields, allow_extra_fields: false };
            &&& validate_spec(rule, JsonModel::Object(members)) == Ok::<(), DetailsErrorModel>(())
            &&& 0 <= i < fields.len() && fields[i].2 ==> validate_spec(rule, JsonModel::Object(without_member(members, fields[i].0)))
                == Err::<(), DetailsErrorModel>(DetailsErrorModel::MissingField(fields[i].0))
            &&& 0 <= i < fields.len() && !fields[i].1.spec_matches(wrong) ==> validate_spec(
                rule,
                JsonModel::Object(with_member(members, fields[i].0, wrong)),
            ) == Err::<(), DetailsErrorModel>(DetailsErrorModel::WrongType(fields[i].0, fields[i].1))
            &&& !rule_names(fields, key) ==> validate_spec(rule, JsonModel::Object(members.push((key, value))))
                == Err::<(), DetailsErrorModel>(DetailsErrorModel::ExtraField(key))
        }),
{
    let fields = shape_fields(code.spec_shape());
    lemma_shape_names_distinct(code.spec_shape());
    lemma_fields_fit_no_error(fields, members);
    lemma_extra_member_none(fields, members);
    if 0 <= i < fields.len() {
        let name = fields[i].0;
        let without = without_member(members, name);
        assert forall|j: int| 0 <= j < i implies field_fits(#[trigger] fields[j], without) by {
            lemma_without_member(members, name, fields[j].0);
            assert(field_fits(fields[j], members));
        }
        lemma_without_member(members, name, name);
        if fields[i].2 {
            lemma_field_error_at(fields, without, i);
        }
        if !fields[i].1.spec_matches(wrong) {
            let with = with_member(members, name, wrong);
            assert forall|j: int| 0 <= j < i implies field_fits(#[trigger] fields[j], with) by {
                lemma_without_member(members, name, fields[j].0);
                lemma_member_push(without, (name, wrong), fields[j].0);
                assert(field_fits(fields[j], members));
            }
            lemma_member_push(without, (name, wrong), name);
            lemma_field_error_at(fields, with, i);
        }
    }
    if !rule_names(fields, key) {
        let pushed = members.push((key, value));
        assert forall|j: int| 0 <= j < fields.len() implies field_fits(#[trigger] fields[j], pushed) by {
            lemma_member_push(members, (key, value), fields[j].0);
            assert(field_fits(fields[j], members));
            assert(fields[j].0 != key);
        }
        lemma_fields_fit_no_error(fields, pushed);
        lemma_extra_member_push(fields, members, (key, value));
    }
}

/// The rule of a details shape: exactly its fields.
pub fn shape_rule(shape: DetailShape) -> (r: DiagnosticDetailsRule)
    ensures
        r@.fields == shape_fields(shape),
        !r@.allow_extra_fields,
{
    let mut f: Vec<DetailFieldRule> = Vec::new();
    match shape {
        DetailShape::FieldReason => {
            f.push(DetailFieldRule::required("field", DetailFieldType::String));
            f.push(DetailFieldRule::required("reason", DetailFieldType::String));
            f.push(DetailFieldRule::optional("path", DetailFieldType::String));
            f.push(DetailFieldRule::optional("received", DetailFieldType::String));
            f.push(DetailFieldRule::optional("accepted", DetailFieldType::StringArray));
            f.push(DetailFieldRule::optional("field_issues", DetailFieldType::ObjectArray));
            f.push(DetailFieldRule::optional("config_issues", DetailFieldType::ObjectArray));
            f.push(
                DetailFieldRule::optional("typed_validation_failures", DetailFieldType::ObjectArray),
            );
            f.push(DetailFieldRule::optional("option_issues", DetailFieldType::ObjectArray));
        },
        DetailShape::Path => {
            f.push(DetailFieldRule::required("path", DetailFieldType::String));
        },
        DetailShape::PathReason => {
            f.push(DetailFieldRule::required("path", DetailFieldType::String));
            f.push(DetailFieldRule::required("reason", DetailFieldType::String));
        },
        DetailShape::PathEncoding => {
            f.push(DetailFieldRule::required("path", DetailFieldType::String));
            f.push(DetailFieldRule::required("encoding", DetailFieldType::String));
        },
        DetailShape::FormatUnknown => {
            f.push(DetailFieldRule::required("path", DetailFieldType::String));
            f.push(DetailFieldRule::required("reason", DetailFieldType::String));
            f.push(DetailFieldRule::required("candidates", DetailFieldType::ObjectArray));
        },
        DetailShape::FormatAmbiguous => {
            f.push(DetailFieldRule::required("path", DetailFieldType::String));
            f.push(DetailFieldRule::required("candidates", DetailFieldType::ObjectArray));
        },
        DetailShape::CapabilityAdapter => {
            f.push(DetailFieldRule::required("capability", DetailFieldType::String));
            f.push(DetailFieldRule::required("adapter_id", DetailFieldType::String));
        },
        DetailShape::Ref => {
            f.push(DetailFieldRule::required("ref", DetailFieldType::String));
        },
        DetailShape::RefCandidateCount => {
            f.push(DetailFieldRule::required("ref", DetailFieldType::String));
            f.push(DetailFieldRule::required("candidate_count", DetailFieldType::U32));
        },
        DetailShape::RefReason => {
            f.push(DetailFieldRule::required("ref", DetailFieldType::String));
            f.push(DetailFieldRule::required("reason", DetailFieldType::String));
        },
        DetailShape::AdapterReason => {
            f.push(DetailFieldRule::required("adapter_id", DetailFieldType::String));
            f.push(DetailFieldRule::required("reason", DetailFieldType::String));
            f.push(DetailFieldRule::optional("selection_source", DetailFieldType::String));
            f.push(DetailFieldRule::optional("stage", DetailFieldType::String));
        },
        DetailShape::Internal => {
            f.push(DetailFieldRule::required("error_id", DetailFieldType::String));
        },
        DetailShape::CliArgv => {
            f.push(DetailFieldRule::required("tokens", DetailFieldType::StringArray));
        },
        DetailShape::AdapterCandidate => {
            f.push(DetailFieldRule::required("adapter_id", DetailFieldType::String));
            f.push(DetailFieldRule::required("stage", DetailFieldType::String));
            f.push(DetailFieldRule::required("code", DetailFieldType::String));
            f.push(DetailFieldRule::optional("preselected", DetailFieldType::Boolean));
        },
        DetailShape::AdapterConfigSource => {
            f.push(DetailFieldRule::required("source_level", DetailFieldType::String));
            f.push(DetailFieldRule::required("path_origin", DetailFieldType::String));
            f.push(DetailFieldRule::required("path", DetailFieldType::String));
            f.push(DetailFieldRule::optional("field", DetailFieldType::String));
            f.push(DetailFieldRule::required("reason_code", DetailFieldType::String));
        },
        DetailShape::Boundary => {
            f.push(DetailFieldRule::required("reason", DetailFieldType::String));
            f.push(DetailFieldRule::optional("label", DetailFieldType::String));
        },
    }
    assert(rules_view(f@) =~= shape_fields(shape));
    DiagnosticDetailsRule::exact(f)
}

impl DiagnosticCode {
    /// The details rule of the code: exactly the fields of its shape.
    pub fn details_rule(self) -> (r: DiagnosticDetailsRule)
        ensures
            r@.fields == shape_fields(self.spec_shape()),
            !r@.allow_extra_fields,
    {
        shape_rule(self.shape())
    }
}

/// The names of the required fields, in rule order.
pub open spec fn required_names(fields: Seq<FieldRuleModel>) -> Seq<Seq<char>>
    decreases fields.len(),
{
    if fields.len() == 0 {
        Seq::empty()
    } else {
        let rest = required_names(fields.drop_last());
        if fields.last().2 {
            rest.push(fields.last().0)
        } else {
            rest
        }
    }
}

impl DiagnosticDetailsRule {
    /// The names of the fields the rule requires, in rule order.
    pub fn required_field_names(&self) -> (r: Vec<&'static str>)
        ensures
            r@.map_values(|s: &'static str| s@) == required_names(self@.fields),
    {
        let mut out: Vec<&'static str> = Vec::new();
        let mut i: usize = 0;
        let ghost fv = self@.fields;
        assert(fv.take(0) =~= Seq::<FieldRuleModel>::empty());
        assert(out@.map_values(|s: &'static str| s@) =~= Seq::<Seq<char>>::empty());
        while i < self.fields.len()
            invariant
                fv == self@.fields,
                fv == rules_view(self.fields@),
                fv.len() == self.fields@.len(),
                i <= self.fields@.len(),
                out@.map_values(|s: &'static str| s@) == required_names(fv.take(i as int)),
            decreases self.fields.len() - i,
        {
            let f = self.fields[i];
            assert(fv.take(i + 1).drop_last() =~= fv.take(i as int));
            assert(fv.take(i + 1).last() == f@);
            if f.required {
                let ghost before = out@;
                out.push(f.name);
                assert(out@.map_values(|s: &'static str| s@) =~= before.map_values(|s: &'static str| s@).push(f.name@));
            }
            i = i + 1;
        }
        assert(fv.take(fv.len() as int) =~= fv);
        out
    }
}

impl ProtocolDiagnosticCode {
    /// The details rule of the code.
    pub fn details_rule(self) -> (r: DiagnosticDetailsRule)
        ensures
            r@.fields == shape_fields(self.spec_shape()),
            !r@.allow_extra_fields,
    {
        DiagnosticCode::Protocol(self).details_rule()
    }

    /// The names of the details fields the code requires, in rule order.
    pub fn required_detail_names(self) -> (r: Vec<&'static str>)
        ensures
            r@.map_values(|s: &'static str| s@) == required_names(shape_fields(self.spec_shape())),
    {
        self.details_rule().required_field_names()
    }
}

/// The message of a details error.
pub open spec fn details_error_text(e: DetailsErrorModel) -> Seq<char> {
    match e {
        DetailsErrorModel::NotAnObject => "diagnostic details must be an object"@,
        DetailsErrorModel::MissingField(f) => "diagnostic details missing "@ + f,
        DetailsErrorModel::WrongType(f, t) => "diagnostic details."@ + f + " must be "@ + t.spec_as_str(),
        DetailsErrorModel::ExtraField(f) => "diagnostic details contains unexpected "@ + f,
    }
}

impl DiagnosticDetailsError {
    /// The message of the error.
    pub fn message(&self) -> (r: String)
        ensures
            r@ == details_error_text(self@),
    {
        match self {
            DiagnosticDetailsError::NotAnObject => String::from_str("diagnostic details must be an object"),
            DiagnosticDetailsError::MissingField { field } => {
                let mut m = String::from_str("diagnostic details missing ");
                m.append(field);
                m
            },
            DiagnosticDetailsError::WrongType { field, expected } => {
                let mut m = String::from_str("diagnostic details.");
                m.append(field);
                m.append(" must be ");
                m.append(expected.as_str());
                m
            },
            DiagnosticDetailsError::ExtraField { field } => {
                let mut m = String::from_str("diagnostic details contains unexpected ");
                m.append(field.as_str());
                m
            },
        }
    }
}

} // verus!

//! The shape an adapter config file must have: an object with `defaults`
//! and `options`, `defaults` with `pagination` and `output`, `pagination`
//! with `enabled` and `limit`.

use vstd::prelude::*;

use crate::direct::config_paths::{ConfigPathOrigin, ConfigSourceLevel, ConfigSourcePath};
use crate::json::{find_member, member, JsonModel, JsonValue};
use crate::payload::AdapterConfigSourceDetails;
use crate::text::{join2, text_before, text_eq, text_less};

verus! {

/// The least key, in character order, of the members that `allowed` does
/// not name: the key a sorted map shows first.
pub open spec fn least_unknown_key(members: Seq<(Seq<char>, JsonModel)>, allowed: Seq<Seq<char>>) -> Option<Seq<char>>
    decreases members.len(),
{
    if members.len() == 0 {
        None
    } else {
        let rest = least_unknown_key(members.drop_last(), allowed);
        let k = members.last().0;
        if allowed.contains(k) {
            rest
        } else {
            match rest {
                None => Some(k),
                Some(b) => if text_less(k, b) {
                    Some(k)
                } else {
                    Some(b)
                },
            }
        }
    }
}

fn is_allowed(key: &str, allowed: &[&'static str]) -> (r: bool)
    ensures
        r == allowed@.map_values(|s: &'static str| s@).contains(key@),
{
    let ghost av = allowed@.map_values(|s: &'static str| s@);
    let mut i: usize = 0;
    while i < allowed.len()
        invariant
            i <= allowed@.len(),
            av == allowed@.map_values(|s: &'static str| s@),
            forall|j: int| 0 <= j < i ==> av[j] != key@,
        decreases allowed.len() - i,
    {
        if text_eq(allowed[i], key) {
            assert(av[i as int] == key@);
            return true;
        }
        i = i + 1;
    }
    false
}

fn first_unknown_key<'a>(members: &'a Vec<(String, JsonValue)>, allowed: &[&'static str]) -> (r: Option<&'a str>)
    ensures
        match r {
            Some(k) => least_unknown_key(crate::warning::object_view(*members), allowed@.map_values(|s: &'static str| s@)) == Some(k@),
            None => least_unknown_key(crate::warning::object_view(*members), allowed@.map_values(|s: &'static str| s@)) is None,
        },
{
    let ghost mv = crate::warning::object_view(*members);
    let ghost av = allowed@.map_values(|s: &'static str| s@);
    assert(mv.len() == members@.len());
    let mut best: Option<&'a str> = None;
    let mut i: usize = 0;
    assert(mv.take(0) =~= Seq::<(Seq<char>, JsonModel)>::empty());
    while i < members.len()
        invariant
            i <= members@.len(),
            mv == crate::warning::object_view(*members),
            mv.len() == members@.len(),
            av == allowed@.map_values(|s: &'static str| s@),
            match best {
                Some(k) => least_unknown_key(mv.take(i as int), av) == Some(k@),
                None => least_unknown_key(mv.take(i as int), av) is None,
            },
        decreases members.len() - i,
    {
        let key = members[i].0.as_str();
        assert(mv[i as int].0 == key@);
        assert(mv.take(i + 1).drop_last() =~= mv.take(i as int));
        assert(mv.take(i + 1).last() == mv[i as int]);
        if !is_allowed(key, allowed) {
            best = match best {
                None => Some(key),
                Some(b) => if text_before(key, b) {
                    Some(key)
                } else {
                    Some(b)
                },
            };
        }
        i = i + 1;
    }
    assert(mv.take(mv.len() as int) =~= mv);
    best
}

pub open spec fn level_text(level: ConfigSourceLevel) -> Seq<char> {
    match level {
        ConfigSourceLevel::Project => "project"@,
        ConfigSourceLevel::User => "user"@,
    }
}

pub open spec fn origin_text(origin: ConfigPathOrigin) -> Seq<char> {
    match origin {
        ConfigPathOrigin::Default => "default"@,
        ConfigPathOrigin::Override => "override"@,
    }
}

impl ConfigSourceLevel {
    pub fn as_str(self) -> (r: &'static str)
        ensures
            r@ == level_text(self),
    {
        match self {
            ConfigSourceLevel::Project => "project",
            ConfigSourceLevel::User => "user",
        }
    }
}

impl ConfigPathOrigin {
    pub fn as_str(self) -> (r: &'static str)
        ensures
            r@ == origin_text(self),
    {
        match self {
            ConfigPathOrigin::Default => "default",
            ConfigPathOrigin::Override => "override",
        }
    }
}

/// A problem with a config source, at a field, as the model sees it: the
/// field and its reason code.
pub type IssueModel = (Seq<char>, Seq<char>);

/// The first problem with the shape of a config file, if any: an unknown
/// top-level key, then `defaults` that is no object, an unknown key in it,
/// `defaults.pagination` that is no object or an unknown key in it, and
/// last `options` that is no object.
pub open spec fn config_issue_spec(value: Option<JsonModel>) -> Option<IssueModel> {
    match value {
        Some(JsonModel::Object(root)) => match least_unknown_key(root, seq!["defaults"@, "options"@]) {
            Some(k) => Some((k, "unknown_config_field"@)),
            None => {
                let defaults_issue = match member(root, "defaults"@) {
                    None => None,
                    Some(JsonModel::Object(defaults)) => match least_unknown_key(defaults, seq!["pagination"@, "output"@]) {
                        Some(k) => Some(("defaults."@ + k, "unknown_config_field"@)),
                        None => match member(defaults, "pagination"@) {
                            None => None,
                            Some(JsonModel::Object(pagination)) => match least_unknown_key(pagination, seq!["enabled"@, "limit"@]) {
                                Some(k) => Some(("defaults.pagination."@ + k, "unknown_config_field"@)),
                                None => None,
                            },
                            Some(_) => Some(("defaults.pagination"@, "invalid_config_field"@)),
                        },
                    },
                    Some(_) => Some(("defaults"@, "invalid_config_field"@)),
                };
                match defaults_issue {
                    Some(i) => Some(i),
                    None => match member(root, "options"@) {
                        None => None,
                        Some(JsonModel::Object(_)) => None,
                        Some(_) => Some(("options"@, "invalid_config_field"@)),
                    },
                }
            },
        },
        _ => None,
    }
}

fn issue(field: String, reason_code: &'static str) -> (r: (String, &'static str))
    ensures
        r.0@ == field@,
        r.1@ == reason_code@,
{
    (field, reason_code)
}

fn config_issue(value: Option<&JsonValue>) -> (r: Option<(String, &'static str)>)
    ensures
        match r {
            Some((f, c)) => config_issue_spec(
                match value {
                    Some(v) => Some(v@),
                    None => None,
                },
            ) == Some((f@, c@)),
            None => config_issue_spec(
                match value {
                    Some(v) => Some(v@),
                    None => None,
                },
            ) is None,
        },
{
    let root = match value {
        Some(JsonValue::Object(root)) => root,
        _ => {
            return None;
        },
    };
    let root_keys: [&'static str; 2] = ["defaults", "options"];
    assert(root_keys@.map_values(|s: &'static str| s@) =~= seq!["defaults"@, "options"@]);
    match first_unknown_key(root, &root_keys) {
        Some(k) => {
            return Some(issue(String::from_str(k), "unknown_config_field"));
        },
        None => {},
    }
    match find_member(root, "defaults") {
        None => {},
        Some(JsonValue::Object(defaults)) => {
            let defaults_keys: [&'static str; 2] = ["pagination", "output"];
            assert(defaults_keys@.map_values(|s: &'static str| s@) =~= seq!["pagination"@, "output"@]);
            match first_unknown_key(defaults, &defaults_keys) {
                Some(k) => {
                    return Some(issue(join2("defaults.", k), "unknown_config_field"));
                },
                None => {},
            }
            match find_member(defaults, "pagination") {
                None => {},
                Some(JsonValue::Object(pagination)) => {
                    let pagination_keys: [&'static str; 2] = ["enabled", "limit"];
                    assert(pagination_keys@.map_values(|s: &'static str| s@) =~= seq!["enabled"@, "limit"@]);
                    match first_unknown_key(pagination, &pagination_keys) {
                        Some(k) => {
                            return Some(issue(join2("defaults.pagination.", k), "unknown_config_field"));
                        },
                        None => {},
                    }
                },
                Some(_) => {
                    return Some(issue(String::from_str("defaults.pagination"), "invalid_config_field"));
                },
            }
        },
        Some(_) => {
            return Some(issue(String::from_str("defaults"), "invalid_config_field"));
        },
    }
    match find_member(root, "options") {
        None => None,
        Some(JsonValue::Object(_)) => None,
        Some(_) => Some(issue(String::from_str("options"), "invalid_config_field")),
    }
}

/// The issue with the shape of a config source's content, if any, as the
/// details of an `adapter_config_source_skipped` warning: the source's
/// level, the origin of its path, the path, the reason code and the field.
pub fn adapter_config_source_issue(source: &ConfigSourcePath, value: Option<&JsonValue>) -> (r: Option<AdapterConfigSourceDetails>)
    ensures
        match r {
            Some(d) => config_issue_spec(
                match value {
                    Some(v) => Some(v@),
                    None => None,
                },
            ) matches Some((f, c)) && d.field matches Some(df) && df@ == f && d.reason_code@ == c
                && d.source_level@ == level_text(source.level) && d.path_origin@ == origin_text(source.origin)
                && d.path@ == source.path@,
            None => config_issue_spec(
                match value {
                    Some(v) => Some(v@),
                    None => None,
                },
            ) is None,
        },
{
    match config_issue(value) {
        None => None,
        Some((field, reason_code)) => Some(
            AdapterConfigSourceDetails::new(
                source.level.as_str(),
                source.origin.as_str(),
                source.path.as_str(),
                reason_code,
            ).with_field(field.as_str()),
        ),
    }
}

proof fn lemma_no_unknown_key(members: Seq<(Seq<char>, JsonModel)>, allowed: Seq<Seq<char>>)
    ensures
        least_unknown_key(members, allowed) is None <==> forall|i: int| 0 <= i < members.len() ==> allowed.contains(#[trigger] members[i].0),
        least_unknown_key(members, allowed) matches Some(k) ==> !allowed.contains(k) && exists|i: int| 0 <= i < members.len() && (#[trigger] members[i]).0 == k,
    decreases members.len(),
{
    if members.len() > 0 {
        let rest = members.drop_last();
        lemma_no_unknown_key(rest, allowed);
        assert forall|i: int| 0 <= i < rest.len() implies rest[i] == members[i] by {}
        if forall|i: int| 0 <= i < members.len() ==> allowed.contains(#[trigger] members[i].0) {
            assert forall|i: int| 0 <= i < rest.len() implies allowed.contains(#[trigger] rest[i].0) by {
                assert(rest[i] == members[i]);
            }
            assert(allowed.contains(members[members.len() - 1].0));
        }
        if least_unknown_key(members, allowed) is None {
            assert forall|i: int| 0 <= i < members.len() implies allowed.contains(#[trigger] members[i].0) by {
                if i < rest.len() {
                    assert(rest[i] == members[i]);
                }
            }
        }
        if let Some(k) = least_unknown_key(members, allowed) {
            if k == members.last().0 {
                assert(members[members.len() - 1].0 == k);
            } else {
                let j = choose|i: int| 0 <= i < rest.len() && (#[trigger] rest[i]).0 == k;
                assert(members[j] == rest[j]);
            }
        }
    }
}

/// Whether every member of an object is named among `allowed`.
pub open spec fn keys_within(members: Seq<(Seq<char>, JsonModel)>, allowed: Seq<Seq<char>>) -> bool {
    forall|i: int| 0 <= i < members.len() ==> allowed.contains(#[trigger] members[i].0)
}

/// A config object has no shape issue exactly when its keys are among
/// `defaults` and `options`; `defaults`, where present, is an object with
/// keys among `pagination` and `output`; `defaults.pagination`, where
/// present, is an object with keys among `enabled` and `limit`; and
/// `options`, where present, is an object. An issue, when there is one,
/// names a key the object holds that is not allowed, or says a section is
/// not an object.
pub proof fn law_config_shape(root: Seq<(Seq<char>, JsonModel)>)
    ensures
        config_issue_spec(Some(JsonModel::Object(root))) is None <==> {
            &&& keys_within(root, seq!["defaults"@, "options"@])
            &&& member(root, "defaults"@) matches Some(d) ==> (d matches JsonModel::Object(dm) && keys_within(dm, seq!["pagination"@, "output"@])
                && (member(dm, "pagination"@) matches Some(pg) ==> (pg matches JsonModel::Object(pm) && keys_within(pm, seq!["enabled"@, "limit"@]))))
            &&& member(root, "options"@) matches Some(o) ==> o is Object
        },
        !keys_within(root, seq!["defaults"@, "options"@]) ==> (config_issue_spec(Some(JsonModel::Object(root))) matches Some((f, c))
            && c == "unknown_config_field"@ && !seq!["defaults"@, "options"@].contains(f)
            && exists|i: int| 0 <= i < root.len() && (#[trigger] root[i]).0 == f),
{
    lemma_no_unknown_key(root, seq!["defaults"@, "options"@]);
    match member(root, "defaults"@) {
        Some(JsonModel::Object(dm)) => {
            lemma_no_unknown_key(dm, seq!["pagination"@, "output"@]);
            match member(dm, "pagination"@) {
                Some(JsonModel::Object(pm)) => {
                    lemma_no_unknown_key(pm, seq!["enabled"@, "limit"@]);
                },
                _ => {},
            }
        },
        _ => {},
    }
}

} // verus!

//! A JSON value as the library reads and builds it: the shape of diagnostic
//! details, with object members in order.

use vstd::prelude::*;

use crate::text::text_eq;

verus! {

/// A JSON number: a non-negative integer, a negative integer, or any other
/// number kept as its text.
#[derive(Clone, Debug, PartialEq)]
pub enum JsonNumber {
    PosInt(u64),
    NegInt(i64),
    Float(String),
}

/// A JSON value.
#[derive(Debug, PartialEq)]
pub enum JsonValue {
    Null,
    Bool(bool),
    Number(JsonNumber),
    String(String),
    Array(Vec<JsonValue>),
    Object(Vec<(String, JsonValue)>),
}

/// The abstract form of a JSON number.
pub enum NumberModel {
    PosInt(u64),
    NegInt(i64),
    Float(Seq<char>),
}

/// The abstract form of a JSON value.
pub enum JsonModel {
    Null,
    Bool(bool),
    Number(NumberModel),
    String(Seq<char>),
    Array(Seq<JsonModel>),
    Object(Seq<(Seq<char>, JsonModel)>),
}

pub open spec fn number_view(n: JsonNumber) -> NumberModel {
    match n {
        JsonNumber::PosInt(v) => NumberModel::PosInt(v),
        JsonNumber::NegInt(v) => NumberModel::NegInt(v),
        JsonNumber::Float(t) => NumberModel::Float(t@),
    }
}

pub open spec fn json_view(v: JsonValue) -> JsonModel
    decreases v,
{
    match v {
        JsonValue::Null => JsonModel::Null,
        JsonValue::Bool(b) => JsonModel::Bool(b),
        JsonValue::Number(n) => JsonModel::Number(number_view(n)),
        JsonValue::String(s) => JsonModel::String(s@),
        JsonValue::Array(items) => JsonModel::Array(
            Seq::new(
                items@.len(),
                |i: int|
                    if 0 <= i < items@.len() {
                        json_view(items@[i])
                    } else {
                        JsonModel::Null
                    },
            ),
        ),
        JsonValue::Object(members) => JsonModel::Object(
            Seq::new(
                members@.len(),
                |i: int|
                    if 0 <= i < members@.len() {
                        (members@[i].0@, json_view(members@[i].1))
                    } else {
                        (Seq::empty(), JsonModel::Null)
                    },
            ),
        ),
    }
}

impl View for JsonValue {
    type V = JsonModel;

    open spec fn view(&self) -> JsonModel {
        json_view(*self)
    }
}

/// The value of the first member named `key`, if any.
pub open spec fn member(members: Seq<(Seq<char>, JsonModel)>, key: Seq<char>) -> Option<JsonModel>
    decreases members.len(),
{
    if members.len() == 0 {
        None
    } else if members[0].0 == key {
        Some(members[0].1)
    } else {
        member(members.drop_first(), key)
    }
}

/// Looks up the first member named `key` of an object.
pub fn find_member<'a>(members: &'a Vec<(String, JsonValue)>, key: &str) -> (r: Option<
    &'a JsonValue,
>)
    ensures
        match r {
            Some(v) => member(json_view(JsonValue::Object(*members))->Object_0, key@) == Some(
                v@,
            ),
            None => member(json_view(JsonValue::Object(*members))->Object_0, key@) is None,
        },
{
    let ghost all = json_view(JsonValue::Object(*members))->Object_0;
    let mut i: usize = 0;
    assert(all.skip(0) =~= all);
    while i < members.len()
        invariant
            all == json_view(JsonValue::Object(*members))->Object_0,
            all.len() == members@.len(),
            i <= members.len(),
            member(all, key@) == member(all.skip(i as int), key@),
        decreases members.len() - i,
    {
        let ghost rest = all.skip(i as int);
        assert(rest[0] == all[i as int]);
        assert(all[i as int] == (members@[i as int].0@, json_view(members@[i as int].1)));
        if text_eq(members[i].0.as_str(), key) {
            return Some(&members[i].1);
        }
        assert(rest.drop_first() =~= all.skip(i + 1));
        i = i + 1;
    }
    None
}

/// Builds a JSON string value.
pub fn json_string(s: &str) -> (r: JsonValue)
    ensures
        r@ == JsonModel::String(s@),
{
    JsonValue::String(String::from_str(s))
}

/// The position of the first member named `key`.
pub open spec fn is_first_key(m: Seq<(Seq<char>, JsonModel)>, key: Seq<char>, i: int) -> bool {
    &&& 0 <= i < m.len()
    &&& m[i].0 == key
    &&& forall|j: int| 0 <= j < i ==> (#[trigger] m[j]).0 != key
}

/// The members with `key` set to `value`: the first member of that name
/// takes the value where it stands, or a new member goes last.
pub open spec fn set_member(m: Seq<(Seq<char>, JsonModel)>, key: Seq<char>, value: JsonModel) -> Seq<(Seq<char>, JsonModel)> {
    if exists|i: int| is_first_key(m, key, i) {
        m.update(choose|i: int| is_first_key(m, key, i), (key, value))
    } else {
        m.push((key, value))
    }
}

} // verus!

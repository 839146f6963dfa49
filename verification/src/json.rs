//! JSON values as the proxy handles them.
//!
//! The proxy never computes with the numbers it forwards, so a number that is
//! not an integer is kept as its decimal text.

use crate::text::str_eq;
use serde_json::Value;
use vstd::prelude::*;

verus! {

/// A JSON value.
#[derive(Debug, PartialEq, Eq)]
pub enum Json {
    Null,
    Bool(bool),
    /// A non-negative integer.
    UInt(u64),
    /// A negative integer.
    Int(i64),
    /// Any other number, as its decimal text.
    Real(String),
    Text(String),
    Array(Vec<Json>),
    /// An object: its members in order, each a name and a value.
    Object(Vec<(String, Json)>),
}

/// What a [`Json`] holds.
pub enum JsonValue {
    Null,
    Bool(bool),
    UInt(u64),
    Int(i64),
    Real(Seq<char>),
    Text(Seq<char>),
    Array(Seq<JsonValue>),
    Object(Seq<(Seq<char>, JsonValue)>),
}

/// What the first `count` of `items` hold.
pub open spec fn values_of(items: Seq<Json>, count: nat) -> Seq<JsonValue>
    decreases items, count,
{
    if 0 < count <= items.len() {
        values_of(items, (count - 1) as nat).push(value_of(items[count - 1]))
    } else {
        Seq::empty()
    }
}

/// What the first `count` of `members` hold.
pub open spec fn members_of(members: Seq<(String, Json)>, count: nat) -> Seq<(Seq<char>, JsonValue)>
    decreases members, count,
{
    if 0 < count <= members.len() {
        members_of(members, (count - 1) as nat).push(
            (members[count - 1].0@, value_of(members[count - 1].1)),
        )
    } else {
        Seq::empty()
    }
}

/// What `json` holds.
pub open spec fn value_of(json: Json) -> JsonValue
    decreases json, 0nat,
{
    match json {
        Json::Null => JsonValue::Null,
        Json::Bool(b) => JsonValue::Bool(b),
        Json::UInt(n) => JsonValue::UInt(n),
        Json::Int(n) => JsonValue::Int(n),
        Json::Real(text) => JsonValue::Real(text@),
        Json::Text(text) => JsonValue::Text(text@),
        Json::Array(items) => JsonValue::Array(values_of(items@, items@.len())),
        Json::Object(members) => JsonValue::Object(members_of(members@, members@.len())),
    }
}

impl View for Json {
    type V = JsonValue;

    open spec fn view(&self) -> JsonValue {
        value_of(*self)
    }
}

/// `values_of` keeps the length and views item by item.
pub proof fn lemma_values_of(items: Seq<Json>, count: nat)
    requires
        count <= items.len(),
    ensures
        values_of(items, count).len() == count,
        forall|i: int| 0 <= i < count ==> #[trigger] values_of(items, count)[i] == items[i]@,
    decreases count,
{
    if count > 0 {
        lemma_values_of(items, (count - 1) as nat);
    }
}

/// `members_of` keeps the length and views member by member.
pub proof fn lemma_members_of(members: Seq<(String, Json)>, count: nat)
    requires
        count <= members.len(),
    ensures
        members_of(members, count).len() == count,
        forall|i: int|
            0 <= i < count ==> #[trigger] members_of(members, count)[i] == (
                members[i].0@,
                members[i].1@,
            ),
    decreases count,
{
    if count > 0 {
        lemma_members_of(members, (count - 1) as nat);
    }
}

/// The JSON value type of `serde_json`.
#[verifier::external_type_specification]
#[verifier::external_body]
pub struct ExValue(Value);

/// What a `serde_json` value holds, as this library models JSON.
pub uninterp spec fn value_model(value: Value) -> JsonValue;

/// The document that `serde_json::from_str` reads from `text`, where `text`
/// is one JSON document.
pub uninterp spec fn parsed_json(text: Seq<char>) -> Option<JsonValue>;

/// `serde_json::from_str`, reading a `serde_json::Value`: the document where
/// there is one, and nothing where the text is not JSON.
#[verifier::external_body]
fn parse_value(text: &str) -> (value: Option<Value>)
    ensures
        value is Some <==> parsed_json(text@) is Some,
        value matches Some(v) ==> parsed_json(text@) == Some(value_model(v)),
{
    serde_json::from_str::<Value>(text).ok()
}

/// Moves a `serde_json` value into this library's type, variant by variant.
/// A number becomes `UInt` where `as_u64` gives it, else `Int` where
/// `as_i64` gives it, else `Real` with the text `to_string` gives.
#[verifier::external_body]
fn json_of_value(value: Value) -> (json: Json)
    ensures
        json@ == value_model(value),
{
    match value {
        Value::Null => Json::Null,
        Value::Bool(b) => Json::Bool(b),
        Value::Number(n) => match (n.as_u64(), n.as_i64()) {
            (Some(u), _) => Json::UInt(u),
            (None, Some(i)) => Json::Int(i),
            (None, None) => Json::Real(n.to_string()),
        },
        Value::String(text) => Json::Text(text),
        Value::Array(items) => Json::Array(items.into_iter().map(json_of_value).collect()),
        Value::Object(map) => Json::Object(map.into_iter().map(|(k, v)| (k, json_of_value(v))).collect()),
    }
}

/// Reads `text` as one JSON document.
pub fn parse_json(text: &str) -> (json: Option<Json>)
    ensures
        match json {
            Some(document) => parsed_json(text@) == Some(document@),
            None => parsed_json(text@) is None,
        },
{
    match parse_value(text) {
        Some(value) => Some(json_of_value(value)),
        None => None,
    }
}

/// The value of the first member called `key` among `members`.
pub open spec fn lookup(members: Seq<(Seq<char>, JsonValue)>, key: Seq<char>) -> Option<JsonValue>
    decreases members.len(),
{
    if members.len() == 0 {
        None
    } else if members[0].0 == key {
        Some(members[0].1)
    } else {
        lookup(members.drop_first(), key)
    }
}

impl JsonValue {
    /// The member called `key`, if this is an object that has one.
    pub open spec fn member(self, key: Seq<char>) -> Option<JsonValue> {
        match self {
            JsonValue::Object(members) => lookup(members, key),
            _ => None,
        }
    }
}

impl Json {
    /// A text value holding `text`.
    pub fn text(text: &str) -> (value: Json)
        ensures
            value@ == JsonValue::Text(text@),
    {
        Json::Text(text.to_owned())
    }

    /// An object without members.
    pub fn object() -> (value: Json)
        ensures
            value@ == JsonValue::Object(Seq::empty()),
    {
        let value = Json::Object(Vec::new());
        assert(value@->Object_0 =~= Seq::empty());
        value
    }

    /// This object with one more member at the end. Any other value is
    /// returned as it is.
    pub fn with(self, key: &str, member: Json) -> (value: Json)
        ensures
            value@ == match self@ {
                JsonValue::Object(members) => JsonValue::Object(members.push((key@, member@))),
                other => other,
            },
    {
        match self {
            Json::Object(mut members) => {
                let ghost before = members@;
                members.push((key.to_owned(), member));
                let value = Json::Object(members);
                proof {
                    lemma_members_of(before, before.len());
                    lemma_members_of(members@, members@.len());
                    assert(value@->Object_0 =~= self@->Object_0.push((key@, member@)));
                }
                value
            },
            other => other,
        }
    }

    /// The text, or `null` where there is none.
    pub fn text_or_null(text: Option<&str>) -> (value: Json)
        ensures
            value@ == match text {
                Some(t) => JsonValue::Text(t@),
                None => JsonValue::Null,
            },
    {
        match text {
            Some(t) => Json::text(t),
            None => Json::Null,
        }
    }

    /// The first item, if this is an array that has one.
    pub fn first_item(&self) -> (found: Option<&Json>)
        ensures
            match found {
                Some(value) => self@ matches JsonValue::Array(items) && items.len() > 0 && items[0]
                    == value@,
                None => !(self@ matches JsonValue::Array(items) && items.len() > 0),
            },
    {
        match self {
            Json::Array(items) => {
                proof {
                    lemma_values_of(items@, items@.len());
                }
                if items.len() > 0 {
                    Some(&items[0])
                } else {
                    None
                }
            },
            _ => None,
        }
    }

    /// The member called `key`, if this is an object that has one. Where
    /// several members share the name, the first one counts.
    pub fn get(&self, key: &str) -> (found: Option<&Json>)
        ensures
            match found {
                Some(value) => self@.member(key@) == Some(value@),
                None => self@.member(key@) is None,
            },
    {
        match self {
            Json::Object(members) => {
                let ghost all = self@->Object_0;
                proof {
                    lemma_members_of(members@, members@.len());
                }
                let mut i: usize = 0;
                assert(all.skip(0) =~= all);
                while i < members.len()
                    invariant
                        i <= members.len(),
                        self@ == JsonValue::Object(all),
                        all.len() == members@.len(),
                        forall|j: int|
                            0 <= j < all.len() ==> #[trigger] all[j] == (
                                members@[j].0@,
                                members@[j].1@,
                            ),
                        lookup(all, key@) == lookup(all.skip(i as int), key@),
                    decreases members.len() - i,
                {
                    assert(all.skip(i as int).drop_first() =~= all.skip(i + 1));
                    assert(all.skip(i as int)[0] == all[i as int]);
                    if str_eq(members[i].0.as_str(), key) {
                        return Some(&members[i].1);
                    }
                    i += 1;
                }
                None
            },
            _ => None,
        }
    }

    /// A copy of this value.
    pub fn deep_copy(&self) -> (copy: Json)
        ensures
            copy@ == self@,
        decreases self,
    {
        match self {
            Json::Null => Json::Null,
            Json::Bool(b) => Json::Bool(*b),
            Json::UInt(n) => Json::UInt(*n),
            Json::Int(n) => Json::Int(*n),
            Json::Real(text) => Json::Real(text.clone()),
            Json::Text(text) => Json::Text(text.clone()),
            Json::Array(items) => {
                let mut copies: Vec<Json> = Vec::new();
                let mut i: usize = 0;
                while i < items.len()
                    invariant
                        i <= items.len(),
                        decreases_to!(self => items),
                        copies@.len() == i,
                        forall|j: int| 0 <= j < i ==> (#[trigger] copies@[j])@ == items@[j]@,
                    decreases items.len() - i,
                {
                    assert(decreases_to!(*items => items[i as int]));
                    copies.push(items[i].deep_copy());
                    i += 1;
                }
                let copy = Json::Array(copies);
                proof {
                    lemma_values_of(items@, items@.len());
                    lemma_values_of(copies@, copies@.len());
                    assert(copy@->Array_0 =~= self@->Array_0);
                }
                copy
            },
            Json::Object(members) => {
                let mut copies: Vec<(String, Json)> = Vec::new();
                let mut i: usize = 0;
                while i < members.len()
                    invariant
                        i <= members.len(),
                        decreases_to!(self => members),
                        copies@.len() == i,
                        forall|j: int|
                            0 <= j < i ==> (#[trigger] copies@[j]).0@ == members@[j].0@
                                && copies@[j].1@ == members@[j].1@,
                    decreases members.len() - i,
                {
                    assert(decreases_to!(*members => members[i as int]));
                    assert(decreases_to!(members[i as int] => members[i as int].1));
                    copies.push((members[i].0.clone(), members[i].1.deep_copy()));
                    i += 1;
                }
                let copy = Json::Object(copies);
                proof {
                    lemma_members_of(members@, members@.len());
                    lemma_members_of(copies@, copies@.len());
                    assert(copy@->Object_0 =~= self@->Object_0);
                }
                copy
            },
        }
    }
}

} // verus!


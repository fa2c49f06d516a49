//! JSON documents as plain values, parsed by `serde_json`.
use serde_json::Value;
use vstd::prelude::*;

verus! {

/// A JSON value of the `serde_json` crate.
#[verifier::external_type_specification]
#[verifier::external_body]
pub struct ExValue(Value);

/// A JSON value. A number is kept as its decimal text; the members of an
/// object stand in the order in which `serde_json` hands them out.
#[derive(Debug)]
pub enum Json {
    Null,
    Bool(bool),
    Number(String),
    Text(String),
    Array(Vec<Json>),
    Object(Vec<(String, Json)>),
}

/// The value that `serde_json` reads from `bytes`, if they are one JSON
/// text.
pub uninterp spec fn json_value(bytes: Seq<u8>) -> Option<Value>;

/// The same JSON value as `value`, as a plain value.
pub uninterp spec fn json_of(value: Value) -> Json;

/// Calls `serde_json::from_slice` for a `Value`: the parsed document, or
/// nothing where the bytes are not one valid JSON text. The contract
/// claims only that the outcome is a function of the bytes.
#[verifier::external_body]
fn parse_value(bytes: &[u8]) -> (value: Option<Value>)
    ensures
        value == json_value(bytes@),
{
    serde_json::from_slice::<Value>(bytes).ok()
}

/// Takes a `serde_json::Value` apart, variant by variant, into a `Json`
/// of the same shape. The contract claims only that the outcome is a
/// function of the value.
#[verifier::external_body]
fn value_to_json(value: Value) -> (json: Json)
    ensures
        json == json_of(value),
{
    match value {
        Value::Null => Json::Null,
        Value::Bool(flag) => Json::Bool(flag),
        Value::Number(number) => Json::Number(number.to_string()),
        Value::String(text) => Json::Text(text),
        Value::Array(items) => Json::Array(items.into_iter().map(value_to_json).collect()),
        Value::Object(members) => Json::Object(
            members.into_iter().map(|(key, member)| (key, value_to_json(member))).collect(),
        ),
    }
}

/// The document that `bytes` spell, if they are one JSON text.
pub open spec fn json_document(bytes: Seq<u8>) -> Option<Json> {
    match json_value(bytes) {
        Some(value) => Some(json_of(value)),
        None => None,
    }
}

/// The first member named `key` among `entries[from..]`.
pub open spec fn member_from(entries: Seq<(String, Json)>, key: Seq<char>, from: int) -> Option<
    Json,
>
    decreases entries.len() - from,
{
    if from < 0 || from >= entries.len() {
        None
    } else if entries[from].0@ == key {
        Some(entries[from].1)
    } else {
        member_from(entries, key, from + 1)
    }
}

impl Json {
    /// The member named `key`, where this value is an object that has
    /// one.
    pub open spec fn member(self, key: Seq<char>) -> Option<Json> {
        match self {
            Json::Object(entries) => member_from(entries@, key, 0),
            _ => None,
        }
    }

    /// The text of the member named `key`, where there is such a member
    /// and it is a string.
    pub open spec fn text_member(self, key: Seq<char>) -> Option<Seq<char>> {
        match self.member(key) {
            Some(Json::Text(text)) => Some(text@),
            _ => None,
        }
    }

    /// The items of the member named `key`, where there is such a member
    /// and it is an array.
    pub open spec fn array_member(self, key: Seq<char>) -> Option<Seq<Json>> {
        match self.member(key) {
            Some(Json::Array(items)) => Some(items@),
            _ => None,
        }
    }

    /// The flag named `key`: `false` where there is no such member, the
    /// member's value where it is a boolean, and nothing where it is
    /// anything else.
    pub open spec fn flag_member(self, key: Seq<char>) -> Option<bool> {
        match self.member(key) {
            None => Some(false),
            Some(Json::Bool(flag)) => Some(flag),
            Some(_) => None,
        }
    }

    /// Parses one JSON text.
    pub fn parse(bytes: &[u8]) -> (doc: Option<Json>)
        ensures
            doc == json_document(bytes@),
    {
        match parse_value(bytes) {
            Some(value) => Some(value_to_json(value)),
            None => None,
        }
    }

    /// Looks up a member of an object by its name.
    pub fn get(&self, key: &str) -> (found: Option<&Json>)
        ensures
            found is Some <==> self.member(key@) is Some,
            found is Some ==> *found.unwrap() == self.member(key@).unwrap(),
    {
        match self {
            Json::Object(entries) => {
                let wanted = key.to_owned();
                let mut i: usize = 0;
                while i < entries.len()
                    invariant
                        i <= entries@.len(),
                        wanted@ == key@,
                        self.member(key@) == member_from(entries@, key@, 0),
                        member_from(entries@, key@, 0) == member_from(entries@, key@, i as int),
                    decreases entries@.len() - i,
                {
                    let hit = entries[i].0 == wanted;
                    assert(hit == (entries@[i as int].0@ == key@));
                    if hit {
                        assert(member_from(entries@, key@, i as int) == Some(entries@[i as int].1));
                        return Some(&entries[i].1);
                    }
                    i += 1;
                }
                None
            },
            _ => None,
        }
    }

    /// The text of a string member.
    pub fn get_text(&self, key: &str) -> (found: Option<String>)
        ensures
            found is Some <==> self.text_member(key@) is Some,
            found is Some ==> found.unwrap()@ == self.text_member(key@).unwrap(),
    {
        match self.get(key) {
            Some(Json::Text(text)) => Some(text.clone()),
            _ => None,
        }
    }

    /// The value of an optional boolean member.
    pub fn get_flag(&self, key: &str) -> (found: Option<bool>)
        ensures
            found == self.flag_member(key@),
    {
        match self.get(key) {
            None => Some(false),
            Some(Json::Bool(flag)) => Some(*flag),
            Some(_) => None,
        }
    }

    /// The items of an array member.
    pub fn get_array(&self, key: &str) -> (found: Option<&Vec<Json>>)
        ensures
            found is Some <==> self.array_member(key@) is Some,
            found is Some ==> found.unwrap()@ == self.array_member(key@).unwrap(),
    {
        match self.get(key) {
            Some(Json::Array(items)) => Some(items),
            _ => None,
        }
    }
}

} // verus!

//! JSON documents: the contents of a `serde_json` value, and the operations on it that
//! the other modules use.

use serde_json::Value;
use vstd::prelude::*;

verus! {

/// `serde_json::Value`, a JSON document.
#[verifier::external_type_specification]
#[verifier::external_body]
pub struct ExValue(serde_json::Value);

/// `serde_json::Number`, a JSON number.
#[verifier::external_type_specification]
#[verifier::external_body]
pub struct ExNumber(serde_json::Number);

/// `serde_json::Map`, the members of a JSON object.
#[verifier::external_type_specification]
#[verifier::external_body]
#[verifier::reject_recursive_types(K)]
#[verifier::reject_recursive_types(V)]
pub struct ExMap<K, V>(serde_json::Map<K, V>);

/// What a JSON document holds.
pub enum Json {
    Null,
    Bool(bool),
    Number(serde_json::Number),
    Text(Seq<char>),
    List(Seq<Json>),
    Object(Map<Seq<char>, Json>),
}

/// The contents of a `serde_json::Value`.
pub uninterp spec fn json_of(value: serde_json::Value) -> Json;

/// The members of a `serde_json::Map`.
pub uninterp spec fn members_of(map: serde_json::Map<String, serde_json::Value>) -> Map<
    Seq<char>,
    Json,
>;

/// The member of a document under a key, where the document is an object that has one.
pub open spec fn member(doc: Json, key: Seq<char>) -> Option<Json> {
    match doc {
        Json::Object(members) => if members.contains_key(key) {
            Some(members[key])
        } else {
            None
        },
        _ => None,
    }
}

/// The text of a document that is a string.
pub open spec fn text_of(doc: Option<Json>) -> Option<Seq<char>> {
    match doc {
        Some(Json::Text(text)) => Some(text),
        _ => None,
    }
}

/// The contents of an optional value.
pub open spec fn opt_json(value: Option<&Value>) -> Option<Json> {
    match value {
        Some(v) => Some(json_of(*v)),
        None => None,
    }
}

/// The contents of each value.
pub open spec fn json_all(values: Seq<Value>) -> Seq<Json> {
    values.map_values(|value: Value| json_of(value))
}

/// `Value::get` with a string index: the member of an object under that key; nothing
/// where there is none or the value is no object.
#[verifier::external_body]
pub(crate) fn get_member<'a>(value: &'a Value, key: &str) -> (r: Option<&'a Value>)
    ensures
        match r {
            Some(found) => member(json_of(*value), key@) == Some(json_of(*found)),
            None => member(json_of(*value), key@) is None,
        },
{
    value.get(key)
}

/// `Map::get`: the member under that key, if there is one.
#[verifier::external_body]
pub(crate) fn get_entry<'a>(map: &'a serde_json::Map<String, Value>, key: &str) -> (r: Option<
    &'a Value,
>)
    ensures
        match r {
            Some(found) => members_of(*map).contains_key(key@) && members_of(*map)[key@]
                == json_of(*found),
            None => !members_of(*map).contains_key(key@),
        },
{
    map.get(key)
}

/// `Value::as_str`: the text of a string; nothing for any other value.
pub assume_specification[ serde_json::Value::as_str ](value: &serde_json::Value) -> (r: Option<&str>)
    ensures
        match r {
            Some(text) => json_of(*value) == Json::Text(text@),
            None => !(json_of(*value) is Text),
        },
;

/// `Value::as_bool`: the truth value of a boolean; nothing for any other value.
pub assume_specification[ serde_json::Value::as_bool ](value: &serde_json::Value) -> (r: Option<bool>)
    ensures
        match r {
            Some(b) => json_of(*value) == Json::Bool(b),
            None => !(json_of(*value) is Bool),
        },
;

/// `Value::as_array`: the items of an array, in order; nothing for any other value.
pub assume_specification[ serde_json::Value::as_array ](value: &serde_json::Value) -> (r: Option<
    &Vec<serde_json::Value>,
>)
    ensures
        match r {
            Some(items) => json_of(*value) == Json::List(json_all(items@)),
            None => !(json_of(*value) is List),
        },
;

/// `Value::as_object`: the members of an object; nothing for any other value.
pub assume_specification[ serde_json::Value::as_object ](value: &serde_json::Value) -> (r: Option<
    &serde_json::Map<String, serde_json::Value>,
>)
    ensures
        match r {
            Some(map) => json_of(*value) == Json::Object(members_of(*map)),
            None => !(json_of(*value) is Object),
        },
;

/// `Value::clone`: a value with the same contents.
#[verifier::external_body]
pub(crate) fn copy_value(value: &Value) -> (r: Value)
    ensures
        json_of(r) == json_of(*value),
{
    value.clone()
}

/// `Value::from` on a `String`: a JSON string.
#[verifier::external_body]
pub(crate) fn text_value(text: String) -> (r: Value)
    ensures
        json_of(r) == Json::Text(text@),
{
    Value::from(text)
}

/// `Value::from` on a `bool`: a JSON boolean.
#[verifier::external_body]
pub(crate) fn bool_value(b: bool) -> (r: Value)
    ensures
        json_of(r) == Json::Bool(b),
{
    Value::from(b)
}

/// `Value::from` on a `Vec`: a JSON array of those items, in order.
#[verifier::external_body]
pub(crate) fn list_value(items: Vec<Value>) -> (r: Value)
    ensures
        json_of(r) == Json::List(json_all(items@)),
{
    Value::from(items)
}

/// `Value::from` on an empty `Map`: a JSON object without members.
#[verifier::external_body]
pub(crate) fn object_value() -> (r: Value)
    ensures
        json_of(r) == Json::Object(Map::empty()),
{
    Value::from(serde_json::Map::new())
}

/// The members that a document has for the purpose of writing one: those of an object,
/// none for null.
pub open spec fn writable_members(doc: Json) -> Map<Seq<char>, Json> {
    match doc {
        Json::Object(members) => members,
        _ => Map::empty(),
    }
}

/// `Value::index_mut` with a string index, and a write to the place that it gives: the
/// member under that key is the new one, and every other member stays. A null becomes an
/// object. On any other value the index panics.
#[verifier::external_body]
pub(crate) fn set_member(value: &mut Value, key: &str, item: Value)
    requires
        json_of(*old(value)) is Object || json_of(*old(value)) is Null,
    ensures
        json_of(*final(value)) == Json::Object(
            writable_members(json_of(*old(value))).insert(key@, json_of(item)),
        ),
{
    value[key] = item;
}

/// The members of a document are those of an object, and a document that is no object has
/// none; the text of a document is that of a string, and no other document has one. A null
/// can be written to like an object without members.
pub proof fn documents_are_read_by_their_kind(
    members: Map<Seq<char>, Json>,
    key: Seq<char>,
    other: Json,
    text: Seq<char>,
)
    requires
        !(other is Object),
    ensures
        members.contains_key(key) ==> member(Json::Object(members), key) == Some(members[key]),
        !members.contains_key(key) ==> member(Json::Object(members), key) is None,
        member(other, key) is None,
        text_of(Some(Json::Text(text))) == Some(text),
        !(other is Text) ==> text_of(Some(other)) is None,
        text_of(Some(Json::Object(members))) is None,
        text_of(None) is None,
        writable_members(Json::Object(members)) == members,
        writable_members(Json::Null) == Map::<Seq<char>, Json>::empty(),
{
}

/// An optional document is there where the value is, with the same contents, and a list of
/// documents holds the contents of each value, in order.
pub proof fn values_keep_their_contents(value: &Value, values: Seq<Value>, i: int)
    ensures
        opt_json(Some(value)) == Some(json_of(*value)),
        opt_json(None) is None,
        json_all(values).len() == values.len(),
        0 <= i < values.len() ==> json_all(values)[i] == json_of(values[i]),
{
}

} // verus!

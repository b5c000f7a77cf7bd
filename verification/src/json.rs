//! The JSON values of `serde_json`, as far as session arguments are built
//! from them.
//!
//! `serde_json::Value` and `serde_json::Map` are opaque to the verifier. Each
//! function here makes one call into `serde_json`, and its contract says in
//! terms of [`Json`] what that call returns. These contracts are taken from
//! the source of `serde_json` and are not proved.

use vstd::prelude::*;

verus! {

/// The mathematical content of a JSON value.
pub enum Json {
    Null,
    Bool(bool),
    Number(int),
    Text(Seq<char>),
    Array(Seq<Json>),
    Object(Map<Seq<char>, Json>),
}

/// `serde_json::Value`, a JSON value. The verifier sees nothing inside it;
/// [`json_of`] names what it holds.
#[verifier::external_type_specification]
#[verifier::external_body]
pub struct ExValue(serde_json::Value);

/// `serde_json::Map`, the members of a JSON object. The verifier sees
/// nothing inside it; [`members_of`] names what it holds.
#[verifier::external_type_specification]
#[verifier::external_body]
#[verifier::reject_recursive_types(K)]
#[verifier::reject_recursive_types(V)]
pub struct ExObject<K, V>(serde_json::Map<K, V>);

/// The members of a JSON object, by key.
pub type Members = Map<Seq<char>, Json>;

/// What a `serde_json::Value` holds: `Value::Null` is `Json::Null`,
/// `Value::Bool` the boolean, `Value::Number` of a whole number that number,
/// `Value::String` its characters, `Value::Array` the contents of its
/// items in their order, and `Value::Object` the members of its map.
pub uninterp spec fn json_of(value: serde_json::Value) -> Json;

/// The members of a `serde_json::Map`: for each key that the map holds,
/// by the characters of the key, what its value holds.
pub uninterp spec fn members_of(object: serde_json::Map<String, serde_json::Value>) -> Members;

/// `Value::from(bool)`: the JSON boolean `flag`.
#[verifier::external_body]
pub(crate) fn json_bool(flag: bool) -> (value: serde_json::Value)
    ensures
        json_of(value) == Json::Bool(flag),
{
    serde_json::Value::from(flag)
}

/// `Value::from(u32)`: the JSON number `number`.
#[verifier::external_body]
pub(crate) fn json_number(number: u32) -> (value: serde_json::Value)
    ensures
        json_of(value) == Json::Number(number as int),
{
    serde_json::Value::from(number)
}

/// `Value::from(&str)`: the JSON string with the characters of `text`.
#[verifier::external_body]
pub(crate) fn json_text(text: &str) -> (value: serde_json::Value)
    ensures
        json_of(value) == Json::Text(text@),
{
    serde_json::Value::from(text)
}

/// `Value::from(Vec<Value>)`: the JSON array of `items`, in their order.
#[verifier::external_body]
pub(crate) fn json_array(items: Vec<serde_json::Value>) -> (value: serde_json::Value)
    ensures
        json_of(value) == Json::Array(items@.map_values(|item: serde_json::Value| json_of(item))),
{
    serde_json::Value::from(items)
}

/// `Value::from(Map<String, Value>)`: the JSON object with the members of
/// `object`.
#[verifier::external_body]
pub(crate) fn json_object(
    object: serde_json::Map<String, serde_json::Value>,
) -> (value: serde_json::Value)
    ensures
        json_of(value) == Json::Object(members_of(object)),
{
    serde_json::Value::from(object)
}

/// `Map::new`: an object without members.
#[verifier::external_body]
pub(crate) fn object_new() -> (object: serde_json::Map<String, serde_json::Value>)
    ensures
        members_of(object) == Members::empty(),
{
    serde_json::Map::new()
}

/// `Map::insert`: `key` now maps to `value`, whether or not the object had
/// a member of that name; every other member stays as it was.
#[verifier::external_body]
pub(crate) fn object_insert(
    object: &mut serde_json::Map<String, serde_json::Value>,
    key: String,
    value: serde_json::Value,
)
    ensures
        members_of(*final(object)) == members_of(*old(object)).insert(key@, json_of(value)),
{
    object.insert(key, value);
}

} // verus!

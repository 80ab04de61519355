//! JSON documents, built with `serde_json` and described by a mathematical
//! model.

use vstd::prelude::*;

verus! {

/// A JSON document as a mathematical value.
pub enum JsonModel {
    Null,
    Bool(bool),
    /// A number, by its decimal text.
    Number(Seq<char>),
    Text(Seq<char>),
    List(Seq<JsonModel>),
    Object(Map<Seq<char>, JsonModel>),
}

/// `serde_json::Value`, carried as it is; what it holds is told by
/// `json_model`.
#[verifier::external_type_specification]
#[verifier::external_body]
pub struct ExJsonValue(serde_json::Value);

/// `serde_json::Map`, carried as it is; what it holds is told by
/// `object_members`.
#[verifier::external_type_specification]
#[verifier::external_body]
#[verifier::reject_recursive_types(K)]
#[verifier::reject_recursive_types(V)]
pub struct ExJsonMap<K, V>(serde_json::Map<K, V>);

/// The document that a `serde_json::Value` holds.
pub uninterp spec fn json_model(value: serde_json::Value) -> JsonModel;

/// The members that a `serde_json::Map` holds, by key.
pub uninterp spec fn object_members(map: serde_json::Map<String, serde_json::Value>) -> Map<
    Seq<char>,
    JsonModel,
>;

/// The documents that a sequence of values holds, in order.
pub open spec fn json_models(values: Seq<serde_json::Value>) -> Seq<JsonModel> {
    Seq::new(values.len(), |i: int| json_model(values[i]))
}

/// `Value::from` on a string slice: trusted to give the JSON string with the
/// same characters.
#[verifier::external_body]
pub(crate) fn text_value(text: &str) -> (value: serde_json::Value)
    ensures
        json_model(value) == JsonModel::Text(text@),
{
    serde_json::Value::from(text)
}

/// `Value::from` on a `bool`: trusted to give the JSON boolean of that truth
/// value.
#[verifier::external_body]
pub(crate) fn bool_value(flag: bool) -> (value: serde_json::Value)
    ensures
        json_model(value) == JsonModel::Bool(flag),
{
    serde_json::Value::from(flag)
}

/// `Value::from` on a vector of values: trusted to give the JSON array of the
/// same documents in the same order.
#[verifier::external_body]
pub(crate) fn list_value(items: Vec<serde_json::Value>) -> (value: serde_json::Value)
    ensures
        json_model(value) == JsonModel::List(json_models(items@)),
{
    serde_json::Value::from(items)
}

/// `Value::from` on a map: trusted to give the JSON object with the map's
/// members.
#[verifier::external_body]
pub(crate) fn object_value(members: serde_json::Map<String, serde_json::Value>) -> (value:
    serde_json::Value)
    ensures
        json_model(value) == JsonModel::Object(object_members(members)),
{
    serde_json::Value::from(members)
}

/// `Map::new`: trusted to give a map without members.
#[verifier::external_body]
pub(crate) fn empty_members() -> (members: serde_json::Map<String, serde_json::Value>)
    ensures
        object_members(members) =~= Map::empty(),
{
    serde_json::Map::new()
}

/// `Map::insert`: trusted to set the member under `key` to `value`, replacing
/// the member that had this key, and to leave the other members as they were.
#[verifier::external_body]
pub(crate) fn put_member(
    members: &mut serde_json::Map<String, serde_json::Value>,
    key: &str,
    value: serde_json::Value,
)
    ensures
        object_members(*final(members)) == object_members(*old(members)).insert(
            key@,
            json_model(value),
        ),
{
    members.insert(key.to_string(), value);
}

} // verus!

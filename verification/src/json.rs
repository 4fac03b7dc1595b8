//! JSON documents. `serde_json` holds and writes them; this module states what
//! the calls into it are taken to do.

use vstd::prelude::*;

verus! {

/// A JSON document, as far as this library builds one.
pub enum Json {
    Text(Seq<char>),
    Integer(int),
    List(Seq<Json>),
    Object(Map<Seq<char>, Json>),
}

/// `serde_json::Value`: a JSON document, closed to the verifier.
#[verifier::external_type_specification]
#[verifier::external_body]
pub struct ExJsonValue(serde_json::Value);

/// `serde_json::Map`: the members of a JSON object, closed to the verifier.
#[verifier::external_type_specification]
#[verifier::external_body]
#[verifier::reject_recursive_types(K)]
#[verifier::reject_recursive_types(V)]
pub struct ExJsonMap<K, V>(serde_json::Map<K, V>);

/// The document that a `serde_json::Value` holds: its strings, integers,
/// lists and objects, down to the leaves.
pub uninterp spec fn json_model(value: serde_json::Value) -> Json;

/// The members of a `serde_json::Map`, each name with the document under it.
pub uninterp spec fn json_members(object: serde_json::Map<String, serde_json::Value>) -> Map<
    Seq<char>,
    Json,
>;

/// The compact text that `serde_json` writes for a document.
pub uninterp spec fn json_text(document: Json) -> Seq<char>;

/// What `serde_json::to_string` makes of a list of strings: the JSON text, or
/// `None` where it reports an error.
pub uninterp spec fn json_of_strings(items: Seq<Seq<char>>) -> Option<Seq<char>>;

/// The object without members.
pub open spec fn no_members() -> Map<Seq<char>, Json> {
    Map::empty()
}

/// Each value of a bag as a JSON string.
pub open spec fn text_members(bag: Map<Seq<char>, Seq<char>>) -> Map<Seq<char>, Json> {
    bag.map_values(|value: Seq<char>| Json::Text(value))
}

/// `serde_json::Map::new`, taken to give an object without members.
#[verifier::external_body]
pub(crate) fn json_object_new() -> (object: serde_json::Map<String, serde_json::Value>)
    ensures
        json_members(object) == no_members(),
{
    serde_json::Map::new()
}

/// `serde_json::Map::insert`, taken to put `value` under `name` in place of
/// what was there and to leave the other members alone.
#[verifier::external_body]
pub(crate) fn json_object_insert(
    object: &mut serde_json::Map<String, serde_json::Value>,
    name: String,
    value: serde_json::Value,
)
    ensures
        json_members(*final(object)) == json_members(*old(object)).insert(name@, json_model(value)),
{
    object.insert(name, value);
}

/// `serde_json::Value::from` on a string, taken to give the JSON string of these characters.
#[verifier::external_body]
pub(crate) fn json_string(text: String) -> (value: serde_json::Value)
    ensures
        json_model(value) == Json::Text(text@),
{
    serde_json::Value::from(text)
}

/// `serde_json::Value::from` on an `i64`, taken to give the JSON number of this integer.
#[verifier::external_body]
pub(crate) fn json_integer(number: i64) -> (value: serde_json::Value)
    ensures
        json_model(value) == Json::Integer(number as int),
{
    serde_json::Value::from(number)
}

/// `serde_json::Value::from` on a map, taken to give the JSON object of its members.
#[verifier::external_body]
pub(crate) fn json_object(object: serde_json::Map<String, serde_json::Value>) -> (value:
    serde_json::Value)
    ensures
        json_model(value) == Json::Object(json_members(object)),
{
    serde_json::Value::from(object)
}

/// `serde_json::Value::from` on a vector of values, taken to give the JSON
/// array of the same documents in the same order.
#[verifier::external_body]
pub(crate) fn json_array(items: Vec<serde_json::Value>) -> (value: serde_json::Value)
    ensures
        json_model(value) == Json::List(
            items@.map_values(|item: serde_json::Value| json_model(item)),
        ),
{
    serde_json::Value::from(items)
}

/// `to_string` of a `serde_json::Value`, taken to give the compact text of the
/// document that the value holds.
#[verifier::external_body]
pub(crate) fn json_to_string(value: &serde_json::Value) -> (text: String)
    ensures
        text@ == json_text(json_model(*value)),
{
    value.to_string()
}

/// `serde_json::to_string` on a list of strings, an error becoming `None`.
#[verifier::external_body]
pub(crate) fn strings_to_json(items: &Vec<String>) -> (text: Option<String>)
    ensures
        text.deep_view() == json_of_strings(items.deep_view()),
{
    serde_json::to_string(items).ok()
}

} // verus!

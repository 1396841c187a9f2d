//! JSON values as `serde_json` holds them, and what is known of them here.
use vstd::prelude::*;
use serde_json::Value;

verus! {

/// A JSON object of `serde_json`: its members by key.
pub type Object = serde_json::Map<String, Value>;

/// `Value`: any JSON value. Opaque here: `json_of` says what one
/// holds.
#[verifier::external_type_specification]
#[verifier::external_body]
pub struct ExValue(serde_json::Value);

/// `serde_json::Map`: the members of a JSON object. Opaque here:
/// `members_of` says what one holds.
#[verifier::external_type_specification]
#[verifier::external_body]
#[verifier::reject_recursive_types(K)]
#[verifier::reject_recursive_types(V)]
pub struct ExObject<K, V>(serde_json::Map<K, V>);

/// A JSON value as mathematics has it. A number is kept as it is written.
pub enum Json {
    Null,
    Bool(bool),
    Number(Seq<char>),
    Text(Seq<char>),
    List(Seq<Json>),
    Object(Map<Seq<char>, Json>),
}

/// The JSON value that a `Value` holds.
pub uninterp spec fn json_of(value: Value) -> Json;

/// The members that a `serde_json::Map` holds, by key. The map keeps them
/// in the order of their keys, whatever the order they were set in.
pub uninterp spec fn members_of(object: Object) -> Map<Seq<char>, Json>;

/// What `serde_json::to_string` writes for an object with the given
/// members: they are written in the order of their keys, so the text depends
/// on the members alone.
pub uninterp spec fn json_text(members: Map<Seq<char>, Json>) -> Seq<char>;

/// An object without members.
pub open spec fn no_members() -> Map<Seq<char>, Json> {
    Map::empty()
}

/// The values of a vector, each as `json_of` gives it.
pub open spec fn jsons_of(items: Seq<Value>) -> Seq<Json> {
    Seq::new(items.len(), |i: int| json_of(items[i]))
}

/// `Value::String`: the JSON string that holds `text`.
#[verifier::external_body]
pub(crate) fn json_string(text: String) -> (value: Value)
    ensures
        json_of(value) == Json::Text(text@),
{
    Value::String(text)
}

/// `Value::Array`: the JSON array of `items`, in their order.
#[verifier::external_body]
pub(crate) fn json_array(items: Vec<Value>) -> (value: Value)
    ensures
        json_of(value) == Json::List(jsons_of(items@)),
{
    Value::Array(items)
}

/// `Value::Object`: the JSON object with the members of
/// `object`.
#[verifier::external_body]
pub(crate) fn json_object(object: Object) -> (value: Value)
    ensures
        json_of(value) == Json::Object(members_of(object)),
{
    Value::Object(object)
}

/// `serde_json::Map::new`: an object without members.
#[verifier::external_body]
pub(crate) fn new_object() -> (object: Object)
    ensures
        members_of(object) == no_members(),
{
    serde_json::Map::new()
}

/// `serde_json::Map::insert`: sets the member `key` to `value`, in place of
/// what the key held before, if anything; all other members stay.
#[verifier::external_body]
pub(crate) fn object_insert(object: &mut Object, key: String, value: Value)
    ensures
        members_of(*final(object)) == members_of(*old(object)).insert(key@, json_of(value)),
{
    object.insert(key, value);
}

/// `serde_json::to_string` on an object: it succeeds, and the text it
/// writes is that of the object's members. It writes into a `Vec`, whose
/// `write` does not fail, and the keys are strings, so none of the errors
/// of the writer can come about.
#[verifier::external_body]
pub(crate) fn object_to_string(object: &Object) -> (r: Result<String, serde_json::Error>)
    ensures
        r is Ok,
        r matches Ok(text) ==> text@ == json_text(members_of(*object)),
{
    serde_json::to_string(object)
}

} // verus!

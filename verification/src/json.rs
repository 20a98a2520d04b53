//! JSON documents: the mathematical value of a document, and the
//! `serde_json` calls that the decoder and the encoder rest on.
//!
//! Nothing in this file is proved. Each contract says what the source of
//! `serde_json` shows of the call under it; the rest of the library is
//! proved from these contracts.

use vstd::prelude::*;

verus! {

/// A JSON document as a mathematical value.
///
/// A number is kept as `serde_json` holds it; nothing here looks inside one.
pub enum Json {
    Null,
    Bool(bool),
    Number(serde_json::Number),
    Text(Seq<char>),
    Array(Seq<Json>),
    Object(Map<Seq<char>, Json>),
}

/// `serde_json::Value`: a JSON value. It is read through the functions
/// below only; [`json_of`] says which document it holds.
#[verifier::external_type_specification]
#[verifier::external_body]
pub struct ExValue(serde_json::Value);

/// `serde_json::Number`: a JSON number. It stands in [`Json`] and is never
/// looked into.
#[verifier::external_type_specification]
#[verifier::external_body]
pub struct ExNumber(serde_json::Number);

/// `serde_json::Error`: why a text is not JSON. It is handed on as it is.
#[verifier::external_type_specification]
#[verifier::external_body]
pub struct ExError(serde_json::Error);

/// `serde_json::Map`: the fields of a JSON object while it is built.
/// [`fields_of`] says which fields it holds.
#[verifier::external_type_specification]
#[verifier::external_body]
#[verifier::reject_recursive_types(K)]
#[verifier::reject_recursive_types(V)]
pub struct ExMap<K, V>(serde_json::Map<K, V>);

/// The document that a `serde_json::Value` holds.
pub uninterp spec fn json_of(value: serde_json::Value) -> Json;

/// The documents that a sequence of values holds, in order.
pub open spec fn jsons(values: Seq<serde_json::Value>) -> Seq<Json> {
    values.map_values(|v: serde_json::Value| json_of(v))
}

/// The fields that a `serde_json::Map` holds, each key with its document.
pub uninterp spec fn fields_of(map: serde_json::Map<String, serde_json::Value>) -> Map<
    Seq<char>,
    Json,
>;

/// What `serde_json::from_str` reads from a text: the document, or `None`
/// where it reports an error.
pub uninterp spec fn parsed(text: Seq<char>) -> Option<Json>;

/// `serde_json::from_str` at the type `Value`. The call depends on the text
/// alone; `parsed` names what it gives.
#[verifier::external_body]
pub(crate) fn parse(text: &str) -> (r: Result<serde_json::Value, serde_json::Error>)
    ensures
        match r {
            Ok(value) => parsed(text@) == Some(json_of(value)),
            Err(_) => parsed(text@) is None,
        },
{
    serde_json::from_str::<serde_json::Value>(text)
}

/// `Value::get` with a string key: the field of that name where the value is
/// an object that has it, and `None` for every other value.
#[verifier::external_body]
pub(crate) fn field<'a>(value: &'a serde_json::Value, key: &str) -> (r: Option<
    &'a serde_json::Value,
>)
    ensures
        match json_of(*value) {
            Json::Object(fields) => if fields.contains_key(key@) {
                r matches Some(found) && json_of(*found) == fields[key@]
            } else {
                r is None
            },
            _ => r is None,
        },
{
    value.get(key)
}

/// `Value::as_str`: the text of a JSON string, and `None` for every other
/// value.
#[verifier::external_body]
pub(crate) fn as_text<'a>(value: &'a serde_json::Value) -> (r: Option<&'a str>)
    ensures
        match json_of(*value) {
            Json::Text(text) => r matches Some(found) && found@ == text,
            _ => r is None,
        },
{
    value.as_str()
}

/// `Value::as_array`: the items of a JSON array, in order, and `None` for
/// every other value.
#[verifier::external_body]
pub(crate) fn as_items<'a>(value: &'a serde_json::Value) -> (r: Option<
    &'a Vec<serde_json::Value>,
>)
    ensures
        match json_of(*value) {
            Json::Array(items) => r matches Some(found) && jsons(found@) == items,
            _ => r is None,
        },
{
    value.as_array()
}

/// `Value::is_object`: whether the value is a JSON object.
#[verifier::external_body]
pub(crate) fn is_object(value: &serde_json::Value) -> (r: bool)
    ensures
        r == (json_of(*value) is Object),
{
    value.is_object()
}

/// `Value::is_null`: whether the value is the JSON `null`.
#[verifier::external_body]
pub(crate) fn is_null(value: &serde_json::Value) -> (r: bool)
    ensures
        r == (json_of(*value) is Null),
{
    value.is_null()
}

/// `Value::clone`: a value that holds the same document.
#[verifier::external_body]
pub(crate) fn duplicate(value: &serde_json::Value) -> (r: serde_json::Value)
    ensures
        json_of(r) == json_of(*value),
{
    value.clone()
}

/// The variant `Value::Null`.
#[verifier::external_body]
pub(crate) fn null_value() -> (r: serde_json::Value)
    ensures
        json_of(r) == Json::Null,
{
    serde_json::Value::Null
}

/// The variant `Value::String`, which holds the text given.
#[verifier::external_body]
pub(crate) fn text_value(text: String) -> (r: serde_json::Value)
    ensures
        json_of(r) == Json::Text(text@),
{
    serde_json::Value::String(text)
}

/// The variant `Value::Array`, which holds the items given, in order.
#[verifier::external_body]
pub(crate) fn array_value(items: Vec<serde_json::Value>) -> (r: serde_json::Value)
    ensures
        json_of(r) == Json::Array(jsons(items@)),
{
    serde_json::Value::Array(items)
}

/// The variant `Value::Object`, which holds the fields of the map given.
#[verifier::external_body]
pub(crate) fn object_value(fields: serde_json::Map<String, serde_json::Value>) -> (r:
    serde_json::Value)
    ensures
        json_of(r) == Json::Object(fields_of(fields)),
{
    serde_json::Value::Object(fields)
}

/// `Map::new`: a map without fields.
#[verifier::external_body]
pub(crate) fn no_fields() -> (r: serde_json::Map<String, serde_json::Value>)
    ensures
        fields_of(r).is_empty(),
{
    serde_json::Map::new()
}

/// `Map::insert`: the map then holds the value under the key, in place of
/// what it held there, and its other fields as before.
#[verifier::external_body]
pub(crate) fn put_field(
    fields: &mut serde_json::Map<String, serde_json::Value>,
    key: String,
    value: serde_json::Value,
)
    ensures
        fields_of(*final(fields)) == fields_of(*old(fields)).insert(key@, json_of(value)),
{
    fields.insert(key, value);
}

} // verus!

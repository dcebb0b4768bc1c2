//! JSON values as `serde_json` holds them.
//!
//! A [`Value`] is opaque here. What the library reads of it is its [`JsonShape`]; what only
//! `serde_json` can compute has a name: the value that a text parses to, and the text that a value
//! prints as.
use crate::text::blank;
use serde_json::Value;
use vstd::prelude::*;

verus! {

/// `serde_json::Value`, any JSON value.
#[verifier::external_type_specification]
#[verifier::external_body]
pub struct ExValue(serde_json::Value);

/// `serde_json::Map`, the fields of a JSON object.
#[verifier::external_type_specification]
#[verifier::external_body]
#[verifier::reject_recursive_types(K)]
#[verifier::reject_recursive_types(V)]
pub struct ExObject<K, V>(serde_json::Map<K, V>);

/// What a JSON value is, as far as the library reads it.
pub enum JsonShape {
    Null,
    Bool(bool),
    Integer,
    Float,
    Text(Seq<char>),
    Array(Seq<Value>),
    Object(Map<Seq<char>, Value>),
}

/// The shape of a JSON value.
pub uninterp spec fn json_shape(value: Value) -> JsonShape;

/// The fields of a JSON object.
pub uninterp spec fn object_fields(object: serde_json::Map<String, Value>) -> Map<Seq<char>, Value>;

/// The value that `serde_json::from_str` reads from a text, if it reads one.
pub uninterp spec fn json_parsed(text: Seq<char>) -> Option<Value>;

/// The text that a value displays as.
pub uninterp spec fn json_text(value: Value) -> Seq<char>;

/// The value that `Value::String` makes of a text.
pub uninterp spec fn json_string(text: Seq<char>) -> Value;

/// The value that `Value::Object` makes of an object with the given fields.
pub uninterp spec fn json_object(fields: Map<Seq<char>, Value>) -> Value;

/// A value without floats whose arrays and objects are nested at most `depth` deep.
pub open spec fn float_free(value: Value, depth: nat) -> bool
    decreases depth,
{
    match json_shape(value) {
        JsonShape::Float => false,
        JsonShape::Array(items) => depth > 0 && forall|k: int|
            0 <= k < items.len() ==> float_free(#[trigger] items[k], (depth - 1) as nat),
        JsonShape::Object(fields) => depth > 0 && forall|key: Seq<char>| #[trigger]
            fields.contains_key(key) ==> float_free(fields[key], (depth - 1) as nat),
        _ => true,
    }
}

/// A value whose text reads back as that value: one without floats, whose digits may come back
/// rounded, that is not nested too deep for the reader.
pub open spec fn reads_back(value: Value) -> bool {
    float_free(value, 127)
}

/// `Value::is_null`: whether the value is `null`.
pub assume_specification[ Value::is_null ](value: &Value) -> (r: bool)
    ensures
        r == (json_shape(*value) is Null),
;

/// `Value::as_str`: the text of a string, none for any other value.
pub assume_specification[ Value::as_str ](value: &Value) -> (r: Option<&str>)
    ensures
        match r {
            Some(text) => json_shape(*value) == JsonShape::Text(text@),
            None => !(json_shape(*value) is Text),
        },
;

/// `Value::as_object`: the fields of an object, none for any other value. An object is nothing but
/// its fields.
pub assume_specification[ Value::as_object ](value: &Value) -> (r: Option<
    &serde_json::Map<String, Value>,
>)
    ensures
        match r {
            Some(object) => json_shape(*value) == JsonShape::Object(object_fields(*object)) && *value
                == json_object(object_fields(*object)),
            None => !(json_shape(*value) is Object),
        },
;

/// `Value::clone`: the same value again.
pub assume_specification[ <Value as Clone>::clone ](value: &Value) -> (r: Value)
    ensures
        r == *value,
;

/// `serde_json::Map::is_empty`: whether there are no fields.
pub assume_specification[ serde_json::Map::<String, Value>::is_empty ](
    object: &serde_json::Map<String, Value>,
) -> (r: bool)
    ensures
        r == object_fields(*object).is_empty(),
;

/// `serde_json::Map::get`: the value of the field with the given name, if there is such a field.
#[verifier::external_body]
pub(crate) fn object_get<'a>(object: &'a serde_json::Map<String, Value>, key: &str) -> (r: Option<
    &'a Value,
>)
    ensures
        match r {
            Some(value) => object_fields(*object).contains_key(key@) && object_fields(*object)[key@]
                == *value,
            None => !object_fields(*object).contains_key(key@),
        },
{
    object.get(key)
}

/// `serde_json::Map::from_iter` of a single field: an object with just that field.
#[verifier::external_body]
pub(crate) fn object_of_one(key: String, value: Value) -> (r: serde_json::Map<String, Value>)
    ensures
        object_fields(r) == map![key@ => value],
{
    serde_json::Map::from_iter([(key, value)])
}

/// `serde_json::from_str`: the value that the text reads as, none where it is not JSON. The text
/// `{}` reads as an object without fields, and the text of a value without floats, nested no
/// deeper than the reader goes, reads as that value.
#[verifier::external_body]
pub(crate) fn parse_json(text: &str) -> (r: Option<Value>)
    ensures
        r == json_parsed(text@),
        text@ == "{}"@ ==> r == Some(json_object(Map::empty())) && json_shape(r->0)
            == JsonShape::Object(Map::empty()),
        forall|value: Value|
            reads_back(value) && #[trigger] json_text(value) == text@ ==> r == Some(value),
{
    serde_json::from_str(text).ok()
}

/// `Value::to_string`: the value as compact JSON, which is never blank. It reads as the same value
/// again where that value has no floats and is nested no deeper than the reader goes.
#[verifier::external_body]
pub(crate) fn value_text(value: &Value) -> (r: String)
    ensures
        r@ == json_text(*value),
        !blank(r@),
        reads_back(*value) ==> json_parsed(r@) == Some(*value),
{
    value.to_string()
}

/// `Value::String`: a JSON string with the given text.
#[verifier::external_body]
pub(crate) fn string_value(text: String) -> (r: Value)
    ensures
        r == json_string(text@),
        json_shape(r) == JsonShape::Text(text@),
{
    Value::String(text)
}

/// `Value::Object`: a JSON object with the given fields. The map keeps its fields sorted by name,
/// so the fields alone decide the value.
#[verifier::external_body]
pub(crate) fn object_value(object: serde_json::Map<String, Value>) -> (r: Value)
    ensures
        r == json_object(object_fields(object)),
        json_shape(r) == JsonShape::Object(object_fields(object)),
{
    Value::Object(object)
}

} // verus!

//! The JSON values that requests carry and replies bring, as `serde_json` holds them.
//!
//! `serde_json` parses, prints and stores the values. The rest of this crate reads and
//! builds them only through the functions at the end of this file. Each of them makes one
//! call of `serde_json`, and its contract says over the mathematical value [`Json`] what
//! that call does. These contracts are taken from the source of `serde_json` with its
//! default features; nothing in this crate proves them. They would not hold with the
//! feature `preserve_order`, which writes the members of an object in the order in which
//! they were put in, nor with `arbitrary_precision`, which holds a number as its text.

use serde_json::Value;
use vstd::prelude::*;

verus! {

/// A JSON number, in the three forms that `serde_json` tells apart.
pub enum JsonNumber {
    /// An integer that is not negative.
    PosInt(u64),
    /// A negative integer.
    NegInt(i64),
    /// A finite double, given by the 64 bits of its IEEE 754 form.
    Float(u64),
}

/// A JSON value as a mathematical value.
pub enum Json {
    Null,
    Bool(bool),
    Number(JsonNumber),
    String(Seq<char>),
    Array(Seq<Json>),
    Object(Map<Seq<char>, Json>),
}

impl Json {
    /// The member of an object under `key`; `None` for a missing key and for what is no object.
    pub open spec fn field(self, key: Seq<char>) -> Option<Json> {
        match self {
            Json::Object(members) => if members.contains_key(key) {
                Some(members[key])
            } else {
                None
            },
            _ => None,
        }
    }

    /// The characters of a string.
    pub open spec fn text(self) -> Option<Seq<char>> {
        match self {
            Json::String(text) => Some(text),
            _ => None,
        }
    }

    /// The value of a boolean.
    pub open spec fn flag(self) -> Option<bool> {
        match self {
            Json::Bool(flag) => Some(flag),
            _ => None,
        }
    }

    /// The value of an integer that is not negative.
    pub open spec fn count(self) -> Option<u64> {
        match self {
            Json::Number(JsonNumber::PosInt(count)) => Some(count),
            _ => None,
        }
    }
}

/// `serde_json::Value`, a JSON value. What it holds is [`json_of`].
#[verifier::external_type_specification]
#[verifier::external_body]
pub struct ExValue(Value);

/// `serde_json::Number`, a JSON number. What it holds is [`number_of`].
#[verifier::external_type_specification]
#[verifier::external_body]
pub struct ExNumber(serde_json::Number);

/// `serde_json::Map`, the members of a JSON object. What it holds is [`object_of`].
#[verifier::external_type_specification]
#[verifier::external_body]
#[verifier::reject_recursive_types(K)]
#[verifier::reject_recursive_types(V)]
pub struct ExMap<K, V>(serde_json::Map<K, V>);

/// `serde_json::Error`, the error of a parse. Nothing is read from it.
#[verifier::external_type_specification]
#[verifier::external_body]
pub struct ExError(serde_json::Error);

/// What a `serde_json::Value` holds: the value itself, its elements where it is an array,
/// and its members where it is an object.
pub uninterp spec fn json_of(value: Value) -> Json;

/// What a `serde_json::Number` holds: the integer, or the bits of the double.
pub uninterp spec fn number_of(number: serde_json::Number) -> JsonNumber;

/// The members of a `serde_json::Map`, by key.
pub uninterp spec fn object_of(members: serde_json::Map<String, Value>) -> Map<Seq<char>, Json>;

/// The value that `serde_json::from_slice` reads from a text; `None` where it reports an
/// error, as it does for a text that is not one JSON document.
pub uninterp spec fn json_parse(text: Seq<u8>) -> Option<Json>;

/// The text that `serde_json::to_vec` writes for a value, and the empty text should it
/// report an error. The members of an object are written in the order of their keys, so the
/// text depends on the value alone.
pub uninterp spec fn json_text(value: Json) -> Seq<u8>;

/// The element values of an array of `serde_json` values.
pub open spec fn jsons_of(values: Seq<Value>) -> Seq<Json> {
    values.map_values(|value: Value| json_of(value))
}

/// `serde_json::from_slice` for a `Value`: it succeeds on the texts that are one JSON
/// document, with the value that the text stands for.
#[verifier::external_body]
pub(crate) fn parse_value(text: &[u8]) -> (r: Result<Value, serde_json::Error>)
    ensures
        (r is Ok) == (json_parse(text@) is Some),
        r matches Ok(value) ==> json_parse(text@) == Some(json_of(value)),
{
    serde_json::from_slice(text)
}

/// `serde_json::to_vec` on a `Value`, with the empty text in place of an error.
#[verifier::external_body]
pub(crate) fn value_text(value: &Value) -> (r: Vec<u8>)
    ensures
        r@ == json_text(json_of(*value)),
{
    serde_json::to_vec(value).unwrap_or_default()
}

/// `Value::get` with a key: the member of an object under that key.
#[verifier::external_body]
pub(crate) fn value_get<'a>(value: &'a Value, key: &str) -> (r: Option<&'a Value>)
    ensures
        (r is Some) == (json_of(*value).field(key@) is Some),
        r matches Some(member) ==> json_of(*value).field(key@) == Some(json_of(*member)),
{
    value.get(key)
}

/// `Value::as_array`: the elements, where the value is an array.
#[verifier::external_body]
pub(crate) fn value_as_array(value: &Value) -> (r: Option<&Vec<Value>>)
    ensures
        (r is Some) == (json_of(*value) is Array),
        r matches Some(items) ==> json_of(*value) == Json::Array(jsons_of(items@)),
{
    value.as_array()
}

/// `Value::as_object`: the members, where the value is an object.
#[verifier::external_body]
pub(crate) fn value_as_object(value: &Value) -> (r: Option<&serde_json::Map<String, Value>>)
    ensures
        (r is Some) == (json_of(*value) is Object),
        r matches Some(members) ==> json_of(*value) == Json::Object(object_of(*members)),
{
    value.as_object()
}

/// `Value::as_number`: the number, where the value is one.
#[verifier::external_body]
pub(crate) fn value_as_number(value: &Value) -> (r: Option<&serde_json::Number>)
    ensures
        (r is Some) == (json_of(*value) is Number),
        r matches Some(number) ==> json_of(*value) == Json::Number(number_of(*number)),
{
    value.as_number()
}

/// `Value::as_str`: the characters, where the value is a string.
#[verifier::external_body]
pub(crate) fn value_as_str(value: &Value) -> (r: Option<&str>)
    ensures
        (r is Some) == (json_of(*value) is String),
        r matches Some(text) ==> json_of(*value) == Json::String(text@),
{
    value.as_str()
}

/// `Value::as_u64`: the integer, where the value is an integer that is not negative.
#[verifier::external_body]
pub(crate) fn value_as_u64(value: &Value) -> (r: Option<u64>)
    ensures
        r == json_of(*value).count(),
{
    value.as_u64()
}

/// `Value::as_bool`: the boolean, where the value is one.
#[verifier::external_body]
pub(crate) fn value_as_bool(value: &Value) -> (r: Option<bool>)
    ensures
        r == json_of(*value).flag(),
{
    value.as_bool()
}

/// `Value::is_null`.
#[verifier::external_body]
pub(crate) fn value_is_null(value: &Value) -> (r: bool)
    ensures
        r == (json_of(*value) is Null),
{
    value.is_null()
}

/// `Value::Null`.
#[verifier::external_body]
pub(crate) fn value_null() -> (r: Value)
    ensures
        json_of(r) == Json::Null,
{
    Value::Null
}

/// `Value::Bool`.
#[verifier::external_body]
pub(crate) fn value_from_bool(flag: bool) -> (r: Value)
    ensures
        json_of(r) == Json::Bool(flag),
{
    Value::Bool(flag)
}

/// `Value::from` on a `u64`: the number that holds this integer.
#[verifier::external_body]
pub(crate) fn value_from_u64(count: u64) -> (r: Value)
    ensures
        json_of(r) == Json::Number(JsonNumber::PosInt(count)),
{
    Value::from(count)
}

/// `Value::String`.
#[verifier::external_body]
pub(crate) fn value_from_string(text: String) -> (r: Value)
    ensures
        json_of(r) == Json::String(text@),
{
    Value::String(text)
}

/// `Value::Number`.
#[verifier::external_body]
pub(crate) fn value_from_number(number: serde_json::Number) -> (r: Value)
    ensures
        json_of(r) == Json::Number(number_of(number)),
{
    Value::Number(number)
}

/// `Value::Array`.
#[verifier::external_body]
pub(crate) fn value_from_array(items: Vec<Value>) -> (r: Value)
    ensures
        json_of(r) == Json::Array(jsons_of(items@)),
{
    Value::Array(items)
}

/// `Value::Object`.
#[verifier::external_body]
pub(crate) fn value_from_object(members: serde_json::Map<String, Value>) -> (r: Value)
    ensures
        json_of(r) == Json::Object(object_of(members)),
{
    Value::Object(members)
}

/// `Map::new`: a map without members.
#[verifier::external_body]
pub(crate) fn map_new() -> (r: serde_json::Map<String, Value>)
    ensures
        object_of(r) == (Map::<Seq<char>, Json>::empty()),
{
    serde_json::Map::new()
}

/// `Map::insert`: the value stands under the key afterwards, in place of what stood there.
#[verifier::external_body]
pub(crate) fn map_insert(members: &mut serde_json::Map<String, Value>, key: String, value: Value)
    ensures
        object_of(*final(members)) == object_of(*old(members)).insert(key@, json_of(value)),
{
    members.insert(key, value);
}

/// `Clone::clone` of a `Map`: a map with the same members.
#[verifier::external_body]
pub(crate) fn map_clone(members: &serde_json::Map<String, Value>) -> (r: serde_json::Map<String, Value>)
    ensures
        object_of(r) == object_of(*members),
{
    members.clone()
}

/// `Clone::clone` of a `Number`: the same number.
#[verifier::external_body]
pub(crate) fn number_clone(number: &serde_json::Number) -> (r: serde_json::Number)
    ensures
        number_of(r) == number_of(*number),
{
    number.clone()
}

/// `Number::from_f64` on the default double, which is positive zero: all its bits are 0.
#[verifier::external_body]
pub(crate) fn number_zero() -> (r: serde_json::Number)
    ensures
        number_of(r) == JsonNumber::Float(0),
{
    serde_json::Number::from_f64(Default::default()).unwrap()
}

} // verus!

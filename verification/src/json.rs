//! JSON documents, as `serde_json` holds, reads and writes them.
//!
//! The documents themselves are `serde_json::Value`s. Verified code sees one
//! only through its model, a [`JsonValue`], and through the functions below,
//! whose contracts are taken on trust from the source of `serde_json`.

use vstd::prelude::*;

verus! {

/// The mathematical content of a JSON document.
///
/// An object is a map from keys to values: a key occurs once, and the order
/// of the keys carries no meaning. A number is either an unsigned whole
/// number below 2^64 or another number; the other numbers are told apart by
/// a code that this library never looks into.
pub enum JsonValue {
    Null,
    Bool(bool),
    Uint(u64),
    OtherNumber(int),
    Text(Seq<char>),
    Array(Seq<JsonValue>),
    Object(Map<Seq<char>, JsonValue>),
}

#[verifier::external_type_specification]
#[verifier::external_body]
pub struct ExValue(serde_json::Value);

#[verifier::external_type_specification]
#[verifier::external_body]
#[verifier::reject_recursive_types(K)]
#[verifier::reject_recursive_types(V)]
pub struct ExObject<K, V>(serde_json::Map<K, V>);

#[verifier::external_type_specification]
#[verifier::external_body]
pub struct ExError(serde_json::Error);

/// What the document `v` holds.
pub uninterp spec fn value_model(v: serde_json::Value) -> JsonValue;

/// What the key-value collection `m` of an object holds.
pub uninterp spec fn object_model(m: serde_json::Map<String, serde_json::Value>) -> Map<
    Seq<char>,
    JsonValue,
>;

/// The document that `serde_json` reads from the text `text`, if it reads one.
pub uninterp spec fn parsed_text(text: Seq<u8>) -> Option<JsonValue>;

/// The text that `serde_json` writes for a document that holds `v`, if it
/// writes one.
pub uninterp spec fn printed_value(v: JsonValue) -> Option<Seq<u8>>;

/// The members of an object without keys.
pub open spec fn no_members() -> Map<Seq<char>, JsonValue> {
    Map::empty()
}

/// What each document of `items` holds, in the same order.
pub open spec fn models_of(items: Seq<serde_json::Value>) -> Seq<JsonValue> {
    Seq::new(items.len(), |i: int| value_model(items[i]))
}

/// The member `key` of `v`, if `v` is an object that has it.
pub open spec fn member(v: JsonValue, key: Seq<char>) -> Option<JsonValue> {
    match v {
        JsonValue::Object(m) => if m.dom().contains(key) {
            Some(m[key])
        } else {
            None
        },
        _ => None,
    }
}

/// `serde_json::Value::as_str`: the text of a string document, `None` for
/// every other document.
pub assume_specification<'a>[ serde_json::Value::as_str ](v: &'a serde_json::Value) -> (r: Option<
    &'a str,
>)
    ensures
        match r {
            Some(s) => value_model(*v) == JsonValue::Text(s@),
            None => !(value_model(*v) is Text),
        },
;

/// `serde_json::Value::as_u64`: the number of a document that is an unsigned
/// whole number below 2^64, `None` for every other document.
pub assume_specification[ serde_json::Value::as_u64 ](v: &serde_json::Value) -> (r: Option<u64>)
    ensures
        match r {
            Some(n) => value_model(*v) == JsonValue::Uint(n),
            None => !(value_model(*v) is Uint),
        },
;

/// `serde_json::Value::as_array`: the items of an array document, `None` for
/// every other document.
pub assume_specification<'a>[ serde_json::Value::as_array ](v: &'a serde_json::Value) -> (r:
    Option<&'a Vec<serde_json::Value>>)
    ensures
        match r {
            Some(items) => value_model(*v) == JsonValue::Array(models_of(items@)),
            None => !(value_model(*v) is Array),
        },
;

/// `serde_json::Value::is_null`: whether the document is `null`.
pub assume_specification[ serde_json::Value::is_null ](v: &serde_json::Value) -> (r: bool)
    ensures
        r == (value_model(*v) is Null),
;

/// `serde_json::Map::new`: a collection without keys.
pub assume_specification[ serde_json::Map::<String, serde_json::Value>::new ]() -> (r:
    serde_json::Map<String, serde_json::Value>)
    ensures
        object_model(r) == no_members(),
;

/// `serde_json::Map::insert`: sets the value of key `k` to `v`, replacing the
/// value that the key had.
pub assume_specification[ serde_json::Map::<String, serde_json::Value>::insert ](
    m: &mut serde_json::Map<String, serde_json::Value>,
    k: String,
    v: serde_json::Value,
) -> (previous: Option<serde_json::Value>)
    ensures
        object_model(*final(m)) == object_model(*old(m)).insert(k@, value_model(v)),
;

/// `serde_json::Value::get` with a string index: the member `key` of an
/// object document, `None` where the document is no object or has no such
/// member.
#[verifier::external_body]
pub(crate) fn get_member<'a>(v: &'a serde_json::Value, key: &str) -> (r: Option<
    &'a serde_json::Value,
>)
    ensures
        match r {
            Some(found) => member(value_model(*v), key@) == Some(value_model(*found)),
            None => member(value_model(*v), key@) is None,
        },
{
    v.get(key)
}

/// The variant `serde_json::Value::Null`.
#[verifier::external_body]
pub(crate) fn null_value() -> (r: serde_json::Value)
    ensures
        value_model(r) == JsonValue::Null,
{
    serde_json::Value::Null
}

/// `serde_json::Value::from` on a `&str`: the string document with that text.
#[verifier::external_body]
pub(crate) fn text_value(s: &str) -> (r: serde_json::Value)
    ensures
        value_model(r) == JsonValue::Text(s@),
{
    serde_json::Value::from(s)
}

/// `serde_json::Value::from` on a `u64`: the number document with that value.
#[verifier::external_body]
pub(crate) fn uint_value(n: u64) -> (r: serde_json::Value)
    ensures
        value_model(r) == JsonValue::Uint(n),
{
    serde_json::Value::from(n)
}

/// The variant `serde_json::Value::Array`: the array document of the given
/// items, in their order.
#[verifier::external_body]
pub(crate) fn array_value(items: Vec<serde_json::Value>) -> (r: serde_json::Value)
    ensures
        value_model(r) == JsonValue::Array(models_of(items@)),
{
    serde_json::Value::Array(items)
}

/// The variant `serde_json::Value::Object`: the object document of the given
/// collection.
#[verifier::external_body]
pub(crate) fn object_value(m: serde_json::Map<String, serde_json::Value>) -> (r:
    serde_json::Value)
    ensures
        value_model(r) == JsonValue::Object(object_model(m)),
{
    serde_json::Value::Object(m)
}

/// `serde_json::from_slice` at the type `serde_json::Value`: reads a JSON
/// text. What it reads depends on the text alone.
#[verifier::external_body]
pub(crate) fn parse_text(text: &[u8]) -> (r: Result<serde_json::Value, serde_json::Error>)
    ensures
        match r {
            Ok(v) => parsed_text(text@) == Some(value_model(v)),
            Err(_) => parsed_text(text@) is None,
        },
{
    serde_json::from_slice::<serde_json::Value>(text)
}

/// `serde_json::to_vec` on a `serde_json::Value`: writes the document as
/// compact JSON text. What it writes depends on what the document holds
/// alone: `serde_json` is built here without `preserve_order`, so it keeps
/// the members of an object sorted by key.
#[verifier::external_body]
pub(crate) fn print_value(v: &serde_json::Value) -> (r: Result<Vec<u8>, serde_json::Error>)
    ensures
        match r {
            Ok(text) => printed_value(value_model(*v)) == Some(text@),
            Err(_) => printed_value(value_model(*v)) is None,
        },
{
    serde_json::to_vec(v)
}

} // verus!

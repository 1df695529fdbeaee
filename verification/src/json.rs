//! The mathematical model of a JSON document, and every call this library
//! makes into `serde_json`.
//!
//! Documents are held as `serde_json::Map<String, serde_json::Value>`. Verus
//! cannot see inside those types, so contracts speak of what a value holds
//! through two names, [`json_of`] and [`doc_of`]. The items of this file
//! marked as assumed state how each `serde_json` function relates to those
//! names; nothing here is proved, and everything outside this file is.

use serde_json::Error as JsonError;
use vstd::prelude::*;

verus! {

/// A JSON number. `serde_json` keeps a number as one of three forms and
/// compares numbers form by form.
pub enum JsonNumber {
    /// A non-negative integer.
    PosInt(u64),
    /// An integer below zero.
    NegInt(i64),
    /// Any other finite number. The payload identifies it: two such numbers
    /// compare equal exactly when their payloads are equal.
    Float(u64),
}

/// A JSON value as plain data.
pub enum Json {
    Null,
    Bool(bool),
    Number(JsonNumber),
    String(Seq<char>),
    Array(Seq<Json>),
    Object(Map<Seq<char>, Json>),
}

/// A JSON object as plain data: the keys that are present and what each holds.
pub type Doc = Map<Seq<char>, Json>;

/// The executable form of a JSON object.
pub type JsonMap = serde_json::Map<String, serde_json::Value>;

#[verifier::external_type_specification]
#[verifier::external_body]
pub struct ExValue(serde_json::Value);

#[verifier::external_type_specification]
#[verifier::external_body]
#[verifier::reject_recursive_types(K)]
#[verifier::reject_recursive_types(V)]
pub struct ExMap<K, V>(serde_json::Map<K, V>);

#[verifier::external_type_specification]
#[verifier::external_body]
pub struct ExJsonError(JsonError);

/// What a `serde_json::Value` holds.
pub uninterp spec fn json_of(v: serde_json::Value) -> Json;

/// What a `serde_json::Map` holds: its keys, each with the content of its value.
pub uninterp spec fn doc_of(m: serde_json::Map<String, serde_json::Value>) -> Doc;

/// What `serde_json::from_slice` makes of a run of bytes: the value they
/// spell, or `None` where they are not one well-formed JSON text.
pub uninterp spec fn parsed(bytes: Seq<u8>) -> Option<Json>;

/// The contents of a run of values, in order.
pub open spec fn jsons_of(values: Seq<serde_json::Value>) -> Seq<Json> {
    values.map_values(|v: serde_json::Value| json_of(v))
}

/// The contents of a run of maps, in order.
pub open spec fn docs_of(maps: Seq<serde_json::Map<String, serde_json::Value>>) -> Seq<Doc> {
    maps.map_values(|m: serde_json::Map<String, serde_json::Value>| doc_of(m))
}

/// `prior` is what a map held under `key` before an insert or a removal:
/// the old value where the key was present, nothing where it was not.
pub open spec fn is_prior(prior: Option<serde_json::Value>, before: Doc, key: Seq<char>) -> bool {
    match prior {
        Some(p) => before.contains_key(key) && json_of(p) == before[key],
        None => !before.contains_key(key),
    }
}

/// Assumed of `Value::as_str`: it yields the text of a string value and
/// nothing for any other value.
pub assume_specification[ serde_json::Value::as_str ](v: &serde_json::Value) -> (r: Option<&str>)
    ensures
        match json_of(*v) {
            Json::String(s) => r matches Some(t) && t@ == s,
            _ => r is None,
        },
;

/// Assumed of `Value::as_bool`: it yields the flag of a boolean value and
/// nothing for any other value.
pub assume_specification[ serde_json::Value::as_bool ](v: &serde_json::Value) -> (r: Option<bool>)
    ensures
        match json_of(*v) {
            Json::Bool(b) => r == Some(b),
            _ => r is None,
        },
;

/// Assumed of `Value::as_u64`: it yields a number kept as a non-negative
/// integer, and nothing for any other number or value.
pub assume_specification[ serde_json::Value::as_u64 ](v: &serde_json::Value) -> (r: Option<u64>)
    ensures
        match json_of(*v) {
            Json::Number(JsonNumber::PosInt(n)) => r == Some(n),
            _ => r is None,
        },
;

/// Assumed of `Value::as_array`: it lends the elements of an array value and
/// nothing for any other value.
pub assume_specification[ serde_json::Value::as_array ](v: &serde_json::Value) -> (r: Option<
    &Vec<serde_json::Value>,
>)
    ensures
        match json_of(*v) {
            Json::Array(items) => r matches Some(a) && jsons_of(a@) == items,
            _ => r is None,
        },
;

/// Assumed of `Value::as_object`: it lends the map of an object value and
/// nothing for any other value.
pub assume_specification[ serde_json::Value::as_object ](v: &serde_json::Value) -> (r: Option<
    &serde_json::Map<String, serde_json::Value>,
>)
    ensures
        match json_of(*v) {
            Json::Object(d) => r matches Some(m) && doc_of(*m) == d,
            _ => r is None,
        },
;

/// Assumed of `Value::as_array_mut`: for an array value it lends the elements
/// for writing, and the value ends as the array of whatever the elements end
/// as; any other value yields nothing and stays as it is.
pub assume_specification[ serde_json::Value::as_array_mut ](v: &mut serde_json::Value) -> (r:
    Option<&mut Vec<serde_json::Value>>)
    ensures
        match r {
            Some(a) => json_of(*old(v)) == Json::Array(jsons_of(a@)) && json_of(*final(v))
                == Json::Array(jsons_of(final(a)@)),
            None => !(json_of(*old(v)) is Array) && *final(v) == *old(v),
        },
;

/// Assumed of `Value::as_object_mut`: for an object value it lends the map
/// for writing, and the value ends as the object of whatever the map ends
/// as; any other value yields nothing and stays as it is.
pub assume_specification[ serde_json::Value::as_object_mut ](v: &mut serde_json::Value) -> (r:
    Option<&mut serde_json::Map<String, serde_json::Value>>)
    ensures
        match r {
            Some(m) => json_of(*old(v)) == Json::Object(doc_of(*m)) && json_of(*final(v))
                == Json::Object(doc_of(*final(m))),
            None => !(json_of(*old(v)) is Object) && *final(v) == *old(v),
        },
;

/// Assumed of `Map::new`: the new map has no key.
pub assume_specification[ serde_json::Map::<String, serde_json::Value>::new ]() -> (m:
    serde_json::Map<String, serde_json::Value>)
    ensures
        doc_of(m) == Doc::empty(),
;

/// Assumed of `Map::insert`: afterwards the key holds the new value and every
/// other key is as before; the value that the key held before is handed back.
pub assume_specification[ serde_json::Map::<String, serde_json::Value>::insert ](
    m: &mut serde_json::Map<String, serde_json::Value>,
    k: String,
    v: serde_json::Value,
) -> (prior: Option<serde_json::Value>)
    ensures
        doc_of(*final(m)) == doc_of(*old(m)).insert(k@, json_of(v)),
        is_prior(prior, doc_of(*old(m)), k@),
;

/// Assumed of `Clone::clone` on a map: the copy holds what the map holds.
pub assume_specification[ <serde_json::Map<String, serde_json::Value> as Clone>::clone ](
    m: &serde_json::Map<String, serde_json::Value>,
) -> (copy: serde_json::Map<String, serde_json::Value>)
    ensures
        doc_of(copy) == doc_of(*m),
;

/// Calls `Map::get`. Assumed: it lends the value under `key` where the key is
/// present, and yields nothing where it is not.
#[verifier::external_body]
pub(crate) fn map_get<'a>(m: &'a JsonMap, key: &str) -> (r: Option<&'a serde_json::Value>)
    ensures
        match r {
            Some(v) => doc_of(*m).contains_key(key@) && json_of(*v) == doc_of(*m)[key@],
            None => !doc_of(*m).contains_key(key@),
        },
{
    m.get(key)
}

/// Calls `Map::get_mut`. Assumed: where the key is present it lends the value
/// under it for writing, and the map ends with that key holding whatever the
/// value ends as, all else as before; where the key is absent it yields
/// nothing and the map stays as it is.
#[verifier::external_body]
pub(crate) fn map_get_mut<'a>(m: &'a mut JsonMap, key: &str) -> (r: Option<
    &'a mut serde_json::Value,
>)
    ensures
        match r {
            Some(v) => doc_of(*old(m)).contains_key(key@) && json_of(*v) == doc_of(*old(m))[key@]
                && doc_of(*final(m)) == doc_of(*old(m)).insert(key@, json_of(*final(v))),
            None => !doc_of(*old(m)).contains_key(key@) && *final(m) == *old(m),
        },
{
    m.get_mut(key)
}

/// Calls `Map::remove`. Assumed: afterwards the key is absent and every other
/// key is as before; the value that the key held is handed back.
#[verifier::external_body]
pub(crate) fn map_remove(m: &mut JsonMap, key: &str) -> (prior: Option<serde_json::Value>)
    ensures
        doc_of(*final(m)) == doc_of(*old(m)).remove(key@),
        is_prior(prior, doc_of(*old(m)), key@),
{
    m.remove(key)
}

/// Calls `Map::keys`. Assumed: the keys handed out are exactly the keys
/// present. Nothing is said of their order.
#[verifier::external_body]
pub(crate) fn map_keys<'a>(m: &'a JsonMap) -> (keys: Vec<&'a String>)
    ensures
        forall|i: int| 0 <= i < keys@.len() ==> doc_of(*m).contains_key(#[trigger] keys@[i]@),
        forall|k: Seq<char>| #[trigger]
            doc_of(*m).contains_key(k) ==> exists|i: int| 0 <= i < keys@.len() && keys@[i]@ == k,
{
    m.keys().collect()
}

/// Calls `==` on two maps. Assumed: they compare equal exactly when they
/// hold the same keys with the same contents.
#[verifier::external_body]
pub(crate) fn map_eq(a: &JsonMap, b: &JsonMap) -> (same: bool)
    ensures
        same == (doc_of(*a) == doc_of(*b)),
{
    a == b
}

/// Builds `Value::String`. Assumed: the value holds the given text.
#[verifier::external_body]
pub(crate) fn string_value(text: String) -> (v: serde_json::Value)
    ensures
        json_of(v) == Json::String(text@),
{
    serde_json::Value::String(text)
}

/// Builds `Value::Bool`. Assumed: the value holds the given flag.
#[verifier::external_body]
pub(crate) fn bool_value(flag: bool) -> (v: serde_json::Value)
    ensures
        json_of(v) == Json::Bool(flag),
{
    serde_json::Value::Bool(flag)
}

/// Builds `Value::Number` through `Number::from`. Assumed: the value holds
/// the given integer in its non-negative form.
#[verifier::external_body]
pub(crate) fn number_value(n: u64) -> (v: serde_json::Value)
    ensures
        json_of(v) == Json::Number(JsonNumber::PosInt(n)),
{
    serde_json::Value::Number(serde_json::Number::from(n))
}

/// Builds `Value::Array`. Assumed: the value holds the given elements in order.
#[verifier::external_body]
pub(crate) fn array_value(items: Vec<serde_json::Value>) -> (v: serde_json::Value)
    ensures
        json_of(v) == Json::Array(jsons_of(items@)),
{
    serde_json::Value::Array(items)
}

/// Builds `Value::Object`. Assumed: the value holds what the map holds.
#[verifier::external_body]
pub(crate) fn object_value(m: JsonMap) -> (v: serde_json::Value)
    ensures
        json_of(v) == Json::Object(doc_of(m)),
{
    serde_json::Value::Object(m)
}

/// Takes a `Value::Object` apart. Assumed: an object value gives up its map,
/// any other value gives nothing.
#[verifier::external_body]
pub(crate) fn into_object(v: serde_json::Value) -> (r: Option<JsonMap>)
    ensures
        match r {
            Some(m) => json_of(v) == Json::Object(doc_of(m)),
            None => !(json_of(v) is Object),
        },
{
    match v {
        serde_json::Value::Object(m) => Some(m),
        _ => None,
    }
}

/// Calls `serde_json::from_slice`. Assumed: the outcome depends on the bytes
/// alone, a value where they parse and an error where they do not.
#[verifier::external_body]
pub(crate) fn parse_slice(bytes: &[u8]) -> (r: Result<serde_json::Value, JsonError>)
    ensures
        match r {
            Ok(v) => parsed(bytes@) == Some(json_of(v)),
            Err(_) => parsed(bytes@) is None,
        },
{
    serde_json::from_slice(bytes)
}

/// Calls `==` on two string slices. Assumed: they compare equal exactly when
/// they hold the same characters.
#[verifier::external_body]
pub(crate) fn same_text(a: &str, b: &str) -> (same: bool)
    ensures
        same == (a@ == b@),
{
    a == b
}

} // verus!

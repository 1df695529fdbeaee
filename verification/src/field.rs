//! Typed reads and writes of one key of a document.
//!
//! Every declared field of every entity is one of six kinds: a string, an
//! array of strings, a boolean, an unsigned integer, a nested object, or an
//! array of nested objects. This module says, for each kind, what reading a
//! key finds ([`Lookup`]) and what writing it leaves behind, and holds the
//! functions that do so on a `serde_json` map. The typed views of the
//! entities are thin layers over these functions; the functions are public
//! so that callers can read and write fields of their own in the same way.

use crate::error::Error;
use crate::json::{
    array_value, bool_value, doc_of, docs_of, is_prior, json_of, jsons_of, map_get, map_get_mut,
    map_remove, number_value, object_value, string_value, Doc, Json, JsonMap, JsonNumber,
};
use serde_json::Value;
use vstd::prelude::*;

verus! {

/// What a typed read of one key finds.
pub enum Lookup<T> {
    /// The key is not in the document.
    Absent,
    /// The key is there, but its value is not of the kind asked for.
    Mismatch,
    /// The key is there and holds this.
    Present(T),
}

/// Every element is a string.
pub open spec fn all_strings(items: Seq<Json>) -> bool {
    forall|i: int| 0 <= i < items.len() ==> #[trigger] items[i] is String
}

/// The texts of an array of strings.
pub open spec fn strings_of(items: Seq<Json>) -> Seq<Seq<char>> {
    Seq::new(items.len(), |i: int| items[i]->String_0)
}

/// Every element is an object.
pub open spec fn all_objects(items: Seq<Json>) -> bool {
    forall|i: int| 0 <= i < items.len() ==> #[trigger] items[i] is Object
}

/// The documents of an array of objects.
pub open spec fn objects_of(items: Seq<Json>) -> Seq<Doc> {
    Seq::new(items.len(), |i: int| items[i]->Object_0)
}

/// The array that holds the given texts as strings.
pub open spec fn string_array(texts: Seq<Seq<char>>) -> Json {
    Json::Array(Seq::new(texts.len(), |i: int| Json::String(texts[i])))
}

/// The array that holds the given documents as objects.
pub open spec fn object_array(docs: Seq<Doc>) -> Json {
    Json::Array(Seq::new(docs.len(), |i: int| Json::Object(docs[i])))
}

/// Reading `key` as a string.
pub open spec fn string_at(doc: Doc, key: Seq<char>) -> Lookup<Seq<char>> {
    if !doc.contains_key(key) {
        Lookup::Absent
    } else {
        match doc[key] {
            Json::String(s) => Lookup::Present(s),
            _ => Lookup::Mismatch,
        }
    }
}

/// Reading `key` as an array of strings. One element of another kind makes
/// the whole read a mismatch.
pub open spec fn strings_at(doc: Doc, key: Seq<char>) -> Lookup<Seq<Seq<char>>> {
    if !doc.contains_key(key) {
        Lookup::Absent
    } else {
        match doc[key] {
            Json::Array(items) => if all_strings(items) {
                Lookup::Present(strings_of(items))
            } else {
                Lookup::Mismatch
            },
            _ => Lookup::Mismatch,
        }
    }
}

/// Reading `key` as a boolean.
pub open spec fn bool_at(doc: Doc, key: Seq<char>) -> Lookup<bool> {
    if !doc.contains_key(key) {
        Lookup::Absent
    } else {
        match doc[key] {
            Json::Bool(b) => Lookup::Present(b),
            _ => Lookup::Mismatch,
        }
    }
}

/// Reading `key` as an unsigned integer. A negative or fractional number,
/// or one beyond 64 bits, is a mismatch.
pub open spec fn u64_at(doc: Doc, key: Seq<char>) -> Lookup<u64> {
    if !doc.contains_key(key) {
        Lookup::Absent
    } else {
        match doc[key] {
            Json::Number(JsonNumber::PosInt(n)) => Lookup::Present(n),
            _ => Lookup::Mismatch,
        }
    }
}

/// Reading `key` as a nested object.
pub open spec fn object_at(doc: Doc, key: Seq<char>) -> Lookup<Doc> {
    if !doc.contains_key(key) {
        Lookup::Absent
    } else {
        match doc[key] {
            Json::Object(d) => Lookup::Present(d),
            _ => Lookup::Mismatch,
        }
    }
}

/// Reading `key` as an array of nested objects. One element of another kind
/// makes the whole read a mismatch.
pub open spec fn objects_at(doc: Doc, key: Seq<char>) -> Lookup<Seq<Doc>> {
    if !doc.contains_key(key) {
        Lookup::Absent
    } else {
        match doc[key] {
            Json::Array(items) => if all_objects(items) {
                Lookup::Present(objects_of(items))
            } else {
                Lookup::Mismatch
            },
            _ => Lookup::Mismatch,
        }
    }
}

/// The texts of a run of string slices.
pub open spec fn texts_of(slices: Seq<&str>) -> Seq<Seq<char>> {
    Seq::new(slices.len(), |i: int| slices[i]@)
}

/// The texts of a run of strings.
pub open spec fn string_texts(strings: Seq<String>) -> Seq<Seq<char>> {
    Seq::new(strings.len(), |i: int| strings[i]@)
}

/// The contents of a run of borrowed maps.
pub open spec fn ref_docs(maps: Seq<&JsonMap>) -> Seq<Doc> {
    Seq::new(maps.len(), |i: int| doc_of(*maps[i]))
}

/// `r` is the outcome of reading `key` of `doc` as a string.
pub open spec fn reads_string(r: Result<Option<&str>, Error>, doc: Doc, key: Seq<char>) -> bool {
    match string_at(doc, key) {
        Lookup::Absent => r matches Ok(None),
        Lookup::Mismatch => r matches Err(Error::UnexpectedType),
        Lookup::Present(s) => r matches Ok(Some(t)) && t@ == s,
    }
}

/// `r` is the outcome of reading `key` of `doc` as an array of strings.
pub open spec fn reads_strings(
    r: Result<Option<Vec<&str>>, Error>,
    doc: Doc,
    key: Seq<char>,
) -> bool {
    match strings_at(doc, key) {
        Lookup::Absent => r matches Ok(None),
        Lookup::Mismatch => r matches Err(Error::UnexpectedType),
        Lookup::Present(ss) => r matches Ok(Some(v)) && texts_of(v@) == ss,
    }
}

/// `r` is the outcome of reading `key` of `doc` as a boolean.
pub open spec fn reads_bool(r: Result<Option<bool>, Error>, doc: Doc, key: Seq<char>) -> bool {
    match bool_at(doc, key) {
        Lookup::Absent => r matches Ok(None),
        Lookup::Mismatch => r matches Err(Error::UnexpectedType),
        Lookup::Present(b) => r matches Ok(Some(x)) && x == b,
    }
}

/// `r` is the outcome of reading `key` of `doc` as an unsigned integer.
pub open spec fn reads_u64(r: Result<Option<u64>, Error>, doc: Doc, key: Seq<char>) -> bool {
    match u64_at(doc, key) {
        Lookup::Absent => r matches Ok(None),
        Lookup::Mismatch => r matches Err(Error::UnexpectedType),
        Lookup::Present(n) => r matches Ok(Some(x)) && x == n,
    }
}

/// `r` is the outcome of reading `key` of `doc` as a nested object.
pub open spec fn reads_object(
    r: Result<Option<&JsonMap>, Error>,
    doc: Doc,
    key: Seq<char>,
) -> bool {
    match object_at(doc, key) {
        Lookup::Absent => r matches Ok(None),
        Lookup::Mismatch => r matches Err(Error::UnexpectedType),
        Lookup::Present(d) => r matches Ok(Some(m)) && doc_of(*m) == d,
    }
}

/// `r` is the outcome of reading `key` of `doc` as an array of nested objects.
pub open spec fn reads_objects(
    r: Result<Option<Vec<&JsonMap>>, Error>,
    doc: Doc,
    key: Seq<char>,
) -> bool {
    match objects_at(doc, key) {
        Lookup::Absent => r matches Ok(None),
        Lookup::Mismatch => r matches Err(Error::UnexpectedType),
        Lookup::Present(ds) => r matches Ok(Some(v)) && ref_docs(v@) == ds,
    }
}

/// Reads `key` as a string.
pub fn get_str<'a>(map: &'a JsonMap, key: &str) -> (r: Result<Option<&'a str>, Error>)
    ensures
        reads_string(r, doc_of(*map), key@),
{
    match map_get(map, key) {
        None => Ok(None),
        Some(value) => match value.as_str() {
            Some(s) => Ok(Some(s)),
            None => Err(Error::UnexpectedType),
        },
    }
}

/// Reads `key` as an array of strings.
pub fn get_str_array<'a>(map: &'a JsonMap, key: &str) -> (r: Result<Option<Vec<&'a str>>, Error>)
    ensures
        reads_strings(r, doc_of(*map), key@),
{
    match map_get(map, key) {
        None => Ok(None),
        Some(value) => match value.as_array() {
            None => Err(Error::UnexpectedType),
            Some(arr) => {
                let ghost items = jsons_of(arr@);
                let mut out: Vec<&'a str> = Vec::new();
                let mut i: usize = 0;
                while i < arr.len()
                    invariant
                        i <= arr.len(),
                        items == jsons_of(arr@),
                        doc_of(*map).contains_key(key@),
                        doc_of(*map)[key@] == Json::Array(items),
                        out@.len() == i,
                        forall|j: int| 0 <= j < i ==> #[trigger] items[j] == Json::String(out@[j]@),
                    decreases arr.len() - i,
                {
                    match arr[i].as_str() {
                        Some(s) => {
                            out.push(s);
                        },
                        None => {
                            assert(!(items[i as int] is String));
                            return Err(Error::UnexpectedType);
                        },
                    }
                    i += 1;
                }
                assert(texts_of(out@) =~= strings_of(items));
                Ok(Some(out))
            },
        },
    }
}

/// Reads `key` as a boolean.
pub fn get_bool(map: &JsonMap, key: &str) -> (r: Result<Option<bool>, Error>)
    ensures
        reads_bool(r, doc_of(*map), key@),
{
    match map_get(map, key) {
        None => Ok(None),
        Some(value) => match value.as_bool() {
            Some(b) => Ok(Some(b)),
            None => Err(Error::UnexpectedType),
        },
    }
}

/// Reads `key` as an unsigned integer.
pub fn get_u64(map: &JsonMap, key: &str) -> (r: Result<Option<u64>, Error>)
    ensures
        reads_u64(r, doc_of(*map), key@),
{
    match map_get(map, key) {
        None => Ok(None),
        Some(value) => match value.as_u64() {
            Some(n) => Ok(Some(n)),
            None => Err(Error::UnexpectedType),
        },
    }
}

/// Reads `key` as a nested object.
pub fn get_object<'a>(map: &'a JsonMap, key: &str) -> (r: Result<Option<&'a JsonMap>, Error>)
    ensures
        reads_object(r, doc_of(*map), key@),
{
    match map_get(map, key) {
        None => Ok(None),
        Some(value) => match value.as_object() {
            Some(obj) => Ok(Some(obj)),
            None => Err(Error::UnexpectedType),
        },
    }
}

/// Reads `key` as an array of nested objects.
pub fn get_object_array<'a>(
    map: &'a JsonMap,
    key: &str,
) -> (r: Result<Option<Vec<&'a JsonMap>>, Error>)
    ensures
        reads_objects(r, doc_of(*map), key@),
{
    match map_get(map, key) {
        None => Ok(None),
        Some(value) => match value.as_array() {
            None => Err(Error::UnexpectedType),
            Some(arr) => {
                let ghost items = jsons_of(arr@);
                let mut out: Vec<&'a JsonMap> = Vec::new();
                let mut i: usize = 0;
                while i < arr.len()
                    invariant
                        i <= arr.len(),
                        items == jsons_of(arr@),
                        doc_of(*map).contains_key(key@),
                        doc_of(*map)[key@] == Json::Array(items),
                        out@.len() == i,
                        forall|j: int|
                            0 <= j < i ==> #[trigger] items[j] == Json::Object(doc_of(*out@[j])),
                    decreases arr.len() - i,
                {
                    match arr[i].as_object() {
                        Some(obj) => {
                            out.push(obj);
                        },
                        None => {
                            assert(!(items[i as int] is Object));
                            return Err(Error::UnexpectedType);
                        },
                    }
                    i += 1;
                }
                assert(ref_docs(out@) =~= objects_of(items));
                Ok(Some(out))
            },
        },
    }
}

/// Reads `key` as a nested object that can be written through. Whatever the
/// nested object ends as is what `key` ends up holding; a read that finds no
/// object leaves the document as it is.
pub fn get_object_mut<'a>(
    map: &'a mut JsonMap,
    key: &str,
) -> (r: Result<Option<&'a mut JsonMap>, Error>)
    ensures
        match object_at(doc_of(*old(map)), key@) {
            Lookup::Absent => r matches Ok(None) && doc_of(*final(map)) == doc_of(*old(map)),
            Lookup::Mismatch => r matches Err(Error::UnexpectedType)
                && doc_of(*final(map)) == doc_of(*old(map)),
            Lookup::Present(d) => r matches Ok(Some(m)) && doc_of(*m) == d
                && doc_of(*final(map)) == doc_of(*old(map)).insert(
                    key@,
                    Json::Object(doc_of(*final(m))),
                ),
        },
{
    let ghost before = doc_of(*map);
    match map_get_mut(map, key) {
        None => Ok(None),
        Some(value) => match value.as_object_mut() {
            Some(obj) => Ok(Some(obj)),
            None => {
                assert(before.insert(key@, before[key@]) =~= before);
                Err(Error::UnexpectedType)
            },
        },
    }
}

/// Splits a run of values into the maps of its objects, each lent for
/// writing. Where every value is an object, the run ends as the objects of
/// whatever the maps end as. Where one is not, nothing is lent and the run
/// keeps its contents.
#[verifier::loop_isolation(false)]
fn objects_mut<'a>(values: &'a mut Vec<Value>) -> (r: Option<Vec<&'a mut JsonMap>>)
    ensures
        match r {
            Some(maps) => all_objects(jsons_of(old(values)@))
                && maps@.len() == old(values)@.len()
                && final(values)@.len() == old(values)@.len()
                && (forall|i: int| 0 <= i < maps@.len() ==>
                    json_of(#[trigger] old(values)@[i]) == Json::Object(doc_of(*maps@[i])))
                && (forall|i: int| 0 <= i < maps@.len() ==>
                    json_of(#[trigger] final(values)@[i])
                        == Json::Object(doc_of(*final(maps@[i])))),
            None => !all_objects(jsons_of(old(values)@))
                && jsons_of(final(values)@) == jsons_of(old(values)@),
        },
{
    let ghost before = values@;
    let ghost after = final(values)@;
    let ghost n = values@.len() as int;
    let mut maps: Vec<&'a mut JsonMap> = Vec::new();
    let mut rest: &mut [Value] = values.as_mut_slice();
    while rest.len() > 0
        invariant
            maps@.len() + rest@.len() == n,
            rest@ == before.subrange(maps@.len() as int, n),
            forall|i: int| 0 <= i < maps@.len() ==>
                json_of(#[trigger] before[i]) == Json::Object(doc_of(*maps@[i])),
            after.len() == maps@.len() + final(rest)@.len(),
            forall|i: int| 0 <= i < maps@.len() ==>
                json_of(#[trigger] after[i]) == Json::Object(doc_of(*final(maps@[i]))),
            after.subrange(maps@.len() as int, after.len() as int) == final(rest)@,
        decreases rest@.len(),
    {
        let ghost k = maps@.len() as int;
        let ghost rest_now = rest@;
        let ghost rest_after = final(rest)@;
        let (head, tail) = rest.split_at_mut(1);
        let ghost head_after = final(head)@;
        let ghost tail_after = final(tail)@;
        assert(rest_after == head_after + tail_after);
        match head.first_mut() {
            None => {
                // `head` holds one value.
                assert(false);
                return None;
            },
            Some(value) => {
                let ghost value_now = *value;
                let ghost value_after = *final(value);
                assert(head_after === seq![value_after]);
                assert(value_now == rest_now.subrange(0, 1)[0]);
                assert(value_now == before.subrange(k, n)[0]);
                assert(after[k] == after.subrange(k, after.len() as int)[0]);
                match value.as_object_mut() {
                    Some(obj) => {
                        maps.push(obj);
                        proof {
                            assert(rest_after.subrange(1, rest_after.len() as int) =~= tail_after);
                            assert(after.subrange(k + 1, after.len() as int)
                                =~= after.subrange(k, after.len() as int).subrange(
                                    1,
                                    after.len() - k,
                                ));
                        }
                    },
                    None => {
                        proof {
                            assert(has_resolved(tail));
                            assert(has_resolved(maps));
                            assert forall|i: int| 0 <= i < k implies json_of(after[i])
                                == json_of(before[i]) by {
                                assert(has_resolved(maps@[i]));
                            }
                            assert(after[k] == value_after);
                            assert forall|i: int| k < i < n implies after[i] == before[i] by {
                                assert(after[i] == after.subrange(k, n)[i - k]);
                                assert(before[i] == before.subrange(k, n)[i - k]);
                            }
                            assert(jsons_of(after) =~= jsons_of(before));
                            assert(!(jsons_of(before)[k] is Object));
                        }
                        return None;
                    },
                }
            },
        }
        rest = tail;
    }
    proof {
        assert forall|i: int| 0 <= i < n implies #[trigger] jsons_of(before)[i] is Object by {
            assert(json_of(before[i]) == Json::Object(doc_of(*maps@[i])));
        }
    }
    Some(maps)
}

/// Reads `key` as an array of nested objects that can each be written
/// through. Whatever the nested objects end as is what the array under
/// `key` ends up holding, in the same order; a read that finds no such
/// array leaves the document as it is.
pub fn get_object_array_mut<'a>(
    map: &'a mut JsonMap,
    key: &str,
) -> (r: Result<Option<Vec<&'a mut JsonMap>>, Error>)
    ensures
        match objects_at(doc_of(*old(map)), key@) {
            Lookup::Absent => r matches Ok(None) && doc_of(*final(map)) == doc_of(*old(map)),
            Lookup::Mismatch => r matches Err(Error::UnexpectedType)
                && doc_of(*final(map)) == doc_of(*old(map)),
            Lookup::Present(ds) => r matches Ok(Some(maps)) && maps@.len() == ds.len()
                && (forall|i: int| 0 <= i < ds.len() ==> doc_of(*#[trigger] maps@[i]) == ds[i])
                && doc_of(*final(map)) == doc_of(*old(map)).insert(
                    key@,
                    object_array(Seq::new(ds.len(), |i: int| doc_of(*final(maps@[i])))),
                ),
        },
{
    let ghost before = doc_of(*map);
    match map_get_mut(map, key) {
        None => Ok(None),
        Some(value) => {
            match value.as_array_mut() {
                None => {
                    assert(before.insert(key@, before[key@]) =~= before);
                    Err(Error::UnexpectedType)
                },
                Some(arr) => {
                    let ghost items = jsons_of(arr@);
                    let ghost items_after = jsons_of(final(arr)@);
                    match objects_mut(arr) {
                        None => {
                            assert(before.insert(key@, before[key@]) =~= before);
                            Err(Error::UnexpectedType)
                        },
                        Some(maps) => {
                            proof {
                                let ds = objects_of(items);
                                assert(items_after =~= object_array(
                                    Seq::new(ds.len(), |i: int| doc_of(*final(maps@[i]))),
                                )->Array_0);
                            }
                            Ok(Some(maps))
                        },
                    }
                },
            }
        },
    }
}

/// Stores `value` under `key` as a string, and hands back what the key held.
pub fn set_str(map: &mut JsonMap, key: &str, value: &str) -> (prior: Option<Value>)
    ensures
        doc_of(*final(map)) == doc_of(*old(map)).insert(key@, Json::String(value@)),
        is_prior(prior, doc_of(*old(map)), key@),
{
    map.insert(key.to_owned(), string_value(value.to_owned()))
}

/// Stores `values` under `key` as an array of strings, and hands back what
/// the key held.
pub fn set_str_array(map: &mut JsonMap, key: &str, values: Vec<String>) -> (prior: Option<Value>)
    ensures
        doc_of(*final(map)) == doc_of(*old(map)).insert(
            key@,
            string_array(string_texts(values@)),
        ),
        is_prior(prior, doc_of(*old(map)), key@),
{
    let ghost texts = string_texts(values@);
    let mut items: Vec<Value> = Vec::new();
    for s in it: values.into_iter()
        invariant
            texts.len() == it.seq().len(),
            forall|j: int| 0 <= j < texts.len() ==> texts[j] == #[trigger] it.seq()[j]@,
            items@.len() == it.index(),
            forall|j: int|
                0 <= j < items@.len() ==> json_of(#[trigger] items@[j]) == Json::String(texts[j]),
    {
        items.push(string_value(s));
    }
    assert(jsons_of(items@) =~= string_array(texts)->Array_0);
    map.insert(key.to_owned(), array_value(items))
}

/// Stores `value` under `key` as a boolean, and hands back what the key held.
pub fn set_bool(map: &mut JsonMap, key: &str, value: bool) -> (prior: Option<Value>)
    ensures
        doc_of(*final(map)) == doc_of(*old(map)).insert(key@, Json::Bool(value)),
        is_prior(prior, doc_of(*old(map)), key@),
{
    map.insert(key.to_owned(), bool_value(value))
}

/// Stores `value` under `key` as an integer, and hands back what the key held.
pub fn set_u64(map: &mut JsonMap, key: &str, value: u64) -> (prior: Option<Value>)
    ensures
        doc_of(*final(map)) == doc_of(*old(map)).insert(
            key@,
            Json::Number(JsonNumber::PosInt(value)),
        ),
        is_prior(prior, doc_of(*old(map)), key@),
{
    map.insert(key.to_owned(), number_value(value))
}

/// Stores `value` under `key` as a nested object, and hands back what the
/// key held.
pub fn set_object(map: &mut JsonMap, key: &str, value: JsonMap) -> (prior: Option<Value>)
    ensures
        doc_of(*final(map)) == doc_of(*old(map)).insert(key@, Json::Object(doc_of(value))),
        is_prior(prior, doc_of(*old(map)), key@),
{
    map.insert(key.to_owned(), object_value(value))
}

/// Stores `values` under `key` as an array of nested objects, and hands back
/// what the key held.
pub fn set_object_array(
    map: &mut JsonMap,
    key: &str,
    values: Vec<JsonMap>,
) -> (prior: Option<Value>)
    ensures
        doc_of(*final(map)) == doc_of(*old(map)).insert(key@, object_array(docs_of(values@))),
        is_prior(prior, doc_of(*old(map)), key@),
{
    let ghost docs = docs_of(values@);
    let mut items: Vec<Value> = Vec::new();
    for m in it: values.into_iter()
        invariant
            docs.len() == it.seq().len(),
            forall|j: int| 0 <= j < docs.len() ==> docs[j] == doc_of(#[trigger] it.seq()[j]),
            items@.len() == it.index(),
            forall|j: int|
                0 <= j < items@.len() ==> json_of(#[trigger] items@[j]) == Json::Object(docs[j]),
    {
        items.push(object_value(m));
    }
    assert(jsons_of(items@) =~= object_array(docs)->Array_0);
    map.insert(key.to_owned(), array_value(items))
}

/// Deletes `key`, and hands back what it held.
pub fn remove(map: &mut JsonMap, key: &str) -> (prior: Option<Value>)
    ensures
        doc_of(*final(map)) == doc_of(*old(map)).remove(key@),
        is_prior(prior, doc_of(*old(map)), key@),
{
    map_remove(map, key)
}

} // verus!

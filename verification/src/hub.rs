//! A subscription endpoint of a feed.

use crate::error::Error;
use crate::field::{get_str, object_at, objects_at, reads_string, ref_docs, remove, set_str, Lookup};
use crate::json::{doc_of, docs_of, is_prior, map_eq, Doc, Json, JsonMap};
use crate::validate::{hub_valid, is_valid_hub};
use crate::version::Version;
use serde_json::Value;
use vstd::prelude::*;
use vstd::std_specs::cmp::PartialEqSpecImpl;
use vstd::std_specs::convert::FromSpecImpl;

verus! {

/// A subscription endpoint which can be used to receive feed update
/// notifications.
///
/// # Valid Hub
///
/// A `Hub` must have both the `type` and `url` fields set.
#[derive(Debug)]
pub struct Hub {
    value: JsonMap,
}

/// A `Hub` implemented with a borrowed reference to a JSON object.
#[derive(Debug)]
pub struct HubRef<'a> {
    value: &'a JsonMap,
}

/// A `Hub` implemented with a borrowed mutable reference to a JSON object.
#[derive(Debug)]
pub struct HubMut<'a> {
    /// The borrowed object. The field is public so that contracts can speak
    /// of what the object holds once the borrow has ended.
    pub value: &'a mut JsonMap,
}

impl View for Hub {
    type V = Doc;

    closed spec fn view(&self) -> Doc {
        doc_of(self.value)
    }
}

impl<'a> View for HubRef<'a> {
    type V = Doc;

    closed spec fn view(&self) -> Doc {
        doc_of(*self.value)
    }
}

impl<'a> View for HubMut<'a> {
    type V = Doc;

    open spec fn view(&self) -> Doc {
        doc_of(*self.value)
    }
}

/// The documents that a run of views looks at.
pub open spec fn hub_ref_docs(views: Seq<HubRef<'_>>) -> Seq<Doc> {
    Seq::new(views.len(), |i: int| views[i]@)
}

/// The documents that a run of hubs holds.
pub open spec fn hub_docs(hubs: Seq<Hub>) -> Seq<Doc> {
    Seq::new(hubs.len(), |i: int| hubs[i]@)
}

/// `r` is the outcome of reading `key` of `doc` as an array of nested hubs.
pub open spec fn reads_hubs(
    r: Result<Option<Vec<HubRef<'_>>>, Error>,
    doc: Doc,
    key: Seq<char>,
) -> bool {
    match objects_at(doc, key) {
        Lookup::Absent => r matches Ok(None),
        Lookup::Mismatch => r matches Err(Error::UnexpectedType),
        Lookup::Present(ds) => r matches Ok(Some(views)) && hub_ref_docs(views@) == ds,
    }
}

impl Hub {
    /// Instantiates with an empty JSON object.
    #[must_use]
    pub fn new() -> (r: Self)
        ensures
            r@ == Doc::empty(),
    {
        Hub { value: JsonMap::new() }
    }

    /// Returns the inner `Map` as a reference.
    #[must_use]
    pub fn as_map(&self) -> (r: &JsonMap)
        ensures
            doc_of(*r) == self@,
    {
        &self.value
    }

    /// Returns the inner `Map` as a mutable reference. What the map ends as
    /// is what the hub ends as.
    pub fn as_map_mut(&mut self) -> (r: &mut JsonMap)
        ensures
            doc_of(*r) == old(self)@,
            final(self)@ == doc_of(*final(r)),
    {
        &mut self.value
    }

    /// Converts the type into the inner `Map`.
    #[must_use]
    pub fn into_inner(self) -> (r: JsonMap)
        ensures
            doc_of(r) == self@,
    {
        self.value
    }

    /// Takes the maps out of a run of hubs, in order.
    pub(crate) fn into_maps(hubs: Vec<Hub>) -> (maps: Vec<JsonMap>)
        ensures
            docs_of(maps@) == hub_docs(hubs@),
    {
        let ghost docs = hub_docs(hubs@);
        let mut maps: Vec<JsonMap> = Vec::new();
        for hub in it: hubs.into_iter()
            invariant
                docs.len() == it.seq().len(),
                forall|j: int| 0 <= j < docs.len() ==> docs[j] == (#[trigger] it.seq()[j])@,
                maps@.len() == it.index(),
                forall|j: int| 0 <= j < maps@.len() ==> doc_of(#[trigger] maps@[j]) == docs[j],
        {
            maps.push(hub.into_inner());
        }
        assert(docs_of(maps@) =~= docs);
        maps
    }

    /// The required protocol which is used to subscribe with.
    pub fn hub_type(&self) -> (r: Result<Option<&str>, Error>)
        ensures
            reads_string(r, self@, "type"@),
    {
        get_str(&self.value, "type")
    }

    /// Sets the type.
    pub fn set_hub_type(&mut self, value: &str) -> (prior: Option<Value>)
        ensures
            final(self)@ == old(self)@.insert("type"@, Json::String(value@)),
            is_prior(prior, old(self)@, "type"@),
    {
        set_str(&mut self.value, "type", value)
    }

    /// Removes the type.
    pub fn remove_hub_type(&mut self) -> (prior: Option<Value>)
        ensures
            final(self)@ == old(self)@.remove("type"@),
            is_prior(prior, old(self)@, "type"@),
    {
        remove(&mut self.value, "type")
    }

    /// A required hub type specific URL which is used to subscribe with.
    pub fn url(&self) -> (r: Result<Option<&str>, Error>)
        ensures
            reads_string(r, self@, "url"@),
    {
        get_str(&self.value, "url")
    }

    /// Sets the URL.
    pub fn set_url(&mut self, value: &str) -> (prior: Option<Value>)
        ensures
            final(self)@ == old(self)@.insert("url"@, Json::String(value@)),
            is_prior(prior, old(self)@, "url"@),
    {
        set_str(&mut self.value, "url", value)
    }

    /// Removes the URL.
    pub fn remove_url(&mut self) -> (prior: Option<Value>)
        ensures
            final(self)@ == old(self)@.remove("url"@),
            is_prior(prior, old(self)@, "url"@),
    {
        remove(&mut self.value, "url")
    }

    /// Verifies if the JSON data complies with a specific `Version` of the
    /// JSON Feed format.
    #[must_use]
    pub fn is_valid(&self, version: &Version<'_>) -> (ok: bool)
        ensures
            ok == hub_valid(self@, *version),
    {
        is_valid_hub(&self.value, version)
    }
}

impl Clone for Hub {
    fn clone(&self) -> (r: Self)
        ensures
            r@ == self@,
    {
        Hub { value: self.value.clone() }
    }
}

impl Default for Hub {
    fn default() -> (r: Self)
        ensures
            r@ == Doc::empty(),
    {
        Hub::new()
    }
}

impl From<JsonMap> for Hub {
    fn from(value: JsonMap) -> (r: Self)
        ensures
            r@ == doc_of(value),
    {
        Hub { value }
    }
}

impl FromSpecImpl<JsonMap> for Hub {
    open spec fn obeys_from_spec() -> bool {
        true
    }

    closed spec fn from_spec(value: JsonMap) -> Self {
        Hub { value }
    }
}

impl AsRef<JsonMap> for Hub {
    fn as_ref(&self) -> (r: &JsonMap)
        ensures
            doc_of(*r) == self@,
    {
        &self.value
    }
}

impl AsMut<JsonMap> for Hub {
    fn as_mut(&mut self) -> (r: &mut JsonMap)
        ensures
            doc_of(*r) == old(self)@,
            final(self)@ == doc_of(*final(r)),
    {
        &mut self.value
    }
}

impl Eq for Hub {}

impl PartialEq<JsonMap> for Hub {
    fn eq(&self, other: &JsonMap) -> (r: bool) {
        map_eq(&self.value, other)
    }
}

impl PartialEqSpecImpl<JsonMap> for Hub {
    open spec fn obeys_eq_spec() -> bool {
        true
    }

    open spec fn eq_spec(&self, other: &JsonMap) -> bool {
        self@ == doc_of(*other)
    }
}

impl PartialEq<Hub> for Hub {
    fn eq(&self, other: &Hub) -> (r: bool) {
        map_eq(&self.value, &other.value)
    }
}

impl PartialEqSpecImpl<Hub> for Hub {
    open spec fn obeys_eq_spec() -> bool {
        true
    }

    open spec fn eq_spec(&self, other: &Hub) -> bool {
        self@ == other@
    }
}

/// Building a hub from a map and cloning it keeps the document: the clone
/// compares equal to the map it came from, and to the hub it was cloned
/// from.
pub proof fn lemma_hub_clone_equals_source(source: JsonMap, built: Hub, copy: Hub)
    requires
        built@ == doc_of(source),
        copy@ == built@,
    ensures
        vstd::std_specs::cmp::PartialEqSpec::eq_spec(&copy, &source),
        vstd::std_specs::cmp::PartialEqSpec::eq_spec(&copy, &built),
{
}

impl<'a> HubRef<'a> {
    /// Returns the inner `Map` as a reference.
    #[must_use]
    pub fn as_map(&self) -> (r: &JsonMap)
        ensures
            doc_of(*r) == self@,
    {
        self.value
    }

    /// Clones the inner `Map` reference and returns an owned type.
    #[must_use]
    pub fn to_hub(&self) -> (r: Hub)
        ensures
            r@ == self@,
    {
        Hub::from(self.value.clone())
    }

    /// Wraps each of a run of borrowed maps, in order.
    pub(crate) fn from_maps(maps: Vec<&'a JsonMap>) -> (views: Vec<HubRef<'a>>)
        ensures
            hub_ref_docs(views@) == ref_docs(maps@),
    {
        let ghost docs = ref_docs(maps@);
        let mut views: Vec<HubRef<'a>> = Vec::new();
        for map in it: maps.into_iter()
            invariant
                docs.len() == it.seq().len(),
                forall|j: int| 0 <= j < docs.len() ==> docs[j] == doc_of(*#[trigger] it.seq()[j]),
                views@.len() == it.index(),
                forall|j: int| 0 <= j < views@.len() ==> (#[trigger] views@[j])@ == docs[j],
        {
            views.push(HubRef::from(map));
        }
        assert(hub_ref_docs(views@) =~= docs);
        views
    }

    /// The required protocol which is used to subscribe with.
    pub fn hub_type(&self) -> (r: Result<Option<&str>, Error>)
        ensures
            reads_string(r, self@, "type"@),
    {
        get_str(self.value, "type")
    }

    /// A required hub type specific URL which is used to subscribe with.
    pub fn url(&self) -> (r: Result<Option<&str>, Error>)
        ensures
            reads_string(r, self@, "url"@),
    {
        get_str(self.value, "url")
    }

    /// Verifies if the JSON data complies with a specific `Version` of the
    /// JSON Feed format.
    #[must_use]
    pub fn is_valid(&self, version: &Version<'_>) -> (ok: bool)
        ensures
            ok == hub_valid(self@, *version),
    {
        is_valid_hub(self.value, version)
    }
}

impl<'a> From<&'a JsonMap> for HubRef<'a> {
    fn from(value: &'a JsonMap) -> (r: Self)
        ensures
            r@ == doc_of(*value),
    {
        HubRef { value }
    }
}

impl<'a> FromSpecImpl<&'a JsonMap> for HubRef<'a> {
    open spec fn obeys_from_spec() -> bool {
        true
    }

    closed spec fn from_spec(value: &'a JsonMap) -> Self {
        HubRef { value }
    }
}

impl<'a> AsRef<JsonMap> for HubRef<'a> {
    fn as_ref(&self) -> (r: &JsonMap)
        ensures
            doc_of(*r) == self@,
    {
        self.value
    }
}

impl<'a> Eq for HubRef<'a> {}

impl<'a> PartialEq<JsonMap> for HubRef<'a> {
    fn eq(&self, other: &JsonMap) -> (r: bool) {
        map_eq(self.value, other)
    }
}

impl<'a> PartialEqSpecImpl<JsonMap> for HubRef<'a> {
    open spec fn obeys_eq_spec() -> bool {
        true
    }

    open spec fn eq_spec(&self, other: &JsonMap) -> bool {
        self@ == doc_of(*other)
    }
}

impl<'a> PartialEq<HubRef<'a>> for HubRef<'a> {
    fn eq(&self, other: &HubRef<'a>) -> (r: bool) {
        map_eq(self.value, other.value)
    }
}

impl<'a> PartialEqSpecImpl<HubRef<'a>> for HubRef<'a> {
    open spec fn obeys_eq_spec() -> bool {
        true
    }

    open spec fn eq_spec(&self, other: &HubRef<'a>) -> bool {
        self@ == other@
    }
}

impl<'a> HubMut<'a> {
    /// Returns the inner `Map` as a reference.
    #[must_use]
    pub fn as_map(&self) -> (r: &JsonMap)
        ensures
            doc_of(*r) == self@,
    {
        self.value
    }

    /// Returns the inner `Map` as a mutable reference. What the map ends as
    /// is what the hub ends as.
    pub fn as_map_mut(&mut self) -> (r: &mut JsonMap)
        ensures
            doc_of(*r) == old(self)@,
            final(self)@ == doc_of(*final(r)),
            *final(final(self).value) == *final(old(self).value),
    {
        self.value
    }

    /// Clones the inner `Map` reference and returns an owned type.
    #[must_use]
    pub fn to_hub(&self) -> (r: Hub)
        ensures
            r@ == self@,
    {
        Hub::from(self.value.clone())
    }

    /// Wraps each of a run of mutably borrowed maps, in order. Each view
    /// writes through to the map it was made from.
    pub(crate) fn from_maps(maps: Vec<&'a mut JsonMap>) -> (views: Vec<HubMut<'a>>)
        ensures
            views@.len() == maps@.len(),
            forall|i: int| 0 <= i < maps@.len() ==> (#[trigger] views@[i])@ == doc_of(*maps@[i]),
            forall|i: int|
                0 <= i < maps@.len() ==> *final((#[trigger] views@[i]).value) == *final(maps@[i]),
    {
        let ghost given = maps@;
        let mut views: Vec<HubMut<'a>> = Vec::new();
        for map in it: maps.into_iter()
            invariant
                given == it.seq(),
                views@.len() == it.index(),
                forall|j: int|
                    0 <= j < views@.len() ==> (#[trigger] views@[j])@ == doc_of(*given[j]),
                forall|j: int|
                    0 <= j < views@.len() ==> *final((#[trigger] views@[j]).value)
                        == *final(given[j]),
        {
            views.push(HubMut::from(map));
        }
        views
    }

    /// The required protocol which is used to subscribe with.
    pub fn hub_type(&self) -> (r: Result<Option<&str>, Error>)
        ensures
            reads_string(r, self@, "type"@),
    {
        get_str(self.value, "type")
    }

    /// Sets the type.
    pub fn set_hub_type(&mut self, value: &str) -> (prior: Option<Value>)
        ensures
            final(self)@ == old(self)@.insert("type"@, Json::String(value@)),
            is_prior(prior, old(self)@, "type"@),
            *final(final(self).value) == *final(old(self).value),
    {
        set_str(self.value, "type", value)
    }

    /// Removes the type.
    pub fn remove_hub_type(&mut self) -> (prior: Option<Value>)
        ensures
            final(self)@ == old(self)@.remove("type"@),
            is_prior(prior, old(self)@, "type"@),
            *final(final(self).value) == *final(old(self).value),
    {
        remove(self.value, "type")
    }

    /// A required hub type specific URL which is used to subscribe with.
    pub fn url(&self) -> (r: Result<Option<&str>, Error>)
        ensures
            reads_string(r, self@, "url"@),
    {
        get_str(self.value, "url")
    }

    /// Sets the URL.
    pub fn set_url(&mut self, value: &str) -> (prior: Option<Value>)
        ensures
            final(self)@ == old(self)@.insert("url"@, Json::String(value@)),
            is_prior(prior, old(self)@, "url"@),
            *final(final(self).value) == *final(old(self).value),
    {
        set_str(self.value, "url", value)
    }

    /// Removes the URL.
    pub fn remove_url(&mut self) -> (prior: Option<Value>)
        ensures
            final(self)@ == old(self)@.remove("url"@),
            is_prior(prior, old(self)@, "url"@),
            *final(final(self).value) == *final(old(self).value),
    {
        remove(self.value, "url")
    }

    /// Verifies if the JSON data complies with a specific `Version` of the
    /// JSON Feed format.
    #[must_use]
    pub fn is_valid(&self, version: &Version<'_>) -> (ok: bool)
        ensures
            ok == hub_valid(self@, *version),
    {
        is_valid_hub(self.value, version)
    }
}

impl<'a> From<&'a mut JsonMap> for HubMut<'a> {
    fn from(value: &'a mut JsonMap) -> (r: Self)
        ensures
            r@ == doc_of(*old(value)),
            *final(r.value) == *final(value),
    {
        HubMut { value }
    }
}

impl<'a> FromSpecImpl<&'a mut JsonMap> for HubMut<'a> {
    /// A view made from a mutable borrow carries the borrow's future along,
    /// which no function of the argument's present value can state; `from`
    /// states its own contract.
    open spec fn obeys_from_spec() -> bool {
        false
    }

    open spec fn from_spec(value: &'a mut JsonMap) -> Self {
        HubMut { value }
    }
}

impl<'a> AsRef<JsonMap> for HubMut<'a> {
    fn as_ref(&self) -> (r: &JsonMap)
        ensures
            doc_of(*r) == self@,
    {
        self.value
    }
}

impl<'a> AsMut<JsonMap> for HubMut<'a> {
    fn as_mut(&mut self) -> (r: &mut JsonMap)
        ensures
            doc_of(*r) == old(self)@,
            final(self)@ == doc_of(*final(r)),
            *final(final(self).value) == *final(old(self).value),
    {
        self.value
    }
}

impl<'a> Eq for HubMut<'a> {}

impl<'a> PartialEq<JsonMap> for HubMut<'a> {
    fn eq(&self, other: &JsonMap) -> (r: bool) {
        map_eq(self.value, other)
    }
}

impl<'a> PartialEqSpecImpl<JsonMap> for HubMut<'a> {
    open spec fn obeys_eq_spec() -> bool {
        true
    }

    open spec fn eq_spec(&self, other: &JsonMap) -> bool {
        self@ == doc_of(*other)
    }
}

impl<'a> PartialEq<HubMut<'a>> for HubMut<'a> {
    fn eq(&self, other: &HubMut<'a>) -> (r: bool) {
        map_eq(self.value, other.value)
    }
}

impl<'a> PartialEqSpecImpl<HubMut<'a>> for HubMut<'a> {
    open spec fn obeys_eq_spec() -> bool {
        true
    }

    open spec fn eq_spec(&self, other: &HubMut<'a>) -> bool {
        self@ == other@
    }
}

} // verus!

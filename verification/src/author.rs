//! The author of a feed or of an item.

use crate::error::Error;
use crate::field::{get_str, object_at, objects_at, reads_string, ref_docs, remove, set_str, Lookup};
use crate::json::{doc_of, docs_of, is_prior, map_eq, Doc, Json, JsonMap};
use crate::validate::{author_valid, is_valid_author};
use crate::version::Version;
use serde_json::Value;
use vstd::prelude::*;
use vstd::std_specs::cmp::PartialEqSpecImpl;
use vstd::std_specs::convert::FromSpecImpl;

verus! {

/// An author of a feed or an item in the feed.
///
/// # Valid Author
///
/// An `Author` must have at least one of the `name`, `url`, or `avatar` fields
/// set.
#[derive(Debug)]
pub struct Author {
    value: JsonMap,
}

/// An `Author` implemented with a borrowed reference to a JSON object.
#[derive(Debug)]
pub struct AuthorRef<'a> {
    value: &'a JsonMap,
}

/// An `Author` implemented with a borrowed mutable reference to a JSON object.
#[derive(Debug)]
pub struct AuthorMut<'a> {
    /// The borrowed object. The field is public so that contracts can speak
    /// of what the object holds once the borrow has ended.
    pub value: &'a mut JsonMap,
}

impl View for Author {
    type V = Doc;

    closed spec fn view(&self) -> Doc {
        doc_of(self.value)
    }
}

impl<'a> View for AuthorRef<'a> {
    type V = Doc;

    closed spec fn view(&self) -> Doc {
        doc_of(*self.value)
    }
}

impl<'a> View for AuthorMut<'a> {
    type V = Doc;

    open spec fn view(&self) -> Doc {
        doc_of(*self.value)
    }
}

/// The documents that a run of views looks at.
pub open spec fn author_ref_docs(views: Seq<AuthorRef<'_>>) -> Seq<Doc> {
    Seq::new(views.len(), |i: int| views[i]@)
}

/// The documents that a run of authors holds.
pub open spec fn author_docs(authors: Seq<Author>) -> Seq<Doc> {
    Seq::new(authors.len(), |i: int| authors[i]@)
}

/// `r` is the outcome of reading `key` of `doc` as a nested author.
pub open spec fn reads_author(
    r: Result<Option<AuthorRef<'_>>, Error>,
    doc: Doc,
    key: Seq<char>,
) -> bool {
    match object_at(doc, key) {
        Lookup::Absent => r matches Ok(None),
        Lookup::Mismatch => r matches Err(Error::UnexpectedType),
        Lookup::Present(d) => r matches Ok(Some(view)) && view@ == d,
    }
}

/// `r` is the outcome of reading `key` of `doc` as an array of nested authors.
pub open spec fn reads_authors(
    r: Result<Option<Vec<AuthorRef<'_>>>, Error>,
    doc: Doc,
    key: Seq<char>,
) -> bool {
    match objects_at(doc, key) {
        Lookup::Absent => r matches Ok(None),
        Lookup::Mismatch => r matches Err(Error::UnexpectedType),
        Lookup::Present(ds) => r matches Ok(Some(views)) && author_ref_docs(views@) == ds,
    }
}

impl Author {
    /// Instantiates with an empty JSON object.
    #[must_use]
    pub fn new() -> (r: Self)
        ensures
            r@ == Doc::empty(),
    {
        Author { value: JsonMap::new() }
    }

    /// Returns the inner `Map` as a reference.
    #[must_use]
    pub fn as_map(&self) -> (r: &JsonMap)
        ensures
            doc_of(*r) == self@,
    {
        &self.value
    }

    /// Returns the inner `Map` as a mutable reference. What the map ends as
    /// is what the author ends as.
    pub fn as_map_mut(&mut self) -> (r: &mut JsonMap)
        ensures
            doc_of(*r) == old(self)@,
            final(self)@ == doc_of(*final(r)),
    {
        &mut self.value
    }

    /// Converts the type into the inner `Map`.
    #[must_use]
    pub fn into_inner(self) -> (r: JsonMap)
        ensures
            doc_of(r) == self@,
    {
        self.value
    }

    /// Takes the maps out of a run of authors, in order.
    pub(crate) fn into_maps(authors: Vec<Author>) -> (maps: Vec<JsonMap>)
        ensures
            docs_of(maps@) == author_docs(authors@),
    {
        let ghost docs = author_docs(authors@);
        let mut maps: Vec<JsonMap> = Vec::new();
        for author in it: authors.into_iter()
            invariant
                docs.len() == it.seq().len(),
                forall|j: int| 0 <= j < docs.len() ==> docs[j] == (#[trigger] it.seq()[j])@,
                maps@.len() == it.index(),
                forall|j: int| 0 <= j < maps@.len() ==> doc_of(#[trigger] maps@[j]) == docs[j],
        {
            maps.push(author.into_inner());
        }
        assert(docs_of(maps@) =~= docs);
        maps
    }

    /// The optional author's name.
    pub fn name(&self) -> (r: Result<Option<&str>, Error>)
        ensures
            reads_string(r, self@, "name"@),
    {
        get_str(&self.value, "name")
    }

    /// Sets the name.
    pub fn set_name(&mut self, value: &str) -> (prior: Option<Value>)
        ensures
            final(self)@ == old(self)@.insert("name"@, Json::String(value@)),
            is_prior(prior, old(self)@, "name"@),
    {
        set_str(&mut self.value, "name", value)
    }

    /// Remove the name.
    pub fn remove_name(&mut self) -> (prior: Option<Value>)
        ensures
            final(self)@ == old(self)@.remove("name"@),
            is_prior(prior, old(self)@, "name"@),
    {
        remove(&mut self.value, "name")
    }

    /// An optional URL for a site which represents the author.
    pub fn url(&self) -> (r: Result<Option<&str>, Error>)
        ensures
            reads_string(r, self@, "url"@),
    {
        get_str(&self.value, "url")
    }

    /// Sets the URL.
    pub fn set_url(&mut self, value: &str) -> (prior: Option<Value>)
        ensures
            final(self)@ == old(self)@.insert("url"@, Json::String(value@)),
            is_prior(prior, old(self)@, "url"@),
    {
        set_str(&mut self.value, "url", value)
    }

    /// Removes the URL.
    pub fn remove_url(&mut self) -> (prior: Option<Value>)
        ensures
            final(self)@ == old(self)@.remove("url"@),
            is_prior(prior, old(self)@, "url"@),
    {
        remove(&mut self.value, "url")
    }

    /// An optional URL for an image which represents the author.
    pub fn avatar(&self) -> (r: Result<Option<&str>, Error>)
        ensures
            reads_string(r, self@, "avatar"@),
    {
        get_str(&self.value, "avatar")
    }

    /// Sets the avatar.
    pub fn set_avatar(&mut self, value: &str) -> (prior: Option<Value>)
        ensures
            final(self)@ == old(self)@.insert("avatar"@, Json::String(value@)),
            is_prior(prior, old(self)@, "avatar"@),
    {
        set_str(&mut self.value, "avatar", value)
    }

    /// Removes the avatar.
    pub fn remove_avatar(&mut self) -> (prior: Option<Value>)
        ensures
            final(self)@ == old(self)@.remove("avatar"@),
            is_prior(prior, old(self)@, "avatar"@),
    {
        remove(&mut self.value, "avatar")
    }

    /// Verifies if the JSON data complies with a specific `Version` of the
    /// JSON Feed format.
    #[must_use]
    pub fn is_valid(&self, version: &Version<'_>) -> (ok: bool)
        ensures
            ok == author_valid(self@, *version),
    {
        is_valid_author(&self.value, version)
    }
}

impl Clone for Author {
    fn clone(&self) -> (r: Self)
        ensures
            r@ == self@,
    {
        Author { value: self.value.clone() }
    }
}

impl Default for Author {
    fn default() -> (r: Self)
        ensures
            r@ == Doc::empty(),
    {
        Author::new()
    }
}

impl From<JsonMap> for Author {
    fn from(value: JsonMap) -> (r: Self)
        ensures
            r@ == doc_of(value),
    {
        Author { value }
    }
}

impl FromSpecImpl<JsonMap> for Author {
    open spec fn obeys_from_spec() -> bool {
        true
    }

    closed spec fn from_spec(value: JsonMap) -> Self {
        Author { value }
    }
}

impl AsRef<JsonMap> for Author {
    fn as_ref(&self) -> (r: &JsonMap)
        ensures
            doc_of(*r) == self@,
    {
        &self.value
    }
}

impl AsMut<JsonMap> for Author {
    fn as_mut(&mut self) -> (r: &mut JsonMap)
        ensures
            doc_of(*r) == old(self)@,
            final(self)@ == doc_of(*final(r)),
    {
        &mut self.value
    }
}

impl Eq for Author {}

impl PartialEq<JsonMap> for Author {
    fn eq(&self, other: &JsonMap) -> (r: bool) {
        map_eq(&self.value, other)
    }
}

impl PartialEqSpecImpl<JsonMap> for Author {
    open spec fn obeys_eq_spec() -> bool {
        true
    }

    open spec fn eq_spec(&self, other: &JsonMap) -> bool {
        self@ == doc_of(*other)
    }
}

impl PartialEq<Author> for Author {
    fn eq(&self, other: &Author) -> (r: bool) {
        map_eq(&self.value, &other.value)
    }
}

impl PartialEqSpecImpl<Author> for Author {
    open spec fn obeys_eq_spec() -> bool {
        true
    }

    open spec fn eq_spec(&self, other: &Author) -> bool {
        self@ == other@
    }
}

/// Building an author from a map and cloning it keeps the document: the clone
/// compares equal to the map it came from, and to the author it was cloned
/// from.
pub proof fn lemma_author_clone_equals_source(source: JsonMap, built: Author, copy: Author)
    requires
        built@ == doc_of(source),
        copy@ == built@,
    ensures
        vstd::std_specs::cmp::PartialEqSpec::eq_spec(&copy, &source),
        vstd::std_specs::cmp::PartialEqSpec::eq_spec(&copy, &built),
{
}

impl<'a> AuthorRef<'a> {
    /// Returns the inner `Map` as a reference.
    #[must_use]
    pub fn as_map(&self) -> (r: &JsonMap)
        ensures
            doc_of(*r) == self@,
    {
        self.value
    }

    /// Clones the inner `Map` reference and returns an owned type.
    #[must_use]
    pub fn to_author(&self) -> (r: Author)
        ensures
            r@ == self@,
    {
        Author::from(self.value.clone())
    }

    /// Wraps each of a run of borrowed maps, in order.
    pub(crate) fn from_maps(maps: Vec<&'a JsonMap>) -> (views: Vec<AuthorRef<'a>>)
        ensures
            author_ref_docs(views@) == ref_docs(maps@),
    {
        let ghost docs = ref_docs(maps@);
        let mut views: Vec<AuthorRef<'a>> = Vec::new();
        for map in it: maps.into_iter()
            invariant
                docs.len() == it.seq().len(),
                forall|j: int| 0 <= j < docs.len() ==> docs[j] == doc_of(*#[trigger] it.seq()[j]),
                views@.len() == it.index(),
                forall|j: int| 0 <= j < views@.len() ==> (#[trigger] views@[j])@ == docs[j],
        {
            views.push(AuthorRef::from(map));
        }
        assert(author_ref_docs(views@) =~= docs);
        views
    }

    /// The optional author's name.
    pub fn name(&self) -> (r: Result<Option<&str>, Error>)
        ensures
            reads_string(r, self@, "name"@),
    {
        get_str(self.value, "name")
    }

    /// An optional URL for a site which represents the author.
    pub fn url(&self) -> (r: Result<Option<&str>, Error>)
        ensures
            reads_string(r, self@, "url"@),
    {
        get_str(self.value, "url")
    }

    /// An optional URL for an image which represents the author.
    pub fn avatar(&self) -> (r: Result<Option<&str>, Error>)
        ensures
            reads_string(r, self@, "avatar"@),
    {
        get_str(self.value, "avatar")
    }

    /// Verifies if the JSON data complies with a specific `Version` of the
    /// JSON Feed format.
    #[must_use]
    pub fn is_valid(&self, version: &Version<'_>) -> (ok: bool)
        ensures
            ok == author_valid(self@, *version),
    {
        is_valid_author(self.value, version)
    }
}

impl<'a> From<&'a JsonMap> for AuthorRef<'a> {
    fn from(value: &'a JsonMap) -> (r: Self)
        ensures
            r@ == doc_of(*value),
    {
        AuthorRef { value }
    }
}

impl<'a> FromSpecImpl<&'a JsonMap> for AuthorRef<'a> {
    open spec fn obeys_from_spec() -> bool {
        true
    }

    closed spec fn from_spec(value: &'a JsonMap) -> Self {
        AuthorRef { value }
    }
}

impl<'a> AsRef<JsonMap> for AuthorRef<'a> {
    fn as_ref(&self) -> (r: &JsonMap)
        ensures
            doc_of(*r) == self@,
    {
        self.value
    }
}

impl<'a> Eq for AuthorRef<'a> {}

impl<'a> PartialEq<JsonMap> for AuthorRef<'a> {
    fn eq(&self, other: &JsonMap) -> (r: bool) {
        map_eq(self.value, other)
    }
}

impl<'a> PartialEqSpecImpl<JsonMap> for AuthorRef<'a> {
    open spec fn obeys_eq_spec() -> bool {
        true
    }

    open spec fn eq_spec(&self, other: &JsonMap) -> bool {
        self@ == doc_of(*other)
    }
}

impl<'a> PartialEq<AuthorRef<'a>> for AuthorRef<'a> {
    fn eq(&self, other: &AuthorRef<'a>) -> (r: bool) {
        map_eq(self.value, other.value)
    }
}

impl<'a> PartialEqSpecImpl<AuthorRef<'a>> for AuthorRef<'a> {
    open spec fn obeys_eq_spec() -> bool {
        true
    }

    open spec fn eq_spec(&self, other: &AuthorRef<'a>) -> bool {
        self@ == other@
    }
}

impl<'a> AuthorMut<'a> {
    /// Returns the inner `Map` as a reference.
    #[must_use]
    pub fn as_map(&self) -> (r: &JsonMap)
        ensures
            doc_of(*r) == self@,
    {
        self.value
    }

    /// Returns the inner `Map` as a mutable reference. What the map ends as
    /// is what the author ends as.
    pub fn as_map_mut(&mut self) -> (r: &mut JsonMap)
        ensures
            doc_of(*r) == old(self)@,
            final(self)@ == doc_of(*final(r)),
            *final(final(self).value) == *final(old(self).value),
    {
        self.value
    }

    /// Clones the inner `Map` reference and returns an owned type.
    #[must_use]
    pub fn to_author(&self) -> (r: Author)
        ensures
            r@ == self@,
    {
        Author::from(self.value.clone())
    }

    /// Wraps each of a run of mutably borrowed maps, in order. Each view
    /// writes through to the map it was made from.
    pub(crate) fn from_maps(maps: Vec<&'a mut JsonMap>) -> (views: Vec<AuthorMut<'a>>)
        ensures
            views@.len() == maps@.len(),
            forall|i: int| 0 <= i < maps@.len() ==> (#[trigger] views@[i])@ == doc_of(*maps@[i]),
            forall|i: int|
                0 <= i < maps@.len() ==> *final((#[trigger] views@[i]).value) == *final(maps@[i]),
    {
        let ghost given = maps@;
        let mut views: Vec<AuthorMut<'a>> = Vec::new();
        for map in it: maps.into_iter()
            invariant
                given == it.seq(),
                views@.len() == it.index(),
                forall|j: int|
                    0 <= j < views@.len() ==> (#[trigger] views@[j])@ == doc_of(*given[j]),
                forall|j: int|
                    0 <= j < views@.len() ==> *final((#[trigger] views@[j]).value)
                        == *final(given[j]),
        {
            views.push(AuthorMut::from(map));
        }
        views
    }

    /// The optional author's name.
    pub fn name(&self) -> (r: Result<Option<&str>, Error>)
        ensures
            reads_string(r, self@, "name"@),
    {
        get_str(self.value, "name")
    }

    /// Sets the name.
    pub fn set_name(&mut self, value: &str) -> (prior: Option<Value>)
        ensures
            final(self)@ == old(self)@.insert("name"@, Json::String(value@)),
            is_prior(prior, old(self)@, "name"@),
            *final(final(self).value) == *final(old(self).value),
    {
        set_str(self.value, "name", value)
    }

    /// Remove the name.
    pub fn remove_name(&mut self) -> (prior: Option<Value>)
        ensures
            final(self)@ == old(self)@.remove("name"@),
            is_prior(prior, old(self)@, "name"@),
            *final(final(self).value) == *final(old(self).value),
    {
        remove(self.value, "name")
    }

    /// An optional URL for a site which represents the author.
    pub fn url(&self) -> (r: Result<Option<&str>, Error>)
        ensures
            reads_string(r, self@, "url"@),
    {
        get_str(self.value, "url")
    }

    /// Sets the URL.
    pub fn set_url(&mut self, value: &str) -> (prior: Option<Value>)
        ensures
            final(self)@ == old(self)@.insert("url"@, Json::String(value@)),
            is_prior(prior, old(self)@, "url"@),
            *final(final(self).value) == *final(old(self).value),
    {
        set_str(self.value, "url", value)
    }

    /// Removes the URL.
    pub fn remove_url(&mut self) -> (prior: Option<Value>)
        ensures
            final(self)@ == old(self)@.remove("url"@),
            is_prior(prior, old(self)@, "url"@),
            *final(final(self).value) == *final(old(self).value),
    {
        remove(self.value, "url")
    }

    /// An optional URL for an image which represents the author.
    pub fn avatar(&self) -> (r: Result<Option<&str>, Error>)
        ensures
            reads_string(r, self@, "avatar"@),
    {
        get_str(self.value, "avatar")
    }

    /// Sets the avatar.
    pub fn set_avatar(&mut self, value: &str) -> (prior: Option<Value>)
        ensures
            final(self)@ == old(self)@.insert("avatar"@, Json::String(value@)),
            is_prior(prior, old(self)@, "avatar"@),
            *final(final(self).value) == *final(old(self).value),
    {
        set_str(self.value, "avatar", value)
    }

    /// Removes the avatar.
    pub fn remove_avatar(&mut self) -> (prior: Option<Value>)
        ensures
            final(self)@ == old(self)@.remove("avatar"@),
            is_prior(prior, old(self)@, "avatar"@),
            *final(final(self).value) == *final(old(self).value),
    {
        remove(self.value, "avatar")
    }

    /// Verifies if the JSON data complies with a specific `Version` of the
    /// JSON Feed format.
    #[must_use]
    pub fn is_valid(&self, version: &Version<'_>) -> (ok: bool)
        ensures
            ok == author_valid(self@, *version),
    {
        is_valid_author(self.value, version)
    }
}

impl<'a> From<&'a mut JsonMap> for AuthorMut<'a> {
    fn from(value: &'a mut JsonMap) -> (r: Self)
        ensures
            r@ == doc_of(*old(value)),
            *final(r.value) == *final(value),
    {
        AuthorMut { value }
    }
}

impl<'a> FromSpecImpl<&'a mut JsonMap> for AuthorMut<'a> {
    /// A view made from a mutable borrow carries the borrow's future along,
    /// which no function of the argument's present value can state; `from`
    /// states its own contract.
    open spec fn obeys_from_spec() -> bool {
        false
    }

    open spec fn from_spec(value: &'a mut JsonMap) -> Self {
        AuthorMut { value }
    }
}

impl<'a> AsRef<JsonMap> for AuthorMut<'a> {
    fn as_ref(&self) -> (r: &JsonMap)
        ensures
            doc_of(*r) == self@,
    {
        self.value
    }
}

impl<'a> AsMut<JsonMap> for AuthorMut<'a> {
    fn as_mut(&mut self) -> (r: &mut JsonMap)
        ensures
            doc_of(*r) == old(self)@,
            final(self)@ == doc_of(*final(r)),
            *final(final(self).value) == *final(old(self).value),
    {
        self.value
    }
}

impl<'a> Eq for AuthorMut<'a> {}

impl<'a> PartialEq<JsonMap> for AuthorMut<'a> {
    fn eq(&self, other: &JsonMap) -> (r: bool) {
        map_eq(self.value, other)
    }
}

impl<'a> PartialEqSpecImpl<JsonMap> for AuthorMut<'a> {
    open spec fn obeys_eq_spec() -> bool {
        true
    }

    open spec fn eq_spec(&self, other: &JsonMap) -> bool {
        self@ == doc_of(*other)
    }
}

impl<'a> PartialEq<AuthorMut<'a>> for AuthorMut<'a> {
    fn eq(&self, other: &AuthorMut<'a>) -> (r: bool) {
        map_eq(self.value, other.value)
    }
}

impl<'a> PartialEqSpecImpl<AuthorMut<'a>> for AuthorMut<'a> {
    open spec fn obeys_eq_spec() -> bool {
        true
    }

    open spec fn eq_spec(&self, other: &AuthorMut<'a>) -> bool {
        self@ == other@
    }
}

} // verus!

//! The feed itself: the root of a document.

use crate::author::{author_docs, reads_author, reads_authors, Author, AuthorMut, AuthorRef};
use crate::error::Error;
use crate::field::{
    get_bool, get_object, get_object_array, get_object_array_mut, get_object_mut, get_str,
    object_array, object_at, objects_at, reads_bool, reads_string, remove, set_bool, set_object,
    set_object_array, set_str, Lookup,
};
use crate::hub::{hub_docs, reads_hubs, Hub, HubMut, HubRef};
use crate::item::{item_docs, reads_items, Item, ItemMut, ItemRef};
use crate::json::{doc_of, is_prior, map_eq, Doc, Json, JsonMap};
use crate::validate::{feed_valid, is_valid_feed};
use crate::version::Version;
use serde_json::Value;
use vstd::prelude::*;
use vstd::std_specs::cmp::PartialEqSpecImpl;
use vstd::std_specs::convert::FromSpecImpl;

verus! {

/// A list of items with associated metadata.
///
/// The type provides a view into a JSON object value with accessor methods for
/// the standard fields. `Feed` owns the underlying JSON object data and
/// provides methods to access the backing object itself with `as_map`,
/// `as_map_mut`, and `into_inner`.
///
/// The underlying data is not guaranteed to be a valid JSON Feed.
///
/// # Valid Feed
///
/// A `Feed` must have the `version` set to a valid JSON Feed version value, the
/// `title` field set, and the `items` field set.
#[derive(Debug)]
pub struct Feed {
    value: JsonMap,
}

/// A `Feed` implemented with a borrowed reference to a JSON object.
#[derive(Debug)]
pub struct FeedRef<'a> {
    value: &'a JsonMap,
}

/// A `Feed` implemented with a borrowed mutable reference to a JSON object.
#[derive(Debug)]
pub struct FeedMut<'a> {
    /// The borrowed object. The field is public so that contracts can speak
    /// of what the object holds once the borrow has ended.
    pub value: &'a mut JsonMap,
}

impl View for Feed {
    type V = Doc;

    closed spec fn view(&self) -> Doc {
        doc_of(self.value)
    }
}

impl<'a> View for FeedRef<'a> {
    type V = Doc;

    closed spec fn view(&self) -> Doc {
        doc_of(*self.value)
    }
}

impl<'a> View for FeedMut<'a> {
    type V = Doc;

    open spec fn view(&self) -> Doc {
        doc_of(*self.value)
    }
}

impl Feed {
    /// Instantiates with an empty JSON object.
    #[must_use]
    pub fn new() -> (r: Self)
        ensures
            r@ == Doc::empty(),
    {
        Feed { value: JsonMap::new() }
    }

    /// Returns the inner `Map` as a reference.
    #[must_use]
    pub fn as_map(&self) -> (r: &JsonMap)
        ensures
            doc_of(*r) == self@,
    {
        &self.value
    }

    /// Returns the inner `Map` as a mutable reference. What the map ends as
    /// is what the feed ends as.
    pub fn as_map_mut(&mut self) -> (r: &mut JsonMap)
        ensures
            doc_of(*r) == old(self)@,
            final(self)@ == doc_of(*final(r)),
    {
        &mut self.value
    }

    /// Converts the type into the inner `Map`.
    #[must_use]
    pub fn into_inner(self) -> (r: JsonMap)
        ensures
            doc_of(r) == self@,
    {
        self.value
    }

    /// The required URL formatted version identifier.
    ///
    /// Identifies what version of the spec the feed is suppose to be compliant
    /// with.
    pub fn version(&self) -> (r: Result<Option<&str>, Error>)
        ensures
            reads_string(r, self@, "version"@),
    {
        get_str(&self.value, "version")
    }

    /// Sets the version identifier.
    pub fn set_version(&mut self, value: &str) -> (prior: Option<Value>)
        ensures
            final(self)@ == old(self)@.insert("version"@, Json::String(value@)),
            is_prior(prior, old(self)@, "version"@),
    {
        set_str(&mut self.value, "version", value)
    }

    /// Removes the version identifier.
    pub fn remove_version(&mut self) -> (prior: Option<Value>)
        ensures
            final(self)@ == old(self)@.remove("version"@),
            is_prior(prior, old(self)@, "version"@),
    {
        remove(&mut self.value, "version")
    }

    /// The optional name of the feed.
    pub fn title(&self) -> (r: Result<Option<&str>, Error>)
        ensures
            reads_string(r, self@, "title"@),
    {
        get_str(&self.value, "title")
    }

    /// Sets the name of the feed.
    pub fn set_title(&mut self, value: &str) -> (prior: Option<Value>)
        ensures
            final(self)@ == old(self)@.insert("title"@, Json::String(value@)),
            is_prior(prior, old(self)@, "title"@),
    {
        set_str(&mut self.value, "title", value)
    }

    /// Removes the name of the feed.
    pub fn remove_title(&mut self) -> (prior: Option<Value>)
        ensures
            final(self)@ == old(self)@.remove("title"@),
            is_prior(prior, old(self)@, "title"@),
    {
        remove(&mut self.value, "title")
    }

    /// The optional URL which the feed is suppose to represent.
    pub fn home_page_url(&self) -> (r: Result<Option<&str>, Error>)
        ensures
            reads_string(r, self@, "home_page_url"@),
    {
        get_str(&self.value, "home_page_url")
    }

    /// Sets the home page URL.
    pub fn set_home_page_url(&mut self, value: &str) -> (prior: Option<Value>)
        ensures
            final(self)@ == old(self)@.insert("home_page_url"@, Json::String(value@)),
            is_prior(prior, old(self)@, "home_page_url"@),
    {
        set_str(&mut self.value, "home_page_url", value)
    }

    /// Removes the home page URL.
    pub fn remove_home_page_url(&mut self) -> (prior: Option<Value>)
        ensures
            final(self)@ == old(self)@.remove("home_page_url"@),
            is_prior(prior, old(self)@, "home_page_url"@),
    {
        remove(&mut self.value, "home_page_url")
    }

    /// The optional URL which this feed can be retrieived from.
    pub fn feed_url(&self) -> (r: Result<Option<&str>, Error>)
        ensures
            reads_string(r, self@, "feed_url"@),
    {
        get_str(&self.value, "feed_url")
    }

    /// Sets the feed URL.
    pub fn set_feed_url(&mut self, value: &str) -> (prior: Option<Value>)
        ensures
            final(self)@ == old(self)@.insert("feed_url"@, Json::String(value@)),
            is_prior(prior, old(self)@, "feed_url"@),
    {
        set_str(&mut self.value, "feed_url", value)
    }

    /// Removes the feed URL.
    pub fn remove_feed_url(&mut self) -> (prior: Option<Value>)
        ensures
            final(self)@ == old(self)@.remove("feed_url"@),
            is_prior(prior, old(self)@, "feed_url"@),
    {
        remove(&mut self.value, "feed_url")
    }

    /// An optional description of the feed.
    pub fn description(&self) -> (r: Result<Option<&str>, Error>)
        ensures
            reads_string(r, self@, "description"@),
    {
        get_str(&self.value, "description")
    }

    /// Sets the description of the feed.
    pub fn set_description(&mut self, value: &str) -> (prior: Option<Value>)
        ensures
            final(self)@ == old(self)@.insert("description"@, Json::String(value@)),
            is_prior(prior, old(self)@, "description"@),
    {
        set_str(&mut self.value, "description", value)
    }

    /// Removes the description of the feed.
    pub fn remove_description(&mut self) -> (prior: Option<Value>)
        ensures
            final(self)@ == old(self)@.remove("description"@),
            is_prior(prior, old(self)@, "description"@),
    {
        remove(&mut self.value, "description")
    }

    /// An optional meta description about the feed only intended to be viewed
    /// in the raw JSON form.
    pub fn user_comment(&self) -> (r: Result<Option<&str>, Error>)
        ensures
            reads_string(r, self@, "user_comment"@),
    {
        get_str(&self.value, "user_comment")
    }

    /// Sets the user comment.
    pub fn set_user_comment(&mut self, value: &str) -> (prior: Option<Value>)
        ensures
            final(self)@ == old(self)@.insert("user_comment"@, Json::String(value@)),
            is_prior(prior, old(self)@, "user_comment"@),
    {
        set_str(&mut self.value, "user_comment", value)
    }

    /// Removes the user comment.
    pub fn remove_user_comment(&mut self) -> (prior: Option<Value>)
        ensures
            final(self)@ == old(self)@.remove("user_comment"@),
            is_prior(prior, old(self)@, "user_comment"@),
    {
        remove(&mut self.value, "user_comment")
    }

    /// An optional pagination URL.
    pub fn next_url(&self) -> (r: Result<Option<&str>, Error>)
        ensures
            reads_string(r, self@, "next_url"@),
    {
        get_str(&self.value, "next_url")
    }

    /// Sets the next URL.
    pub fn set_next_url(&mut self, value: &str) -> (prior: Option<Value>)
        ensures
            final(self)@ == old(self)@.insert("next_url"@, Json::String(value@)),
            is_prior(prior, old(self)@, "next_url"@),
    {
        set_str(&mut self.value, "next_url", value)
    }

    /// Removes the next URL.
    pub fn remove_next_url(&mut self) -> (prior: Option<Value>)
        ensures
            final(self)@ == old(self)@.remove("next_url"@),
            is_prior(prior, old(self)@, "next_url"@),
    {
        remove(&mut self.value, "next_url")
    }

    /// An optional URL to an icon for use in a list of items.
    pub fn icon(&self) -> (r: Result<Option<&str>, Error>)
        ensures
            reads_string(r, self@, "icon"@),
    {
        get_str(&self.value, "icon")
    }

    /// Sets the icon.
    pub fn set_icon(&mut self, value: &str) -> (prior: Option<Value>)
        ensures
            final(self)@ == old(self)@.insert("icon"@, Json::String(value@)),
            is_prior(prior, old(self)@, "icon"@),
    {
        set_str(&mut self.value, "icon", value)
    }

    /// Removes the icon.
    pub fn remove_icon(&mut self) -> (prior: Option<Value>)
        ensures
            final(self)@ == old(self)@.remove("icon"@),
            is_prior(prior, old(self)@, "icon"@),
    {
        remove(&mut self.value, "icon")
    }

    /// An optional URL to a favicon suitable for use in a list of feeds.
    pub fn favicon(&self) -> (r: Result<Option<&str>, Error>)
        ensures
            reads_string(r, self@, "favicon"@),
    {
        get_str(&self.value, "favicon")
    }

    /// Sets the favicon URL.
    pub fn set_favicon(&mut self, value: &str) -> (prior: Option<Value>)
        ensures
            final(self)@ == old(self)@.insert("favicon"@, Json::String(value@)),
            is_prior(prior, old(self)@, "favicon"@),
    {
        set_str(&mut self.value, "favicon", value)
    }

    /// Removes the favicon URL.
    pub fn remove_favicon(&mut self) -> (prior: Option<Value>)
        ensures
            final(self)@ == old(self)@.remove("favicon"@),
            is_prior(prior, old(self)@, "favicon"@),
    {
        remove(&mut self.value, "favicon")
    }

    /// An optional author.
    ///
    /// # Deprecation
    ///
    /// The `author` field is deprecated in favor of the `authors` field as of
    /// JSON Feed 1.1.
    pub fn author(&self) -> (r: Result<Option<AuthorRef<'_>>, Error>)
        ensures
            reads_author(r, self@, "author"@),
    {
        match get_object(&self.value, "author") {
            Ok(Some(map)) => Ok(Some(AuthorRef::from(map))),
            Ok(None) => Ok(None),
            Err(e) => Err(e),
        }
    }

    /// An optional author.
    ///
    /// # Deprecation
    ///
    /// The `author` field is deprecated in favor of the `authors` field as of
    /// JSON Feed 1.1.
    ///
    /// The view can be written through: what it ends as is what `author` ends
    /// up holding.
    pub fn author_mut(&mut self) -> (r: Result<Option<AuthorMut<'_>>, Error>)
        ensures
            match object_at(old(self)@, "author"@) {
                Lookup::Absent => r matches Ok(None) && final(self)@ == old(self)@,
                Lookup::Mismatch => r matches Err(Error::UnexpectedType)
                    && final(self)@ == old(self)@,
                Lookup::Present(d) => r matches Ok(Some(view)) && view@ == d
                    && final(self)@ == old(self)@.insert(
                        "author"@,
                        Json::Object(doc_of(*final(view.value))),
                    ),
            },
    {
        match get_object_mut(&mut self.value, "author") {
            Ok(Some(map)) => Ok(Some(AuthorMut::from(map))),
            Ok(None) => Ok(None),
            Err(e) => Err(e),
        }
    }

    /// Sets the author.
    pub fn set_author(&mut self, value: Author) -> (prior: Option<Value>)
        ensures
            final(self)@ == old(self)@.insert("author"@, Json::Object(value@)),
            is_prior(prior, old(self)@, "author"@),
    {
        set_object(&mut self.value, "author", value.into_inner())
    }

    /// Removes the author.
    pub fn remove_author(&mut self) -> (prior: Option<Value>)
        ensures
            final(self)@ == old(self)@.remove("author"@),
            is_prior(prior, old(self)@, "author"@),
    {
        remove(&mut self.value, "author")
    }

    /// An optional array of authors.
    pub fn authors(&self) -> (r: Result<Option<Vec<AuthorRef<'_>>>, Error>)
        ensures
            reads_authors(r, self@, "authors"@),
    {
        match get_object_array(&self.value, "authors") {
            Ok(Some(maps)) => Ok(Some(AuthorRef::from_maps(maps))),
            Ok(None) => Ok(None),
            Err(e) => Err(e),
        }
    }

    /// An optional array of authors.
    ///
    /// Each view can be written through: what the views end as is what the
    /// array under `authors` ends up holding, in the same order.
    pub fn authors_mut(&mut self) -> (r: Result<Option<Vec<AuthorMut<'_>>>, Error>)
        ensures
            match objects_at(old(self)@, "authors"@) {
                Lookup::Absent => r matches Ok(None) && final(self)@ == old(self)@,
                Lookup::Mismatch => r matches Err(Error::UnexpectedType)
                    && final(self)@ == old(self)@,
                Lookup::Present(ds) => r matches Ok(Some(views)) && views@.len() == ds.len()
                    && (forall|i: int| 0 <= i < ds.len() ==> (#[trigger] views@[i])@ == ds[i])
                    && final(self)@ == old(self)@.insert(
                        "authors"@,
                        object_array(Seq::new(ds.len(), |i: int| doc_of(*final(views@[i].value)))),
                    ),
            },
    {
        match get_object_array_mut(&mut self.value, "authors") {
            Ok(Some(maps)) => {
                let ghost ds = objects_at(old(self)@, "authors"@)->Present_0;
                let views = AuthorMut::from_maps(maps);
                assert(Seq::new(ds.len(), |i: int| doc_of(*final(views@[i].value)))
                    =~= Seq::new(ds.len(), |i: int| doc_of(*final(maps@[i]))));
                Ok(Some(views))
            },
            Ok(None) => Ok(None),
            Err(e) => Err(e),
        }
    }

    /// Sets the authors.
    pub fn set_authors(&mut self, items: Vec<Author>) -> (prior: Option<Value>)
        ensures
            final(self)@ == old(self)@.insert("authors"@, object_array(author_docs(items@))),
            is_prior(prior, old(self)@, "authors"@),
    {
        set_object_array(&mut self.value, "authors", Author::into_maps(items))
    }

    /// Removes the authors.
    pub fn remove_authors(&mut self) -> (prior: Option<Value>)
        ensures
            final(self)@ == old(self)@.remove("authors"@),
            is_prior(prior, old(self)@, "authors"@),
    {
        remove(&mut self.value, "authors")
    }

    /// The optional language which the feed data is written in.
    ///
    /// Valid values are from [RFC 5646][rfc_5646].
    ///
    /// [rfc_5646]: https://tools.ietf.org/html/rfc5646
    pub fn language(&self) -> (r: Result<Option<&str>, Error>)
        ensures
            reads_string(r, self@, "language"@),
    {
        get_str(&self.value, "language")
    }

    /// Sets the language.
    pub fn set_language(&mut self, value: &str) -> (prior: Option<Value>)
        ensures
            final(self)@ == old(self)@.insert("language"@, Json::String(value@)),
            is_prior(prior, old(self)@, "language"@),
    {
        set_str(&mut self.value, "language", value)
    }

    /// Removes the language.
    pub fn remove_language(&mut self) -> (prior: Option<Value>)
        ensures
            final(self)@ == old(self)@.remove("language"@),
            is_prior(prior, old(self)@, "language"@),
    {
        remove(&mut self.value, "language")
    }

    /// Optionally determines if the feed will be updated in the future.
    ///
    /// If true, the feed will not be updated in the future. If false or `None`,
    /// then the feed may be updated in the future.
    pub fn expired(&self) -> (r: Result<Option<bool>, Error>)
        ensures
            reads_bool(r, self@, "expired"@),
    {
        get_bool(&self.value, "expired")
    }

    /// Sets the expired flag.
    pub fn set_expired(&mut self, value: bool) -> (prior: Option<Value>)
        ensures
            final(self)@ == old(self)@.insert("expired"@, Json::Bool(value)),
            is_prior(prior, old(self)@, "expired"@),
    {
        set_bool(&mut self.value, "expired", value)
    }

    /// Removes the expired flag.
    pub fn remove_expired(&mut self) -> (prior: Option<Value>)
        ensures
            final(self)@ == old(self)@.remove("expired"@),
            is_prior(prior, old(self)@, "expired"@),
    {
        remove(&mut self.value, "expired")
    }

    /// Optional subscription endpoints which can be used to received feed
    /// update notifications.
    pub fn hubs(&self) -> (r: Result<Option<Vec<HubRef<'_>>>, Error>)
        ensures
            reads_hubs(r, self@, "hubs"@),
    {
        match get_object_array(&self.value, "hubs") {
            Ok(Some(maps)) => Ok(Some(HubRef::from_maps(maps))),
            Ok(None) => Ok(None),
            Err(e) => Err(e),
        }
    }

    /// Subscription endpoints which can be used to received feed update
    /// notifications.
    ///
    /// Each view can be written through: what the views end as is what the
    /// array under `hubs` ends up holding, in the same order.
    pub fn hubs_mut(&mut self) -> (r: Result<Option<Vec<HubMut<'_>>>, Error>)
        ensures
            match objects_at(old(self)@, "hubs"@) {
                Lookup::Absent => r matches Ok(None) && final(self)@ == old(self)@,
                Lookup::Mismatch => r matches Err(Error::UnexpectedType)
                    && final(self)@ == old(self)@,
                Lookup::Present(ds) => r matches Ok(Some(views)) && views@.len() == ds.len()
                    && (forall|i: int| 0 <= i < ds.len() ==> (#[trigger] views@[i])@ == ds[i])
                    && final(self)@ == old(self)@.insert(
                        "hubs"@,
                        object_array(Seq::new(ds.len(), |i: int| doc_of(*final(views@[i].value)))),
                    ),
            },
    {
        match get_object_array_mut(&mut self.value, "hubs") {
            Ok(Some(maps)) => {
                let ghost ds = objects_at(old(self)@, "hubs"@)->Present_0;
                let views = HubMut::from_maps(maps);
                assert(Seq::new(ds.len(), |i: int| doc_of(*final(views@[i].value)))
                    =~= Seq::new(ds.len(), |i: int| doc_of(*final(maps@[i]))));
                Ok(Some(views))
            },
            Ok(None) => Ok(None),
            Err(e) => Err(e),
        }
    }

    /// Sets the hubs.
    pub fn set_hubs(&mut self, items: Vec<Hub>) -> (prior: Option<Value>)
        ensures
            final(self)@ == old(self)@.insert("hubs"@, object_array(hub_docs(items@))),
            is_prior(prior, old(self)@, "hubs"@),
    {
        set_object_array(&mut self.value, "hubs", Hub::into_maps(items))
    }

    /// Removes the hubs.
    pub fn remove_hubs(&mut self) -> (prior: Option<Value>)
        ensures
            final(self)@ == old(self)@.remove("hubs"@),
            is_prior(prior, old(self)@, "hubs"@),
    {
        remove(&mut self.value, "hubs")
    }

    /// A required array of `Items`.
    pub fn items(&self) -> (r: Result<Option<Vec<ItemRef<'_>>>, Error>)
        ensures
            reads_items(r, self@, "items"@),
    {
        match get_object_array(&self.value, "items") {
            Ok(Some(maps)) => Ok(Some(ItemRef::from_maps(maps))),
            Ok(None) => Ok(None),
            Err(e) => Err(e),
        }
    }

    /// A required array of `Items`.
    ///
    /// Each view can be written through: what the views end as is what the
    /// array under `items` ends up holding, in the same order.
    pub fn items_mut(&mut self) -> (r: Result<Option<Vec<ItemMut<'_>>>, Error>)
        ensures
            match objects_at(old(self)@, "items"@) {
                Lookup::Absent => r matches Ok(None) && final(self)@ == old(self)@,
                Lookup::Mismatch => r matches Err(Error::UnexpectedType)
                    && final(self)@ == old(self)@,
                Lookup::Present(ds) => r matches Ok(Some(views)) && views@.len() == ds.len()
                    && (forall|i: int| 0 <= i < ds.len() ==> (#[trigger] views@[i])@ == ds[i])
                    && final(self)@ == old(self)@.insert(
                        "items"@,
                        object_array(Seq::new(ds.len(), |i: int| doc_of(*final(views@[i].value)))),
                    ),
            },
    {
        match get_object_array_mut(&mut self.value, "items") {
            Ok(Some(maps)) => {
                let ghost ds = objects_at(old(self)@, "items"@)->Present_0;
                let views = ItemMut::from_maps(maps);
                assert(Seq::new(ds.len(), |i: int| doc_of(*final(views@[i].value)))
                    =~= Seq::new(ds.len(), |i: int| doc_of(*final(maps@[i]))));
                Ok(Some(views))
            },
            Ok(None) => Ok(None),
            Err(e) => Err(e),
        }
    }

    /// Sets the items.
    pub fn set_items(&mut self, items: Vec<Item>) -> (prior: Option<Value>)
        ensures
            final(self)@ == old(self)@.insert("items"@, object_array(item_docs(items@))),
            is_prior(prior, old(self)@, "items"@),
    {
        set_object_array(&mut self.value, "items", Item::into_maps(items))
    }

    /// Removes the items.
    pub fn remove_items(&mut self) -> (prior: Option<Value>)
        ensures
            final(self)@ == old(self)@.remove("items"@),
            is_prior(prior, old(self)@, "items"@),
    {
        remove(&mut self.value, "items")
    }

    /// Verifies if the JSON data complies with a specific `Version` of the
    /// JSON Feed format.
    #[must_use]
    pub fn is_valid(&self, version: &Version<'_>) -> (ok: bool)
        ensures
            ok == feed_valid(self@, *version),
    {
        is_valid_feed(&self.value, version)
    }
}

impl Clone for Feed {
    fn clone(&self) -> (r: Self)
        ensures
            r@ == self@,
    {
        Feed { value: self.value.clone() }
    }
}

impl Default for Feed {
    fn default() -> (r: Self)
        ensures
            r@ == Doc::empty(),
    {
        Feed::new()
    }
}

impl From<JsonMap> for Feed {
    fn from(value: JsonMap) -> (r: Self)
        ensures
            r@ == doc_of(value),
    {
        Feed { value }
    }
}

impl FromSpecImpl<JsonMap> for Feed {
    open spec fn obeys_from_spec() -> bool {
        true
    }

    closed spec fn from_spec(value: JsonMap) -> Self {
        Feed { value }
    }
}

impl AsRef<JsonMap> for Feed {
    fn as_ref(&self) -> (r: &JsonMap)
        ensures
            doc_of(*r) == self@,
    {
        &self.value
    }
}

impl AsMut<JsonMap> for Feed {
    fn as_mut(&mut self) -> (r: &mut JsonMap)
        ensures
            doc_of(*r) == old(self)@,
            final(self)@ == doc_of(*final(r)),
    {
        &mut self.value
    }
}

impl Eq for Feed {}

impl PartialEq<JsonMap> for Feed {
    fn eq(&self, other: &JsonMap) -> (r: bool) {
        map_eq(&self.value, other)
    }
}

impl PartialEqSpecImpl<JsonMap> for Feed {
    open spec fn obeys_eq_spec() -> bool {
        true
    }

    open spec fn eq_spec(&self, other: &JsonMap) -> bool {
        self@ == doc_of(*other)
    }
}

impl PartialEq<Feed> for Feed {
    fn eq(&self, other: &Feed) -> (r: bool) {
        map_eq(&self.value, &other.value)
    }
}

impl PartialEqSpecImpl<Feed> for Feed {
    open spec fn obeys_eq_spec() -> bool {
        true
    }

    open spec fn eq_spec(&self, other: &Feed) -> bool {
        self@ == other@
    }
}

/// Building a feed from a map and cloning it keeps the document: the clone
/// compares equal to the map it came from, and to the feed it was cloned
/// from.
pub proof fn lemma_feed_clone_equals_source(source: JsonMap, built: Feed, copy: Feed)
    requires
        built@ == doc_of(source),
        copy@ == built@,
    ensures
        vstd::std_specs::cmp::PartialEqSpec::eq_spec(&copy, &source),
        vstd::std_specs::cmp::PartialEqSpec::eq_spec(&copy, &built),
{
}

impl<'a> FeedRef<'a> {
    /// Returns the inner `Map` as a reference.
    #[must_use]
    pub fn as_map(&self) -> (r: &JsonMap)
        ensures
            doc_of(*r) == self@,
    {
        self.value
    }

    /// Clones the inner `Map` reference and returns an owned type.
    #[must_use]
    pub fn to_feed(&self) -> (r: Feed)
        ensures
            r@ == self@,
    {
        Feed::from(self.value.clone())
    }

    /// The required URL formatted version identifier.
    ///
    /// Identifies what version of the spec the feed is suppose to be compliant
    /// with.
    pub fn version(&self) -> (r: Result<Option<&str>, Error>)
        ensures
            reads_string(r, self@, "version"@),
    {
        get_str(self.value, "version")
    }

    /// The optional name of the feed.
    pub fn title(&self) -> (r: Result<Option<&str>, Error>)
        ensures
            reads_string(r, self@, "title"@),
    {
        get_str(self.value, "title")
    }

    /// The optional URL which the feed is suppose to represent.
    pub fn home_page_url(&self) -> (r: Result<Option<&str>, Error>)
        ensures
            reads_string(r, self@, "home_page_url"@),
    {
        get_str(self.value, "home_page_url")
    }

    /// The optional URL which this feed can be retrieived from.
    pub fn feed_url(&self) -> (r: Result<Option<&str>, Error>)
        ensures
            reads_string(r, self@, "feed_url"@),
    {
        get_str(self.value, "feed_url")
    }

    /// An optional description of the feed.
    pub fn description(&self) -> (r: Result<Option<&str>, Error>)
        ensures
            reads_string(r, self@, "description"@),
    {
        get_str(self.value, "description")
    }

    /// An optional meta description about the feed only intended to be viewed
    /// in the raw JSON form.
    pub fn user_comment(&self) -> (r: Result<Option<&str>, Error>)
        ensures
            reads_string(r, self@, "user_comment"@),
    {
        get_str(self.value, "user_comment")
    }

    /// An optional pagination URL.
    pub fn next_url(&self) -> (r: Result<Option<&str>, Error>)
        ensures
            reads_string(r, self@, "next_url"@),
    {
        get_str(self.value, "next_url")
    }

    /// An optional URL to an icon for use in a list of items.
    pub fn icon(&self) -> (r: Result<Option<&str>, Error>)
        ensures
            reads_string(r, self@, "icon"@),
    {
        get_str(self.value, "icon")
    }

    /// An optional URL to a favicon suitable for use in a list of feeds.
    pub fn favicon(&self) -> (r: Result<Option<&str>, Error>)
        ensures
            reads_string(r, self@, "favicon"@),
    {
        get_str(self.value, "favicon")
    }

    /// An optional author.
    ///
    /// # Deprecation
    ///
    /// The `author` field is deprecated in favor of the `authors` field as of
    /// JSON Feed 1.1.
    pub fn author(&self) -> (r: Result<Option<AuthorRef<'_>>, Error>)
        ensures
            reads_author(r, self@, "author"@),
    {
        match get_object(self.value, "author") {
            Ok(Some(map)) => Ok(Some(AuthorRef::from(map))),
            Ok(None) => Ok(None),
            Err(e) => Err(e),
        }
    }

    /// An optional array of authors.
    pub fn authors(&self) -> (r: Result<Option<Vec<AuthorRef<'_>>>, Error>)
        ensures
            reads_authors(r, self@, "authors"@),
    {
        match get_object_array(self.value, "authors") {
            Ok(Some(maps)) => Ok(Some(AuthorRef::from_maps(maps))),
            Ok(None) => Ok(None),
            Err(e) => Err(e),
        }
    }

    /// The optional language which the feed data is written in.
    ///
    /// Valid values are from [RFC 5646][rfc_5646].
    ///
    /// [rfc_5646]: https://tools.ietf.org/html/rfc5646
    pub fn language(&self) -> (r: Result<Option<&str>, Error>)
        ensures
            reads_string(r, self@, "language"@),
    {
        get_str(self.value, "language")
    }

    /// Optionally determines if the feed will be updated in the future.
    ///
    /// If true, the feed will not be updated in the future. If false or `None`,
    /// then the feed may be updated in the future.
    pub fn expired(&self) -> (r: Result<Option<bool>, Error>)
        ensures
            reads_bool(r, self@, "expired"@),
    {
        get_bool(self.value, "expired")
    }

    /// Optional subscription endpoints which can be used to received feed
    /// update notifications.
    pub fn hubs(&self) -> (r: Result<Option<Vec<HubRef<'_>>>, Error>)
        ensures
            reads_hubs(r, self@, "hubs"@),
    {
        match get_object_array(self.value, "hubs") {
            Ok(Some(maps)) => Ok(Some(HubRef::from_maps(maps))),
            Ok(None) => Ok(None),
            Err(e) => Err(e),
        }
    }

    /// A required array of `Items`.
    pub fn items(&self) -> (r: Result<Option<Vec<ItemRef<'_>>>, Error>)
        ensures
            reads_items(r, self@, "items"@),
    {
        match get_object_array(self.value, "items") {
            Ok(Some(maps)) => Ok(Some(ItemRef::from_maps(maps))),
            Ok(None) => Ok(None),
            Err(e) => Err(e),
        }
    }

    /// Verifies if the JSON data complies with a specific `Version` of the
    /// JSON Feed format.
    #[must_use]
    pub fn is_valid(&self, version: &Version<'_>) -> (ok: bool)
        ensures
            ok == feed_valid(self@, *version),
    {
        is_valid_feed(self.value, version)
    }
}

impl<'a> From<&'a JsonMap> for FeedRef<'a> {
    fn from(value: &'a JsonMap) -> (r: Self)
        ensures
            r@ == doc_of(*value),
    {
        FeedRef { value }
    }
}

impl<'a> FromSpecImpl<&'a JsonMap> for FeedRef<'a> {
    open spec fn obeys_from_spec() -> bool {
        true
    }

    closed spec fn from_spec(value: &'a JsonMap) -> Self {
        FeedRef { value }
    }
}

impl<'a> AsRef<JsonMap> for FeedRef<'a> {
    fn as_ref(&self) -> (r: &JsonMap)
        ensures
            doc_of(*r) == self@,
    {
        self.value
    }
}

impl<'a> Eq for FeedRef<'a> {}

impl<'a> PartialEq<JsonMap> for FeedRef<'a> {
    fn eq(&self, other: &JsonMap) -> (r: bool) {
        map_eq(self.value, other)
    }
}

impl<'a> PartialEqSpecImpl<JsonMap> for FeedRef<'a> {
    open spec fn obeys_eq_spec() -> bool {
        true
    }

    open spec fn eq_spec(&self, other: &JsonMap) -> bool {
        self@ == doc_of(*other)
    }
}

impl<'a> PartialEq<FeedRef<'a>> for FeedRef<'a> {
    fn eq(&self, other: &FeedRef<'a>) -> (r: bool) {
        map_eq(self.value, other.value)
    }
}

impl<'a> PartialEqSpecImpl<FeedRef<'a>> for FeedRef<'a> {
    open spec fn obeys_eq_spec() -> bool {
        true
    }

    open spec fn eq_spec(&self, other: &FeedRef<'a>) -> bool {
        self@ == other@
    }
}

impl<'a> FeedMut<'a> {
    /// Returns the inner `Map` as a reference.
    #[must_use]
    pub fn as_map(&self) -> (r: &JsonMap)
        ensures
            doc_of(*r) == self@,
    {
        self.value
    }

    /// Returns the inner `Map` as a mutable reference. What the map ends as
    /// is what the feed ends as.
    pub fn as_map_mut(&mut self) -> (r: &mut JsonMap)
        ensures
            doc_of(*r) == old(self)@,
            final(self)@ == doc_of(*final(r)),
            *final(final(self).value) == *final(old(self).value),
    {
        self.value
    }

    /// Clones the inner `Map` reference and returns an owned type.
    #[must_use]
    pub fn to_feed(&self) -> (r: Feed)
        ensures
            r@ == self@,
    {
        Feed::from(self.value.clone())
    }

    /// The required URL formatted version identifier.
    ///
    /// Identifies what version of the spec the feed is suppose to be compliant
    /// with.
    pub fn version(&self) -> (r: Result<Option<&str>, Error>)
        ensures
            reads_string(r, self@, "version"@),
    {
        get_str(self.value, "version")
    }

    /// Sets the version identifier.
    pub fn set_version(&mut self, value: &str) -> (prior: Option<Value>)
        ensures
            final(self)@ == old(self)@.insert("version"@, Json::String(value@)),
            is_prior(prior, old(self)@, "version"@),
            *final(final(self).value) == *final(old(self).value),
    {
        set_str(self.value, "version", value)
    }

    /// Removes the version identifier.
    pub fn remove_version(&mut self) -> (prior: Option<Value>)
        ensures
            final(self)@ == old(self)@.remove("version"@),
            is_prior(prior, old(self)@, "version"@),
            *final(final(self).value) == *final(old(self).value),
    {
        remove(self.value, "version")
    }

    /// The optional name of the feed.
    pub fn title(&self) -> (r: Result<Option<&str>, Error>)
        ensures
            reads_string(r, self@, "title"@),
    {
        get_str(self.value, "title")
    }

    /// Sets the name of the feed.
    pub fn set_title(&mut self, value: &str) -> (prior: Option<Value>)
        ensures
            final(self)@ == old(self)@.insert("title"@, Json::String(value@)),
            is_prior(prior, old(self)@, "title"@),
            *final(final(self).value) == *final(old(self).value),
    {
        set_str(self.value, "title", value)
    }

    /// Removes the name of the feed.
    pub fn remove_title(&mut self) -> (prior: Option<Value>)
        ensures
            final(self)@ == old(self)@.remove("title"@),
            is_prior(prior, old(self)@, "title"@),
            *final(final(self).value) == *final(old(self).value),
    {
        remove(self.value, "title")
    }

    /// The optional URL which the feed is suppose to represent.
    pub fn home_page_url(&self) -> (r: Result<Option<&str>, Error>)
        ensures
            reads_string(r, self@, "home_page_url"@),
    {
        get_str(self.value, "home_page_url")
    }

    /// Sets the home page URL.
    pub fn set_home_page_url(&mut self, value: &str) -> (prior: Option<Value>)
        ensures
            final(self)@ == old(self)@.insert("home_page_url"@, Json::String(value@)),
            is_prior(prior, old(self)@, "home_page_url"@),
            *final(final(self).value) == *final(old(self).value),
    {
        set_str(self.value, "home_page_url", value)
    }

    /// Removes the home page URL.
    pub fn remove_home_page_url(&mut self) -> (prior: Option<Value>)
        ensures
            final(self)@ == old(self)@.remove("home_page_url"@),
            is_prior(prior, old(self)@, "home_page_url"@),
            *final(final(self).value) == *final(old(self).value),
    {
        remove(self.value, "home_page_url")
    }

    /// The optional URL which this feed can be retrieived from.
    pub fn feed_url(&self) -> (r: Result<Option<&str>, Error>)
        ensures
            reads_string(r, self@, "feed_url"@),
    {
        get_str(self.value, "feed_url")
    }

    /// Sets the feed URL.
    pub fn set_feed_url(&mut self, value: &str) -> (prior: Option<Value>)
        ensures
            final(self)@ == old(self)@.insert("feed_url"@, Json::String(value@)),
            is_prior(prior, old(self)@, "feed_url"@),
            *final(final(self).value) == *final(old(self).value),
    {
        set_str(self.value, "feed_url", value)
    }

    /// Removes the feed URL.
    pub fn remove_feed_url(&mut self) -> (prior: Option<Value>)
        ensures
            final(self)@ == old(self)@.remove("feed_url"@),
            is_prior(prior, old(self)@, "feed_url"@),
            *final(final(self).value) == *final(old(self).value),
    {
        remove(self.value, "feed_url")
    }

    /// An optional description of the feed.
    pub fn description(&self) -> (r: Result<Option<&str>, Error>)
        ensures
            reads_string(r, self@, "description"@),
    {
        get_str(self.value, "description")
    }

    /// Sets the description of the feed.
    pub fn set_description(&mut self, value: &str) -> (prior: Option<Value>)
        ensures
            final(self)@ == old(self)@.insert("description"@, Json::String(value@)),
            is_prior(prior, old(self)@, "description"@),
            *final(final(self).value) == *final(old(self).value),
    {
        set_str(self.value, "description", value)
    }

    /// Removes the description of the feed.
    pub fn remove_description(&mut self) -> (prior: Option<Value>)
        ensures
            final(self)@ == old(self)@.remove("description"@),
            is_prior(prior, old(self)@, "description"@),
            *final(final(self).value) == *final(old(self).value),
    {
        remove(self.value, "description")
    }

    /// An optional meta description about the feed only intended to be viewed
    /// in the raw JSON form.
    pub fn user_comment(&self) -> (r: Result<Option<&str>, Error>)
        ensures
            reads_string(r, self@, "user_comment"@),
    {
        get_str(self.value, "user_comment")
    }

    /// Sets the user comment.
    pub fn set_user_comment(&mut self, value: &str) -> (prior: Option<Value>)
        ensures
            final(self)@ == old(self)@.insert("user_comment"@, Json::String(value@)),
            is_prior(prior, old(self)@, "user_comment"@),
            *final(final(self).value) == *final(old(self).value),
    {
        set_str(self.value, "user_comment", value)
    }

    /// Removes the user comment.
    pub fn remove_user_comment(&mut self) -> (prior: Option<Value>)
        ensures
            final(self)@ == old(self)@.remove("user_comment"@),
            is_prior(prior, old(self)@, "user_comment"@),
            *final(final(self).value) == *final(old(self).value),
    {
        remove(self.value, "user_comment")
    }

    /// An optional pagination URL.
    pub fn next_url(&self) -> (r: Result<Option<&str>, Error>)
        ensures
            reads_string(r, self@, "next_url"@),
    {
        get_str(self.value, "next_url")
    }

    /// Sets the next URL.
    pub fn set_next_url(&mut self, value: &str) -> (prior: Option<Value>)
        ensures
            final(self)@ == old(self)@.insert("next_url"@, Json::String(value@)),
            is_prior(prior, old(self)@, "next_url"@),
            *final(final(self).value) == *final(old(self).value),
    {
        set_str(self.value, "next_url", value)
    }

    /// Removes the next URL.
    pub fn remove_next_url(&mut self) -> (prior: Option<Value>)
        ensures
            final(self)@ == old(self)@.remove("next_url"@),
            is_prior(prior, old(self)@, "next_url"@),
            *final(final(self).value) == *final(old(self).value),
    {
        remove(self.value, "next_url")
    }

    /// An optional URL to an icon for use in a list of items.
    pub fn icon(&self) -> (r: Result<Option<&str>, Error>)
        ensures
            reads_string(r, self@, "icon"@),
    {
        get_str(self.value, "icon")
    }

    /// Sets the icon.
    pub fn set_icon(&mut self, value: &str) -> (prior: Option<Value>)
        ensures
            final(self)@ == old(self)@.insert("icon"@, Json::String(value@)),
            is_prior(prior, old(self)@, "icon"@),
            *final(final(self).value) == *final(old(self).value),
    {
        set_str(self.value, "icon", value)
    }

    /// Removes the icon.
    pub fn remove_icon(&mut self) -> (prior: Option<Value>)
        ensures
            final(self)@ == old(self)@.remove("icon"@),
            is_prior(prior, old(self)@, "icon"@),
            *final(final(self).value) == *final(old(self).value),
    {
        remove(self.value, "icon")
    }

    /// An optional URL to a favicon suitable for use in a list of feeds.
    pub fn favicon(&self) -> (r: Result<Option<&str>, Error>)
        ensures
            reads_string(r, self@, "favicon"@),
    {
        get_str(self.value, "favicon")
    }

    /// Sets the favicon URL.
    pub fn set_favicon(&mut self, value: &str) -> (prior: Option<Value>)
        ensures
            final(self)@ == old(self)@.insert("favicon"@, Json::String(value@)),
            is_prior(prior, old(self)@, "favicon"@),
            *final(final(self).value) == *final(old(self).value),
    {
        set_str(self.value, "favicon", value)
    }

    /// Removes the favicon URL.
    pub fn remove_favicon(&mut self) -> (prior: Option<Value>)
        ensures
            final(self)@ == old(self)@.remove("favicon"@),
            is_prior(prior, old(self)@, "favicon"@),
            *final(final(self).value) == *final(old(self).value),
    {
        remove(self.value, "favicon")
    }

    /// An optional author.
    ///
    /// # Deprecation
    ///
    /// The `author` field is deprecated in favor of the `authors` field as of
    /// JSON Feed 1.1.
    pub fn author(&self) -> (r: Result<Option<AuthorRef<'_>>, Error>)
        ensures
            reads_author(r, self@, "author"@),
    {
        match get_object(self.value, "author") {
            Ok(Some(map)) => Ok(Some(AuthorRef::from(map))),
            Ok(None) => Ok(None),
            Err(e) => Err(e),
        }
    }

    /// An optional author.
    ///
    /// # Deprecation
    ///
    /// The `author` field is deprecated in favor of the `authors` field as of
    /// JSON Feed 1.1.
    ///
    /// The view can be written through: what it ends as is what `author` ends
    /// up holding.
    pub fn author_mut(&mut self) -> (r: Result<Option<AuthorMut<'_>>, Error>)
        ensures
            match object_at(old(self)@, "author"@) {
                Lookup::Absent => r matches Ok(None) && final(self)@ == old(self)@,
                Lookup::Mismatch => r matches Err(Error::UnexpectedType)
                    && final(self)@ == old(self)@,
                Lookup::Present(d) => r matches Ok(Some(view)) && view@ == d
                    && final(self)@ == old(self)@.insert(
                        "author"@,
                        Json::Object(doc_of(*final(view.value))),
                    ),
            },
            *final(final(self).value) == *final(old(self).value),
    {
        match get_object_mut(self.value, "author") {
            Ok(Some(map)) => Ok(Some(AuthorMut::from(map))),
            Ok(None) => Ok(None),
            Err(e) => Err(e),
        }
    }

    /// Sets the author.
    pub fn set_author(&mut self, value: Author) -> (prior: Option<Value>)
        ensures
            final(self)@ == old(self)@.insert("author"@, Json::Object(value@)),
            is_prior(prior, old(self)@, "author"@),
            *final(final(self).value) == *final(old(self).value),
    {
        set_object(self.value, "author", value.into_inner())
    }

    /// Removes the author.
    pub fn remove_author(&mut self) -> (prior: Option<Value>)
        ensures
            final(self)@ == old(self)@.remove("author"@),
            is_prior(prior, old(self)@, "author"@),
            *final(final(self).value) == *final(old(self).value),
    {
        remove(self.value, "author")
    }

    /// An optional array of authors.
    pub fn authors(&self) -> (r: Result<Option<Vec<AuthorRef<'_>>>, Error>)
        ensures
            reads_authors(r, self@, "authors"@),
    {
        match get_object_array(self.value, "authors") {
            Ok(Some(maps)) => Ok(Some(AuthorRef::from_maps(maps))),
            Ok(None) => Ok(None),
            Err(e) => Err(e),
        }
    }

    /// An optional array of authors.
    ///
    /// Each view can be written through: what the views end as is what the
    /// array under `authors` ends up holding, in the same order.
    pub fn authors_mut(&mut self) -> (r: Result<Option<Vec<AuthorMut<'_>>>, Error>)
        ensures
            match objects_at(old(self)@, "authors"@) {
                Lookup::Absent => r matches Ok(None) && final(self)@ == old(self)@,
                Lookup::Mismatch => r matches Err(Error::UnexpectedType)
                    && final(self)@ == old(self)@,
                Lookup::Present(ds) => r matches Ok(Some(views)) && views@.len() == ds.len()
                    && (forall|i: int| 0 <= i < ds.len() ==> (#[trigger] views@[i])@ == ds[i])
                    && final(self)@ == old(self)@.insert(
                        "authors"@,
                        object_array(Seq::new(ds.len(), |i: int| doc_of(*final(views@[i].value)))),
                    ),
            },
            *final(final(self).value) == *final(old(self).value),
    {
        match get_object_array_mut(self.value, "authors") {
            Ok(Some(maps)) => {
                let ghost ds = objects_at(old(self)@, "authors"@)->Present_0;
                let views = AuthorMut::from_maps(maps);
                assert(Seq::new(ds.len(), |i: int| doc_of(*final(views@[i].value)))
                    =~= Seq::new(ds.len(), |i: int| doc_of(*final(maps@[i]))));
                Ok(Some(views))
            },
            Ok(None) => Ok(None),
            Err(e) => Err(e),
        }
    }

    /// Sets the authors.
    pub fn set_authors(&mut self, items: Vec<Author>) -> (prior: Option<Value>)
        ensures
            final(self)@ == old(self)@.insert("authors"@, object_array(author_docs(items@))),
            is_prior(prior, old(self)@, "authors"@),
            *final(final(self).value) == *final(old(self).value),
    {
        set_object_array(self.value, "authors", Author::into_maps(items))
    }

    /// Removes the authors.
    pub fn remove_authors(&mut self) -> (prior: Option<Value>)
        ensures
            final(self)@ == old(self)@.remove("authors"@),
            is_prior(prior, old(self)@, "authors"@),
            *final(final(self).value) == *final(old(self).value),
    {
        remove(self.value, "authors")
    }

    /// The optional language which the feed data is written in.
    ///
    /// Valid values are from [RFC 5646][rfc_5646].
    ///
    /// [rfc_5646]: https://tools.ietf.org/html/rfc5646
    pub fn language(&self) -> (r: Result<Option<&str>, Error>)
        ensures
            reads_string(r, self@, "language"@),
    {
        get_str(self.value, "language")
    }

    /// Sets the language.
    pub fn set_language(&mut self, value: &str) -> (prior: Option<Value>)
        ensures
            final(self)@ == old(self)@.insert("language"@, Json::String(value@)),
            is_prior(prior, old(self)@, "language"@),
            *final(final(self).value) == *final(old(self).value),
    {
        set_str(self.value, "language", value)
    }

    /// Removes the language.
    pub fn remove_language(&mut self) -> (prior: Option<Value>)
        ensures
            final(self)@ == old(self)@.remove("language"@),
            is_prior(prior, old(self)@, "language"@),
            *final(final(self).value) == *final(old(self).value),
    {
        remove(self.value, "language")
    }

    /// Optionally determines if the feed will be updated in the future.
    ///
    /// If true, the feed will not be updated in the future. If false or `None`,
    /// then the feed may be updated in the future.
    pub fn expired(&self) -> (r: Result<Option<bool>, Error>)
        ensures
            reads_bool(r, self@, "expired"@),
    {
        get_bool(self.value, "expired")
    }

    /// Sets the expired flag.
    pub fn set_expired(&mut self, value: bool) -> (prior: Option<Value>)
        ensures
            final(self)@ == old(self)@.insert("expired"@, Json::Bool(value)),
            is_prior(prior, old(self)@, "expired"@),
            *final(final(self).value) == *final(old(self).value),
    {
        set_bool(self.value, "expired", value)
    }

    /// Removes the expired flag.
    pub fn remove_expired(&mut self) -> (prior: Option<Value>)
        ensures
            final(self)@ == old(self)@.remove("expired"@),
            is_prior(prior, old(self)@, "expired"@),
            *final(final(self).value) == *final(old(self).value),
    {
        remove(self.value, "expired")
    }

    /// Optional subscription endpoints which can be used to received feed
    /// update notifications.
    pub fn hubs(&self) -> (r: Result<Option<Vec<HubRef<'_>>>, Error>)
        ensures
            reads_hubs(r, self@, "hubs"@),
    {
        match get_object_array(self.value, "hubs") {
            Ok(Some(maps)) => Ok(Some(HubRef::from_maps(maps))),
            Ok(None) => Ok(None),
            Err(e) => Err(e),
        }
    }

    /// Subscription endpoints which can be used to received feed update
    /// notifications.
    ///
    /// Each view can be written through: what the views end as is what the
    /// array under `hubs` ends up holding, in the same order.
    pub fn hubs_mut(&mut self) -> (r: Result<Option<Vec<HubMut<'_>>>, Error>)
        ensures
            match objects_at(old(self)@, "hubs"@) {
                Lookup::Absent => r matches Ok(None) && final(self)@ == old(self)@,
                Lookup::Mismatch => r matches Err(Error::UnexpectedType)
                    && final(self)@ == old(self)@,
                Lookup::Present(ds) => r matches Ok(Some(views)) && views@.len() == ds.len()
                    && (forall|i: int| 0 <= i < ds.len() ==> (#[trigger] views@[i])@ == ds[i])
                    && final(self)@ == old(self)@.insert(
                        "hubs"@,
                        object_array(Seq::new(ds.len(), |i: int| doc_of(*final(views@[i].value)))),
                    ),
            },
            *final(final(self).value) == *final(old(self).value),
    {
        match get_object_array_mut(self.value, "hubs") {
            Ok(Some(maps)) => {
                let ghost ds = objects_at(old(self)@, "hubs"@)->Present_0;
                let views = HubMut::from_maps(maps);
                assert(Seq::new(ds.len(), |i: int| doc_of(*final(views@[i].value)))
                    =~= Seq::new(ds.len(), |i: int| doc_of(*final(maps@[i]))));
                Ok(Some(views))
            },
            Ok(None) => Ok(None),
            Err(e) => Err(e),
        }
    }

    /// Sets the hubs.
    pub fn set_hubs(&mut self, items: Vec<Hub>) -> (prior: Option<Value>)
        ensures
            final(self)@ == old(self)@.insert("hubs"@, object_array(hub_docs(items@))),
            is_prior(prior, old(self)@, "hubs"@),
            *final(final(self).value) == *final(old(self).value),
    {
        set_object_array(self.value, "hubs", Hub::into_maps(items))
    }

    /// Removes the hubs.
    pub fn remove_hubs(&mut self) -> (prior: Option<Value>)
        ensures
            final(self)@ == old(self)@.remove("hubs"@),
            is_prior(prior, old(self)@, "hubs"@),
            *final(final(self).value) == *final(old(self).value),
    {
        remove(self.value, "hubs")
    }

    /// A required array of `Items`.
    pub fn items(&self) -> (r: Result<Option<Vec<ItemRef<'_>>>, Error>)
        ensures
            reads_items(r, self@, "items"@),
    {
        match get_object_array(self.value, "items") {
            Ok(Some(maps)) => Ok(Some(ItemRef::from_maps(maps))),
            Ok(None) => Ok(None),
            Err(e) => Err(e),
        }
    }

    /// A required array of `Items`.
    ///
    /// Each view can be written through: what the views end as is what the
    /// array under `items` ends up holding, in the same order.
    pub fn items_mut(&mut self) -> (r: Result<Option<Vec<ItemMut<'_>>>, Error>)
        ensures
            match objects_at(old(self)@, "items"@) {
                Lookup::Absent => r matches Ok(None) && final(self)@ == old(self)@,
                Lookup::Mismatch => r matches Err(Error::UnexpectedType)
                    && final(self)@ == old(self)@,
                Lookup::Present(ds) => r matches Ok(Some(views)) && views@.len() == ds.len()
                    && (forall|i: int| 0 <= i < ds.len() ==> (#[trigger] views@[i])@ == ds[i])
                    && final(self)@ == old(self)@.insert(
                        "items"@,
                        object_array(Seq::new(ds.len(), |i: int| doc_of(*final(views@[i].value)))),
                    ),
            },
            *final(final(self).value) == *final(old(self).value),
    {
        match get_object_array_mut(self.value, "items") {
            Ok(Some(maps)) => {
                let ghost ds = objects_at(old(self)@, "items"@)->Present_0;
                let views = ItemMut::from_maps(maps);
                assert(Seq::new(ds.len(), |i: int| doc_of(*final(views@[i].value)))
                    =~= Seq::new(ds.len(), |i: int| doc_of(*final(maps@[i]))));
                Ok(Some(views))
            },
            Ok(None) => Ok(None),
            Err(e) => Err(e),
        }
    }

    /// Sets the items.
    pub fn set_items(&mut self, items: Vec<Item>) -> (prior: Option<Value>)
        ensures
            final(self)@ == old(self)@.insert("items"@, object_array(item_docs(items@))),
            is_prior(prior, old(self)@, "items"@),
            *final(final(self).value) == *final(old(self).value),
    {
        set_object_array(self.value, "items", Item::into_maps(items))
    }

    /// Removes the items.
    pub fn remove_items(&mut self) -> (prior: Option<Value>)
        ensures
            final(self)@ == old(self)@.remove("items"@),
            is_prior(prior, old(self)@, "items"@),
            *final(final(self).value) == *final(old(self).value),
    {
        remove(self.value, "items")
    }

    /// Verifies if the JSON data complies with a specific `Version` of the
    /// JSON Feed format.
    #[must_use]
    pub fn is_valid(&self, version: &Version<'_>) -> (ok: bool)
        ensures
            ok == feed_valid(self@, *version),
    {
        is_valid_feed(self.value, version)
    }
}

impl<'a> From<&'a mut JsonMap> for FeedMut<'a> {
    fn from(value: &'a mut JsonMap) -> (r: Self)
        ensures
            r@ == doc_of(*old(value)),
            *final(r.value) == *final(value),
    {
        FeedMut { value }
    }
}

impl<'a> FromSpecImpl<&'a mut JsonMap> for FeedMut<'a> {
    /// A view made from a mutable borrow carries the borrow's future along,
    /// which no function of the argument's present value can state; `from`
    /// states its own contract.
    open spec fn obeys_from_spec() -> bool {
        false
    }

    open spec fn from_spec(value: &'a mut JsonMap) -> Self {
        FeedMut { value }
    }
}

impl<'a> AsRef<JsonMap> for FeedMut<'a> {
    fn as_ref(&self) -> (r: &JsonMap)
        ensures
            doc_of(*r) == self@,
    {
        self.value
    }
}

impl<'a> AsMut<JsonMap> for FeedMut<'a> {
    fn as_mut(&mut self) -> (r: &mut JsonMap)
        ensures
            doc_of(*r) == old(self)@,
            final(self)@ == doc_of(*final(r)),
            *final(final(self).value) == *final(old(self).value),
    {
        self.value
    }
}

impl<'a> Eq for FeedMut<'a> {}

impl<'a> PartialEq<JsonMap> for FeedMut<'a> {
    fn eq(&self, other: &JsonMap) -> (r: bool) {
        map_eq(self.value, other)
    }
}

impl<'a> PartialEqSpecImpl<JsonMap> for FeedMut<'a> {
    open spec fn obeys_eq_spec() -> bool {
        true
    }

    open spec fn eq_spec(&self, other: &JsonMap) -> bool {
        self@ == doc_of(*other)
    }
}

impl<'a> PartialEq<FeedMut<'a>> for FeedMut<'a> {
    fn eq(&self, other: &FeedMut<'a>) -> (r: bool) {
        map_eq(self.value, other.value)
    }
}

impl<'a> PartialEqSpecImpl<FeedMut<'a>> for FeedMut<'a> {
    open spec fn obeys_eq_spec() -> bool {
        true
    }

    open spec fn eq_spec(&self, other: &FeedMut<'a>) -> bool {
        self@ == other@
    }
}

} // verus!

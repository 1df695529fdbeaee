//! One entry of a feed.

use crate::attachment::{
    attachment_docs, reads_attachments, Attachment, AttachmentMut, AttachmentRef,
};
use crate::author::{author_docs, reads_author, reads_authors, Author, AuthorMut, AuthorRef};
use crate::error::Error;
use crate::field::{
    get_object, get_object_array, get_object_array_mut, get_object_mut, get_str, get_str_array,
    object_array, object_at, objects_at, reads_string, reads_strings, ref_docs, remove, set_object,
    set_object_array, set_str, set_str_array, string_array, string_texts, Lookup,
};
use crate::json::{doc_of, docs_of, is_prior, map_eq, Doc, Json, JsonMap};
use crate::validate::{is_valid_item, item_valid};
use crate::version::Version;
use serde_json::Value;
use vstd::prelude::*;
use vstd::std_specs::cmp::PartialEqSpecImpl;
use vstd::std_specs::convert::FromSpecImpl;

verus! {

/// An item is a single object (blog post, story, etc.) in the feed list.
///
/// # Valid Item
///
/// An `Item` must have an `id` field set and either a `content_html` or
/// `content_text` field set.
#[derive(Debug)]
pub struct Item {
    value: JsonMap,
}

/// An `Item` implemented with a borrowed reference to a JSON object.
#[derive(Debug)]
pub struct ItemRef<'a> {
    value: &'a JsonMap,
}

/// An `Item` implemented with a borrowed mutable reference to a JSON object.
#[derive(Debug)]
pub struct ItemMut<'a> {
    /// The borrowed object. The field is public so that contracts can speak
    /// of what the object holds once the borrow has ended.
    pub value: &'a mut JsonMap,
}

impl View for Item {
    type V = Doc;

    closed spec fn view(&self) -> Doc {
        doc_of(self.value)
    }
}

impl<'a> View for ItemRef<'a> {
    type V = Doc;

    closed spec fn view(&self) -> Doc {
        doc_of(*self.value)
    }
}

impl<'a> View for ItemMut<'a> {
    type V = Doc;

    open spec fn view(&self) -> Doc {
        doc_of(*self.value)
    }
}

/// The documents that a run of views looks at.
pub open spec fn item_ref_docs(views: Seq<ItemRef<'_>>) -> Seq<Doc> {
    Seq::new(views.len(), |i: int| views[i]@)
}

/// The documents that a run of items holds.
pub open spec fn item_docs(items: Seq<Item>) -> Seq<Doc> {
    Seq::new(items.len(), |i: int| items[i]@)
}

/// `r` is the outcome of reading `key` of `doc` as an array of nested items.
pub open spec fn reads_items(
    r: Result<Option<Vec<ItemRef<'_>>>, Error>,
    doc: Doc,
    key: Seq<char>,
) -> bool {
    match objects_at(doc, key) {
        Lookup::Absent => r matches Ok(None),
        Lookup::Mismatch => r matches Err(Error::UnexpectedType),
        Lookup::Present(ds) => r matches Ok(Some(views)) && item_ref_docs(views@) == ds,
    }
}

impl Item {
    /// Instantiates with an empty JSON object.
    #[must_use]
    pub fn new() -> (r: Self)
        ensures
            r@ == Doc::empty(),
    {
        Item { value: JsonMap::new() }
    }

    /// Returns the inner `Map` as a reference.
    #[must_use]
    pub fn as_map(&self) -> (r: &JsonMap)
        ensures
            doc_of(*r) == self@,
    {
        &self.value
    }

    /// Returns the inner `Map` as a mutable reference. What the map ends as
    /// is what the item ends as.
    pub fn as_map_mut(&mut self) -> (r: &mut JsonMap)
        ensures
            doc_of(*r) == old(self)@,
            final(self)@ == doc_of(*final(r)),
    {
        &mut self.value
    }

    /// Converts the type into the inner `Map`.
    #[must_use]
    pub fn into_inner(self) -> (r: JsonMap)
        ensures
            doc_of(r) == self@,
    {
        self.value
    }

    /// Takes the maps out of a run of items, in order.
    pub(crate) fn into_maps(items: Vec<Item>) -> (maps: Vec<JsonMap>)
        ensures
            docs_of(maps@) == item_docs(items@),
    {
        let ghost docs = item_docs(items@);
        let mut maps: Vec<JsonMap> = Vec::new();
        for item in it: items.into_iter()
            invariant
                docs.len() == it.seq().len(),
                forall|j: int| 0 <= j < docs.len() ==> docs[j] == (#[trigger] it.seq()[j])@,
                maps@.len() == it.index(),
                forall|j: int| 0 <= j < maps@.len() ==> doc_of(#[trigger] maps@[j]) == docs[j],
        {
            maps.push(item.into_inner());
        }
        assert(docs_of(maps@) =~= docs);
        maps
    }

    /// A required unique identifier for an item.
    ///
    /// # Important
    ///
    /// The ID should be unique across all items which have ever appeared in the
    /// feed. An item with the same exact ID as another item (even if it is no
    /// longer in the current JSON feed `items` array) are considered the same
    /// item.
    ///
    /// # Version 1.0 Incompatibility
    ///
    /// While JSON Feed 1.0 permitted values which could be coerced into JSON
    /// strings (e.g. JSON numbers), this model supports only JSON strings. JSON
    /// Feed 1.1 strongly suggests to only use strings. In practice, the vast
    /// majority of feeds use strings.
    ///
    /// If you wish to support non-String IDs, you can directly access the
    /// underlying `Map` with `as_map_mut` or an equivalent method and read the
    /// JSON value.
    pub fn id(&self) -> (r: Result<Option<&str>, Error>)
        ensures
            reads_string(r, self@, "id"@),
    {
        get_str(&self.value, "id")
    }

    /// Sets the ID.
    pub fn set_id(&mut self, value: &str) -> (prior: Option<Value>)
        ensures
            final(self)@ == old(self)@.insert("id"@, Json::String(value@)),
            is_prior(prior, old(self)@, "id"@),
    {
        set_str(&mut self.value, "id", value)
    }

    /// Removes the ID.
    pub fn remove_id(&mut self) -> (prior: Option<Value>)
        ensures
            final(self)@ == old(self)@.remove("id"@),
            is_prior(prior, old(self)@, "id"@),
    {
        remove(&mut self.value, "id")
    }

    /// The optional URL which the item represents.
    pub fn url(&self) -> (r: Result<Option<&str>, Error>)
        ensures
            reads_string(r, self@, "url"@),
    {
        get_str(&self.value, "url")
    }

    /// Sets the URL.
    pub fn set_url(&mut self, value: &str) -> (prior: Option<Value>)
        ensures
            final(self)@ == old(self)@.insert("url"@, Json::String(value@)),
            is_prior(prior, old(self)@, "url"@),
    {
        set_str(&mut self.value, "url", value)
    }

    /// Removes the URL.
    pub fn remove_url(&mut self) -> (prior: Option<Value>)
        ensures
            final(self)@ == old(self)@.remove("url"@),
            is_prior(prior, old(self)@, "url"@),
    {
        remove(&mut self.value, "url")
    }

    /// An optional related external URL to the item.
    pub fn external_url(&self) -> (r: Result<Option<&str>, Error>)
        ensures
            reads_string(r, self@, "external_url"@),
    {
        get_str(&self.value, "external_url")
    }

    /// Sets the external URL.
    pub fn set_external_url(&mut self, value: &str) -> (prior: Option<Value>)
        ensures
            final(self)@ == old(self)@.insert("external_url"@, Json::String(value@)),
            is_prior(prior, old(self)@, "external_url"@),
    {
        set_str(&mut self.value, "external_url", value)
    }

    /// Removes the external URL.
    pub fn remove_external_url(&mut self) -> (prior: Option<Value>)
        ensures
            final(self)@ == old(self)@.remove("external_url"@),
            is_prior(prior, old(self)@, "external_url"@),
    {
        remove(&mut self.value, "external_url")
    }

    /// An optional title for the item.
    pub fn title(&self) -> (r: Result<Option<&str>, Error>)
        ensures
            reads_string(r, self@, "title"@),
    {
        get_str(&self.value, "title")
    }

    /// Sets the title.
    pub fn set_title(&mut self, value: &str) -> (prior: Option<Value>)
        ensures
            final(self)@ == old(self)@.insert("title"@, Json::String(value@)),
            is_prior(prior, old(self)@, "title"@),
    {
        set_str(&mut self.value, "title", value)
    }

    /// Removes the title.
    pub fn remove_title(&mut self) -> (prior: Option<Value>)
        ensures
            final(self)@ == old(self)@.remove("title"@),
            is_prior(prior, old(self)@, "title"@),
    {
        remove(&mut self.value, "title")
    }

    /// An optional HTML string representing the content.
    pub fn content_html(&self) -> (r: Result<Option<&str>, Error>)
        ensures
            reads_string(r, self@, "content_html"@),
    {
        get_str(&self.value, "content_html")
    }

    /// Sets the HTML content.
    pub fn set_content_html(&mut self, value: &str) -> (prior: Option<Value>)
        ensures
            final(self)@ == old(self)@.insert("content_html"@, Json::String(value@)),
            is_prior(prior, old(self)@, "content_html"@),
    {
        set_str(&mut self.value, "content_html", value)
    }

    /// Removes the HTML content.
    pub fn remove_content_html(&mut self) -> (prior: Option<Value>)
        ensures
            final(self)@ == old(self)@.remove("content_html"@),
            is_prior(prior, old(self)@, "content_html"@),
    {
        remove(&mut self.value, "content_html")
    }

    /// An optional plain text string representing the content.
    pub fn content_text(&self) -> (r: Result<Option<&str>, Error>)
        ensures
            reads_string(r, self@, "content_text"@),
    {
        get_str(&self.value, "content_text")
    }

    /// Sets the plain text content.
    pub fn set_content_text(&mut self, value: &str) -> (prior: Option<Value>)
        ensures
            final(self)@ == old(self)@.insert("content_text"@, Json::String(value@)),
            is_prior(prior, old(self)@, "content_text"@),
    {
        set_str(&mut self.value, "content_text", value)
    }

    /// Removes the plain text content.
    pub fn remove_content_text(&mut self) -> (prior: Option<Value>)
        ensures
            final(self)@ == old(self)@.remove("content_text"@),
            is_prior(prior, old(self)@, "content_text"@),
    {
        remove(&mut self.value, "content_text")
    }

    /// An optional summary of the item.
    pub fn summary(&self) -> (r: Result<Option<&str>, Error>)
        ensures
            reads_string(r, self@, "summary"@),
    {
        get_str(&self.value, "summary")
    }

    /// Sets the summary.
    pub fn set_summary(&mut self, value: &str) -> (prior: Option<Value>)
        ensures
            final(self)@ == old(self)@.insert("summary"@, Json::String(value@)),
            is_prior(prior, old(self)@, "summary"@),
    {
        set_str(&mut self.value, "summary", value)
    }

    /// Removes the summary.
    pub fn remove_summary(&mut self) -> (prior: Option<Value>)
        ensures
            final(self)@ == old(self)@.remove("summary"@),
            is_prior(prior, old(self)@, "summary"@),
    {
        remove(&mut self.value, "summary")
    }

    /// An optional URL of an image representing the item.
    pub fn image(&self) -> (r: Result<Option<&str>, Error>)
        ensures
            reads_string(r, self@, "image"@),
    {
        get_str(&self.value, "image")
    }

    /// Sets the image.
    pub fn set_image(&mut self, value: &str) -> (prior: Option<Value>)
        ensures
            final(self)@ == old(self)@.insert("image"@, Json::String(value@)),
            is_prior(prior, old(self)@, "image"@),
    {
        set_str(&mut self.value, "image", value)
    }

    /// Removes the image.
    pub fn remove_image(&mut self) -> (prior: Option<Value>)
        ensures
            final(self)@ == old(self)@.remove("image"@),
            is_prior(prior, old(self)@, "image"@),
    {
        remove(&mut self.value, "image")
    }

    /// An optional URL of a banner image representing the item.
    pub fn banner_image(&self) -> (r: Result<Option<&str>, Error>)
        ensures
            reads_string(r, self@, "banner_image"@),
    {
        get_str(&self.value, "banner_image")
    }

    /// Sets the banner image.
    pub fn set_banner_image(&mut self, value: &str) -> (prior: Option<Value>)
        ensures
            final(self)@ == old(self)@.insert("banner_image"@, Json::String(value@)),
            is_prior(prior, old(self)@, "banner_image"@),
    {
        set_str(&mut self.value, "banner_image", value)
    }

    /// Removes the banner image.
    pub fn remove_banner_image(&mut self) -> (prior: Option<Value>)
        ensures
            final(self)@ == old(self)@.remove("banner_image"@),
            is_prior(prior, old(self)@, "banner_image"@),
    {
        remove(&mut self.value, "banner_image")
    }

    /// The date which the item was published in [RFC 3339][rfc_3339] format.
    ///
    /// [rfc_3339]: https://tools.ietf.org/html/rfc3339
    pub fn date_published(&self) -> (r: Result<Option<&str>, Error>)
        ensures
            reads_string(r, self@, "date_published"@),
    {
        get_str(&self.value, "date_published")
    }

    /// Sets the date published.
    pub fn set_date_published(&mut self, value: &str) -> (prior: Option<Value>)
        ensures
            final(self)@ == old(self)@.insert("date_published"@, Json::String(value@)),
            is_prior(prior, old(self)@, "date_published"@),
    {
        set_str(&mut self.value, "date_published", value)
    }

    /// Removes the date published.
    pub fn remove_date_published(&mut self) -> (prior: Option<Value>)
        ensures
            final(self)@ == old(self)@.remove("date_published"@),
            is_prior(prior, old(self)@, "date_published"@),
    {
        remove(&mut self.value, "date_published")
    }

    /// The date which the item was modified in [RFC 3339][rfc_3339] format.
    ///
    /// [rfc_3339]: https://tools.ietf.org/html/rfc3339
    pub fn date_modified(&self) -> (r: Result<Option<&str>, Error>)
        ensures
            reads_string(r, self@, "date_modified"@),
    {
        get_str(&self.value, "date_modified")
    }

    /// Sets the date modified.
    pub fn set_date_modified(&mut self, value: &str) -> (prior: Option<Value>)
        ensures
            final(self)@ == old(self)@.insert("date_modified"@, Json::String(value@)),
            is_prior(prior, old(self)@, "date_modified"@),
    {
        set_str(&mut self.value, "date_modified", value)
    }

    /// Removes the date modified.
    pub fn remove_date_modified(&mut self) -> (prior: Option<Value>)
        ensures
            final(self)@ == old(self)@.remove("date_modified"@),
            is_prior(prior, old(self)@, "date_modified"@),
    {
        remove(&mut self.value, "date_modified")
    }

    /// An optional author.
    ///
    /// # Deprecation
    ///
    /// The `author` field is deprecated in favor of the `authors` field as of
    /// JSON Feed 1.1.
    pub fn author(&self) -> (r: Result<Option<AuthorRef<'_>>, Error>)
        ensures
            reads_author(r, self@, "author"@),
    {
        match get_object(&self.value, "author") {
            Ok(Some(map)) => Ok(Some(AuthorRef::from(map))),
            Ok(None) => Ok(None),
            Err(e) => Err(e),
        }
    }

    /// An optional author.
    ///
    /// # Deprecation
    ///
    /// The `author` field is deprecated in favor of the `authors` field as of
    /// JSON Feed 1.1.
    ///
    /// The view can be written through: what it ends as is what `author` ends
    /// up holding.
    pub fn author_mut(&mut self) -> (r: Result<Option<AuthorMut<'_>>, Error>)
        ensures
            match object_at(old(self)@, "author"@) {
                Lookup::Absent => r matches Ok(None) && final(self)@ == old(self)@,
                Lookup::Mismatch => r matches Err(Error::UnexpectedType)
                    && final(self)@ == old(self)@,
                Lookup::Present(d) => r matches Ok(Some(view)) && view@ == d
                    && final(self)@ == old(self)@.insert(
                        "author"@,
                        Json::Object(doc_of(*final(view.value))),
                    ),
            },
    {
        match get_object_mut(&mut self.value, "author") {
            Ok(Some(map)) => Ok(Some(AuthorMut::from(map))),
            Ok(None) => Ok(None),
            Err(e) => Err(e),
        }
    }

    /// Sets the author.
    pub fn set_author(&mut self, value: Author) -> (prior: Option<Value>)
        ensures
            final(self)@ == old(self)@.insert("author"@, Json::Object(value@)),
            is_prior(prior, old(self)@, "author"@),
    {
        set_object(&mut self.value, "author", value.into_inner())
    }

    /// Removes the author.
    pub fn remove_author(&mut self) -> (prior: Option<Value>)
        ensures
            final(self)@ == old(self)@.remove("author"@),
            is_prior(prior, old(self)@, "author"@),
    {
        remove(&mut self.value, "author")
    }

    /// An optional array of authors.
    pub fn authors(&self) -> (r: Result<Option<Vec<AuthorRef<'_>>>, Error>)
        ensures
            reads_authors(r, self@, "authors"@),
    {
        match get_object_array(&self.value, "authors") {
            Ok(Some(maps)) => Ok(Some(AuthorRef::from_maps(maps))),
            Ok(None) => Ok(None),
            Err(e) => Err(e),
        }
    }

    /// An optional array of authors.
    ///
    /// Each view can be written through: what the views end as is what the
    /// array under `authors` ends up holding, in the same order.
    pub fn authors_mut(&mut self) -> (r: Result<Option<Vec<AuthorMut<'_>>>, Error>)
        ensures
            match objects_at(old(self)@, "authors"@) {
                Lookup::Absent => r matches Ok(None) && final(self)@ == old(self)@,
                Lookup::Mismatch => r matches Err(Error::UnexpectedType)
                    && final(self)@ == old(self)@,
                Lookup::Present(ds) => r matches Ok(Some(views)) && views@.len() == ds.len()
                    && (forall|i: int| 0 <= i < ds.len() ==> (#[trigger] views@[i])@ == ds[i])
                    && final(self)@ == old(self)@.insert(
                        "authors"@,
                        object_array(Seq::new(ds.len(), |i: int| doc_of(*final(views@[i].value)))),
                    ),
            },
    {
        match get_object_array_mut(&mut self.value, "authors") {
            Ok(Some(maps)) => {
                let ghost ds = objects_at(old(self)@, "authors"@)->Present_0;
                let views = AuthorMut::from_maps(maps);
                assert(Seq::new(ds.len(), |i: int| doc_of(*final(views@[i].value)))
                    =~= Seq::new(ds.len(), |i: int| doc_of(*final(maps@[i]))));
                Ok(Some(views))
            },
            Ok(None) => Ok(None),
            Err(e) => Err(e),
        }
    }

    /// Sets the authors.
    pub fn set_authors(&mut self, items: Vec<Author>) -> (prior: Option<Value>)
        ensures
            final(self)@ == old(self)@.insert("authors"@, object_array(author_docs(items@))),
            is_prior(prior, old(self)@, "authors"@),
    {
        set_object_array(&mut self.value, "authors", Author::into_maps(items))
    }

    /// Removes the authors.
    pub fn remove_authors(&mut self) -> (prior: Option<Value>)
        ensures
            final(self)@ == old(self)@.remove("authors"@),
            is_prior(prior, old(self)@, "authors"@),
    {
        remove(&mut self.value, "authors")
    }

    /// An optional array of plain text tags.
    pub fn tags(&self) -> (r: Result<Option<Vec<&str>>, Error>)
        ensures
            reads_strings(r, self@, "tags"@),
    {
        get_str_array(&self.value, "tags")
    }

    /// Sets the tags.
    pub fn set_tags(&mut self, values: Vec<String>) -> (prior: Option<Value>)
        ensures
            final(self)@ == old(self)@.insert("tags"@, string_array(string_texts(values@))),
            is_prior(prior, old(self)@, "tags"@),
    {
        set_str_array(&mut self.value, "tags", values)
    }

    /// Removes the tags.
    pub fn remove_tags(&mut self) -> (prior: Option<Value>)
        ensures
            final(self)@ == old(self)@.remove("tags"@),
            is_prior(prior, old(self)@, "tags"@),
    {
        remove(&mut self.value, "tags")
    }

    /// The optional language which the feed data is written in.
    ///
    /// Valid values are from [RFC 5646][rfc_5646].
    ///
    /// [rfc_5646]: https://tools.ietf.org/html/rfc5646
    pub fn language(&self) -> (r: Result<Option<&str>, Error>)
        ensures
            reads_string(r, self@, "language"@),
    {
        get_str(&self.value, "language")
    }

    /// Sets the language.
    pub fn set_language(&mut self, value: &str) -> (prior: Option<Value>)
        ensures
            final(self)@ == old(self)@.insert("language"@, Json::String(value@)),
            is_prior(prior, old(self)@, "language"@),
    {
        set_str(&mut self.value, "language", value)
    }

    /// Removes the language.
    pub fn remove_language(&mut self) -> (prior: Option<Value>)
        ensures
            final(self)@ == old(self)@.remove("language"@),
            is_prior(prior, old(self)@, "language"@),
    {
        remove(&mut self.value, "language")
    }

    /// An optional array of relevant resources for the item.
    pub fn attachments(&self) -> (r: Result<Option<Vec<AttachmentRef<'_>>>, Error>)
        ensures
            reads_attachments(r, self@, "attachments"@),
    {
        match get_object_array(&self.value, "attachments") {
            Ok(Some(maps)) => Ok(Some(AttachmentRef::from_maps(maps))),
            Ok(None) => Ok(None),
            Err(e) => Err(e),
        }
    }

    /// An optional array of relevant resources for the item.
    ///
    /// Each view can be written through: what the views end as is what the
    /// array under `attachments` ends up holding, in the same order.
    pub fn attachments_mut(&mut self) -> (r: Result<Option<Vec<AttachmentMut<'_>>>, Error>)
        ensures
            match objects_at(old(self)@, "attachments"@) {
                Lookup::Absent => r matches Ok(None) && final(self)@ == old(self)@,
                Lookup::Mismatch => r matches Err(Error::UnexpectedType)
                    && final(self)@ == old(self)@,
                Lookup::Present(ds) => r matches Ok(Some(views)) && views@.len() == ds.len()
                    && (forall|i: int| 0 <= i < ds.len() ==> (#[trigger] views@[i])@ == ds[i])
                    && final(self)@ == old(self)@.insert(
                        "attachments"@,
                        object_array(Seq::new(ds.len(), |i: int| doc_of(*final(views@[i].value)))),
                    ),
            },
    {
        match get_object_array_mut(&mut self.value, "attachments") {
            Ok(Some(maps)) => {
                let ghost ds = objects_at(old(self)@, "attachments"@)->Present_0;
                let views = AttachmentMut::from_maps(maps);
                assert(Seq::new(ds.len(), |i: int| doc_of(*final(views@[i].value)))
                    =~= Seq::new(ds.len(), |i: int| doc_of(*final(maps@[i]))));
                Ok(Some(views))
            },
            Ok(None) => Ok(None),
            Err(e) => Err(e),
        }
    }

    /// Sets the attachments.
    pub fn set_attachments(&mut self, items: Vec<Attachment>) -> (prior: Option<Value>)
        ensures
            final(self)@ == old(self)@.insert(
                "attachments"@,
                object_array(attachment_docs(items@)),
            ),
            is_prior(prior, old(self)@, "attachments"@),
    {
        set_object_array(&mut self.value, "attachments", Attachment::into_maps(items))
    }

    /// Removes the attachments.
    pub fn remove_attachments(&mut self) -> (prior: Option<Value>)
        ensures
            final(self)@ == old(self)@.remove("attachments"@),
            is_prior(prior, old(self)@, "attachments"@),
    {
        remove(&mut self.value, "attachments")
    }

    /// Verifies if the JSON data complies with a specific `Version` of the
    /// JSON Feed format.
    #[must_use]
    pub fn is_valid(&self, version: &Version<'_>) -> (ok: bool)
        ensures
            ok == item_valid(self@, *version),
    {
        is_valid_item(&self.value, version)
    }
}

impl Clone for Item {
    fn clone(&self) -> (r: Self)
        ensures
            r@ == self@,
    {
        Item { value: self.value.clone() }
    }
}

impl Default for Item {
    fn default() -> (r: Self)
        ensures
            r@ == Doc::empty(),
    {
        Item::new()
    }
}

impl From<JsonMap> for Item {
    fn from(value: JsonMap) -> (r: Self)
        ensures
            r@ == doc_of(value),
    {
        Item { value }
    }
}

impl FromSpecImpl<JsonMap> for Item {
    open spec fn obeys_from_spec() -> bool {
        true
    }

    closed spec fn from_spec(value: JsonMap) -> Self {
        Item { value }
    }
}

impl AsRef<JsonMap> for Item {
    fn as_ref(&self) -> (r: &JsonMap)
        ensures
            doc_of(*r) == self@,
    {
        &self.value
    }
}

impl AsMut<JsonMap> for Item {
    fn as_mut(&mut self) -> (r: &mut JsonMap)
        ensures
            doc_of(*r) == old(self)@,
            final(self)@ == doc_of(*final(r)),
    {
        &mut self.value
    }
}

impl Eq for Item {}

impl PartialEq<JsonMap> for Item {
    fn eq(&self, other: &JsonMap) -> (r: bool) {
        map_eq(&self.value, other)
    }
}

impl PartialEqSpecImpl<JsonMap> for Item {
    open spec fn obeys_eq_spec() -> bool {
        true
    }

    open spec fn eq_spec(&self, other: &JsonMap) -> bool {
        self@ == doc_of(*other)
    }
}

impl PartialEq<Item> for Item {
    fn eq(&self, other: &Item) -> (r: bool) {
        map_eq(&self.value, &other.value)
    }
}

impl PartialEqSpecImpl<Item> for Item {
    open spec fn obeys_eq_spec() -> bool {
        true
    }

    open spec fn eq_spec(&self, other: &Item) -> bool {
        self@ == other@
    }
}

/// Building an item from a map and cloning it keeps the document: the clone
/// compares equal to the map it came from, and to the item it was cloned
/// from.
pub proof fn lemma_item_clone_equals_source(source: JsonMap, built: Item, copy: Item)
    requires
        built@ == doc_of(source),
        copy@ == built@,
    ensures
        vstd::std_specs::cmp::PartialEqSpec::eq_spec(&copy, &source),
        vstd::std_specs::cmp::PartialEqSpec::eq_spec(&copy, &built),
{
}

impl<'a> ItemRef<'a> {
    /// Returns the inner `Map` as a reference.
    #[must_use]
    pub fn as_map(&self) -> (r: &JsonMap)
        ensures
            doc_of(*r) == self@,
    {
        self.value
    }

    /// Clones the inner `Map` reference and returns an owned type.
    #[must_use]
    pub fn to_item(&self) -> (r: Item)
        ensures
            r@ == self@,
    {
        Item::from(self.value.clone())
    }

    /// Wraps each of a run of borrowed maps, in order.
    pub(crate) fn from_maps(maps: Vec<&'a JsonMap>) -> (views: Vec<ItemRef<'a>>)
        ensures
            item_ref_docs(views@) == ref_docs(maps@),
    {
        let ghost docs = ref_docs(maps@);
        let mut views: Vec<ItemRef<'a>> = Vec::new();
        for map in it: maps.into_iter()
            invariant
                docs.len() == it.seq().len(),
                forall|j: int| 0 <= j < docs.len() ==> docs[j] == doc_of(*#[trigger] it.seq()[j]),
                views@.len() == it.index(),
                forall|j: int| 0 <= j < views@.len() ==> (#[trigger] views@[j])@ == docs[j],
        {
            views.push(ItemRef::from(map));
        }
        assert(item_ref_docs(views@) =~= docs);
        views
    }

    /// A required unique identifier for an item.
    ///
    /// # Important
    ///
    /// The ID should be unique across all items which have ever appeared in the
    /// feed. An item with the same exact ID as another item (even if it is no
    /// longer in the current JSON feed `items` array) are considered the same
    /// item.
    ///
    /// # Version 1.0 Incompatibility
    ///
    /// While JSON Feed 1.0 permitted values which could be coerced into JSON
    /// strings (e.g. JSON numbers), this model supports only JSON strings. JSON
    /// Feed 1.1 strongly suggests to only use strings. In practice, the vast
    /// majority of feeds use strings.
    ///
    /// If you wish to support non-String IDs, you can directly access the
    /// underlying `Map` with `as_map_mut` or an equivalent method and read the
    /// JSON value.
    pub fn id(&self) -> (r: Result<Option<&str>, Error>)
        ensures
            reads_string(r, self@, "id"@),
    {
        get_str(self.value, "id")
    }

    /// The optional URL which the item represents.
    pub fn url(&self) -> (r: Result<Option<&str>, Error>)
        ensures
            reads_string(r, self@, "url"@),
    {
        get_str(self.value, "url")
    }

    /// An optional related external URL to the item.
    pub fn external_url(&self) -> (r: Result<Option<&str>, Error>)
        ensures
            reads_string(r, self@, "external_url"@),
    {
        get_str(self.value, "external_url")
    }

    /// An optional title for the item.
    pub fn title(&self) -> (r: Result<Option<&str>, Error>)
        ensures
            reads_string(r, self@, "title"@),
    {
        get_str(self.value, "title")
    }

    /// An optional HTML string representing the content.
    pub fn content_html(&self) -> (r: Result<Option<&str>, Error>)
        ensures
            reads_string(r, self@, "content_html"@),
    {
        get_str(self.value, "content_html")
    }

    /// An optional plain text string representing the content.
    pub fn content_text(&self) -> (r: Result<Option<&str>, Error>)
        ensures
            reads_string(r, self@, "content_text"@),
    {
        get_str(self.value, "content_text")
    }

    /// An optional summary of the item.
    pub fn summary(&self) -> (r: Result<Option<&str>, Error>)
        ensures
            reads_string(r, self@, "summary"@),
    {
        get_str(self.value, "summary")
    }

    /// An optional URL of an image representing the item.
    pub fn image(&self) -> (r: Result<Option<&str>, Error>)
        ensures
            reads_string(r, self@, "image"@),
    {
        get_str(self.value, "image")
    }

    /// An optional URL of a banner image representing the item.
    pub fn banner_image(&self) -> (r: Result<Option<&str>, Error>)
        ensures
            reads_string(r, self@, "banner_image"@),
    {
        get_str(self.value, "banner_image")
    }

    /// The date which the item was published in [RFC 3339][rfc_3339] format.
    ///
    /// [rfc_3339]: https://tools.ietf.org/html/rfc3339
    pub fn date_published(&self) -> (r: Result<Option<&str>, Error>)
        ensures
            reads_string(r, self@, "date_published"@),
    {
        get_str(self.value, "date_published")
    }

    /// The date which the item was modified in [RFC 3339][rfc_3339] format.
    ///
    /// [rfc_3339]: https://tools.ietf.org/html/rfc3339
    pub fn date_modified(&self) -> (r: Result<Option<&str>, Error>)
        ensures
            reads_string(r, self@, "date_modified"@),
    {
        get_str(self.value, "date_modified")
    }

    /// An optional author.
    ///
    /// # Deprecation
    ///
    /// The `author` field is deprecated in favor of the `authors` field as of
    /// JSON Feed 1.1.
    pub fn author(&self) -> (r: Result<Option<AuthorRef<'_>>, Error>)
        ensures
            reads_author(r, self@, "author"@),
    {
        match get_object(self.value, "author") {
            Ok(Some(map)) => Ok(Some(AuthorRef::from(map))),
            Ok(None) => Ok(None),
            Err(e) => Err(e),
        }
    }

    /// An optional array of authors.
    pub fn authors(&self) -> (r: Result<Option<Vec<AuthorRef<'_>>>, Error>)
        ensures
            reads_authors(r, self@, "authors"@),
    {
        match get_object_array(self.value, "authors") {
            Ok(Some(maps)) => Ok(Some(AuthorRef::from_maps(maps))),
            Ok(None) => Ok(None),
            Err(e) => Err(e),
        }
    }

    /// An optional array of plain text tags.
    pub fn tags(&self) -> (r: Result<Option<Vec<&str>>, Error>)
        ensures
            reads_strings(r, self@, "tags"@),
    {
        get_str_array(self.value, "tags")
    }

    /// The optional language which the feed data is written in.
    ///
    /// Valid values are from [RFC 5646][rfc_5646].
    ///
    /// [rfc_5646]: https://tools.ietf.org/html/rfc5646
    pub fn language(&self) -> (r: Result<Option<&str>, Error>)
        ensures
            reads_string(r, self@, "language"@),
    {
        get_str(self.value, "language")
    }

    /// An optional array of relevant resources for the item.
    pub fn attachments(&self) -> (r: Result<Option<Vec<AttachmentRef<'_>>>, Error>)
        ensures
            reads_attachments(r, self@, "attachments"@),
    {
        match get_object_array(self.value, "attachments") {
            Ok(Some(maps)) => Ok(Some(AttachmentRef::from_maps(maps))),
            Ok(None) => Ok(None),
            Err(e) => Err(e),
        }
    }

    /// Verifies if the JSON data complies with a specific `Version` of the
    /// JSON Feed format.
    #[must_use]
    pub fn is_valid(&self, version: &Version<'_>) -> (ok: bool)
        ensures
            ok == item_valid(self@, *version),
    {
        is_valid_item(self.value, version)
    }
}

impl<'a> From<&'a JsonMap> for ItemRef<'a> {
    fn from(value: &'a JsonMap) -> (r: Self)
        ensures
            r@ == doc_of(*value),
    {
        ItemRef { value }
    }
}

impl<'a> FromSpecImpl<&'a JsonMap> for ItemRef<'a> {
    open spec fn obeys_from_spec() -> bool {
        true
    }

    closed spec fn from_spec(value: &'a JsonMap) -> Self {
        ItemRef { value }
    }
}

impl<'a> AsRef<JsonMap> for ItemRef<'a> {
    fn as_ref(&self) -> (r: &JsonMap)
        ensures
            doc_of(*r) == self@,
    {
        self.value
    }
}

impl<'a> Eq for ItemRef<'a> {}

impl<'a> PartialEq<JsonMap> for ItemRef<'a> {
    fn eq(&self, other: &JsonMap) -> (r: bool) {
        map_eq(self.value, other)
    }
}

impl<'a> PartialEqSpecImpl<JsonMap> for ItemRef<'a> {
    open spec fn obeys_eq_spec() -> bool {
        true
    }

    open spec fn eq_spec(&self, other: &JsonMap) -> bool {
        self@ == doc_of(*other)
    }
}

impl<'a> PartialEq<ItemRef<'a>> for ItemRef<'a> {
    fn eq(&self, other: &ItemRef<'a>) -> (r: bool) {
        map_eq(self.value, other.value)
    }
}

impl<'a> PartialEqSpecImpl<ItemRef<'a>> for ItemRef<'a> {
    open spec fn obeys_eq_spec() -> bool {
        true
    }

    open spec fn eq_spec(&self, other: &ItemRef<'a>) -> bool {
        self@ == other@
    }
}

impl<'a> ItemMut<'a> {
    /// Returns the inner `Map` as a reference.
    #[must_use]
    pub fn as_map(&self) -> (r: &JsonMap)
        ensures
            doc_of(*r) == self@,
    {
        self.value
    }

    /// Returns the inner `Map` as a mutable reference. What the map ends as
    /// is what the item ends as.
    pub fn as_map_mut(&mut self) -> (r: &mut JsonMap)
        ensures
            doc_of(*r) == old(self)@,
            final(self)@ == doc_of(*final(r)),
            *final(final(self).value) == *final(old(self).value),
    {
        self.value
    }

    /// Clones the inner `Map` reference and returns an owned type.
    #[must_use]
    pub fn to_item(&self) -> (r: Item)
        ensures
            r@ == self@,
    {
        Item::from(self.value.clone())
    }

    /// Wraps each of a run of mutably borrowed maps, in order. Each view
    /// writes through to the map it was made from.
    pub(crate) fn from_maps(maps: Vec<&'a mut JsonMap>) -> (views: Vec<ItemMut<'a>>)
        ensures
            views@.len() == maps@.len(),
            forall|i: int| 0 <= i < maps@.len() ==> (#[trigger] views@[i])@ == doc_of(*maps@[i]),
            forall|i: int|
                0 <= i < maps@.len() ==> *final((#[trigger] views@[i]).value) == *final(maps@[i]),
    {
        let ghost given = maps@;
        let mut views: Vec<ItemMut<'a>> = Vec::new();
        for map in it: maps.into_iter()
            invariant
                given == it.seq(),
                views@.len() == it.index(),
                forall|j: int|
                    0 <= j < views@.len() ==> (#[trigger] views@[j])@ == doc_of(*given[j]),
                forall|j: int|
                    0 <= j < views@.len() ==> *final((#[trigger] views@[j]).value)
                        == *final(given[j]),
        {
            views.push(ItemMut::from(map));
        }
        views
    }

    /// A required unique identifier for an item.
    ///
    /// # Important
    ///
    /// The ID should be unique across all items which have ever appeared in the
    /// feed. An item with the same exact ID as another item (even if it is no
    /// longer in the current JSON feed `items` array) are considered the same
    /// item.
    ///
    /// # Version 1.0 Incompatibility
    ///
    /// While JSON Feed 1.0 permitted values which could be coerced into JSON
    /// strings (e.g. JSON numbers), this model supports only JSON strings. JSON
    /// Feed 1.1 strongly suggests to only use strings. In practice, the vast
    /// majority of feeds use strings.
    ///
    /// If you wish to support non-String IDs, you can directly access the
    /// underlying `Map` with `as_map_mut` or an equivalent method and read the
    /// JSON value.
    pub fn id(&self) -> (r: Result<Option<&str>, Error>)
        ensures
            reads_string(r, self@, "id"@),
    {
        get_str(self.value, "id")
    }

    /// Sets the ID.
    pub fn set_id(&mut self, value: &str) -> (prior: Option<Value>)
        ensures
            final(self)@ == old(self)@.insert("id"@, Json::String(value@)),
            is_prior(prior, old(self)@, "id"@),
            *final(final(self).value) == *final(old(self).value),
    {
        set_str(self.value, "id", value)
    }

    /// Removes the ID.
    pub fn remove_id(&mut self) -> (prior: Option<Value>)
        ensures
            final(self)@ == old(self)@.remove("id"@),
            is_prior(prior, old(self)@, "id"@),
            *final(final(self).value) == *final(old(self).value),
    {
        remove(self.value, "id")
    }

    /// The optional URL which the item represents.
    pub fn url(&self) -> (r: Result<Option<&str>, Error>)
        ensures
            reads_string(r, self@, "url"@),
    {
        get_str(self.value, "url")
    }

    /// Sets the URL.
    pub fn set_url(&mut self, value: &str) -> (prior: Option<Value>)
        ensures
            final(self)@ == old(self)@.insert("url"@, Json::String(value@)),
            is_prior(prior, old(self)@, "url"@),
            *final(final(self).value) == *final(old(self).value),
    {
        set_str(self.value, "url", value)
    }

    /// Removes the URL.
    pub fn remove_url(&mut self) -> (prior: Option<Value>)
        ensures
            final(self)@ == old(self)@.remove("url"@),
            is_prior(prior, old(self)@, "url"@),
            *final(final(self).value) == *final(old(self).value),
    {
        remove(self.value, "url")
    }

    /// An optional related external URL to the item.
    pub fn external_url(&self) -> (r: Result<Option<&str>, Error>)
        ensures
            reads_string(r, self@, "external_url"@),
    {
        get_str(self.value, "external_url")
    }

    /// Sets the external URL.
    pub fn set_external_url(&mut self, value: &str) -> (prior: Option<Value>)
        ensures
            final(self)@ == old(self)@.insert("external_url"@, Json::String(value@)),
            is_prior(prior, old(self)@, "external_url"@),
            *final(final(self).value) == *final(old(self).value),
    {
        set_str(self.value, "external_url", value)
    }

    /// Removes the external URL.
    pub fn remove_external_url(&mut self) -> (prior: Option<Value>)
        ensures
            final(self)@ == old(self)@.remove("external_url"@),
            is_prior(prior, old(self)@, "external_url"@),
            *final(final(self).value) == *final(old(self).value),
    {
        remove(self.value, "external_url")
    }

    /// An optional title for the item.
    pub fn title(&self) -> (r: Result<Option<&str>, Error>)
        ensures
            reads_string(r, self@, "title"@),
    {
        get_str(self.value, "title")
    }

    /// Sets the title.
    pub fn set_title(&mut self, value: &str) -> (prior: Option<Value>)
        ensures
            final(self)@ == old(self)@.insert("title"@, Json::String(value@)),
            is_prior(prior, old(self)@, "title"@),
            *final(final(self).value) == *final(old(self).value),
    {
        set_str(self.value, "title", value)
    }

    /// Removes the title.
    pub fn remove_title(&mut self) -> (prior: Option<Value>)
        ensures
            final(self)@ == old(self)@.remove("title"@),
            is_prior(prior, old(self)@, "title"@),
            *final(final(self).value) == *final(old(self).value),
    {
        remove(self.value, "title")
    }

    /// An optional HTML string representing the content.
    pub fn content_html(&self) -> (r: Result<Option<&str>, Error>)
        ensures
            reads_string(r, self@, "content_html"@),
    {
        get_str(self.value, "content_html")
    }

    /// Sets the HTML content.
    pub fn set_content_html(&mut self, value: &str) -> (prior: Option<Value>)
        ensures
            final(self)@ == old(self)@.insert("content_html"@, Json::String(value@)),
            is_prior(prior, old(self)@, "content_html"@),
            *final(final(self).value) == *final(old(self).value),
    {
        set_str(self.value, "content_html", value)
    }

    /// Removes the HTML content.
    pub fn remove_content_html(&mut self) -> (prior: Option<Value>)
        ensures
            final(self)@ == old(self)@.remove("content_html"@),
            is_prior(prior, old(self)@, "content_html"@),
            *final(final(self).value) == *final(old(self).value),
    {
        remove(self.value, "content_html")
    }

    /// An optional plain text string representing the content.
    pub fn content_text(&self) -> (r: Result<Option<&str>, Error>)
        ensures
            reads_string(r, self@, "content_text"@),
    {
        get_str(self.value, "content_text")
    }

    /// Sets the plain text content.
    pub fn set_content_text(&mut self, value: &str) -> (prior: Option<Value>)
        ensures
            final(self)@ == old(self)@.insert("content_text"@, Json::String(value@)),
            is_prior(prior, old(self)@, "content_text"@),
            *final(final(self).value) == *final(old(self).value),
    {
        set_str(self.value, "content_text", value)
    }

    /// Removes the plain text content.
    pub fn remove_content_text(&mut self) -> (prior: Option<Value>)
        ensures
            final(self)@ == old(self)@.remove("content_text"@),
            is_prior(prior, old(self)@, "content_text"@),
            *final(final(self).value) == *final(old(self).value),
    {
        remove(self.value, "content_text")
    }

    /// An optional summary of the item.
    pub fn summary(&self) -> (r: Result<Option<&str>, Error>)
        ensures
            reads_string(r, self@, "summary"@),
    {
        get_str(self.value, "summary")
    }

    /// Sets the summary.
    pub fn set_summary(&mut self, value: &str) -> (prior: Option<Value>)
        ensures
            final(self)@ == old(self)@.insert("summary"@, Json::String(value@)),
            is_prior(prior, old(self)@, "summary"@),
            *final(final(self).value) == *final(old(self).value),
    {
        set_str(self.value, "summary", value)
    }

    /// Removes the summary.
    pub fn remove_summary(&mut self) -> (prior: Option<Value>)
        ensures
            final(self)@ == old(self)@.remove("summary"@),
            is_prior(prior, old(self)@, "summary"@),
            *final(final(self).value) == *final(old(self).value),
    {
        remove(self.value, "summary")
    }

    /// An optional URL of an image representing the item.
    pub fn image(&self) -> (r: Result<Option<&str>, Error>)
        ensures
            reads_string(r, self@, "image"@),
    {
        get_str(self.value, "image")
    }

    /// Sets the image.
    pub fn set_image(&mut self, value: &str) -> (prior: Option<Value>)
        ensures
            final(self)@ == old(self)@.insert("image"@, Json::String(value@)),
            is_prior(prior, old(self)@, "image"@),
            *final(final(self).value) == *final(old(self).value),
    {
        set_str(self.value, "image", value)
    }

    /// Removes the image.
    pub fn remove_image(&mut self) -> (prior: Option<Value>)
        ensures
            final(self)@ == old(self)@.remove("image"@),
            is_prior(prior, old(self)@, "image"@),
            *final(final(self).value) == *final(old(self).value),
    {
        remove(self.value, "image")
    }

    /// An optional URL of a banner image representing the item.
    pub fn banner_image(&self) -> (r: Result<Option<&str>, Error>)
        ensures
            reads_string(r, self@, "banner_image"@),
    {
        get_str(self.value, "banner_image")
    }

    /// Sets the banner image.
    pub fn set_banner_image(&mut self, value: &str) -> (prior: Option<Value>)
        ensures
            final(self)@ == old(self)@.insert("banner_image"@, Json::String(value@)),
            is_prior(prior, old(self)@, "banner_image"@),
            *final(final(self).value) == *final(old(self).value),
    {
        set_str(self.value, "banner_image", value)
    }

    /// Removes the banner image.
    pub fn remove_banner_image(&mut self) -> (prior: Option<Value>)
        ensures
            final(self)@ == old(self)@.remove("banner_image"@),
            is_prior(prior, old(self)@, "banner_image"@),
            *final(final(self).value) == *final(old(self).value),
    {
        remove(self.value, "banner_image")
    }

    /// The date which the item was published in [RFC 3339][rfc_3339] format.
    ///
    /// [rfc_3339]: https://tools.ietf.org/html/rfc3339
    pub fn date_published(&self) -> (r: Result<Option<&str>, Error>)
        ensures
            reads_string(r, self@, "date_published"@),
    {
        get_str(self.value, "date_published")
    }

    /// Sets the date published.
    pub fn set_date_published(&mut self, value: &str) -> (prior: Option<Value>)
        ensures
            final(self)@ == old(self)@.insert("date_published"@, Json::String(value@)),
            is_prior(prior, old(self)@, "date_published"@),
            *final(final(self).value) == *final(old(self).value),
    {
        set_str(self.value, "date_published", value)
    }

    /// Removes the date published.
    pub fn remove_date_published(&mut self) -> (prior: Option<Value>)
        ensures
            final(self)@ == old(self)@.remove("date_published"@),
            is_prior(prior, old(self)@, "date_published"@),
            *final(final(self).value) == *final(old(self).value),
    {
        remove(self.value, "date_published")
    }

    /// The date which the item was modified in [RFC 3339][rfc_3339] format.
    ///
    /// [rfc_3339]: https://tools.ietf.org/html/rfc3339
    pub fn date_modified(&self) -> (r: Result<Option<&str>, Error>)
        ensures
            reads_string(r, self@, "date_modified"@),
    {
        get_str(self.value, "date_modified")
    }

    /// Sets the date modified.
    pub fn set_date_modified(&mut self, value: &str) -> (prior: Option<Value>)
        ensures
            final(self)@ == old(self)@.insert("date_modified"@, Json::String(value@)),
            is_prior(prior, old(self)@, "date_modified"@),
            *final(final(self).value) == *final(old(self).value),
    {
        set_str(self.value, "date_modified", value)
    }

    /// Removes the date modified.
    pub fn remove_date_modified(&mut self) -> (prior: Option<Value>)
        ensures
            final(self)@ == old(self)@.remove("date_modified"@),
            is_prior(prior, old(self)@, "date_modified"@),
            *final(final(self).value) == *final(old(self).value),
    {
        remove(self.value, "date_modified")
    }

    /// An optional author.
    ///
    /// # Deprecation
    ///
    /// The `author` field is deprecated in favor of the `authors` field as of
    /// JSON Feed 1.1.
    pub fn author(&self) -> (r: Result<Option<AuthorRef<'_>>, Error>)
        ensures
            reads_author(r, self@, "author"@),
    {
        match get_object(self.value, "author") {
            Ok(Some(map)) => Ok(Some(AuthorRef::from(map))),
            Ok(None) => Ok(None),
            Err(e) => Err(e),
        }
    }

    /// An optional author.
    ///
    /// # Deprecation
    ///
    /// The `author` field is deprecated in favor of the `authors` field as of
    /// JSON Feed 1.1.
    ///
    /// The view can be written through: what it ends as is what `author` ends
    /// up holding.
    pub fn author_mut(&mut self) -> (r: Result<Option<AuthorMut<'_>>, Error>)
        ensures
            match object_at(old(self)@, "author"@) {
                Lookup::Absent => r matches Ok(None) && final(self)@ == old(self)@,
                Lookup::Mismatch => r matches Err(Error::UnexpectedType)
                    && final(self)@ == old(self)@,
                Lookup::Present(d) => r matches Ok(Some(view)) && view@ == d
                    && final(self)@ == old(self)@.insert(
                        "author"@,
                        Json::Object(doc_of(*final(view.value))),
                    ),
            },
            *final(final(self).value) == *final(old(self).value),
    {
        match get_object_mut(self.value, "author") {
            Ok(Some(map)) => Ok(Some(AuthorMut::from(map))),
            Ok(None) => Ok(None),
            Err(e) => Err(e),
        }
    }

    /// Sets the author.
    pub fn set_author(&mut self, value: Author) -> (prior: Option<Value>)
        ensures
            final(self)@ == old(self)@.insert("author"@, Json::Object(value@)),
            is_prior(prior, old(self)@, "author"@),
            *final(final(self).value) == *final(old(self).value),
    {
        set_object(self.value, "author", value.into_inner())
    }

    /// Removes the author.
    pub fn remove_author(&mut self) -> (prior: Option<Value>)
        ensures
            final(self)@ == old(self)@.remove("author"@),
            is_prior(prior, old(self)@, "author"@),
            *final(final(self).value) == *final(old(self).value),
    {
        remove(self.value, "author")
    }

    /// An optional array of authors.
    pub fn authors(&self) -> (r: Result<Option<Vec<AuthorRef<'_>>>, Error>)
        ensures
            reads_authors(r, self@, "authors"@),
    {
        match get_object_array(self.value, "authors") {
            Ok(Some(maps)) => Ok(Some(AuthorRef::from_maps(maps))),
            Ok(None) => Ok(None),
            Err(e) => Err(e),
        }
    }

    /// An optional array of authors.
    ///
    /// Each view can be written through: what the views end as is what the
    /// array under `authors` ends up holding, in the same order.
    pub fn authors_mut(&mut self) -> (r: Result<Option<Vec<AuthorMut<'_>>>, Error>)
        ensures
            match objects_at(old(self)@, "authors"@) {
                Lookup::Absent => r matches Ok(None) && final(self)@ == old(self)@,
                Lookup::Mismatch => r matches Err(Error::UnexpectedType)
                    && final(self)@ == old(self)@,
                Lookup::Present(ds) => r matches Ok(Some(views)) && views@.len() == ds.len()
                    && (forall|i: int| 0 <= i < ds.len() ==> (#[trigger] views@[i])@ == ds[i])
                    && final(self)@ == old(self)@.insert(
                        "authors"@,
                        object_array(Seq::new(ds.len(), |i: int| doc_of(*final(views@[i].value)))),
                    ),
            },
            *final(final(self).value) == *final(old(self).value),
    {
        match get_object_array_mut(self.value, "authors") {
            Ok(Some(maps)) => {
                let ghost ds = objects_at(old(self)@, "authors"@)->Present_0;
                let views = AuthorMut::from_maps(maps);
                assert(Seq::new(ds.len(), |i: int| doc_of(*final(views@[i].value)))
                    =~= Seq::new(ds.len(), |i: int| doc_of(*final(maps@[i]))));
                Ok(Some(views))
            },
            Ok(None) => Ok(None),
            Err(e) => Err(e),
        }
    }

    /// Sets the authors.
    pub fn set_authors(&mut self, items: Vec<Author>) -> (prior: Option<Value>)
        ensures
            final(self)@ == old(self)@.insert("authors"@, object_array(author_docs(items@))),
            is_prior(prior, old(self)@, "authors"@),
            *final(final(self).value) == *final(old(self).value),
    {
        set_object_array(self.value, "authors", Author::into_maps(items))
    }

    /// Removes the authors.
    pub fn remove_authors(&mut self) -> (prior: Option<Value>)
        ensures
            final(self)@ == old(self)@.remove("authors"@),
            is_prior(prior, old(self)@, "authors"@),
            *final(final(self).value) == *final(old(self).value),
    {
        remove(self.value, "authors")
    }

    /// An optional array of plain text tags.
    pub fn tags(&self) -> (r: Result<Option<Vec<&str>>, Error>)
        ensures
            reads_strings(r, self@, "tags"@),
    {
        get_str_array(self.value, "tags")
    }

    /// Sets the tags.
    pub fn set_tags(&mut self, values: Vec<String>) -> (prior: Option<Value>)
        ensures
            final(self)@ == old(self)@.insert("tags"@, string_array(string_texts(values@))),
            is_prior(prior, old(self)@, "tags"@),
            *final(final(self).value) == *final(old(self).value),
    {
        set_str_array(self.value, "tags", values)
    }

    /// Removes the tags.
    pub fn remove_tags(&mut self) -> (prior: Option<Value>)
        ensures
            final(self)@ == old(self)@.remove("tags"@),
            is_prior(prior, old(self)@, "tags"@),
            *final(final(self).value) == *final(old(self).value),
    {
        remove(self.value, "tags")
    }

    /// The optional language which the feed data is written in.
    ///
    /// Valid values are from [RFC 5646][rfc_5646].
    ///
    /// [rfc_5646]: https://tools.ietf.org/html/rfc5646
    pub fn language(&self) -> (r: Result<Option<&str>, Error>)
        ensures
            reads_string(r, self@, "language"@),
    {
        get_str(self.value, "language")
    }

    /// Sets the language.
    pub fn set_language(&mut self, value: &str) -> (prior: Option<Value>)
        ensures
            final(self)@ == old(self)@.insert("language"@, Json::String(value@)),
            is_prior(prior, old(self)@, "language"@),
            *final(final(self).value) == *final(old(self).value),
    {
        set_str(self.value, "language", value)
    }

    /// Removes the language.
    pub fn remove_language(&mut self) -> (prior: Option<Value>)
        ensures
            final(self)@ == old(self)@.remove("language"@),
            is_prior(prior, old(self)@, "language"@),
            *final(final(self).value) == *final(old(self).value),
    {
        remove(self.value, "language")
    }

    /// An optional array of relevant resources for the item.
    pub fn attachments(&self) -> (r: Result<Option<Vec<AttachmentRef<'_>>>, Error>)
        ensures
            reads_attachments(r, self@, "attachments"@),
    {
        match get_object_array(self.value, "attachments") {
            Ok(Some(maps)) => Ok(Some(AttachmentRef::from_maps(maps))),
            Ok(None) => Ok(None),
            Err(e) => Err(e),
        }
    }

    /// An optional array of relevant resources for the item.
    ///
    /// Each view can be written through: what the views end as is what the
    /// array under `attachments` ends up holding, in the same order.
    pub fn attachments_mut(&mut self) -> (r: Result<Option<Vec<AttachmentMut<'_>>>, Error>)
        ensures
            match objects_at(old(self)@, "attachments"@) {
                Lookup::Absent => r matches Ok(None) && final(self)@ == old(self)@,
                Lookup::Mismatch => r matches Err(Error::UnexpectedType)
                    && final(self)@ == old(self)@,
                Lookup::Present(ds) => r matches Ok(Some(views)) && views@.len() == ds.len()
                    && (forall|i: int| 0 <= i < ds.len() ==> (#[trigger] views@[i])@ == ds[i])
                    && final(self)@ == old(self)@.insert(
                        "attachments"@,
                        object_array(Seq::new(ds.len(), |i: int| doc_of(*final(views@[i].value)))),
                    ),
            },
            *final(final(self).value) == *final(old(self).value),
    {
        match get_object_array_mut(self.value, "attachments") {
            Ok(Some(maps)) => {
                let ghost ds = objects_at(old(self)@, "attachments"@)->Present_0;
                let views = AttachmentMut::from_maps(maps);
                assert(Seq::new(ds.len(), |i: int| doc_of(*final(views@[i].value)))
                    =~= Seq::new(ds.len(), |i: int| doc_of(*final(maps@[i]))));
                Ok(Some(views))
            },
            Ok(None) => Ok(None),
            Err(e) => Err(e),
        }
    }

    /// Sets the attachments.
    pub fn set_attachments(&mut self, items: Vec<Attachment>) -> (prior: Option<Value>)
        ensures
            final(self)@ == old(self)@.insert(
                "attachments"@,
                object_array(attachment_docs(items@)),
            ),
            is_prior(prior, old(self)@, "attachments"@),
            *final(final(self).value) == *final(old(self).value),
    {
        set_object_array(self.value, "attachments", Attachment::into_maps(items))
    }

    /// Removes the attachments.
    pub fn remove_attachments(&mut self) -> (prior: Option<Value>)
        ensures
            final(self)@ == old(self)@.remove("attachments"@),
            is_prior(prior, old(self)@, "attachments"@),
            *final(final(self).value) == *final(old(self).value),
    {
        remove(self.value, "attachments")
    }

    /// Verifies if the JSON data complies with a specific `Version` of the
    /// JSON Feed format.
    #[must_use]
    pub fn is_valid(&self, version: &Version<'_>) -> (ok: bool)
        ensures
            ok == item_valid(self@, *version),
    {
        is_valid_item(self.value, version)
    }
}

impl<'a> From<&'a mut JsonMap> for ItemMut<'a> {
    fn from(value: &'a mut JsonMap) -> (r: Self)
        ensures
            r@ == doc_of(*old(value)),
            *final(r.value) == *final(value),
    {
        ItemMut { value }
    }
}

impl<'a> FromSpecImpl<&'a mut JsonMap> for ItemMut<'a> {
    /// A view made from a mutable borrow carries the borrow's future along,
    /// which no function of the argument's present value can state; `from`
    /// states its own contract.
    open spec fn obeys_from_spec() -> bool {
        false
    }

    open spec fn from_spec(value: &'a mut JsonMap) -> Self {
        ItemMut { value }
    }
}

impl<'a> AsRef<JsonMap> for ItemMut<'a> {
    fn as_ref(&self) -> (r: &JsonMap)
        ensures
            doc_of(*r) == self@,
    {
        self.value
    }
}

impl<'a> AsMut<JsonMap> for ItemMut<'a> {
    fn as_mut(&mut self) -> (r: &mut JsonMap)
        ensures
            doc_of(*r) == old(self)@,
            final(self)@ == doc_of(*final(r)),
            *final(final(self).value) == *final(old(self).value),
    {
        self.value
    }
}

impl<'a> Eq for ItemMut<'a> {}

impl<'a> PartialEq<JsonMap> for ItemMut<'a> {
    fn eq(&self, other: &JsonMap) -> (r: bool) {
        map_eq(self.value, other)
    }
}

impl<'a> PartialEqSpecImpl<JsonMap> for ItemMut<'a> {
    open spec fn obeys_eq_spec() -> bool {
        true
    }

    open spec fn eq_spec(&self, other: &JsonMap) -> bool {
        self@ == doc_of(*other)
    }
}

impl<'a> PartialEq<ItemMut<'a>> for ItemMut<'a> {
    fn eq(&self, other: &ItemMut<'a>) -> (r: bool) {
        map_eq(self.value, other.value)
    }
}

impl<'a> PartialEqSpecImpl<ItemMut<'a>> for ItemMut<'a> {
    open spec fn obeys_eq_spec() -> bool {
        true
    }

    open spec fn eq_spec(&self, other: &ItemMut<'a>) -> bool {
        self@ == other@
    }
}

} // verus!

//! A resource attached to an item.

use crate::error::Error;
use crate::field::{
    get_str, get_u64, object_at, objects_at, reads_string, reads_u64, ref_docs, remove, set_str,
    set_u64, Lookup,
};
use crate::json::{doc_of, docs_of, is_prior, map_eq, Doc, Json, JsonMap, JsonNumber};
use crate::validate::{attachment_valid, is_valid_attachment};
use crate::version::Version;
use serde_json::Value;
use vstd::prelude::*;
use vstd::std_specs::cmp::PartialEqSpecImpl;
use vstd::std_specs::convert::FromSpecImpl;

verus! {

/// A relevant resource for an `Item`.
///
/// # Valid Attachment
///
/// An `Attachment` must have both the `url` and `mime_type` fields set.
#[derive(Debug)]
pub struct Attachment {
    value: JsonMap,
}

/// An `Attachment` implemented with a borrowed reference to a JSON object.
#[derive(Debug)]
pub struct AttachmentRef<'a> {
    value: &'a JsonMap,
}

/// An `Attachment` implemented with a borrowed mutable reference to a JSON object.
#[derive(Debug)]
pub struct AttachmentMut<'a> {
    /// The borrowed object. The field is public so that contracts can speak
    /// of what the object holds once the borrow has ended.
    pub value: &'a mut JsonMap,
}

impl View for Attachment {
    type V = Doc;

    closed spec fn view(&self) -> Doc {
        doc_of(self.value)
    }
}

impl<'a> View for AttachmentRef<'a> {
    type V = Doc;

    closed spec fn view(&self) -> Doc {
        doc_of(*self.value)
    }
}

impl<'a> View for AttachmentMut<'a> {
    type V = Doc;

    open spec fn view(&self) -> Doc {
        doc_of(*self.value)
    }
}

/// The documents that a run of views looks at.
pub open spec fn attachment_ref_docs(views: Seq<AttachmentRef<'_>>) -> Seq<Doc> {
    Seq::new(views.len(), |i: int| views[i]@)
}

/// The documents that a run of attachments holds.
pub open spec fn attachment_docs(attachments: Seq<Attachment>) -> Seq<Doc> {
    Seq::new(attachments.len(), |i: int| attachments[i]@)
}

/// `r` is the outcome of reading `key` of `doc` as an array of nested attachments.
pub open spec fn reads_attachments(
    r: Result<Option<Vec<AttachmentRef<'_>>>, Error>,
    doc: Doc,
    key: Seq<char>,
) -> bool {
    match objects_at(doc, key) {
        Lookup::Absent => r matches Ok(None),
        Lookup::Mismatch => r matches Err(Error::UnexpectedType),
        Lookup::Present(ds) => r matches Ok(Some(views)) && attachment_ref_docs(views@) == ds,
    }
}

impl Attachment {
    /// Instantiates with an empty JSON object.
    #[must_use]
    pub fn new() -> (r: Self)
        ensures
            r@ == Doc::empty(),
    {
        Attachment { value: JsonMap::new() }
    }

    /// Returns the inner `Map` as a reference.
    #[must_use]
    pub fn as_map(&self) -> (r: &JsonMap)
        ensures
            doc_of(*r) == self@,
    {
        &self.value
    }

    /// Returns the inner `Map` as a mutable reference. What the map ends as
    /// is what the attachment ends as.
    pub fn as_map_mut(&mut self) -> (r: &mut JsonMap)
        ensures
            doc_of(*r) == old(self)@,
            final(self)@ == doc_of(*final(r)),
    {
        &mut self.value
    }

    /// Converts the type into the inner `Map`.
    #[must_use]
    pub fn into_inner(self) -> (r: JsonMap)
        ensures
            doc_of(r) == self@,
    {
        self.value
    }

    /// Takes the maps out of a run of attachments, in order.
    pub(crate) fn into_maps(attachments: Vec<Attachment>) -> (maps: Vec<JsonMap>)
        ensures
            docs_of(maps@) == attachment_docs(attachments@),
    {
        let ghost docs = attachment_docs(attachments@);
        let mut maps: Vec<JsonMap> = Vec::new();
        for attachment in it: attachments.into_iter()
            invariant
                docs.len() == it.seq().len(),
                forall|j: int| 0 <= j < docs.len() ==> docs[j] == (#[trigger] it.seq()[j])@,
                maps@.len() == it.index(),
                forall|j: int| 0 <= j < maps@.len() ==> doc_of(#[trigger] maps@[j]) == docs[j],
        {
            maps.push(attachment.into_inner());
        }
        assert(docs_of(maps@) =~= docs);
        maps
    }

    /// The required URL for the attachment.
    pub fn url(&self) -> (r: Result<Option<&str>, Error>)
        ensures
            reads_string(r, self@, "url"@),
    {
        get_str(&self.value, "url")
    }

    /// Sets the URL.
    pub fn set_url(&mut self, value: &str) -> (prior: Option<Value>)
        ensures
            final(self)@ == old(self)@.insert("url"@, Json::String(value@)),
            is_prior(prior, old(self)@, "url"@),
    {
        set_str(&mut self.value, "url", value)
    }

    /// Removes the URL.
    pub fn remove_url(&mut self) -> (prior: Option<Value>)
        ensures
            final(self)@ == old(self)@.remove("url"@),
            is_prior(prior, old(self)@, "url"@),
    {
        remove(&mut self.value, "url")
    }

    /// The required [MIME][mime] type (e.g. image/png).
    ///
    /// [mime]: https://developer.mozilla.org/en-US/docs/Web/HTTP/Basics_of_HTTP/MIME_types
    pub fn mime_type(&self) -> (r: Result<Option<&str>, Error>)
        ensures
            reads_string(r, self@, "mime_type"@),
    {
        get_str(&self.value, "mime_type")
    }

    /// Sets the MIME type.
    pub fn set_mime_type(&mut self, value: &str) -> (prior: Option<Value>)
        ensures
            final(self)@ == old(self)@.insert("mime_type"@, Json::String(value@)),
            is_prior(prior, old(self)@, "mime_type"@),
    {
        set_str(&mut self.value, "mime_type", value)
    }

    /// Removes the MIME type.
    pub fn remove_mime_type(&mut self) -> (prior: Option<Value>)
        ensures
            final(self)@ == old(self)@.remove("mime_type"@),
            is_prior(prior, old(self)@, "mime_type"@),
    {
        remove(&mut self.value, "mime_type")
    }

    /// An optional title for the attachment.
    ///
    /// # Important
    ///
    /// Attachments with the same title are considered to be alternative
    /// representations of an attachment.
    pub fn title(&self) -> (r: Result<Option<&str>, Error>)
        ensures
            reads_string(r, self@, "title"@),
    {
        get_str(&self.value, "title")
    }

    /// Sets the title.
    pub fn set_title(&mut self, value: &str) -> (prior: Option<Value>)
        ensures
            final(self)@ == old(self)@.insert("title"@, Json::String(value@)),
            is_prior(prior, old(self)@, "title"@),
    {
        set_str(&mut self.value, "title", value)
    }

    /// Removes the title.
    pub fn remove_title(&mut self) -> (prior: Option<Value>)
        ensures
            final(self)@ == old(self)@.remove("title"@),
            is_prior(prior, old(self)@, "title"@),
    {
        remove(&mut self.value, "title")
    }

    /// The optional size of the attachment in bytes.
    pub fn size_in_bytes(&self) -> (r: Result<Option<u64>, Error>)
        ensures
            reads_u64(r, self@, "size_in_bytes"@),
    {
        get_u64(&self.value, "size_in_bytes")
    }

    /// Sets the size in bytes.
    pub fn set_size_in_bytes(&mut self, value: u64) -> (prior: Option<Value>)
        ensures
            final(self)@ == old(self)@.insert(
                "size_in_bytes"@,
                Json::Number(JsonNumber::PosInt(value)),
            ),
            is_prior(prior, old(self)@, "size_in_bytes"@),
    {
        set_u64(&mut self.value, "size_in_bytes", value)
    }

    /// Removes the size in bytes.
    pub fn remove_size_in_bytes(&mut self) -> (prior: Option<Value>)
        ensures
            final(self)@ == old(self)@.remove("size_in_bytes"@),
            is_prior(prior, old(self)@, "size_in_bytes"@),
    {
        remove(&mut self.value, "size_in_bytes")
    }

    /// The optional duration of the content in seconds.
    pub fn duration_in_seconds(&self) -> (r: Result<Option<u64>, Error>)
        ensures
            reads_u64(r, self@, "duration_in_seconds"@),
    {
        get_u64(&self.value, "duration_in_seconds")
    }

    /// Sets the duration of in seconds.
    pub fn set_duration_in_seconds(&mut self, value: u64) -> (prior: Option<Value>)
        ensures
            final(self)@ == old(self)@.insert(
                "duration_in_seconds"@,
                Json::Number(JsonNumber::PosInt(value)),
            ),
            is_prior(prior, old(self)@, "duration_in_seconds"@),
    {
        set_u64(&mut self.value, "duration_in_seconds", value)
    }

    /// Removes the duration in seconds.
    pub fn remove_duration_in_seconds(&mut self) -> (prior: Option<Value>)
        ensures
            final(self)@ == old(self)@.remove("duration_in_seconds"@),
            is_prior(prior, old(self)@, "duration_in_seconds"@),
    {
        remove(&mut self.value, "duration_in_seconds")
    }

    /// Verifies if the JSON data complies with a specific `Version` of the
    /// JSON Feed format.
    #[must_use]
    pub fn is_valid(&self, version: &Version<'_>) -> (ok: bool)
        ensures
            ok == attachment_valid(self@, *version),
    {
        is_valid_attachment(&self.value, version)
    }
}

impl Clone for Attachment {
    fn clone(&self) -> (r: Self)
        ensures
            r@ == self@,
    {
        Attachment { value: self.value.clone() }
    }
}

impl Default for Attachment {
    fn default() -> (r: Self)
        ensures
            r@ == Doc::empty(),
    {
        Attachment::new()
    }
}

impl From<JsonMap> for Attachment {
    fn from(value: JsonMap) -> (r: Self)
        ensures
            r@ == doc_of(value),
    {
        Attachment { value }
    }
}

impl FromSpecImpl<JsonMap> for Attachment {
    open spec fn obeys_from_spec() -> bool {
        true
    }

    closed spec fn from_spec(value: JsonMap) -> Self {
        Attachment { value }
    }
}

impl AsRef<JsonMap> for Attachment {
    fn as_ref(&self) -> (r: &JsonMap)
        ensures
            doc_of(*r) == self@,
    {
        &self.value
    }
}

impl AsMut<JsonMap> for Attachment {
    fn as_mut(&mut self) -> (r: &mut JsonMap)
        ensures
            doc_of(*r) == old(self)@,
            final(self)@ == doc_of(*final(r)),
    {
        &mut self.value
    }
}

impl Eq for Attachment {}

impl PartialEq<JsonMap> for Attachment {
    fn eq(&self, other: &JsonMap) -> (r: bool) {
        map_eq(&self.value, other)
    }
}

impl PartialEqSpecImpl<JsonMap> for Attachment {
    open spec fn obeys_eq_spec() -> bool {
        true
    }

    open spec fn eq_spec(&self, other: &JsonMap) -> bool {
        self@ == doc_of(*other)
    }
}

impl PartialEq<Attachment> for Attachment {
    fn eq(&self, other: &Attachment) -> (r: bool) {
        map_eq(&self.value, &other.value)
    }
}

impl PartialEqSpecImpl<Attachment> for Attachment {
    open spec fn obeys_eq_spec() -> bool {
        true
    }

    open spec fn eq_spec(&self, other: &Attachment) -> bool {
        self@ == other@
    }
}

/// Building an attachment from a map and cloning it keeps the document: the
/// clone compares equal to the map it came from, and to the attachment it
/// was cloned from.
pub proof fn lemma_attachment_clone_equals_source(
    source: JsonMap,
    built: Attachment,
    copy: Attachment,
)
    requires
        built@ == doc_of(source),
        copy@ == built@,
    ensures
        vstd::std_specs::cmp::PartialEqSpec::eq_spec(&copy, &source),
        vstd::std_specs::cmp::PartialEqSpec::eq_spec(&copy, &built),
{
}

impl<'a> AttachmentRef<'a> {
    /// Returns the inner `Map` as a reference.
    #[must_use]
    pub fn as_map(&self) -> (r: &JsonMap)
        ensures
            doc_of(*r) == self@,
    {
        self.value
    }

    /// Clones the inner `Map` reference and returns an owned type.
    #[must_use]
    pub fn to_attachment(&self) -> (r: Attachment)
        ensures
            r@ == self@,
    {
        Attachment::from(self.value.clone())
    }

    /// Wraps each of a run of borrowed maps, in order.
    pub(crate) fn from_maps(maps: Vec<&'a JsonMap>) -> (views: Vec<AttachmentRef<'a>>)
        ensures
            attachment_ref_docs(views@) == ref_docs(maps@),
    {
        let ghost docs = ref_docs(maps@);
        let mut views: Vec<AttachmentRef<'a>> = Vec::new();
        for map in it: maps.into_iter()
            invariant
                docs.len() == it.seq().len(),
                forall|j: int| 0 <= j < docs.len() ==> docs[j] == doc_of(*#[trigger] it.seq()[j]),
                views@.len() == it.index(),
                forall|j: int| 0 <= j < views@.len() ==> (#[trigger] views@[j])@ == docs[j],
        {
            views.push(AttachmentRef::from(map));
        }
        assert(attachment_ref_docs(views@) =~= docs);
        views
    }

    /// The required URL for the attachment.
    pub fn url(&self) -> (r: Result<Option<&str>, Error>)
        ensures
            reads_string(r, self@, "url"@),
    {
        get_str(self.value, "url")
    }

    /// The required [MIME][mime] type (e.g. image/png).
    ///
    /// [mime]: https://developer.mozilla.org/en-US/docs/Web/HTTP/Basics_of_HTTP/MIME_types
    pub fn mime_type(&self) -> (r: Result<Option<&str>, Error>)
        ensures
            reads_string(r, self@, "mime_type"@),
    {
        get_str(self.value, "mime_type")
    }

    /// An optional title for the attachment.
    ///
    /// # Important
    ///
    /// Attachments with the same title are considered to be alternative
    /// representations of an attachment.
    pub fn title(&self) -> (r: Result<Option<&str>, Error>)
        ensures
            reads_string(r, self@, "title"@),
    {
        get_str(self.value, "title")
    }

    /// The optional size of the attachment in bytes.
    pub fn size_in_bytes(&self) -> (r: Result<Option<u64>, Error>)
        ensures
            reads_u64(r, self@, "size_in_bytes"@),
    {
        get_u64(self.value, "size_in_bytes")
    }

    /// The optional duration of the content in seconds.
    pub fn duration_in_seconds(&self) -> (r: Result<Option<u64>, Error>)
        ensures
            reads_u64(r, self@, "duration_in_seconds"@),
    {
        get_u64(self.value, "duration_in_seconds")
    }

    /// Verifies if the JSON data complies with a specific `Version` of the
    /// JSON Feed format.
    #[must_use]
    pub fn is_valid(&self, version: &Version<'_>) -> (ok: bool)
        ensures
            ok == attachment_valid(self@, *version),
    {
        is_valid_attachment(self.value, version)
    }
}

impl<'a> From<&'a JsonMap> for AttachmentRef<'a> {
    fn from(value: &'a JsonMap) -> (r: Self)
        ensures
            r@ == doc_of(*value),
    {
        AttachmentRef { value }
    }
}

impl<'a> FromSpecImpl<&'a JsonMap> for AttachmentRef<'a> {
    open spec fn obeys_from_spec() -> bool {
        true
    }

    closed spec fn from_spec(value: &'a JsonMap) -> Self {
        AttachmentRef { value }
    }
}

impl<'a> AsRef<JsonMap> for AttachmentRef<'a> {
    fn as_ref(&self) -> (r: &JsonMap)
        ensures
            doc_of(*r) == self@,
    {
        self.value
    }
}

impl<'a> Eq for AttachmentRef<'a> {}

impl<'a> PartialEq<JsonMap> for AttachmentRef<'a> {
    fn eq(&self, other: &JsonMap) -> (r: bool) {
        map_eq(self.value, other)
    }
}

impl<'a> PartialEqSpecImpl<JsonMap> for AttachmentRef<'a> {
    open spec fn obeys_eq_spec() -> bool {
        true
    }

    open spec fn eq_spec(&self, other: &JsonMap) -> bool {
        self@ == doc_of(*other)
    }
}

impl<'a> PartialEq<AttachmentRef<'a>> for AttachmentRef<'a> {
    fn eq(&self, other: &AttachmentRef<'a>) -> (r: bool) {
        map_eq(self.value, other.value)
    }
}

impl<'a> PartialEqSpecImpl<AttachmentRef<'a>> for AttachmentRef<'a> {
    open spec fn obeys_eq_spec() -> bool {
        true
    }

    open spec fn eq_spec(&self, other: &AttachmentRef<'a>) -> bool {
        self@ == other@
    }
}

impl<'a> AttachmentMut<'a> {
    /// Returns the inner `Map` as a reference.
    #[must_use]
    pub fn as_map(&self) -> (r: &JsonMap)
        ensures
            doc_of(*r) == self@,
    {
        self.value
    }

    /// Returns the inner `Map` as a mutable reference. What the map ends as
    /// is what the attachment ends as.
    pub fn as_map_mut(&mut self) -> (r: &mut JsonMap)
        ensures
            doc_of(*r) == old(self)@,
            final(self)@ == doc_of(*final(r)),
            *final(final(self).value) == *final(old(self).value),
    {
        self.value
    }

    /// Clones the inner `Map` reference and returns an owned type.
    #[must_use]
    pub fn to_attachment(&self) -> (r: Attachment)
        ensures
            r@ == self@,
    {
        Attachment::from(self.value.clone())
    }

    /// Wraps each of a run of mutably borrowed maps, in order. Each view
    /// writes through to the map it was made from.
    pub(crate) fn from_maps(maps: Vec<&'a mut JsonMap>) -> (views: Vec<AttachmentMut<'a>>)
        ensures
            views@.len() == maps@.len(),
            forall|i: int| 0 <= i < maps@.len() ==> (#[trigger] views@[i])@ == doc_of(*maps@[i]),
            forall|i: int|
                0 <= i < maps@.len() ==> *final((#[trigger] views@[i]).value) == *final(maps@[i]),
    {
        let ghost given = maps@;
        let mut views: Vec<AttachmentMut<'a>> = Vec::new();
        for map in it: maps.into_iter()
            invariant
                given == it.seq(),
                views@.len() == it.index(),
                forall|j: int|
                    0 <= j < views@.len() ==> (#[trigger] views@[j])@ == doc_of(*given[j]),
                forall|j: int|
                    0 <= j < views@.len() ==> *final((#[trigger] views@[j]).value)
                        == *final(given[j]),
        {
            views.push(AttachmentMut::from(map));
        }
        views
    }

    /// The required URL for the attachment.
    pub fn url(&self) -> (r: Result<Option<&str>, Error>)
        ensures
            reads_string(r, self@, "url"@),
    {
        get_str(self.value, "url")
    }

    /// Sets the URL.
    pub fn set_url(&mut self, value: &str) -> (prior: Option<Value>)
        ensures
            final(self)@ == old(self)@.insert("url"@, Json::String(value@)),
            is_prior(prior, old(self)@, "url"@),
            *final(final(self).value) == *final(old(self).value),
    {
        set_str(self.value, "url", value)
    }

    /// Removes the URL.
    pub fn remove_url(&mut self) -> (prior: Option<Value>)
        ensures
            final(self)@ == old(self)@.remove("url"@),
            is_prior(prior, old(self)@, "url"@),
            *final(final(self).value) == *final(old(self).value),
    {
        remove(self.value, "url")
    }

    /// The required [MIME][mime] type (e.g. image/png).
    ///
    /// [mime]: https://developer.mozilla.org/en-US/docs/Web/HTTP/Basics_of_HTTP/MIME_types
    pub fn mime_type(&self) -> (r: Result<Option<&str>, Error>)
        ensures
            reads_string(r, self@, "mime_type"@),
    {
        get_str(self.value, "mime_type")
    }

    /// Sets the MIME type.
    pub fn set_mime_type(&mut self, value: &str) -> (prior: Option<Value>)
        ensures
            final(self)@ == old(self)@.insert("mime_type"@, Json::String(value@)),
            is_prior(prior, old(self)@, "mime_type"@),
            *final(final(self).value) == *final(old(self).value),
    {
        set_str(self.value, "mime_type", value)
    }

    /// Removes the MIME type.
    pub fn remove_mime_type(&mut self) -> (prior: Option<Value>)
        ensures
            final(self)@ == old(self)@.remove("mime_type"@),
            is_prior(prior, old(self)@, "mime_type"@),
            *final(final(self).value) == *final(old(self).value),
    {
        remove(self.value, "mime_type")
    }

    /// An optional title for the attachment.
    ///
    /// # Important
    ///
    /// Attachments with the same title are considered to be alternative
    /// representations of an attachment.
    pub fn title(&self) -> (r: Result<Option<&str>, Error>)
        ensures
            reads_string(r, self@, "title"@),
    {
        get_str(self.value, "title")
    }

    /// Sets the title.
    pub fn set_title(&mut self, value: &str) -> (prior: Option<Value>)
        ensures
            final(self)@ == old(self)@.insert("title"@, Json::String(value@)),
            is_prior(prior, old(self)@, "title"@),
            *final(final(self).value) == *final(old(self).value),
    {
        set_str(self.value, "title", value)
    }

    /// Removes the title.
    pub fn remove_title(&mut self) -> (prior: Option<Value>)
        ensures
            final(self)@ == old(self)@.remove("title"@),
            is_prior(prior, old(self)@, "title"@),
            *final(final(self).value) == *final(old(self).value),
    {
        remove(self.value, "title")
    }

    /// The optional size of the attachment in bytes.
    pub fn size_in_bytes(&self) -> (r: Result<Option<u64>, Error>)
        ensures
            reads_u64(r, self@, "size_in_bytes"@),
    {
        get_u64(self.value, "size_in_bytes")
    }

    /// Sets the size in bytes.
    pub fn set_size_in_bytes(&mut self, value: u64) -> (prior: Option<Value>)
        ensures
            final(self)@ == old(self)@.insert(
                "size_in_bytes"@,
                Json::Number(JsonNumber::PosInt(value)),
            ),
            is_prior(prior, old(self)@, "size_in_bytes"@),
            *final(final(self).value) == *final(old(self).value),
    {
        set_u64(self.value, "size_in_bytes", value)
    }

    /// Removes the size in bytes.
    pub fn remove_size_in_bytes(&mut self) -> (prior: Option<Value>)
        ensures
            final(self)@ == old(self)@.remove("size_in_bytes"@),
            is_prior(prior, old(self)@, "size_in_bytes"@),
            *final(final(self).value) == *final(old(self).value),
    {
        remove(self.value, "size_in_bytes")
    }

    /// The optional duration of the content in seconds.
    pub fn duration_in_seconds(&self) -> (r: Result<Option<u64>, Error>)
        ensures
            reads_u64(r, self@, "duration_in_seconds"@),
    {
        get_u64(self.value, "duration_in_seconds")
    }

    /// Sets the duration of in seconds.
    pub fn set_duration_in_seconds(&mut self, value: u64) -> (prior: Option<Value>)
        ensures
            final(self)@ == old(self)@.insert(
                "duration_in_seconds"@,
                Json::Number(JsonNumber::PosInt(value)),
            ),
            is_prior(prior, old(self)@, "duration_in_seconds"@),
            *final(final(self).value) == *final(old(self).value),
    {
        set_u64(self.value, "duration_in_seconds", value)
    }

    /// Removes the duration in seconds.
    pub fn remove_duration_in_seconds(&mut self) -> (prior: Option<Value>)
        ensures
            final(self)@ == old(self)@.remove("duration_in_seconds"@),
            is_prior(prior, old(self)@, "duration_in_seconds"@),
            *final(final(self).value) == *final(old(self).value),
    {
        remove(self.value, "duration_in_seconds")
    }

    /// Verifies if the JSON data complies with a specific `Version` of the
    /// JSON Feed format.
    #[must_use]
    pub fn is_valid(&self, version: &Version<'_>) -> (ok: bool)
        ensures
            ok == attachment_valid(self@, *version),
    {
        is_valid_attachment(self.value, version)
    }
}

impl<'a> From<&'a mut JsonMap> for AttachmentMut<'a> {
    fn from(value: &'a mut JsonMap) -> (r: Self)
        ensures
            r@ == doc_of(*old(value)),
            *final(r.value) == *final(value),
    {
        AttachmentMut { value }
    }
}

impl<'a> FromSpecImpl<&'a mut JsonMap> for AttachmentMut<'a> {
    /// A view made from a mutable borrow carries the borrow's future along,
    /// which no function of the argument's present value can state; `from`
    /// states its own contract.
    open spec fn obeys_from_spec() -> bool {
        false
    }

    open spec fn from_spec(value: &'a mut JsonMap) -> Self {
        AttachmentMut { value }
    }
}

impl<'a> AsRef<JsonMap> for AttachmentMut<'a> {
    fn as_ref(&self) -> (r: &JsonMap)
        ensures
            doc_of(*r) == self@,
    {
        self.value
    }
}

impl<'a> AsMut<JsonMap> for AttachmentMut<'a> {
    fn as_mut(&mut self) -> (r: &mut JsonMap)
        ensures
            doc_of(*r) == old(self)@,
            final(self)@ == doc_of(*final(r)),
            *final(final(self).value) == *final(old(self).value),
    {
        self.value
    }
}

impl<'a> Eq for AttachmentMut<'a> {}

impl<'a> PartialEq<JsonMap> for AttachmentMut<'a> {
    fn eq(&self, other: &JsonMap) -> (r: bool) {
        map_eq(self.value, other)
    }
}

impl<'a> PartialEqSpecImpl<JsonMap> for AttachmentMut<'a> {
    open spec fn obeys_eq_spec() -> bool {
        true
    }

    open spec fn eq_spec(&self, other: &JsonMap) -> bool {
        self@ == doc_of(*other)
    }
}

impl<'a> PartialEq<AttachmentMut<'a>> for AttachmentMut<'a> {
    fn eq(&self, other: &AttachmentMut<'a>) -> (r: bool) {
        map_eq(self.value, other.value)
    }
}

impl<'a> PartialEqSpecImpl<AttachmentMut<'a>> for AttachmentMut<'a> {
    open spec fn obeys_eq_spec() -> bool {
        true
    }

    open spec fn eq_spec(&self, other: &AttachmentMut<'a>) -> bool {
        self@ == other@
    }
}

} // verus!

//! What makes a document a valid feed, item, author, hub or attachment under
//! a given version of the format, and the functions that decide it.
//!
//! Validity is structural. A document of a kind is valid for a target
//! version when the target is one of the two known revisions, the fields
//! that the kind requires are present, every declared field that is present
//! holds a value of its kind, and every key of the document is either
//! declared for that kind under the target or an extension key. Items, hubs
//! and attachments nested in a valid document are valid themselves, and so
//! are the authors of an item. The authors of the feed itself must be
//! objects that hold no undeclared key; nothing more is asked of them.

use crate::error::Error;
use crate::field::{
    bool_at, get_bool, get_object, get_object_array, get_str, get_str_array, get_u64, object_at,
    objects_at, ref_docs, string_at, strings_at, texts_of, u64_at, Lookup,
};
use crate::json::{doc_of, map_keys, same_text, Doc, JsonMap};
use crate::version::{is_compatible, version_compatible, Version};
use vstd::prelude::*;
use vstd::string::StrSliceExecFns;

verus! {

/// An extension key starts with an underscore. Such a key may hold anything
/// and may stand in any document.
pub open spec fn is_extension(key: Seq<char>) -> bool {
    key.len() > 0 && key[0] == '_'
}

/// A key may stand in a document when it is declared or an extension key.
pub open spec fn key_allowed(declared: Seq<Seq<char>>, key: Seq<char>) -> bool {
    declared.contains(key) || is_extension(key)
}

/// Every key of the document may stand in it.
pub open spec fn keys_permitted(doc: Doc, declared: Seq<Seq<char>>) -> bool {
    forall|k: Seq<char>| #[trigger] doc.contains_key(k) ==> key_allowed(declared, k)
}

/// The keys declared for an author.
pub open spec fn author_keys() -> Seq<Seq<char>> {
    seq!["name"@, "avatar"@, "url"@]
}

/// The keys declared for a hub.
pub open spec fn hub_keys() -> Seq<Seq<char>> {
    seq!["type"@, "url"@]
}

/// The keys declared for an attachment.
pub open spec fn attachment_keys() -> Seq<Seq<char>> {
    seq!["url"@, "mime_type"@, "title"@, "size_in_bytes"@, "duration_in_seconds"@]
}

/// The keys that only the later revision declares, for feeds and items alike.
pub open spec fn later_keys(target: Version<'_>) -> Seq<Seq<char>> {
    if target is Version1_1 {
        seq!["authors"@, "language"@]
    } else {
        seq![]
    }
}

/// The keys declared for an item under `target`.
pub open spec fn item_keys(target: Version<'_>) -> Seq<Seq<char>> {
    seq![
        "id"@,
        "url"@,
        "external_url"@,
        "title"@,
        "content_html"@,
        "content_text"@,
        "summary"@,
        "image"@,
        "banner_image"@,
        "date_published"@,
        "date_modified"@,
        "author"@,
        "tags"@,
        "attachments"@,
    ] + later_keys(target)
}

/// The keys declared for a feed under `target`.
pub open spec fn feed_keys(target: Version<'_>) -> Seq<Seq<char>> {
    seq![
        "version"@,
        "title"@,
        "home_page_url"@,
        "feed_url"@,
        "description"@,
        "user_comment"@,
        "next_url"@,
        "icon"@,
        "favicon"@,
        "author"@,
        "expired"@,
        "hubs"@,
        "items"@,
    ] + later_keys(target)
}

/// The key is present and holds a string.
pub open spec fn has_string(doc: Doc, key: Seq<char>) -> bool {
    string_at(doc, key) is Present
}

/// The key is absent or holds a string.
pub open spec fn string_if_present(doc: Doc, key: Seq<char>) -> bool {
    !(string_at(doc, key) is Mismatch)
}

/// An author is valid when at least one of `name`, `url` and `avatar` is
/// present, each of them that is present is a string, and no undeclared key
/// is present.
pub open spec fn author_valid(doc: Doc, target: Version<'_>) -> bool {
    &&& target.is_recognized()
    &&& string_if_present(doc, "name"@)
    &&& string_if_present(doc, "avatar"@)
    &&& string_if_present(doc, "url"@)
    &&& (has_string(doc, "name"@) || has_string(doc, "avatar"@) || has_string(doc, "url"@))
    &&& keys_permitted(doc, author_keys())
}

/// A hub is valid when `type` and `url` are both present as strings and no
/// undeclared key is present.
pub open spec fn hub_valid(doc: Doc, target: Version<'_>) -> bool {
    &&& target.is_recognized()
    &&& has_string(doc, "url"@)
    &&& has_string(doc, "type"@)
    &&& keys_permitted(doc, hub_keys())
}

/// An attachment is valid when `url` and `mime_type` are both present as
/// strings, `title` is a string and the size and the duration are unsigned
/// integers where they are present, and no undeclared key is present.
pub open spec fn attachment_valid(doc: Doc, target: Version<'_>) -> bool {
    &&& target.is_recognized()
    &&& has_string(doc, "url"@)
    &&& has_string(doc, "mime_type"@)
    &&& string_if_present(doc, "title"@)
    &&& !(u64_at(doc, "size_in_bytes"@) is Mismatch)
    &&& !(u64_at(doc, "duration_in_seconds"@) is Mismatch)
    &&& keys_permitted(doc, attachment_keys())
}

/// Every document of the run is a valid author.
pub open spec fn authors_valid(docs: Seq<Doc>, target: Version<'_>) -> bool {
    forall|i: int| 0 <= i < docs.len() ==> author_valid(#[trigger] docs[i], target)
}

/// Every document of the run is a valid hub.
pub open spec fn hubs_valid(docs: Seq<Doc>, target: Version<'_>) -> bool {
    forall|i: int| 0 <= i < docs.len() ==> hub_valid(#[trigger] docs[i], target)
}

/// Every document of the run is a valid attachment.
pub open spec fn attachments_valid(docs: Seq<Doc>, target: Version<'_>) -> bool {
    forall|i: int| 0 <= i < docs.len() ==> attachment_valid(#[trigger] docs[i], target)
}

/// An item is valid when `id` is present as a string, at least one of
/// `content_html` and `content_text` is present, every other declared field
/// that is present holds a value of its kind, its author, its authors and
/// its attachments are valid themselves, and no undeclared key is present.
pub open spec fn item_valid(doc: Doc, target: Version<'_>) -> bool {
    &&& target.is_recognized()
    &&& has_string(doc, "id"@)
    &&& string_if_present(doc, "url"@)
    &&& string_if_present(doc, "external_url"@)
    &&& string_if_present(doc, "title"@)
    &&& string_if_present(doc, "content_html"@)
    &&& string_if_present(doc, "content_text"@)
    &&& (has_string(doc, "content_text"@) || has_string(doc, "content_html"@))
    &&& string_if_present(doc, "summary"@)
    &&& string_if_present(doc, "image"@)
    &&& string_if_present(doc, "banner_image"@)
    &&& string_if_present(doc, "date_published"@)
    &&& string_if_present(doc, "date_modified"@)
    &&& string_if_present(doc, "language"@)
    &&& !(strings_at(doc, "tags"@) is Mismatch)
    &&& match object_at(doc, "author"@) {
        Lookup::Absent => true,
        Lookup::Mismatch => false,
        Lookup::Present(author) => author_valid(author, target),
    }
    &&& match objects_at(doc, "authors"@) {
        Lookup::Absent => true,
        Lookup::Mismatch => false,
        Lookup::Present(authors) => authors_valid(authors, target),
    }
    &&& match objects_at(doc, "attachments"@) {
        Lookup::Absent => true,
        Lookup::Mismatch => false,
        Lookup::Present(attachments) => attachments_valid(attachments, target),
    }
    &&& keys_permitted(doc, item_keys(target))
}

/// Every document of the run is a valid item.
pub open spec fn items_valid(docs: Seq<Doc>, target: Version<'_>) -> bool {
    forall|i: int| 0 <= i < docs.len() ==> item_valid(#[trigger] docs[i], target)
}

/// Every document of the run holds no key that is undeclared for an author.
pub open spec fn authors_keys_permitted(docs: Seq<Doc>) -> bool {
    forall|i: int| 0 <= i < docs.len() ==> keys_permitted(#[trigger] docs[i], author_keys())
}

/// A feed is valid when its `version` is a string that is compatible with
/// the target, `title` is present as a string, `items` is present and every
/// item is valid, every hub is valid, its author and each of its authors is
/// an object without undeclared keys, every other declared field that is
/// present holds a value of its kind, and no undeclared key is present.
pub open spec fn feed_valid(doc: Doc, target: Version<'_>) -> bool {
    &&& target.is_recognized()
    &&& match string_at(doc, "version"@) {
        Lookup::Present(declared) => version_compatible(declared, target),
        _ => false,
    }
    &&& has_string(doc, "title"@)
    &&& match objects_at(doc, "items"@) {
        Lookup::Present(items) => items_valid(items, target),
        _ => false,
    }
    &&& match objects_at(doc, "hubs"@) {
        Lookup::Absent => true,
        Lookup::Mismatch => false,
        Lookup::Present(hubs) => hubs_valid(hubs, target),
    }
    &&& string_if_present(doc, "home_page_url"@)
    &&& string_if_present(doc, "feed_url"@)
    &&& string_if_present(doc, "description"@)
    &&& string_if_present(doc, "user_comment"@)
    &&& string_if_present(doc, "next_url"@)
    &&& string_if_present(doc, "icon"@)
    &&& string_if_present(doc, "favicon"@)
    &&& string_if_present(doc, "language"@)
    &&& match object_at(doc, "author"@) {
        Lookup::Absent => true,
        Lookup::Mismatch => false,
        Lookup::Present(author) => keys_permitted(author, author_keys()),
    }
    &&& match objects_at(doc, "authors"@) {
        Lookup::Absent => true,
        Lookup::Mismatch => false,
        Lookup::Present(authors) => authors_keys_permitted(authors),
    }
    &&& !(bool_at(doc, "expired"@) is Mismatch)
    &&& keys_permitted(doc, feed_keys(target))
}

/// Whether `key` is an extension key.
pub fn is_extension_key(key: &str) -> (r: bool)
    ensures
        r == is_extension(key@),
{
    !key.is_empty() && key.get_char(0) == '_'
}

/// Whether `key` is one of `valid_keys`.
fn is_listed(valid_keys: &Vec<&str>, key: &str) -> (r: bool)
    ensures
        r == texts_of(valid_keys@).contains(key@),
{
    let mut i: usize = 0;
    while i < valid_keys.len()
        invariant
            i <= valid_keys.len(),
            forall|j: int| 0 <= j < i ==> texts_of(valid_keys@)[j] != key@,
        decreases valid_keys.len() - i,
    {
        if same_text(valid_keys[i], key) {
            assert(texts_of(valid_keys@)[i as int] == key@);
            return true;
        }
        i += 1;
    }
    false
}

/// Whether each of `keys` is one of `valid_keys` or an extension key.
pub fn are_keys_valid(keys: &Vec<&String>, valid_keys: &Vec<&str>) -> (ok: bool)
    ensures
        ok == forall|i: int|
            0 <= i < keys@.len() ==> key_allowed(texts_of(valid_keys@), #[trigger] keys@[i]@),
{
    let mut i: usize = 0;
    while i < keys.len()
        invariant
            i <= keys.len(),
            forall|j: int|
                0 <= j < i ==> key_allowed(texts_of(valid_keys@), #[trigger] keys@[j]@),
        decreases keys.len() - i,
    {
        let key: &str = keys[i].as_str();
        if !(is_listed(valid_keys, key) || is_extension_key(key)) {
            return false;
        }
        i += 1;
    }
    true
}

/// Whether every key of `map` is one of `valid_keys` or an extension key.
fn has_only_valid_keys(map: &JsonMap, valid_keys: &Vec<&str>) -> (ok: bool)
    ensures
        ok == keys_permitted(doc_of(*map), texts_of(valid_keys@)),
{
    let keys = map_keys(map);
    let ok = are_keys_valid(&keys, valid_keys);
    proof {
        let doc = doc_of(*map);
        let declared = texts_of(valid_keys@);
        if ok {
            assert forall|k: Seq<char>| #[trigger] doc.contains_key(k) implies key_allowed(
                declared,
                k,
            ) by {
                let i = choose|i: int| 0 <= i < keys@.len() && keys@[i]@ == k;
                assert(key_allowed(declared, keys@[i]@));
            }
        } else {
            let i = choose|i: int| 0 <= i < keys@.len() && !key_allowed(declared, keys@[i]@);
            assert(doc.contains_key(keys@[i]@));
        }
    }
    ok
}

/// Whether a read found the key with a value of its kind.
fn is_present<T>(r: &Result<Option<T>, Error>) -> (b: bool)
    ensures
        b == (r matches Ok(Some(_))),
{
    match r {
        Ok(Some(_)) => true,
        _ => false,
    }
}

/// The keys declared for an author, as a list to test against.
fn author_valid_keys() -> (valid_keys: Vec<&'static str>)
    ensures
        texts_of(valid_keys@) == author_keys(),
{
    let mut valid_keys: Vec<&'static str> = Vec::new();
    valid_keys.push("name");
    valid_keys.push("avatar");
    valid_keys.push("url");
    assert(texts_of(valid_keys@) =~= author_keys());
    valid_keys
}

/// Decides [`author_valid`].
pub fn is_valid_author(map: &JsonMap, version: &Version<'_>) -> (ok: bool)
    ensures
        ok == author_valid(doc_of(*map), *version),
{
    match version {
        Version::Unknown(_) => {
            return false;
        },
        Version::Version1 | Version::Version1_1 => {},
    }
    let valid_keys = author_valid_keys();

    let name_result = get_str(map, "name");
    let avatar_result = get_str(map, "avatar");
    let url_result = get_str(map, "url");

    name_result.is_ok() && avatar_result.is_ok() && url_result.is_ok()
        && (is_present(&name_result) || is_present(&avatar_result) || is_present(&url_result))
        && has_only_valid_keys(map, &valid_keys)
}

/// Decides [`hub_valid`].
pub fn is_valid_hub(map: &JsonMap, version: &Version<'_>) -> (ok: bool)
    ensures
        ok == hub_valid(doc_of(*map), *version),
{
    match version {
        Version::Unknown(_) => {
            return false;
        },
        Version::Version1 | Version::Version1_1 => {},
    }
    let mut valid_keys: Vec<&str> = Vec::new();
    valid_keys.push("type");
    valid_keys.push("url");
    assert(texts_of(valid_keys@) =~= hub_keys());

    is_present(&get_str(map, "url")) && is_present(&get_str(map, "type"))
        && has_only_valid_keys(map, &valid_keys)
}

/// Decides [`attachment_valid`].
pub fn is_valid_attachment(map: &JsonMap, version: &Version<'_>) -> (ok: bool)
    ensures
        ok == attachment_valid(doc_of(*map), *version),
{
    match version {
        Version::Unknown(_) => {
            return false;
        },
        Version::Version1 | Version::Version1_1 => {},
    }
    let mut valid_keys: Vec<&str> = Vec::new();
    valid_keys.push("url");
    valid_keys.push("mime_type");
    valid_keys.push("title");
    valid_keys.push("size_in_bytes");
    valid_keys.push("duration_in_seconds");
    assert(texts_of(valid_keys@) =~= attachment_keys());

    is_present(&get_str(map, "url")) && is_present(&get_str(map, "mime_type"))
        && get_str(map, "title").is_ok()
        && get_u64(map, "size_in_bytes").is_ok()
        && get_u64(map, "duration_in_seconds").is_ok()
        && has_only_valid_keys(map, &valid_keys)
}

/// Whether every one of `maps` is a valid author.
fn are_valid_authors(maps: &Vec<&JsonMap>, version: &Version<'_>) -> (ok: bool)
    ensures
        ok == authors_valid(ref_docs(maps@), *version),
{
    let mut i: usize = 0;
    while i < maps.len()
        invariant
            i <= maps.len(),
            forall|j: int| 0 <= j < i ==> author_valid(#[trigger] ref_docs(maps@)[j], *version),
        decreases maps.len() - i,
    {
        if !is_valid_author(maps[i], version) {
            assert(!author_valid(ref_docs(maps@)[i as int], *version));
            return false;
        }
        i += 1;
    }
    true
}

/// Whether none of `maps` holds a key that is undeclared for an author.
fn have_author_keys_only(maps: &Vec<&JsonMap>) -> (ok: bool)
    ensures
        ok == authors_keys_permitted(ref_docs(maps@)),
{
    let valid_keys = author_valid_keys();
    let mut i: usize = 0;
    while i < maps.len()
        invariant
            i <= maps.len(),
            texts_of(valid_keys@) == author_keys(),
            forall|j: int|
                0 <= j < i ==> keys_permitted(#[trigger] ref_docs(maps@)[j], author_keys()),
        decreases maps.len() - i,
    {
        if !has_only_valid_keys(maps[i], &valid_keys) {
            assert(!keys_permitted(ref_docs(maps@)[i as int], author_keys()));
            return false;
        }
        i += 1;
    }
    true
}

/// Whether every one of `maps` is a valid hub.
fn are_valid_hubs(maps: &Vec<&JsonMap>, version: &Version<'_>) -> (ok: bool)
    ensures
        ok == hubs_valid(ref_docs(maps@), *version),
{
    let mut i: usize = 0;
    while i < maps.len()
        invariant
            i <= maps.len(),
            forall|j: int| 0 <= j < i ==> hub_valid(#[trigger] ref_docs(maps@)[j], *version),
        decreases maps.len() - i,
    {
        if !is_valid_hub(maps[i], version) {
            assert(!hub_valid(ref_docs(maps@)[i as int], *version));
            return false;
        }
        i += 1;
    }
    true
}

/// Whether every one of `maps` is a valid attachment.
fn are_valid_attachments(maps: &Vec<&JsonMap>, version: &Version<'_>) -> (ok: bool)
    ensures
        ok == attachments_valid(ref_docs(maps@), *version),
{
    let mut i: usize = 0;
    while i < maps.len()
        invariant
            i <= maps.len(),
            forall|j: int|
                0 <= j < i ==> attachment_valid(#[trigger] ref_docs(maps@)[j], *version),
        decreases maps.len() - i,
    {
        if !is_valid_attachment(maps[i], version) {
            assert(!attachment_valid(ref_docs(maps@)[i as int], *version));
            return false;
        }
        i += 1;
    }
    true
}

/// Whether every one of `maps` is a valid item.
fn are_valid_items(maps: &Vec<&JsonMap>, version: &Version<'_>) -> (ok: bool)
    ensures
        ok == items_valid(ref_docs(maps@), *version),
{
    let mut i: usize = 0;
    while i < maps.len()
        invariant
            i <= maps.len(),
            forall|j: int| 0 <= j < i ==> item_valid(#[trigger] ref_docs(maps@)[j], *version),
        decreases maps.len() - i,
    {
        if !is_valid_item(maps[i], version) {
            assert(!item_valid(ref_docs(maps@)[i as int], *version));
            return false;
        }
        i += 1;
    }
    true
}

/// The keys declared for an item under `version`, as a list to test against.
fn item_valid_keys(version: &Version<'_>) -> (valid_keys: Vec<&'static str>)
    ensures
        texts_of(valid_keys@) == item_keys(*version),
{
    let mut valid_keys: Vec<&'static str> = Vec::new();
    valid_keys.push("id");
    valid_keys.push("url");
    valid_keys.push("external_url");
    valid_keys.push("title");
    valid_keys.push("content_html");
    valid_keys.push("content_text");
    valid_keys.push("summary");
    valid_keys.push("image");
    valid_keys.push("banner_image");
    valid_keys.push("date_published");
    valid_keys.push("date_modified");
    valid_keys.push("author");
    valid_keys.push("tags");
    valid_keys.push("attachments");
    match version {
        Version::Version1_1 => {
            valid_keys.push("authors");
            valid_keys.push("language");
        },
        Version::Version1 | Version::Unknown(_) => {},
    }
    assert(texts_of(valid_keys@) =~= item_keys(*version));
    valid_keys
}

/// The keys declared for a feed under `version`, as a list to test against.
fn feed_valid_keys(version: &Version<'_>) -> (valid_keys: Vec<&'static str>)
    ensures
        texts_of(valid_keys@) == feed_keys(*version),
{
    let mut valid_keys: Vec<&'static str> = Vec::new();
    valid_keys.push("version");
    valid_keys.push("title");
    valid_keys.push("home_page_url");
    valid_keys.push("feed_url");
    valid_keys.push("description");
    valid_keys.push("user_comment");
    valid_keys.push("next_url");
    valid_keys.push("icon");
    valid_keys.push("favicon");
    valid_keys.push("author");
    valid_keys.push("expired");
    valid_keys.push("hubs");
    valid_keys.push("items");
    match version {
        Version::Version1_1 => {
            valid_keys.push("authors");
            valid_keys.push("language");
        },
        Version::Version1 | Version::Unknown(_) => {},
    }
    assert(texts_of(valid_keys@) =~= feed_keys(*version));
    valid_keys
}

/// Decides [`item_valid`].
pub fn is_valid_item(map: &JsonMap, version: &Version<'_>) -> (ok: bool)
    ensures
        ok == item_valid(doc_of(*map), *version),
{
    match version {
        Version::Unknown(_) => {
            return false;
        },
        Version::Version1 | Version::Version1_1 => {},
    }
    let valid_keys = item_valid_keys(version);

    let content_html_result = get_str(map, "content_html");
    let content_text_result = get_str(map, "content_text");

    let author_ok = match get_object(map, "author") {
        Ok(None) => true,
        Ok(Some(author)) => is_valid_author(author, version),
        Err(_) => false,
    };
    let authors_ok = match get_object_array(map, "authors") {
        Ok(None) => true,
        Ok(Some(authors)) => are_valid_authors(&authors, version),
        Err(_) => false,
    };
    let attachments_ok = match get_object_array(map, "attachments") {
        Ok(None) => true,
        Ok(Some(attachments)) => are_valid_attachments(&attachments, version),
        Err(_) => false,
    };

    is_present(&get_str(map, "id")) && author_ok && authors_ok && attachments_ok
        && get_str(map, "url").is_ok()
        && get_str(map, "external_url").is_ok()
        && get_str(map, "title").is_ok()
        && content_html_result.is_ok()
        && content_text_result.is_ok()
        && (is_present(&content_text_result) || is_present(&content_html_result))
        && get_str(map, "summary").is_ok()
        && get_str(map, "image").is_ok()
        && get_str(map, "banner_image").is_ok()
        && get_str(map, "date_published").is_ok()
        && get_str(map, "date_modified").is_ok()
        && get_str_array(map, "tags").is_ok()
        && get_str(map, "language").is_ok()
        && has_only_valid_keys(map, &valid_keys)
}

/// Decides [`feed_valid`].
pub fn is_valid_feed(map: &JsonMap, version: &Version<'_>) -> (ok: bool)
    ensures
        ok == feed_valid(doc_of(*map), *version),
{
    match version {
        Version::Unknown(_) => {
            return false;
        },
        Version::Version1 | Version::Version1_1 => {},
    }
    let valid_keys = feed_valid_keys(version);

    let version_ok = match get_str(map, "version") {
        Ok(Some(declared)) => is_compatible(declared, version),
        _ => false,
    };
    let items_ok = match get_object_array(map, "items") {
        Ok(Some(items)) => are_valid_items(&items, version),
        _ => false,
    };
    let hubs_ok = match get_object_array(map, "hubs") {
        Ok(None) => true,
        Ok(Some(hubs)) => are_valid_hubs(&hubs, version),
        Err(_) => false,
    };
    let author_ok = match get_object(map, "author") {
        Ok(None) => true,
        Ok(Some(author)) => has_only_valid_keys(author, &author_valid_keys()),
        Err(_) => false,
    };
    let authors_ok = match get_object_array(map, "authors") {
        Ok(None) => true,
        Ok(Some(authors)) => have_author_keys_only(&authors),
        Err(_) => false,
    };

    version_ok && is_present(&get_str(map, "title")) && items_ok && hubs_ok
        && get_str(map, "home_page_url").is_ok()
        && get_str(map, "feed_url").is_ok()
        && get_str(map, "description").is_ok()
        && get_str(map, "user_comment").is_ok()
        && get_str(map, "next_url").is_ok()
        && get_str(map, "icon").is_ok()
        && get_str(map, "favicon").is_ok()
        && author_ok
        && authors_ok
        && get_str(map, "language").is_ok()
        && get_bool(map, "expired").is_ok()
        && has_only_valid_keys(map, &valid_keys)
}

} // verus!

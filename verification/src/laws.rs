//! What holds of reading, writing and validating, for every document.
//!
//! The contracts of the accessors say what each call does to the document;
//! the contracts of `is_valid` say that it decides the validity defined in
//! [`crate::validate`]. The lemmas here are stated over those same
//! definitions, so each of them is a fact about every run of the functions.

use crate::field::{
    bool_at, object_array, object_at, objects_at, objects_of, string_array, string_at,
    strings_at, strings_of, u64_at, Lookup,
};
use crate::json::{Doc, Json, JsonNumber};
use crate::validate::{
    attachment_keys, attachment_valid, attachments_valid, author_keys, author_valid,
    authors_keys_permitted, authors_valid, feed_keys, feed_valid, has_string, hub_keys,
    hub_valid, hubs_valid, is_extension, item_keys, item_valid, items_valid, key_allowed,
    keys_permitted,
};
use crate::version::{
    lemma_identifiers_differ, version_compatible, Version, VERSION_1, VERSION_1_1,
};
use crate::spelling::lemma_key_shapes;
use vstd::prelude::*;

verus! {

/// After a key is removed, reading it finds nothing, whatever kind is asked
/// for.
pub proof fn lemma_remove_then_get(doc: Doc, key: Seq<char>)
    ensures
        string_at(doc.remove(key), key) is Absent,
        strings_at(doc.remove(key), key) is Absent,
        bool_at(doc.remove(key), key) is Absent,
        u64_at(doc.remove(key), key) is Absent,
        object_at(doc.remove(key), key) is Absent,
        objects_at(doc.remove(key), key) is Absent,
{
}

/// After a string, a boolean or an unsigned integer is stored under a key,
/// reading the key as that kind finds the value that was stored.
pub proof fn lemma_set_then_get_scalar(
    doc: Doc,
    key: Seq<char>,
    text: Seq<char>,
    flag: bool,
    n: u64,
)
    ensures
        string_at(doc.insert(key, Json::String(text)), key) == Lookup::Present(text),
        bool_at(doc.insert(key, Json::Bool(flag)), key) == Lookup::Present(flag),
        u64_at(doc.insert(key, Json::Number(JsonNumber::PosInt(n))), key) == Lookup::Present(n),
{
}

/// After an array of strings, a nested object or an array of nested objects
/// is stored under a key, reading the key as that kind finds what was stored.
pub proof fn lemma_set_then_get_nested(
    doc: Doc,
    key: Seq<char>,
    texts: Seq<Seq<char>>,
    object: Doc,
    objects: Seq<Doc>,
)
    ensures
        strings_at(doc.insert(key, string_array(texts)), key) == Lookup::Present(texts),
        object_at(doc.insert(key, Json::Object(object)), key) == Lookup::Present(object),
        objects_at(doc.insert(key, object_array(objects)), key) == Lookup::Present(objects),
{
    assert(strings_of(string_array(texts)->Array_0) =~= texts);
    assert(objects_of(object_array(objects)->Array_0) =~= objects);
}

/// Writing or removing one key leaves what every other key reads as.
pub proof fn lemma_other_keys_untouched(doc: Doc, key: Seq<char>, value: Json, other: Seq<char>)
    requires
        other != key,
    ensures
        string_at(doc.insert(key, value), other) == string_at(doc, other),
        strings_at(doc.insert(key, value), other) == strings_at(doc, other),
        bool_at(doc.insert(key, value), other) == bool_at(doc, other),
        u64_at(doc.insert(key, value), other) == u64_at(doc, other),
        object_at(doc.insert(key, value), other) == object_at(doc, other),
        objects_at(doc.insert(key, value), other) == objects_at(doc, other),
        string_at(doc.remove(key), other) == string_at(doc, other),
        strings_at(doc.remove(key), other) == strings_at(doc, other),
        bool_at(doc.remove(key), other) == bool_at(doc, other),
        u64_at(doc.remove(key), other) == u64_at(doc, other),
        object_at(doc.remove(key), other) == object_at(doc, other),
        objects_at(doc.remove(key), other) == objects_at(doc, other),
{
}

/// Nothing is valid for a target that is not one of the two known revisions.
pub proof fn lemma_unknown_target_validates_nothing(doc: Doc, target: Version<'_>)
    requires
        target is Unknown,
    ensures
        !feed_valid(doc, target),
        !item_valid(doc, target),
        !author_valid(doc, target),
        !hub_valid(doc, target),
        !attachment_valid(doc, target),
{
}

/// The version gate by itself: the earlier identifier passes for both
/// revisions, the later identifier passes for the later revision only, and
/// any other text passes for no target.
pub proof fn lemma_version_gate(declared: Seq<char>, target: Version<'_>)
    ensures
        version_compatible(VERSION_1@, Version::Version1),
        version_compatible(VERSION_1@, Version::Version1_1),
        version_compatible(VERSION_1_1@, Version::Version1_1),
        !version_compatible(VERSION_1_1@, Version::Version1),
        declared != VERSION_1@ && declared != VERSION_1_1@ ==> !version_compatible(
            declared,
            target,
        ),
{
    lemma_identifiers_differ();
}

/// A feed that declares the later revision is not valid for the earlier one,
/// whatever else it holds.
pub proof fn lemma_later_feed_fails_earlier_target(doc: Doc)
    requires
        string_at(doc, "version"@) == Lookup::Present(VERSION_1_1@),
    ensures
        !feed_valid(doc, Version::Version1),
{
    lemma_identifiers_differ();
}

/// A feed whose `version` is missing, is no string, or names neither known
/// revision is valid for no target.
pub proof fn lemma_undeclared_version_never_valid(doc: Doc, target: Version<'_>)
    requires
        string_at(doc, "version"@) != Lookup::Present(VERSION_1@),
        string_at(doc, "version"@) != Lookup::Present(VERSION_1_1@),
    ensures
        !feed_valid(doc, target),
{
}

/// Whatever is declared for the earlier revision is declared for the later.
proof fn lemma_keys_grow(doc: Doc, earlier: Seq<Seq<char>>, later: Seq<Seq<char>>)
    requires
        keys_permitted(doc, earlier),
        forall|k: Seq<char>| earlier.contains(k) ==> later.contains(k),
    ensures
        keys_permitted(doc, later),
{
    assert forall|k: Seq<char>| #[trigger] doc.contains_key(k) implies key_allowed(later, k) by {
        assert(key_allowed(earlier, k));
    }
}

/// An item that is valid for the earlier revision is valid for the later.
pub proof fn lemma_item_valid_for_later(doc: Doc)
    requires
        item_valid(doc, Version::Version1),
    ensures
        item_valid(doc, Version::Version1_1),
{
    let earlier = item_keys(Version::Version1);
    let later = item_keys(Version::Version1_1);
    assert forall|k: Seq<char>| earlier.contains(k) implies later.contains(k) by {
        let i = choose|i: int| 0 <= i < earlier.len() && earlier[i] == k;
        assert(later[i] == k);
    }
    lemma_keys_grow(doc, earlier, later);
    match objects_at(doc, "authors"@) {
        Lookup::Present(authors) => {
            assert forall|i: int| 0 <= i < authors.len() implies author_valid(
                #[trigger] authors[i],
                Version::Version1_1,
            ) by {
                assert(author_valid(authors[i], Version::Version1));
            }
        },
        _ => {},
    }
    match objects_at(doc, "attachments"@) {
        Lookup::Present(attachments) => {
            assert forall|i: int| 0 <= i < attachments.len() implies attachment_valid(
                #[trigger] attachments[i],
                Version::Version1_1,
            ) by {
                assert(attachment_valid(attachments[i], Version::Version1));
            }
        },
        _ => {},
    }
}

/// A feed that is valid for the earlier revision is valid for the later: a
/// feed of the earlier revision validates against both targets as soon as it
/// validates against its own.
pub proof fn lemma_feed_valid_for_later(doc: Doc)
    requires
        feed_valid(doc, Version::Version1),
    ensures
        feed_valid(doc, Version::Version1_1),
{
    let earlier = feed_keys(Version::Version1);
    let later = feed_keys(Version::Version1_1);
    assert forall|k: Seq<char>| earlier.contains(k) implies later.contains(k) by {
        let i = choose|i: int| 0 <= i < earlier.len() && earlier[i] == k;
        assert(later[i] == k);
    }
    lemma_keys_grow(doc, earlier, later);
    let items = objects_at(doc, "items"@)->Present_0;
    assert forall|i: int| 0 <= i < items.len() implies item_valid(
        #[trigger] items[i],
        Version::Version1_1,
    ) by {
        lemma_item_valid_for_later(items[i]);
    }
    match objects_at(doc, "hubs"@) {
        Lookup::Present(hubs) => {
            assert forall|i: int| 0 <= i < hubs.len() implies hub_valid(
                #[trigger] hubs[i],
                Version::Version1_1,
            ) by {
                assert(hub_valid(hubs[i], Version::Version1));
            }
        },
        _ => {},
    }
}

/// Whether a document holds one of the keys that only the later revision
/// declares.
pub open spec fn uses_later_keys(doc: Doc) -> bool {
    doc.contains_key("authors"@) || doc.contains_key("language"@)
}

/// Whatever is permitted under the later revision and is none of its own
/// keys is permitted under the earlier.
proof fn lemma_keys_shrink(doc: Doc, earlier: Seq<Seq<char>>, later: Seq<Seq<char>>)
    requires
        keys_permitted(doc, later),
        !uses_later_keys(doc),
        later == earlier + seq!["authors"@, "language"@],
    ensures
        keys_permitted(doc, earlier),
{
    assert forall|k: Seq<char>| #[trigger] doc.contains_key(k) implies key_allowed(earlier, k) by {
        assert(key_allowed(later, k));
        if later.contains(k) {
            let i = choose|i: int| 0 <= i < later.len() && later[i] == k;
            let n = earlier.len() as int;
            assert(later[n] == "authors"@);
            assert(later[n + 1] == "language"@);
            assert(earlier[i] == k);
        }
    }
}

/// An item that is valid for the later revision and holds none of its own
/// keys is valid for the earlier.
pub proof fn lemma_item_valid_for_earlier(doc: Doc)
    requires
        item_valid(doc, Version::Version1_1),
        !uses_later_keys(doc),
    ensures
        item_valid(doc, Version::Version1),
{
    assert(item_keys(Version::Version1) + seq!["authors"@, "language"@] =~= item_keys(
        Version::Version1_1,
    ));
    lemma_keys_shrink(doc, item_keys(Version::Version1), item_keys(Version::Version1_1));
    match objects_at(doc, "attachments"@) {
        Lookup::Present(attachments) => {
            assert forall|i: int| 0 <= i < attachments.len() implies attachment_valid(
                #[trigger] attachments[i],
                Version::Version1,
            ) by {
                assert(attachment_valid(attachments[i], Version::Version1_1));
            }
        },
        _ => {},
    }
}

/// A feed that declares the earlier revision validates against both targets
/// alike, unless it or one of its items holds a key that only the later
/// revision declares.
pub proof fn lemma_earlier_feed_valid_for_both(doc: Doc)
    requires
        string_at(doc, "version"@) == Lookup::Present(VERSION_1@),
        !uses_later_keys(doc),
        objects_at(doc, "items"@) matches Lookup::Present(items) ==> forall|i: int|
            0 <= i < items.len() ==> !uses_later_keys(#[trigger] items[i]),
    ensures
        feed_valid(doc, Version::Version1) == feed_valid(doc, Version::Version1_1),
{
    if feed_valid(doc, Version::Version1) {
        lemma_feed_valid_for_later(doc);
    }
    if feed_valid(doc, Version::Version1_1) {
        assert(feed_keys(Version::Version1) + seq!["authors"@, "language"@] =~= feed_keys(
            Version::Version1_1,
        ));
        lemma_keys_shrink(doc, feed_keys(Version::Version1), feed_keys(Version::Version1_1));
        let items = objects_at(doc, "items"@)->Present_0;
        assert forall|i: int| 0 <= i < items.len() implies item_valid(
            #[trigger] items[i],
            Version::Version1,
        ) by {
            lemma_item_valid_for_earlier(items[i]);
        }
        match objects_at(doc, "hubs"@) {
            Lookup::Present(hubs) => {
                assert forall|i: int| 0 <= i < hubs.len() implies hub_valid(
                    #[trigger] hubs[i],
                    Version::Version1,
                ) by {
                    assert(hub_valid(hubs[i], Version::Version1_1));
                }
            },
            _ => {},
        }
    }
}

/// A feed without `items` is valid for no target.
pub proof fn lemma_feed_without_items_invalid(doc: Doc, target: Version<'_>)
    requires
        !doc.contains_key("items"@),
    ensures
        !feed_valid(doc, target),
{
}

/// An item that has neither `content_html` nor `content_text` is valid for
/// no target, whatever else it holds.
pub proof fn lemma_item_without_content_invalid(doc: Doc, target: Version<'_>)
    requires
        !doc.contains_key("content_html"@),
        !doc.contains_key("content_text"@),
    ensures
        !item_valid(doc, target),
{
}

/// A key that is neither declared for its document nor an extension key
/// makes the document invalid, for each of the five kinds.
pub proof fn lemma_undeclared_key_invalidates(doc: Doc, key: Seq<char>, target: Version<'_>)
    requires
        doc.contains_key(key),
        !is_extension(key),
    ensures
        !feed_keys(target).contains(key) ==> !feed_valid(doc, target),
        !item_keys(target).contains(key) ==> !item_valid(doc, target),
        !author_keys().contains(key) ==> !author_valid(doc, target),
        !hub_keys().contains(key) ==> !hub_valid(doc, target),
        !attachment_keys().contains(key) ==> !attachment_valid(doc, target),
{
}

/// No key that is declared for one of the five kinds is an extension key.
pub proof fn lemma_declared_keys_are_plain(key: Seq<char>, target: Version<'_>)
    requires
        is_extension(key),
    ensures
        !author_keys().contains(key),
        !hub_keys().contains(key),
        !attachment_keys().contains(key),
        !item_keys(target).contains(key),
        !feed_keys(target).contains(key),
{
    lemma_key_shapes();
}

/// Storing or removing an extension key changes nothing about which keys
/// of a document are permitted.
proof fn lemma_extension_key_permitted(
    doc: Doc,
    key: Seq<char>,
    value: Json,
    declared: Seq<Seq<char>>,
)
    requires
        is_extension(key),
    ensures
        keys_permitted(doc.insert(key, value), declared) == keys_permitted(doc, declared),
        keys_permitted(doc.remove(key), declared) == keys_permitted(doc, declared),
{
    let stored = doc.insert(key, value);
    let removed = doc.remove(key);
    if keys_permitted(doc, declared) {
        assert forall|k: Seq<char>| #[trigger] stored.contains_key(k) implies key_allowed(
            declared,
            k,
        ) by {
            if k != key {
                assert(doc.contains_key(k));
            }
        }
        assert forall|k: Seq<char>| #[trigger] removed.contains_key(k) implies key_allowed(
            declared,
            k,
        ) by {
            assert(doc.contains_key(k));
        }
    }
    if keys_permitted(stored, declared) {
        assert forall|k: Seq<char>| #[trigger] doc.contains_key(k) implies key_allowed(
            declared,
            k,
        ) by {
            assert(stored.contains_key(k));
        }
    }
    if keys_permitted(removed, declared) {
        assert forall|k: Seq<char>| #[trigger] doc.contains_key(k) implies key_allowed(
            declared,
            k,
        ) by {
            if k != key {
                assert(removed.contains_key(k));
            }
        }
    }
}

/// An extension key never affects whether an author, a hub or an attachment
/// is valid: storing any value under it, or removing it, leaves validity as
/// it was.
pub proof fn lemma_extension_key_ignored_in_leaf(
    doc: Doc,
    key: Seq<char>,
    value: Json,
    target: Version<'_>,
)
    requires
        is_extension(key),
    ensures
        author_valid(doc.insert(key, value), target) == author_valid(doc, target),
        author_valid(doc.remove(key), target) == author_valid(doc, target),
        hub_valid(doc.insert(key, value), target) == hub_valid(doc, target),
        hub_valid(doc.remove(key), target) == hub_valid(doc, target),
        attachment_valid(doc.insert(key, value), target) == attachment_valid(doc, target),
        attachment_valid(doc.remove(key), target) == attachment_valid(doc, target),
{
    lemma_key_shapes();
    lemma_extension_key_permitted(doc, key, value, author_keys());
    lemma_extension_key_permitted(doc, key, value, hub_keys());
    lemma_extension_key_permitted(doc, key, value, attachment_keys());
}

/// An extension key never affects whether an item is valid.
pub proof fn lemma_extension_key_ignored_in_item(
    doc: Doc,
    key: Seq<char>,
    value: Json,
    target: Version<'_>,
)
    requires
        is_extension(key),
    ensures
        item_valid(doc.insert(key, value), target) == item_valid(doc, target),
        item_valid(doc.remove(key), target) == item_valid(doc, target),
{
    lemma_key_shapes();
    lemma_extension_key_permitted(doc, key, value, item_keys(target));
}

/// An extension key never affects whether a feed is valid.
pub proof fn lemma_extension_key_ignored_in_feed(
    doc: Doc,
    key: Seq<char>,
    value: Json,
    target: Version<'_>,
)
    requires
        is_extension(key),
    ensures
        feed_valid(doc.insert(key, value), target) == feed_valid(doc, target),
        feed_valid(doc.remove(key), target) == feed_valid(doc, target),
{
    lemma_key_shapes();
    lemma_extension_key_permitted(doc, key, value, feed_keys(target));
}

/// Storing a value under a key that is already present changes nothing
/// about which keys of the document are permitted.
proof fn lemma_rewrite_permitted(doc: Doc, key: Seq<char>, value: Json, declared: Seq<Seq<char>>)
    requires
        doc.contains_key(key),
    ensures
        keys_permitted(doc.insert(key, value), declared) == keys_permitted(doc, declared),
{
    let changed = doc.insert(key, value);
    if keys_permitted(doc, declared) {
        assert forall|k: Seq<char>| #[trigger] changed.contains_key(k) implies key_allowed(
            declared,
            k,
        ) by {
            assert(doc.contains_key(k));
        }
    }
    if keys_permitted(changed, declared) {
        assert forall|k: Seq<char>| #[trigger] doc.contains_key(k) implies key_allowed(
            declared,
            k,
        ) by {
            assert(changed.contains_key(k));
        }
    }
}

/// A feed depends on each of its items only through whether the item is
/// valid: putting a document that is as valid in its place leaves the feed
/// as valid as it was.
pub proof fn lemma_item_replaced_in_feed(doc: Doc, i: int, replacement: Doc, target: Version<'_>)
    requires
        objects_at(doc, "items"@) is Present,
        0 <= i < objects_at(doc, "items"@)->Present_0.len(),
        item_valid(replacement, target)
            == item_valid(objects_at(doc, "items"@)->Present_0[i], target),
    ensures
        feed_valid(
            doc.insert(
                "items"@,
                object_array(objects_at(doc, "items"@)->Present_0.update(i, replacement)),
            ),
            target,
        ) == feed_valid(doc, target),
{
    let items = objects_at(doc, "items"@)->Present_0;
    let replaced = items.update(i, replacement);
    lemma_key_shapes();
    lemma_set_then_get_nested(doc, "items"@, Seq::empty(), Map::empty(), replaced);
    lemma_rewrite_permitted(doc, "items"@, object_array(replaced), feed_keys(target));
    if items_valid(items, target) {
        assert forall|j: int| 0 <= j < replaced.len() implies item_valid(
            #[trigger] replaced[j],
            target,
        ) by {
            assert(item_valid(items[j], target));
        }
    }
    if items_valid(replaced, target) {
        assert forall|j: int| 0 <= j < items.len() implies item_valid(
            #[trigger] items[j],
            target,
        ) by {
            assert(item_valid(replaced[j], target));
        }
    }
}

/// A feed depends on each of its hubs only through whether the hub is valid.
pub proof fn lemma_hub_replaced_in_feed(doc: Doc, i: int, replacement: Doc, target: Version<'_>)
    requires
        objects_at(doc, "hubs"@) is Present,
        0 <= i < objects_at(doc, "hubs"@)->Present_0.len(),
        hub_valid(replacement, target) == hub_valid(objects_at(doc, "hubs"@)->Present_0[i], target),
    ensures
        feed_valid(
            doc.insert(
                "hubs"@,
                object_array(objects_at(doc, "hubs"@)->Present_0.update(i, replacement)),
            ),
            target,
        ) == feed_valid(doc, target),
{
    let hubs = objects_at(doc, "hubs"@)->Present_0;
    let replaced = hubs.update(i, replacement);
    lemma_key_shapes();
    lemma_set_then_get_nested(doc, "hubs"@, Seq::empty(), Map::empty(), replaced);
    lemma_rewrite_permitted(doc, "hubs"@, object_array(replaced), feed_keys(target));
    if hubs_valid(hubs, target) {
        assert forall|j: int| 0 <= j < replaced.len() implies hub_valid(
            #[trigger] replaced[j],
            target,
        ) by {
            assert(hub_valid(hubs[j], target));
        }
    }
    if hubs_valid(replaced, target) {
        assert forall|j: int| 0 <= j < hubs.len() implies hub_valid(#[trigger] hubs[j], target) by {
            assert(hub_valid(replaced[j], target));
        }
    }
}

/// A feed depends on each of its `authors` only through whether the author
/// holds an undeclared key.
pub proof fn lemma_one_of_authors_replaced_in_feed(
    doc: Doc,
    i: int,
    replacement: Doc,
    target: Version<'_>,
)
    requires
        objects_at(doc, "authors"@) is Present,
        0 <= i < objects_at(doc, "authors"@)->Present_0.len(),
        keys_permitted(replacement, author_keys())
            == keys_permitted(objects_at(doc, "authors"@)->Present_0[i], author_keys()),
    ensures
        feed_valid(
            doc.insert(
                "authors"@,
                object_array(objects_at(doc, "authors"@)->Present_0.update(i, replacement)),
            ),
            target,
        ) == feed_valid(doc, target),
{
    let authors = objects_at(doc, "authors"@)->Present_0;
    let replaced = authors.update(i, replacement);
    lemma_key_shapes();
    lemma_set_then_get_nested(doc, "authors"@, Seq::empty(), Map::empty(), replaced);
    lemma_rewrite_permitted(doc, "authors"@, object_array(replaced), feed_keys(target));
    if authors_keys_permitted(authors) {
        assert forall|j: int| 0 <= j < replaced.len() implies keys_permitted(
            #[trigger] replaced[j],
            author_keys(),
        ) by {
            assert(keys_permitted(authors[j], author_keys()));
        }
    }
    if authors_keys_permitted(replaced) {
        assert forall|j: int| 0 <= j < authors.len() implies keys_permitted(
            #[trigger] authors[j],
            author_keys(),
        ) by {
            assert(keys_permitted(replaced[j], author_keys()));
        }
    }
}

/// A feed depends on its `author` only through whether the author holds an
/// undeclared key.
pub proof fn lemma_author_replaced_in_feed(doc: Doc, replacement: Doc, target: Version<'_>)
    requires
        object_at(doc, "author"@) is Present,
        keys_permitted(replacement, author_keys())
            == keys_permitted(object_at(doc, "author"@)->Present_0, author_keys()),
    ensures
        feed_valid(doc.insert("author"@, Json::Object(replacement)), target) == feed_valid(
            doc,
            target,
        ),
{
    lemma_key_shapes();
    lemma_rewrite_permitted(doc, "author"@, Json::Object(replacement), feed_keys(target));
}

/// An item depends on each of its `authors` only through whether the author
/// is valid.
pub proof fn lemma_one_of_authors_replaced_in_item(
    doc: Doc,
    i: int,
    replacement: Doc,
    target: Version<'_>,
)
    requires
        objects_at(doc, "authors"@) is Present,
        0 <= i < objects_at(doc, "authors"@)->Present_0.len(),
        author_valid(replacement, target)
            == author_valid(objects_at(doc, "authors"@)->Present_0[i], target),
    ensures
        item_valid(
            doc.insert(
                "authors"@,
                object_array(objects_at(doc, "authors"@)->Present_0.update(i, replacement)),
            ),
            target,
        ) == item_valid(doc, target),
{
    let authors = objects_at(doc, "authors"@)->Present_0;
    let replaced = authors.update(i, replacement);
    lemma_key_shapes();
    lemma_set_then_get_nested(doc, "authors"@, Seq::empty(), Map::empty(), replaced);
    lemma_rewrite_permitted(doc, "authors"@, object_array(replaced), item_keys(target));
    if authors_valid(authors, target) {
        assert forall|j: int| 0 <= j < replaced.len() implies author_valid(
            #[trigger] replaced[j],
            target,
        ) by {
            assert(author_valid(authors[j], target));
        }
    }
    if authors_valid(replaced, target) {
        assert forall|j: int| 0 <= j < authors.len() implies author_valid(
            #[trigger] authors[j],
            target,
        ) by {
            assert(author_valid(replaced[j], target));
        }
    }
}

/// An item depends on each of its attachments only through whether the
/// attachment is valid.
pub proof fn lemma_attachment_replaced_in_item(
    doc: Doc,
    i: int,
    replacement: Doc,
    target: Version<'_>,
)
    requires
        objects_at(doc, "attachments"@) is Present,
        0 <= i < objects_at(doc, "attachments"@)->Present_0.len(),
        attachment_valid(replacement, target)
            == attachment_valid(objects_at(doc, "attachments"@)->Present_0[i], target),
    ensures
        item_valid(
            doc.insert(
                "attachments"@,
                object_array(objects_at(doc, "attachments"@)->Present_0.update(i, replacement)),
            ),
            target,
        ) == item_valid(doc, target),
{
    let attachments = objects_at(doc, "attachments"@)->Present_0;
    let replaced = attachments.update(i, replacement);
    lemma_key_shapes();
    lemma_set_then_get_nested(doc, "attachments"@, Seq::empty(), Map::empty(), replaced);
    lemma_rewrite_permitted(doc, "attachments"@, object_array(replaced), item_keys(target));
    if attachments_valid(attachments, target) {
        assert forall|j: int| 0 <= j < replaced.len() implies attachment_valid(
            #[trigger] replaced[j],
            target,
        ) by {
            assert(attachment_valid(attachments[j], target));
        }
    }
    if attachments_valid(replaced, target) {
        assert forall|j: int| 0 <= j < attachments.len() implies attachment_valid(
            #[trigger] attachments[j],
            target,
        ) by {
            assert(attachment_valid(replaced[j], target));
        }
    }
}

/// An item depends on its `author` only through whether the author is valid.
pub proof fn lemma_author_replaced_in_item(doc: Doc, replacement: Doc, target: Version<'_>)
    requires
        object_at(doc, "author"@) is Present,
        author_valid(replacement, target)
            == author_valid(object_at(doc, "author"@)->Present_0, target),
    ensures
        item_valid(doc.insert("author"@, Json::Object(replacement)), target) == item_valid(
            doc,
            target,
        ),
{
    lemma_key_shapes();
    lemma_rewrite_permitted(doc, "author"@, Json::Object(replacement), item_keys(target));
}

/// An extension key inside one item of a feed never affects whether the
/// feed is valid.
pub proof fn lemma_extension_key_ignored_in_item_of_feed(
    doc: Doc,
    i: int,
    key: Seq<char>,
    value: Json,
    target: Version<'_>,
)
    requires
        objects_at(doc, "items"@) is Present,
        0 <= i < objects_at(doc, "items"@)->Present_0.len(),
        is_extension(key),
    ensures
        ({
            let nested = objects_at(doc, "items"@)->Present_0;
            let stored = nested.update(i, nested[i].insert(key, value));
            let removed = nested.update(i, nested[i].remove(key));
            &&& feed_valid(doc.insert("items"@, object_array(stored)), target) == feed_valid(
                doc,
                target,
            )
            &&& feed_valid(doc.insert("items"@, object_array(removed)), target) == feed_valid(
                doc,
                target,
            )
        }),
{
    let nested = objects_at(doc, "items"@)->Present_0;
    lemma_extension_key_ignored_in_item(nested[i], key, value, target);
    lemma_item_replaced_in_feed(doc, i, nested[i].insert(key, value), target);
    lemma_item_replaced_in_feed(doc, i, nested[i].remove(key), target);
}

/// An extension key inside one hub of a feed never affects whether the feed
/// is valid.
pub proof fn lemma_extension_key_ignored_in_hub_of_feed(
    doc: Doc,
    i: int,
    key: Seq<char>,
    value: Json,
    target: Version<'_>,
)
    requires
        objects_at(doc, "hubs"@) is Present,
        0 <= i < objects_at(doc, "hubs"@)->Present_0.len(),
        is_extension(key),
    ensures
        ({
            let nested = objects_at(doc, "hubs"@)->Present_0;
            let stored = nested.update(i, nested[i].insert(key, value));
            let removed = nested.update(i, nested[i].remove(key));
            &&& feed_valid(doc.insert("hubs"@, object_array(stored)), target) == feed_valid(
                doc,
                target,
            )
            &&& feed_valid(doc.insert("hubs"@, object_array(removed)), target) == feed_valid(
                doc,
                target,
            )
        }),
{
    let nested = objects_at(doc, "hubs"@)->Present_0;
    lemma_extension_key_ignored_in_leaf(nested[i], key, value, target);
    lemma_hub_replaced_in_feed(doc, i, nested[i].insert(key, value), target);
    lemma_hub_replaced_in_feed(doc, i, nested[i].remove(key), target);
}

/// An extension key inside the `author` of a feed never affects whether the
/// feed is valid.
pub proof fn lemma_extension_key_ignored_in_author_of_feed(
    doc: Doc,
    key: Seq<char>,
    value: Json,
    target: Version<'_>,
)
    requires
        object_at(doc, "author"@) is Present,
        is_extension(key),
    ensures
        ({
            let nested = object_at(doc, "author"@)->Present_0;
            &&& feed_valid(doc.insert("author"@, Json::Object(nested.insert(key, value))), target)
                == feed_valid(doc, target)
            &&& feed_valid(doc.insert("author"@, Json::Object(nested.remove(key))), target)
                == feed_valid(doc, target)
        }),
{
    let nested = object_at(doc, "author"@)->Present_0;
    lemma_extension_key_permitted(nested, key, value, author_keys());
    lemma_author_replaced_in_feed(doc, nested.insert(key, value), target);
    lemma_author_replaced_in_feed(doc, nested.remove(key), target);
}

/// An extension key inside one of the `authors` of a feed never affects
/// whether the feed is valid.
pub proof fn lemma_extension_key_ignored_in_one_of_authors_of_feed(
    doc: Doc,
    i: int,
    key: Seq<char>,
    value: Json,
    target: Version<'_>,
)
    requires
        objects_at(doc, "authors"@) is Present,
        0 <= i < objects_at(doc, "authors"@)->Present_0.len(),
        is_extension(key),
    ensures
        ({
            let nested = objects_at(doc, "authors"@)->Present_0;
            let stored = nested.update(i, nested[i].insert(key, value));
            let removed = nested.update(i, nested[i].remove(key));
            &&& feed_valid(doc.insert("authors"@, object_array(stored)), target) == feed_valid(
                doc,
                target,
            )
            &&& feed_valid(doc.insert("authors"@, object_array(removed)), target) == feed_valid(
                doc,
                target,
            )
        }),
{
    let nested = objects_at(doc, "authors"@)->Present_0;
    lemma_extension_key_permitted(nested[i], key, value, author_keys());
    lemma_one_of_authors_replaced_in_feed(doc, i, nested[i].insert(key, value), target);
    lemma_one_of_authors_replaced_in_feed(doc, i, nested[i].remove(key), target);
}

/// An extension key inside the `author` of an item never affects whether
/// the item is valid.
pub proof fn lemma_extension_key_ignored_in_author_of_item(
    doc: Doc,
    key: Seq<char>,
    value: Json,
    target: Version<'_>,
)
    requires
        object_at(doc, "author"@) is Present,
        is_extension(key),
    ensures
        ({
            let nested = object_at(doc, "author"@)->Present_0;
            &&& item_valid(doc.insert("author"@, Json::Object(nested.insert(key, value))), target)
                == item_valid(doc, target)
            &&& item_valid(doc.insert("author"@, Json::Object(nested.remove(key))), target)
                == item_valid(doc, target)
        }),
{
    let nested = object_at(doc, "author"@)->Present_0;
    lemma_extension_key_ignored_in_leaf(nested, key, value, target);
    lemma_author_replaced_in_item(doc, nested.insert(key, value), target);
    lemma_author_replaced_in_item(doc, nested.remove(key), target);
}

/// An extension key inside one of the `authors` of an item never affects
/// whether the item is valid.
pub proof fn lemma_extension_key_ignored_in_one_of_authors_of_item(
    doc: Doc,
    i: int,
    key: Seq<char>,
    value: Json,
    target: Version<'_>,
)
    requires
        objects_at(doc, "authors"@) is Present,
        0 <= i < objects_at(doc, "authors"@)->Present_0.len(),
        is_extension(key),
    ensures
        ({
            let nested = objects_at(doc, "authors"@)->Present_0;
            let stored = nested.update(i, nested[i].insert(key, value));
            let removed = nested.update(i, nested[i].remove(key));
            &&& item_valid(doc.insert("authors"@, object_array(stored)), target) == item_valid(
                doc,
                target,
            )
            &&& item_valid(doc.insert("authors"@, object_array(removed)), target) == item_valid(
                doc,
                target,
            )
        }),
{
    let nested = objects_at(doc, "authors"@)->Present_0;
    lemma_extension_key_ignored_in_leaf(nested[i], key, value, target);
    lemma_one_of_authors_replaced_in_item(doc, i, nested[i].insert(key, value), target);
    lemma_one_of_authors_replaced_in_item(doc, i, nested[i].remove(key), target);
}

/// An extension key inside one attachment of an item never affects whether
/// the item is valid.
pub proof fn lemma_extension_key_ignored_in_attachment_of_item(
    doc: Doc,
    i: int,
    key: Seq<char>,
    value: Json,
    target: Version<'_>,
)
    requires
        objects_at(doc, "attachments"@) is Present,
        0 <= i < objects_at(doc, "attachments"@)->Present_0.len(),
        is_extension(key),
    ensures
        ({
            let nested = objects_at(doc, "attachments"@)->Present_0;
            let stored = nested.update(i, nested[i].insert(key, value));
            let removed = nested.update(i, nested[i].remove(key));
            &&& item_valid(doc.insert("attachments"@, object_array(stored)), target) == item_valid(
                doc,
                target,
            )
            &&& item_valid(doc.insert("attachments"@, object_array(removed)), target) == item_valid(
                doc,
                target,
            )
        }),
{
    let nested = objects_at(doc, "attachments"@)->Present_0;
    lemma_extension_key_ignored_in_leaf(nested[i], key, value, target);
    lemma_attachment_replaced_in_item(doc, i, nested[i].insert(key, value), target);
    lemma_attachment_replaced_in_item(doc, i, nested[i].remove(key), target);
}

/// A key that is neither declared for an author nor an extension key,
/// inside the `author` of a feed or inside one of its `authors`, makes the
/// feed invalid.
pub proof fn lemma_undeclared_author_key_invalidates_feed(
    doc: Doc,
    i: int,
    key: Seq<char>,
    target: Version<'_>,
)
    requires
        !key_allowed(author_keys(), key),
    ensures
        object_at(doc, "author"@) matches Lookup::Present(author) && author.contains_key(key)
            ==> !feed_valid(doc, target),
        objects_at(doc, "authors"@) matches Lookup::Present(authors) && 0 <= i < authors.len()
            && authors[i].contains_key(key) ==> !feed_valid(doc, target),
{
}

/// A feed that holds a compatible `version`, a `title`, an empty `items`
/// array, and besides these nothing but extension keys, is valid.
pub proof fn lemma_minimal_feed_valid(doc: Doc, target: Version<'_>)
    requires
        string_at(doc, "version"@) matches Lookup::Present(declared) && version_compatible(
            declared,
            target,
        ),
        has_string(doc, "title"@),
        objects_at(doc, "items"@) == Lookup::Present(Seq::<Doc>::empty()),
        forall|k: Seq<char>| #[trigger]
            doc.contains_key(k) ==> k == "version"@ || k == "title"@ || k == "items"@
                || is_extension(k),
    ensures
        feed_valid(doc, target),
{
    lemma_key_shapes();
    let declared = feed_keys(target);
    assert(declared[0] == "version"@ && declared[1] == "title"@ && declared[12] == "items"@);
    assert forall|k: Seq<char>| #[trigger] doc.contains_key(k) implies key_allowed(declared, k) by {
        if k == "version"@ {
            assert(declared[0] == k);
        } else if k == "title"@ {
            assert(declared[1] == k);
        } else if k == "items"@ {
            assert(declared[12] == k);
        }
    }
}

} // verus!

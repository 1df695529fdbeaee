//! How the declared keys are spelled.
//!
//! A string literal is opaque to the verifier until it is revealed. The
//! proofs about validity need to tell the declared keys of a kind from one
//! another and from extension keys; the length of a key with its first and
//! its last character is enough for both, and is gathered here once.

use vstd::prelude::*;

verus! {

/// The length of a key, its first character and its last.
pub(crate) open spec fn key_shape(key: Seq<char>) -> (nat, char, char) {
    (key.len(), key[0], key.last())
}

/// The shape of every declared key. Among the keys of one kind no two have
/// the same shape, so no two of them are the same text; and no declared key
/// starts with an underscore.
pub(crate) proof fn lemma_key_shapes()
    ensures
        key_shape("name"@) == (4nat, 'n', 'e'),
        key_shape("avatar"@) == (6nat, 'a', 'r'),
        key_shape("url"@) == (3nat, 'u', 'l'),
        key_shape("type"@) == (4nat, 't', 'e'),
        key_shape("mime_type"@) == (9nat, 'm', 'e'),
        key_shape("title"@) == (5nat, 't', 'e'),
        key_shape("size_in_bytes"@) == (13nat, 's', 's'),
        key_shape("duration_in_seconds"@) == (19nat, 'd', 's'),
        key_shape("id"@) == (2nat, 'i', 'd'),
        key_shape("external_url"@) == (12nat, 'e', 'l'),
        key_shape("content_html"@) == (12nat, 'c', 'l'),
        key_shape("content_text"@) == (12nat, 'c', 't'),
        key_shape("summary"@) == (7nat, 's', 'y'),
        key_shape("image"@) == (5nat, 'i', 'e'),
        key_shape("banner_image"@) == (12nat, 'b', 'e'),
        key_shape("date_published"@) == (14nat, 'd', 'd'),
        key_shape("date_modified"@) == (13nat, 'd', 'd'),
        key_shape("author"@) == (6nat, 'a', 'r'),
        key_shape("authors"@) == (7nat, 'a', 's'),
        key_shape("tags"@) == (4nat, 't', 's'),
        key_shape("language"@) == (8nat, 'l', 'e'),
        key_shape("attachments"@) == (11nat, 'a', 's'),
        key_shape("version"@) == (7nat, 'v', 'n'),
        key_shape("home_page_url"@) == (13nat, 'h', 'l'),
        key_shape("feed_url"@) == (8nat, 'f', 'l'),
        key_shape("description"@) == (11nat, 'd', 'n'),
        key_shape("user_comment"@) == (12nat, 'u', 't'),
        key_shape("next_url"@) == (8nat, 'n', 'l'),
        key_shape("icon"@) == (4nat, 'i', 'n'),
        key_shape("favicon"@) == (7nat, 'f', 'n'),
        key_shape("expired"@) == (7nat, 'e', 'd'),
        key_shape("hubs"@) == (4nat, 'h', 's'),
        key_shape("items"@) == (5nat, 'i', 's'),
{
    reveal_strlit("name");
    reveal_strlit("avatar");
    reveal_strlit("url");
    reveal_strlit("type");
    reveal_strlit("mime_type");
    reveal_strlit("title");
    reveal_strlit("size_in_bytes");
    reveal_strlit("duration_in_seconds");
    reveal_strlit("id");
    reveal_strlit("external_url");
    reveal_strlit("content_html");
    reveal_strlit("content_text");
    reveal_strlit("summary");
    reveal_strlit("image");
    reveal_strlit("banner_image");
    reveal_strlit("date_published");
    reveal_strlit("date_modified");
    reveal_strlit("author");
    reveal_strlit("authors");
    reveal_strlit("tags");
    reveal_strlit("language");
    reveal_strlit("attachments");
    reveal_strlit("version");
    reveal_strlit("home_page_url");
    reveal_strlit("feed_url");
    reveal_strlit("description");
    reveal_strlit("user_comment");
    reveal_strlit("next_url");
    reveal_strlit("icon");
    reveal_strlit("favicon");
    reveal_strlit("expired");
    reveal_strlit("hubs");
    reveal_strlit("items");
}

} // verus!

use json_feed_model::validate::{
    is_valid_attachment, is_valid_author, is_valid_feed, is_valid_hub, is_valid_item,
};
use json_feed_model::version::is_compatible;
use json_feed_model::{
    are_keys_valid, from_slice, from_str, from_value, is_extension_key, Attachment,
    AttachmentMut, AttachmentRef, Author, AuthorMut, AuthorRef, Error, Feed, FeedMut, FeedRef,
    Hub, HubMut, HubRef, Item, ItemMut, ItemRef, Version, VERSION_1, VERSION_1_1,
};
use json_feed_model::json::JsonMap;
use serde_json::Value;

const V1: &str = "https://jsonfeed.org/version/1";
const V1_1: &str = "https://jsonfeed.org/version/1.1";

fn object(text: &str) -> JsonMap {
    match serde_json::from_str(text).unwrap() {
        Value::Object(map) => map,
        other => panic!("not an object: {}", other),
    }
}

fn feed(text: &str) -> Feed {
    Feed::from(object(text))
}

fn both(doc: &Feed) -> (bool, bool) {
    (
        doc.is_valid(&Version::Version1),
        doc.is_valid(&Version::Version1_1),
    )
}

#[test]
fn version_identifiers() {
    assert_eq!(VERSION_1, V1);
    assert_eq!(VERSION_1_1, V1_1);
    assert_eq!(Version::from(V1), Version::Version1);
    assert_eq!(Version::from(V1_1), Version::Version1_1);
    assert_eq!(
        Version::from("https://jsonfeed.org/version/2"),
        Version::Unknown("https://jsonfeed.org/version/2")
    );
    assert_eq!(Version::from(""), Version::Unknown(""));
    assert_eq!(
        Version::from("https://jsonfeed.org/version/1 "),
        Version::Unknown("https://jsonfeed.org/version/1 ")
    );
    assert_eq!(Version::Version1.as_ref(), V1);
    assert_eq!(Version::Version1_1.as_ref(), V1_1);
    assert_eq!(Version::Unknown("x").as_ref(), "x");
    assert_eq!(Version::Version1.to_string(), V1);
    assert_eq!(Version::Version1_1.to_string(), V1_1);
    assert_eq!(Version::Unknown("x").to_string(), "x");
    assert_eq!(Version::Unknown("x").clone(), Version::Unknown("x"));
    assert_eq!(Version::Version1.clone(), Version::Version1);
}

#[test]
fn version_gate() {
    assert!(is_compatible(V1, &Version::Version1));
    assert!(is_compatible(V1, &Version::Version1_1));
    assert!(!is_compatible(V1_1, &Version::Version1));
    assert!(is_compatible(V1_1, &Version::Version1_1));
    assert!(!is_compatible(V1, &Version::Unknown(V1)));
    assert!(!is_compatible(V1_1, &Version::Unknown(V1_1)));
    assert!(!is_compatible("2", &Version::Version1));
    assert!(!is_compatible("2", &Version::Version1_1));
    assert!(!is_compatible("2", &Version::Unknown("2")));
}

#[test]
fn declared_version_decides_the_targets() {
    let earlier = feed(r#"{"version":"https://jsonfeed.org/version/1","title":"T","items":[]}"#);
    assert_eq!(both(&earlier), (true, true));
    let later = feed(r#"{"version":"https://jsonfeed.org/version/1.1","title":"T","items":[]}"#);
    assert_eq!(both(&later), (false, true));
    let unknown = feed(r#"{"version":"https://jsonfeed.org/version/2","title":"T","items":[]}"#);
    assert_eq!(both(&unknown), (false, false));
    let number = feed(r#"{"version":1,"title":"T","items":[]}"#);
    assert_eq!(both(&number), (false, false));
    let missing = feed(r#"{"title":"T","items":[]}"#);
    assert_eq!(both(&missing), (false, false));
}

#[test]
fn unknown_target_validates_nothing() {
    let target = Version::Unknown(V1_1);
    let doc = feed(r#"{"version":"https://jsonfeed.org/version/1.1","title":"T","items":[]}"#);
    assert!(doc.is_valid(&Version::Version1_1));
    assert!(!doc.is_valid(&target));
    assert!(!Item::from(object(r#"{"id":"1","content_text":"x"}"#)).is_valid(&target));
    assert!(!Author::from(object(r#"{"name":"A"}"#)).is_valid(&target));
    assert!(!Hub::from(object(r#"{"type":"t","url":"u"}"#)).is_valid(&target));
    assert!(!Attachment::from(object(r#"{"url":"u","mime_type":"m"}"#)).is_valid(&target));
}

#[test]
fn feed_needs_items() {
    let doc = feed(r#"{"version":"https://jsonfeed.org/version/1","title":"T"}"#);
    assert_eq!(both(&doc), (false, false));
    let doc = feed(r#"{"version":"https://jsonfeed.org/version/1","title":"T","items":null}"#);
    assert_eq!(both(&doc), (false, false));
    let doc = feed(r#"{"version":"https://jsonfeed.org/version/1","title":"T","items":[]}"#);
    assert_eq!(both(&doc), (true, true));
}

#[test]
fn feed_needs_a_title() {
    let doc = feed(r#"{"version":"https://jsonfeed.org/version/1","items":[]}"#);
    assert_eq!(both(&doc), (false, false));
    let doc = feed(r#"{"version":"https://jsonfeed.org/version/1","title":7,"items":[]}"#);
    assert_eq!(both(&doc), (false, false));
}

#[test]
fn feed_with_an_invalid_item_is_invalid() {
    let doc = feed(
        r#"{"version":"https://jsonfeed.org/version/1","title":"T",
            "items":[{"id":"1","content_text":"x"},{"id":"2"}]}"#,
    );
    assert_eq!(both(&doc), (false, false));
    let doc = feed(
        r#"{"version":"https://jsonfeed.org/version/1","title":"T",
            "items":[{"id":"1","content_text":"x"},{"id":"2","content_html":"y"}]}"#,
    );
    assert_eq!(both(&doc), (true, true));
}

#[test]
fn feed_with_an_invalid_hub_is_invalid() {
    let doc = feed(
        r#"{"version":"https://jsonfeed.org/version/1","title":"T","items":[],
            "hubs":[{"type":"t","url":"u"}]}"#,
    );
    assert_eq!(both(&doc), (true, true));
    let doc = feed(
        r#"{"version":"https://jsonfeed.org/version/1","title":"T","items":[],
            "hubs":[{"type":"t","url":"u"},{"type":"t"}]}"#,
    );
    assert_eq!(both(&doc), (false, false));
    let doc = feed(
        r#"{"version":"https://jsonfeed.org/version/1","title":"T","items":[],"hubs":{}}"#,
    );
    assert_eq!(both(&doc), (false, false));
}

#[test]
fn feed_optional_fields_must_have_their_kind() {
    for field in [
        r#""home_page_url":1"#,
        r#""feed_url":1"#,
        r#""description":1"#,
        r#""user_comment":1"#,
        r#""next_url":1"#,
        r#""icon":1"#,
        r#""favicon":1"#,
        r#""language":1"#,
        r#""author":"A""#,
        r#""authors":{"name":"A"}"#,
        r#""authors":["A"]"#,
        r#""expired":"no""#,
    ] {
        let text = format!(
            r#"{{"version":"https://jsonfeed.org/version/1.1","title":"T","items":[],{}}}"#,
            field
        );
        assert!(!feed(&text).is_valid(&Version::Version1_1));
    }
    let full = feed(
        r#"{"version":"https://jsonfeed.org/version/1.1","title":"T","items":[],
            "home_page_url":"a","feed_url":"b","description":"c","user_comment":"d",
            "next_url":"e","icon":"f","favicon":"g","language":"en","author":{"name":"A"},
            "authors":[{"name":"A"}],"expired":false,"hubs":[]}"#,
    );
    assert_eq!(both(&full), (false, true));
}

#[test]
fn feed_author_needs_no_field_of_its_own() {
    let doc = feed(
        r#"{"version":"https://jsonfeed.org/version/1","title":"T","items":[],"author":{}}"#,
    );
    assert_eq!(both(&doc), (true, true));
    let doc = feed(
        r#"{"version":"https://jsonfeed.org/version/1.1","title":"T","items":[],"authors":[{},{}]}"#,
    );
    assert_eq!(both(&doc), (false, true));
}

#[test]
fn undeclared_key_in_the_author_of_a_feed_invalidates_the_feed() {
    let doc = feed(
        r#"{"version":"https://jsonfeed.org/version/1.1","title":"T",
            "author":{"name":"A","foo":1},"items":[]}"#,
    );
    assert_eq!(both(&doc), (false, false));
    assert!(!json_feed_model::FeedRef::from(doc.as_map()).is_valid(&Version::Version1_1));
    let doc = feed(
        r#"{"version":"https://jsonfeed.org/version/1","title":"T",
            "author":{"foo":1},"items":[]}"#,
    );
    assert_eq!(both(&doc), (false, false));
    let doc = feed(
        r#"{"version":"https://jsonfeed.org/version/1","title":"T",
            "author":{"name":"A"},"items":[]}"#,
    );
    assert_eq!(both(&doc), (true, true));
    let doc = feed(
        r#"{"version":"https://jsonfeed.org/version/1","title":"T",
            "author":{"name":"A","_foo":1},"items":[]}"#,
    );
    assert_eq!(both(&doc), (true, true));
}

#[test]
fn undeclared_key_in_one_of_the_authors_of_a_feed_invalidates_the_feed() {
    let doc = feed(
        r#"{"version":"https://jsonfeed.org/version/1.1","title":"T",
            "authors":[{"foo":1}],"items":[]}"#,
    );
    assert_eq!(both(&doc), (false, false));
    let doc = feed(
        r#"{"version":"https://jsonfeed.org/version/1.1","title":"T",
            "authors":[{"name":"A"},{"url":"u","foo":1},{"avatar":"a"}],"items":[]}"#,
    );
    assert_eq!(both(&doc), (false, false));
    let doc = feed(
        r#"{"version":"https://jsonfeed.org/version/1.1","title":"T",
            "authors":[{"name":"A"},{"url":"u","_foo":1},{"avatar":"a"}],"items":[]}"#,
    );
    assert_eq!(both(&doc), (false, true));
    let doc = feed(
        r#"{"version":"https://jsonfeed.org/version/1.1","title":"T","authors":[],"items":[]}"#,
    );
    assert_eq!(both(&doc), (false, true));
}

#[test]
fn later_keys_are_undeclared_for_the_earlier_target() {
    let doc = feed(
        r#"{"version":"https://jsonfeed.org/version/1","title":"T","items":[],"language":"en"}"#,
    );
    assert_eq!(both(&doc), (false, true));
    let doc = feed(
        r#"{"version":"https://jsonfeed.org/version/1","title":"T","items":[],"authors":[]}"#,
    );
    assert_eq!(both(&doc), (false, true));
    let doc = feed(
        r#"{"version":"https://jsonfeed.org/version/1","title":"T",
            "items":[{"id":"1","content_text":"x","language":"en"}]}"#,
    );
    assert_eq!(both(&doc), (false, true));
    let item = Item::from(object(r#"{"id":"1","content_text":"x","authors":[{"name":"A"}]}"#));
    assert!(!item.is_valid(&Version::Version1));
    assert!(item.is_valid(&Version::Version1_1));
}

#[test]
fn extension_keys_never_matter() {
    let plain = r#"{"version":"https://jsonfeed.org/version/1","title":"T",
        "author":{"name":"A"},
        "items":[{"id":"1","content_text":"x","author":{"name":"A"},
                  "attachments":[{"url":"u","mime_type":"m"}]}],
        "hubs":[{"type":"t","url":"u"}]}"#;
    let extended = r#"{"version":"https://jsonfeed.org/version/1","title":"T","_foo":{"a":[1]},
        "author":{"name":"A","_foo":[]},
        "items":[{"id":"1","content_text":"x","_foo":1,"author":{"name":"A","_foo":null},
                  "attachments":[{"url":"u","mime_type":"m","_foo":"x"}]}],
        "hubs":[{"type":"t","url":"u","_foo":true}]}"#;
    assert_eq!(both(&feed(plain)), (true, true));
    assert_eq!(both(&feed(extended)), (true, true));
    let broken = feed(r#"{"title":"T","items":[],"_foo":1}"#);
    assert_eq!(both(&broken), (false, false));
    let mut doc = feed(extended);
    doc.as_map_mut().remove("_foo");
    assert_eq!(both(&doc), (true, true));
    let underscore_only = feed(
        r#"{"version":"https://jsonfeed.org/version/1","title":"T","items":[],"_":0}"#,
    );
    assert_eq!(both(&underscore_only), (true, true));
}

#[test]
fn undeclared_keys_invalidate_the_entity_that_holds_them() {
    let target = Version::Version1_1;
    assert!(!feed(
        r#"{"version":"https://jsonfeed.org/version/1.1","title":"T","items":[],"foo":1}"#
    )
    .is_valid(&target));
    assert!(!feed(
        r#"{"version":"https://jsonfeed.org/version/1.1","title":"T","items":[],"":1}"#
    )
    .is_valid(&target));
    assert!(!feed(
        r#"{"version":"https://jsonfeed.org/version/1.1","title":"T","items":[],"foo_":1}"#
    )
    .is_valid(&target));
    assert!(!Item::from(object(r#"{"id":"1","content_text":"x","foo":1}"#)).is_valid(&target));
    assert!(!Author::from(object(r#"{"name":"A","foo":1}"#)).is_valid(&target));
    assert!(!Hub::from(object(r#"{"type":"t","url":"u","foo":1}"#)).is_valid(&target));
    assert!(
        !Attachment::from(object(r#"{"url":"u","mime_type":"m","foo":1}"#)).is_valid(&target)
    );
    assert!(!feed(
        r#"{"version":"https://jsonfeed.org/version/1.1","title":"T",
            "items":[{"id":"1","content_text":"x","foo":1}]}"#
    )
    .is_valid(&target));
    assert!(!feed(
        r#"{"version":"https://jsonfeed.org/version/1.1","title":"T",
            "items":[{"id":"1","content_text":"x","attachments":[{"url":"u","mime_type":"m","foo":1}]}]}"#
    )
    .is_valid(&target));
}

#[test]
fn item_needs_an_id_and_content() {
    let target = Version::Version1_1;
    let valid = |text: &str| Item::from(object(text)).is_valid(&target);
    assert!(valid(r#"{"id":"1","content_text":"x"}"#));
    assert!(valid(r#"{"id":"1","content_html":"x"}"#));
    assert!(valid(r#"{"id":"1","content_html":"x","content_text":"y"}"#));
    assert!(!valid(r#"{"id":"1"}"#));
    assert!(!valid(r#"{"content_text":"x"}"#));
    assert!(!valid(r#"{"id":1,"content_text":"x"}"#));
    assert!(!valid(r#"{"id":"1","content_text":1}"#));
    assert!(!valid(r#"{"id":"1","content_text":"x","content_html":1}"#));
    assert!(!valid(
        r#"{"id":"1","url":"u","external_url":"e","title":"t","summary":"s","image":"i",
            "banner_image":"b","date_published":"p","date_modified":"m","tags":["a"],
            "language":"en","author":{"name":"A"},"authors":[],"attachments":[]}"#
    ));
    assert!(valid(
        r#"{"id":"1","content_text":"x","url":"u","external_url":"e","title":"t","summary":"s",
            "image":"i","banner_image":"b","date_published":"p","date_modified":"m",
            "tags":["a"],"language":"en","author":{"name":"A"},"authors":[],"attachments":[]}"#
    ));
}

#[test]
fn item_optional_fields_must_have_their_kind() {
    for field in [
        r#""url":1"#,
        r#""external_url":1"#,
        r#""title":1"#,
        r#""summary":1"#,
        r#""image":1"#,
        r#""banner_image":1"#,
        r#""date_published":1"#,
        r#""date_modified":1"#,
        r#""language":1"#,
        r#""tags":"a""#,
        r#""tags":[1]"#,
        r#""author":"A""#,
        r#""authors":"A""#,
        r#""attachments":"A""#,
    ] {
        let text = format!(r#"{{"id":"1","content_text":"x",{}}}"#, field);
        assert!(!Item::from(object(&text)).is_valid(&Version::Version1_1));
    }
}

#[test]
fn item_nested_entities_must_be_valid() {
    let target = Version::Version1_1;
    let valid = |text: &str| Item::from(object(text)).is_valid(&target);
    assert!(valid(r#"{"id":"1","content_text":"x","author":{"url":"u"}}"#));
    assert!(!valid(r#"{"id":"1","content_text":"x","author":{}}"#));
    assert!(!valid(r#"{"id":"1","content_text":"x","author":{"name":1}}"#));
    assert!(valid(r#"{"id":"1","content_text":"x","authors":[{"name":"A"},{"avatar":"a"}]}"#));
    assert!(!valid(r#"{"id":"1","content_text":"x","authors":[{"name":"A"},{}]}"#));
    assert!(valid(r#"{"id":"1","content_text":"x","attachments":[{"url":"u","mime_type":"m"}]}"#));
    assert!(!valid(r#"{"id":"1","content_text":"x","attachments":[{"url":"u"}]}"#));
}

#[test]
fn author_needs_one_of_its_fields() {
    let target = Version::Version1;
    let valid = |text: &str| Author::from(object(text)).is_valid(&target);
    assert!(valid(r#"{"name":"A"}"#));
    assert!(valid(r#"{"url":"u"}"#));
    assert!(valid(r#"{"avatar":"a"}"#));
    assert!(valid(r#"{"name":"A","url":"u","avatar":"a"}"#));
    assert!(!valid(r#"{}"#));
    assert!(!valid(r#"{"_x":1}"#));
    assert!(!valid(r#"{"name":1}"#));
    assert!(!valid(r#"{"name":"A","url":1}"#));
    assert!(!valid(r#"{"name":"A","avatar":null}"#));
}

#[test]
fn hub_needs_type_and_url() {
    let target = Version::Version1;
    let valid = |text: &str| Hub::from(object(text)).is_valid(&target);
    assert!(valid(r#"{"type":"t","url":"u"}"#));
    assert!(!valid(r#"{"type":"t"}"#));
    assert!(!valid(r#"{"url":"u"}"#));
    assert!(!valid(r#"{"type":1,"url":"u"}"#));
    assert!(!valid(r#"{"type":"t","url":1}"#));
    assert!(!valid(r#"{}"#));
}

#[test]
fn attachment_needs_url_and_mime_type() {
    let target = Version::Version1;
    let valid = |text: &str| Attachment::from(object(text)).is_valid(&target);
    assert!(valid(r#"{"url":"u","mime_type":"m"}"#));
    assert!(valid(
        r#"{"url":"u","mime_type":"m","title":"t","size_in_bytes":1,"duration_in_seconds":2}"#
    ));
    assert!(!valid(r#"{"url":"u"}"#));
    assert!(!valid(r#"{"mime_type":"m"}"#));
    assert!(!valid(r#"{"url":1,"mime_type":"m"}"#));
    assert!(!valid(r#"{"url":"u","mime_type":"m","title":1}"#));
    assert!(!valid(r#"{"url":"u","mime_type":"m","size_in_bytes":-1}"#));
    assert!(!valid(r#"{"url":"u","mime_type":"m","size_in_bytes":"1"}"#));
    assert!(!valid(r#"{"url":"u","mime_type":"m","duration_in_seconds":1.5}"#));
}

#[test]
fn the_three_views_agree_on_validity() {
    let target = Version::Version1_1;
    let texts = [
        r#"{"version":"https://jsonfeed.org/version/1.1","title":"T","items":[]}"#,
        r#"{"id":"1","content_text":"x"}"#,
        r#"{"name":"A"}"#,
        r#"{"type":"t","url":"u"}"#,
        r#"{"url":"u","mime_type":"m"}"#,
        r#"{}"#,
    ];
    let expected = [
        [true, false, false, false, false],
        [false, true, false, false, false],
        [false, false, true, false, false],
        [false, false, false, true, false],
        [false, false, false, false, true],
        [false, false, false, false, false],
    ];
    for (text, row) in texts.iter().zip(expected.iter()) {
        let mut map = object(text);
        assert_eq!(FeedRef::from(&map).is_valid(&target), row[0]);
        assert_eq!(ItemRef::from(&map).is_valid(&target), row[1]);
        assert_eq!(AuthorRef::from(&map).is_valid(&target), row[2]);
        assert_eq!(HubRef::from(&map).is_valid(&target), row[3]);
        assert_eq!(AttachmentRef::from(&map).is_valid(&target), row[4]);
        assert_eq!(is_valid_feed(&map, &target), row[0]);
        assert_eq!(is_valid_item(&map, &target), row[1]);
        assert_eq!(is_valid_author(&map, &target), row[2]);
        assert_eq!(is_valid_hub(&map, &target), row[3]);
        assert_eq!(is_valid_attachment(&map, &target), row[4]);
        assert_eq!(FeedMut::from(&mut map).is_valid(&target), row[0]);
        assert_eq!(ItemMut::from(&mut map).is_valid(&target), row[1]);
        assert_eq!(AuthorMut::from(&mut map).is_valid(&target), row[2]);
        assert_eq!(HubMut::from(&mut map).is_valid(&target), row[3]);
        assert_eq!(AttachmentMut::from(&mut map).is_valid(&target), row[4]);
        assert_eq!(Feed::from(map.clone()).is_valid(&target), row[0]);
        assert_eq!(Item::from(map.clone()).is_valid(&target), row[1]);
        assert_eq!(Author::from(map.clone()).is_valid(&target), row[2]);
        assert_eq!(Hub::from(map.clone()).is_valid(&target), row[3]);
        assert_eq!(Attachment::from(map).is_valid(&target), row[4]);
    }
}

#[test]
fn extension_key_test() {
    assert!(is_extension_key("_foo"));
    assert!(is_extension_key("_"));
    assert!(is_extension_key("__"));
    assert!(is_extension_key("_é"));
    assert!(!is_extension_key(""));
    assert!(!is_extension_key("foo"));
    assert!(!is_extension_key("foo_"));
    assert!(!is_extension_key(" _foo"));
    assert!(!is_extension_key("é_"));
}

#[test]
fn keys_are_tested_against_the_list() {
    let name = "name".to_string();
    let url = "url".to_string();
    let extension = "_x".to_string();
    let other = "other".to_string();
    let valid_keys = vec!["name", "url"];
    assert!(are_keys_valid(&vec![], &valid_keys));
    assert!(are_keys_valid(&vec![&name], &valid_keys));
    assert!(are_keys_valid(&vec![&url, &name, &extension], &valid_keys));
    assert!(!are_keys_valid(&vec![&url, &other, &name], &valid_keys));
    assert!(!are_keys_valid(&vec![&name], &vec![]));
    assert!(are_keys_valid(&vec![&extension], &vec![]));
}

#[test]
fn decoding_the_example() -> Result<(), Error> {
    let feed = from_str(
        r#"{"version":"https://jsonfeed.org/version/1.1","title":"T","items":[{"id":"1","content_text":"x"}]}"#,
    )?;
    assert_eq!(feed.title()?, Some("T"));
    assert_eq!(feed.items()?.unwrap().len(), 1);
    assert!(feed.is_valid(&Version::Version1_1));
    assert!(!feed.is_valid(&Version::Version1));
    Ok(())
}

#[test]
fn decoding_needs_an_object() {
    for text in ["[]", "\"feed\"", "1", "true", "null", "[{}]"] {
        assert!(matches!(from_str(text), Err(Error::UnexpectedType)));
        assert!(matches!(from_slice(text.as_bytes()), Err(Error::UnexpectedType)));
        let value: Value = serde_json::from_str(text).unwrap();
        assert!(matches!(from_value(value), Err(Error::UnexpectedType)));
    }
    assert!(from_str("{}").unwrap().as_map().is_empty());
    assert!(from_slice(b" { } ").unwrap().as_map().is_empty());
    assert!(from_value(Value::Object(JsonMap::new())).unwrap().as_map().is_empty());
}

#[test]
fn decoding_reports_syntax_errors() {
    for text in ["", "{", "{\"a\":}", "{} x", "{'a':1}", "nul"] {
        assert!(matches!(from_str(text), Err(Error::SerdeJson(_))));
        assert!(matches!(from_slice(text.as_bytes()), Err(Error::SerdeJson(_))));
    }
    assert!(matches!(from_slice(&[b'{', 0xff, b'}']), Err(Error::SerdeJson(_))));
    match from_str("{") {
        Err(Error::SerdeJson(e)) => assert!(e.is_eof()),
        _ => panic!("expected a syntax error"),
    }
}

#[test]
fn decoding_does_not_validate() -> Result<(), Error> {
    let feed = from_str(r#"{"title":5,"anything":[1,2]}"#)?;
    assert!(!feed.is_valid(&Version::Version1_1));
    assert!(matches!(feed.title(), Err(Error::UnexpectedType)));
    Ok(())
}

#[test]
fn extension_keys_survive_decode_and_encode() -> Result<(), Error> {
    let text = r#"{"_foo":{"a":[1,"x",null]},"items":[{"_foo":true,"id":"1"}],"title":"T"}"#;
    let feed = from_str(text)?;
    assert_eq!(serde_json::to_string(feed.as_map())?, text);
    let again = from_str(&serde_json::to_string(feed.as_map())?)?;
    assert_eq!(again, feed);
    assert_eq!(
        feed.as_map().get("_foo"),
        Some(&serde_json::from_str::<Value>(r#"{"a":[1,"x",null]}"#)?)
    );
    Ok(())
}

#[test]
fn errors_convert_from_the_parser() {
    let parser_error = serde_json::from_str::<Value>("{").unwrap_err();
    assert!(matches!(Error::from(parser_error), Error::SerdeJson(_)));
    let text = format!("{:?}", Error::UnexpectedType);
    assert_eq!(text, "UnexpectedType");
}

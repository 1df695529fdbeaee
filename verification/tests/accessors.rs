use json_feed_model::field::{
    get_bool, get_object, get_object_array, get_object_array_mut, get_object_mut, get_str,
    get_str_array, get_u64, remove, set_bool, set_object, set_object_array, set_str,
    set_str_array, set_u64,
};
use json_feed_model::{
    Attachment, AttachmentMut, AttachmentRef, Author, AuthorMut, AuthorRef, Error, Feed, FeedMut,
    FeedRef, Hub, HubMut, HubRef, Item, ItemMut, ItemRef,
};
use json_feed_model::json::JsonMap;
use serde_json::Value;

fn parse(text: &str) -> Value {
    serde_json::from_str(text).unwrap()
}

fn object(text: &str) -> JsonMap {
    match parse(text) {
        Value::Object(map) => map,
        other => panic!("not an object: {}", other),
    }
}

#[test]
fn new_entities_are_empty() {
    assert!(Feed::new().as_map().is_empty());
    assert!(Item::new().as_map().is_empty());
    assert!(Author::new().as_map().is_empty());
    assert!(Hub::new().as_map().is_empty());
    assert!(Attachment::new().as_map().is_empty());
    assert!(Feed::default().into_inner().is_empty());
    assert!(Item::default().into_inner().is_empty());
    assert!(Author::default().into_inner().is_empty());
    assert!(Hub::default().into_inner().is_empty());
    assert!(Attachment::default().into_inner().is_empty());
}

#[test]
fn missing_keys_read_as_none() -> Result<(), Error> {
    let feed = Feed::new();
    assert_eq!(feed.version()?, None);
    assert_eq!(feed.title()?, None);
    assert_eq!(feed.expired()?, None);
    assert!(feed.author()?.is_none());
    assert!(feed.authors()?.is_none());
    assert!(feed.hubs()?.is_none());
    assert!(feed.items()?.is_none());
    let item = Item::new();
    assert_eq!(item.id()?, None);
    assert_eq!(item.tags()?, None);
    assert!(item.attachments()?.is_none());
    let attachment = Attachment::new();
    assert_eq!(attachment.size_in_bytes()?, None);
    assert_eq!(attachment.duration_in_seconds()?, None);
    Ok(())
}

#[test]
fn string_set_then_get() -> Result<(), Error> {
    let mut author = Author::new();
    assert_eq!(author.set_name("Ada"), None);
    assert_eq!(author.name()?, Some("Ada"));
    assert_eq!(author.set_name("Grace"), Some(Value::String("Ada".to_string())));
    assert_eq!(author.name()?, Some("Grace"));
    assert_eq!(author.url()?, None);
    author.set_url("https://example.org/ada");
    author.set_avatar("https://example.org/ada.png");
    assert_eq!(author.url()?, Some("https://example.org/ada"));
    assert_eq!(author.avatar()?, Some("https://example.org/ada.png"));
    assert_eq!(
        author.into_inner(),
        object(
            r#"{"name":"Grace","url":"https://example.org/ada","avatar":"https://example.org/ada.png"}"#
        )
    );
    Ok(())
}

#[test]
fn hub_type_is_stored_under_type() -> Result<(), Error> {
    let mut hub = Hub::new();
    hub.set_hub_type("WebSub");
    hub.set_url("https://hub.example.org/");
    assert_eq!(hub.hub_type()?, Some("WebSub"));
    assert_eq!(hub.url()?, Some("https://hub.example.org/"));
    assert_eq!(
        hub.as_map().get("type"),
        Some(&Value::String("WebSub".to_string()))
    );
    assert_eq!(hub.remove_hub_type(), Some(Value::String("WebSub".to_string())));
    assert_eq!(hub.hub_type()?, None);
    Ok(())
}

#[test]
fn bool_set_then_get() -> Result<(), Error> {
    let mut feed = Feed::new();
    assert_eq!(feed.set_expired(true), None);
    assert_eq!(feed.expired()?, Some(true));
    assert_eq!(feed.set_expired(false), Some(Value::Bool(true)));
    assert_eq!(feed.expired()?, Some(false));
    assert_eq!(feed.as_map().get("expired"), Some(&Value::Bool(false)));
    Ok(())
}

#[test]
fn u64_set_then_get() -> Result<(), Error> {
    let mut attachment = Attachment::new();
    assert_eq!(attachment.set_size_in_bytes(0), None);
    assert_eq!(attachment.size_in_bytes()?, Some(0));
    attachment.set_size_in_bytes(u64::MAX);
    assert_eq!(attachment.size_in_bytes()?, Some(18446744073709551615));
    attachment.set_duration_in_seconds(3600);
    assert_eq!(attachment.duration_in_seconds()?, Some(3600));
    assert_eq!(
        attachment.as_map().get("duration_in_seconds"),
        Some(&parse("3600"))
    );
    Ok(())
}

#[test]
fn string_array_set_then_get() -> Result<(), Error> {
    let mut item = Item::new();
    assert_eq!(
        item.set_tags(vec!["rust".to_string(), "verus".to_string()]),
        None
    );
    assert_eq!(item.tags()?, Some(vec!["rust", "verus"]));
    assert_eq!(item.as_map().get("tags"), Some(&parse(r#"["rust","verus"]"#)));
    assert_eq!(item.set_tags(vec![]), Some(parse(r#"["rust","verus"]"#)));
    assert_eq!(item.tags()?, Some(vec![]));
    Ok(())
}

#[test]
fn nested_object_set_then_get() -> Result<(), Error> {
    let mut author = Author::new();
    author.set_name("Ada");
    let mut feed = Feed::new();
    assert_eq!(feed.set_author(author.clone()), None);
    let read = feed.author()?.unwrap();
    assert_eq!(read.name()?, Some("Ada"));
    assert_eq!(read.to_author(), author);
    assert_eq!(feed.as_map().get("author"), Some(&parse(r#"{"name":"Ada"}"#)));
    Ok(())
}

#[test]
fn nested_array_set_then_get_keeps_order() -> Result<(), Error> {
    let mut first = Hub::new();
    first.set_hub_type("a");
    let mut second = Hub::new();
    second.set_hub_type("b");
    let mut third = Hub::new();
    third.set_hub_type("c");
    let mut feed = Feed::new();
    feed.set_hubs(vec![first, second, third]);
    let hubs = feed.hubs()?.unwrap();
    assert_eq!(hubs.len(), 3);
    assert_eq!(hubs[0].hub_type()?, Some("a"));
    assert_eq!(hubs[1].hub_type()?, Some("b"));
    assert_eq!(hubs[2].hub_type()?, Some("c"));
    assert_eq!(
        feed.as_map().get("hubs"),
        Some(&parse(r#"[{"type":"a"},{"type":"b"},{"type":"c"}]"#))
    );
    Ok(())
}

#[test]
fn remove_then_get_is_none_for_every_kind() -> Result<(), Error> {
    let mut feed = Feed::from(object(
        r#"{"title":"T","expired":true,"author":{"name":"A"},"authors":[{"name":"B"}],
            "hubs":[{"type":"t","url":"u"}],"items":[]}"#,
    ));
    assert_eq!(feed.remove_title(), Some(parse(r#""T""#)));
    assert_eq!(feed.title()?, None);
    assert_eq!(feed.remove_title(), None);
    assert_eq!(feed.remove_expired(), Some(Value::Bool(true)));
    assert_eq!(feed.expired()?, None);
    assert_eq!(feed.remove_author(), Some(parse(r#"{"name":"A"}"#)));
    assert!(feed.author()?.is_none());
    assert_eq!(feed.remove_authors(), Some(parse(r#"[{"name":"B"}]"#)));
    assert!(feed.authors()?.is_none());
    assert!(feed.remove_hubs().is_some());
    assert!(feed.hubs()?.is_none());
    assert_eq!(feed.remove_items(), Some(parse("[]")));
    assert!(feed.items()?.is_none());
    assert!(feed.as_map().is_empty());

    let mut item = Item::from(object(r#"{"tags":["a"],"id":"1"}"#));
    assert_eq!(item.remove_tags(), Some(parse(r#"["a"]"#)));
    assert_eq!(item.tags()?, None);
    assert_eq!(item.id()?, Some("1"));

    let mut attachment = Attachment::from(object(r#"{"size_in_bytes":3}"#));
    assert_eq!(attachment.remove_size_in_bytes(), Some(parse("3")));
    assert_eq!(attachment.size_in_bytes()?, None);
    Ok(())
}

#[test]
fn remove_works_on_a_value_of_the_wrong_kind() -> Result<(), Error> {
    let mut feed = Feed::from(object(r#"{"title":5}"#));
    assert!(matches!(feed.title(), Err(Error::UnexpectedType)));
    assert_eq!(feed.remove_title(), Some(parse("5")));
    assert_eq!(feed.title()?, None);
    Ok(())
}

#[test]
fn string_read_of_another_kind_is_a_type_error() {
    for text in [
        r#"{"title":1}"#,
        r#"{"title":true}"#,
        r#"{"title":null}"#,
        r#"{"title":["T"]}"#,
        r#"{"title":{"a":"T"}}"#,
    ] {
        let feed = Feed::from(object(text));
        assert!(matches!(feed.title(), Err(Error::UnexpectedType)));
    }
}

#[test]
fn bool_read_of_another_kind_is_a_type_error() {
    for text in [r#"{"expired":"true"}"#, r#"{"expired":1}"#, r#"{"expired":null}"#] {
        let feed = Feed::from(object(text));
        assert!(matches!(feed.expired(), Err(Error::UnexpectedType)));
    }
}

#[test]
fn u64_read_rejects_negative_fractional_and_too_large() -> Result<(), Error> {
    for text in [
        r#"{"size_in_bytes":-1}"#,
        r#"{"size_in_bytes":1.5}"#,
        r#"{"size_in_bytes":1.0}"#,
        r#"{"size_in_bytes":18446744073709551616}"#,
        r#"{"size_in_bytes":"1"}"#,
        r#"{"size_in_bytes":null}"#,
    ] {
        let attachment = Attachment::from(object(text));
        assert!(matches!(
            attachment.size_in_bytes(),
            Err(Error::UnexpectedType)
        ));
    }
    let attachment = Attachment::from(object(r#"{"size_in_bytes":18446744073709551615}"#));
    assert_eq!(attachment.size_in_bytes()?, Some(u64::MAX));
    Ok(())
}

#[test]
fn string_array_with_one_wrong_element_is_a_type_error() {
    for text in [
        r#"{"tags":"a"}"#,
        r#"{"tags":["a",1]}"#,
        r#"{"tags":[null,"a"]}"#,
        r#"{"tags":["a",["b"]]}"#,
        r#"{"tags":{"a":"b"}}"#,
    ] {
        let item = Item::from(object(text));
        assert!(matches!(item.tags(), Err(Error::UnexpectedType)));
    }
}

#[test]
fn nested_object_of_another_kind_is_a_type_error() {
    for text in [r#"{"author":"A"}"#, r#"{"author":[{"name":"A"}]}"#, r#"{"author":null}"#] {
        let mut feed = Feed::from(object(text));
        assert!(matches!(feed.author(), Err(Error::UnexpectedType)));
        assert!(matches!(feed.author_mut(), Err(Error::UnexpectedType)));
        assert_eq!(feed, object(text));
    }
}

#[test]
fn nested_array_with_one_wrong_element_is_a_type_error() {
    for text in [
        r#"{"items":{"id":"1"}}"#,
        r#"{"items":[{"id":"1"},"2"]}"#,
        r#"{"items":[1,{"id":"1"}]}"#,
        r#"{"items":[[{"id":"1"}]]}"#,
        r#"{"items":"x"}"#,
    ] {
        let mut feed = Feed::from(object(text));
        assert!(matches!(feed.items(), Err(Error::UnexpectedType)));
        assert!(matches!(feed.items_mut(), Err(Error::UnexpectedType)));
        assert_eq!(feed, object(text));
    }
}

#[test]
fn empty_nested_array_reads_as_empty() -> Result<(), Error> {
    let mut feed = Feed::from(object(r#"{"items":[]}"#));
    assert_eq!(feed.items()?.unwrap().len(), 0);
    assert_eq!(feed.items_mut()?.unwrap().len(), 0);
    Ok(())
}

#[test]
fn author_mut_writes_through() -> Result<(), Error> {
    let mut item = Item::from(object(r#"{"id":"1","author":{"name":"Ada"}}"#));
    {
        let mut author = item.author_mut()?.unwrap();
        assert_eq!(author.name()?, Some("Ada"));
        author.set_name("Grace");
        author.set_url("https://example.org/");
        assert_eq!(author.remove_avatar(), None);
    }
    assert_eq!(
        item,
        object(r#"{"id":"1","author":{"name":"Grace","url":"https://example.org/"}}"#)
    );
    assert!(Item::new().author_mut()?.is_none());
    Ok(())
}

#[test]
fn items_mut_writes_through_in_order() -> Result<(), Error> {
    let mut feed = Feed::from(object(
        r#"{"title":"T","items":[{"id":"1"},{"id":"2"},{"id":"3"}]}"#,
    ));
    {
        let mut items = feed.items_mut()?.unwrap();
        assert_eq!(items.len(), 3);
        assert_eq!(items[1].id()?, Some("2"));
        items[0].set_title("first");
        items[2].set_id("three");
        items[1].remove_id();
    }
    assert_eq!(
        feed,
        object(r#"{"title":"T","items":[{"id":"1","title":"first"},{},{"id":"three"}]}"#)
    );
    Ok(())
}

#[test]
fn nested_views_reach_two_levels_down() -> Result<(), Error> {
    let mut feed = Feed::from(object(
        r#"{"items":[{"id":"1","attachments":[{"url":"u","mime_type":"m"}],"authors":[{"name":"A"}]}]}"#,
    ));
    {
        let items = feed.items()?.unwrap();
        let attachments = items[0].attachments()?.unwrap();
        assert_eq!(attachments[0].url()?, Some("u"));
        assert_eq!(attachments[0].mime_type()?, Some("m"));
        let authors = items[0].authors()?.unwrap();
        assert_eq!(authors[0].name()?, Some("A"));
    }
    {
        let mut items = feed.items_mut()?.unwrap();
        let mut attachments = items[0].attachments_mut()?.unwrap();
        attachments[0].set_size_in_bytes(12);
    }
    {
        let mut items = feed.items_mut()?.unwrap();
        let mut authors = items[0].authors_mut()?.unwrap();
        authors[0].set_name("B");
    }
    assert_eq!(
        feed,
        object(
            r#"{"items":[{"id":"1","attachments":[{"url":"u","mime_type":"m","size_in_bytes":12}],"authors":[{"name":"B"}]}]}"#
        )
    );
    Ok(())
}

#[test]
fn ref_views_read_what_the_map_holds() -> Result<(), Error> {
    let map = object(
        r#"{"version":"https://jsonfeed.org/version/1","title":"T","expired":false,
            "author":{"name":"A"},"authors":[{"url":"u"}],"hubs":[{"type":"t","url":"u"}],
            "items":[{"id":"1","tags":["x"]}]}"#,
    );
    let feed = FeedRef::from(&map);
    assert_eq!(feed.version()?, Some("https://jsonfeed.org/version/1"));
    assert_eq!(feed.title()?, Some("T"));
    assert_eq!(feed.expired()?, Some(false));
    assert_eq!(feed.author()?.unwrap().name()?, Some("A"));
    assert_eq!(feed.authors()?.unwrap()[0].url()?, Some("u"));
    assert_eq!(feed.hubs()?.unwrap()[0].hub_type()?, Some("t"));
    assert_eq!(feed.items()?.unwrap()[0].tags()?, Some(vec!["x"]));
    assert_eq!(feed.as_map(), &map);
    assert_eq!(feed, map);
    assert_eq!(feed.to_feed(), map);
    Ok(())
}

#[test]
fn mut_views_write_to_the_borrowed_map() -> Result<(), Error> {
    let mut map = object(r#"{"title":"T"}"#);
    {
        let mut feed = FeedMut::from(&mut map);
        assert_eq!(feed.title()?, Some("T"));
        assert_eq!(feed.set_title("U"), Some(parse(r#""T""#)));
        feed.set_expired(true);
        feed.set_items(vec![Item::new()]);
        feed.as_map_mut()
            .insert("_note".to_string(), Value::Bool(false));
        assert_eq!(feed.to_feed(), object(r#"{"title":"U","expired":true,"items":[{}],"_note":false}"#));
        let mut items = feed.items_mut()?.unwrap();
        items[0].set_id("1");
    }
    assert_eq!(
        map,
        object(r#"{"title":"U","expired":true,"items":[{"id":"1"}],"_note":false}"#)
    );

    let mut map = object(r#"{"name":"A"}"#);
    AuthorMut::from(&mut map).set_name("B");
    assert_eq!(map, object(r#"{"name":"B"}"#));
    let mut map = object(r#"{"type":"a"}"#);
    HubMut::from(&mut map).remove_hub_type();
    assert!(map.is_empty());
    let mut map = JsonMap::new();
    AttachmentMut::from(&mut map).set_duration_in_seconds(9);
    assert_eq!(map, object(r#"{"duration_in_seconds":9}"#));
    let mut map = JsonMap::new();
    ItemMut::from(&mut map).set_tags(vec!["t".to_string()]);
    assert_eq!(map, object(r#"{"tags":["t"]}"#));
    Ok(())
}

#[test]
fn every_ref_view_converts_to_owned() {
    let map = object(r#"{"url":"u"}"#);
    assert_eq!(AuthorRef::from(&map).to_author(), map);
    assert_eq!(HubRef::from(&map).to_hub(), map);
    assert_eq!(AttachmentRef::from(&map).to_attachment(), map);
    assert_eq!(ItemRef::from(&map).to_item(), map);
    assert_eq!(FeedRef::from(&map).to_feed(), map);
}

#[test]
fn clone_is_equal_to_the_document_it_came_from() {
    let map = object(
        r#"{"version":"https://jsonfeed.org/version/1.1","title":"T","_x":[1,2.5,-3,null,{"a":"b"}],
            "items":[{"id":"1","content_text":"x"}]}"#,
    );
    let feed = Feed::from(map.clone());
    let copy = feed.clone();
    assert_eq!(copy, map);
    assert_eq!(copy, feed);
    assert_eq!(copy.into_inner(), map);
    let item = Item::from(object(r#"{"id":"1"}"#));
    assert_eq!(item.clone(), item);
    assert_eq!(Author::from(object(r#"{"name":"n"}"#)).clone(), object(r#"{"name":"n"}"#));
    assert_eq!(Hub::from(object(r#"{"type":"n"}"#)).clone(), object(r#"{"type":"n"}"#));
    assert_eq!(
        Attachment::from(object(r#"{"size_in_bytes":1}"#)).clone(),
        object(r#"{"size_in_bytes":1}"#)
    );
}

#[test]
fn equality_tells_different_documents_apart() {
    let feed = Feed::from(object(r#"{"title":"T"}"#));
    assert_ne!(feed, Feed::from(object(r#"{"title":"U"}"#)));
    assert_ne!(feed, Feed::from(object(r#"{"title":"T","_x":1}"#)));
    assert_ne!(feed, Feed::new());
    assert_ne!(feed, object(r#"{"title":1}"#));
    assert_eq!(feed, Feed::from(object(r#"{ "title" : "T" }"#)));
    let map = object(r#"{"title":"T"}"#);
    let other = object(r#"{"title":"U"}"#);
    assert_ne!(FeedRef::from(&map), FeedRef::from(&other));
    assert_eq!(FeedRef::from(&map), FeedRef::from(&map));
}

#[test]
fn field_functions_read_and_write_any_key() -> Result<(), Error> {
    let mut map = JsonMap::new();
    assert_eq!(set_str(&mut map, "_a", "x"), None);
    assert_eq!(set_bool(&mut map, "_b", true), None);
    assert_eq!(set_u64(&mut map, "_c", 42), None);
    assert_eq!(set_str_array(&mut map, "_d", vec!["p".to_string(), "q".to_string()]), None);
    assert_eq!(set_object(&mut map, "_e", object(r#"{"k":1}"#)), None);
    assert_eq!(
        set_object_array(&mut map, "_f", vec![object(r#"{"k":1}"#), JsonMap::new()]),
        None
    );
    assert_eq!(
        map,
        object(r#"{"_a":"x","_b":true,"_c":42,"_d":["p","q"],"_e":{"k":1},"_f":[{"k":1},{}]}"#)
    );
    assert_eq!(get_str(&map, "_a")?, Some("x"));
    assert_eq!(get_bool(&map, "_b")?, Some(true));
    assert_eq!(get_u64(&map, "_c")?, Some(42));
    assert_eq!(get_str_array(&map, "_d")?, Some(vec!["p", "q"]));
    assert_eq!(get_object(&map, "_e")?, Some(&object(r#"{"k":1}"#)));
    assert_eq!(get_object_array(&map, "_f")?.unwrap().len(), 2);
    assert!(matches!(get_str(&map, "_b"), Err(Error::UnexpectedType)));
    assert!(matches!(get_bool(&map, "_a"), Err(Error::UnexpectedType)));
    assert!(matches!(get_u64(&map, "_a"), Err(Error::UnexpectedType)));
    assert!(matches!(get_str_array(&map, "_f"), Err(Error::UnexpectedType)));
    assert!(matches!(get_object(&map, "_f"), Err(Error::UnexpectedType)));
    assert!(matches!(get_object_array(&map, "_d"), Err(Error::UnexpectedType)));
    assert_eq!(get_str(&map, "a")?, None);

    get_object_mut(&mut map, "_e")?
        .unwrap()
        .insert("k".to_string(), Value::Bool(false));
    {
        let mut maps = get_object_array_mut(&mut map, "_f")?.unwrap();
        maps[1].insert("n".to_string(), Value::Null);
    }
    assert!(get_object_mut(&mut map, "missing")?.is_none());
    assert!(get_object_array_mut(&mut map, "missing")?.is_none());
    assert!(matches!(get_object_mut(&mut map, "_a"), Err(Error::UnexpectedType)));
    assert!(matches!(
        get_object_array_mut(&mut map, "_d"),
        Err(Error::UnexpectedType)
    ));
    assert_eq!(remove(&mut map, "_a"), Some(parse(r#""x""#)));
    assert_eq!(remove(&mut map, "_a"), None);
    assert_eq!(
        map,
        object(r#"{"_b":true,"_c":42,"_d":["p","q"],"_e":{"k":false},"_f":[{"k":1},{"n":null}]}"#)
    );
    Ok(())
}

#[test]
fn setters_keep_every_other_key() -> Result<(), Error> {
    let mut item = Item::from(object(r#"{"id":"1","url":"u","_x":1}"#));
    item.set_title("t");
    item.remove_url();
    assert_eq!(item, object(r#"{"id":"1","title":"t","_x":1}"#));
    Ok(())
}

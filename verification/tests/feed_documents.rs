use json_feed_model::{from_value, Error, Feed, Item, ItemRef, Version, VERSION_1_1};
use serde_json::Value;

fn json(text: &str) -> Value {
    serde_json::from_str(text).unwrap()
}

#[test]
fn simple_example() -> Result<(), Error> {
    let json = json(
        r#"{
            "version": "https://jsonfeed.org/version/1.1",
            "title": "Lorem ipsum dolor sit amet.",
            "home_page_url": "https://example.org/",
            "feed_url": "https://example.org/feed.json",
            "items": [
                {
                    "id": "cd7f0673-8e81-4e13-b273-4bd1b83967d0",
                    "content_text": "Aenean tristique dictum mauris, et.",
                    "url": "https://example.org/aenean-tristique"
                },
                {
                    "id": "2bcb497d-c40b-4493-b5ae-bc63c74b48fa",
                    "content_html": "Vestibulum non magna vitae tortor.",
                    "url": "https://example.org/vestibulum-non"
                }
            ]
        }"#,
    );

    let feed = from_value(json)?;

    assert!(feed.is_valid(&Version::Version1_1));

    assert_eq!(feed.version()?, Some(VERSION_1_1));
    assert_eq!(feed.title()?, Some("Lorem ipsum dolor sit amet."));
    assert_eq!(feed.home_page_url()?, Some("https://example.org/"));
    assert_eq!(feed.feed_url()?, Some("https://example.org/feed.json"));

    let items: Option<Vec<ItemRef<'_>>> = feed.items()?;
    assert!(items.is_some());
    let items: Vec<ItemRef<'_>> = items.unwrap();
    assert_eq!(items.len(), 2);

    assert_eq!(items[0].id()?, Some("cd7f0673-8e81-4e13-b273-4bd1b83967d0"));
    assert_eq!(
        items[0].content_text()?,
        Some("Aenean tristique dictum mauris, et.")
    );
    assert_eq!(
        items[0].url()?,
        Some("https://example.org/aenean-tristique")
    );

    assert_eq!(items[1].id()?, Some("2bcb497d-c40b-4493-b5ae-bc63c74b48fa"));
    assert_eq!(
        items[1].content_html()?,
        Some("Vestibulum non magna vitae tortor.")
    );
    assert_eq!(items[1].url()?, Some("https://example.org/vestibulum-non"));

    Ok(())
}

#[test]
fn read_extensions() -> Result<(), Error> {
    let json_value = json(
        r#"{
            "version": "https://jsonfeed.org/version/1.1",
            "title": "Lorem ipsum dolor sit amet.",
            "_example": {
                "id": "cd7f0673-8e81-4e13-b273-4bd1b83967d0"
            },
            "items": [
                {
                    "id": "2bcb497d-c40b-4493-b5ae-bc63c74b48fa",
                    "content_html": "Vestibulum non magna vitae tortor.",
                    "url": "https://example.org/vestibulum-non",
                    "_extension": 1
                }
            ]
        }"#,
    );
    let feed = from_value(json_value).unwrap();

    assert!(feed.is_valid(&Version::Version1_1));

    assert_eq!(feed.version()?, Some(VERSION_1_1));
    assert_eq!(feed.title()?, Some("Lorem ipsum dolor sit amet."));

    let example_value = feed.as_map().get("_example");
    assert_eq!(
        example_value,
        Some(&json(r#"{ "id": "cd7f0673-8e81-4e13-b273-4bd1b83967d0" }"#))
    );

    let items = feed.items()?;
    let items = items.unwrap();
    assert_eq!(items.len(), 1);

    assert_eq!(items[0].id()?, Some("2bcb497d-c40b-4493-b5ae-bc63c74b48fa"));
    assert_eq!(
        items[0].content_html()?,
        Some("Vestibulum non magna vitae tortor.")
    );
    assert_eq!(items[0].url()?, Some("https://example.org/vestibulum-non"));

    let extension_value = items[0].as_map().get("_extension");
    assert_eq!(extension_value, Some(&json("1")));

    Ok(())
}

#[test]
fn write_extensions() -> Result<(), Error> {
    let mut feed = Feed::new();
    feed.set_version(Version::Version1_1.as_ref());
    feed.set_title("Lorem ipsum dolor sit amet.");
    feed.as_map_mut().insert(
        String::from("_example"),
        json(r#"{ "id": "cd7f0673-8e81-4e13-b273-4bd1b83967d0" }"#),
    );

    let mut item = Item::new();
    item.set_id("invalid-id");
    item.set_content_html("Vestibulum non magna vitae tortor.");
    item.set_url("https://example.org/vestibulum-non");
    item.as_map_mut()
        .insert(String::from("_extension"), json("1"));

    let items = vec![item];
    feed.set_items(items);

    let item = &mut feed.items_mut()?.unwrap()[0];
    item.set_id("2bcb497d-c40b-4493-b5ae-bc63c74b48fa");

    assert!(feed.is_valid(&Version::Version1_1));

    let expected_json = json(
        r#"{
            "version": "https://jsonfeed.org/version/1.1",
            "title": "Lorem ipsum dolor sit amet.",
            "_example": {
                "id": "cd7f0673-8e81-4e13-b273-4bd1b83967d0"
            },
            "items": [
                {
                    "id": "2bcb497d-c40b-4493-b5ae-bc63c74b48fa",
                    "content_html": "Vestibulum non magna vitae tortor.",
                    "url": "https://example.org/vestibulum-non",
                    "_extension": 1
                }
            ]
        }"#,
    );
    assert_eq!(feed, from_value(expected_json.clone())?);
    assert_eq!(
        serde_json::to_value(feed.clone().into_inner())?,
        expected_json
    );

    let output = serde_json::to_string(feed.as_map());
    assert!(output.is_ok());

    Ok(())
}

#[test]
fn is_valid_version_forward_compatible() {
    let json = json(
        r#"{
            "version": "https://jsonfeed.org/version/1",
            "title": "Lorem ipsum dolor sit amet.",
            "items": [
                {
                    "id": "2bcb497d-c40b-4493-b5ae-bc63c74b48fa",
                    "content_html": "Vestibulum non magna vitae tortor.",
                    "url": "https://example.org/vestibulum-non"
                }
            ]
        }"#,
    );
    let feed = from_value(json).unwrap();

    assert!(feed.is_valid(&Version::Version1_1));
    assert!(feed.is_valid(&Version::Version1));
}

#[test]
fn is_valid_version_backward_compatible() {
    let json = json(
        r#"{
            "version": "https://jsonfeed.org/version/1.1",
            "title": "Lorem ipsum dolor sit amet.",
            "items": [
                {
                    "id": "2bcb497d-c40b-4493-b5ae-bc63c74b48fa",
                    "content_html": "Vestibulum non magna vitae tortor.",
                    "url": "https://example.org/vestibulum-non"
                }
            ]
        }"#,
    );
    let feed = from_value(json).unwrap();

    assert!(feed.is_valid(&Version::Version1_1));
    assert!(!feed.is_valid(&Version::Version1));
}

trait ExampleExtension {
    fn example(&self) -> Result<Option<&str>, Error>;

    fn set_example(&mut self, value: &str) -> Option<Value>;
}

impl ExampleExtension for Feed {
    fn example(&self) -> Result<Option<&str>, Error> {
        self.as_map().get("_example").map_or_else(
            || Ok(None),
            |value| match value {
                Value::String(s) => Ok(Some(s.as_str())),
                _ => Err(Error::UnexpectedType),
            },
        )
    }

    fn set_example(&mut self, value: &str) -> Option<Value> {
        self.as_map_mut()
            .insert(String::from("_example"), Value::String(value.to_string()))
    }
}

#[test]
fn custom_extension_trait() -> Result<(), Error> {
    let mut feed = Feed::new();
    feed.set_version(Version::Version1_1.as_ref());
    feed.set_title("Lorem ipsum dolor sit amet.");

    feed.set_example("123456");

    let mut item = Item::new();
    item.set_id("2bcb497d-c40b-4493-b5ae-bc63c74b48fa");
    item.set_content_text("Vestibulum non magna vitae tortor.");
    item.set_url("https://example.org/vestibulum-non");

    feed.set_items(vec![item]);

    assert!(feed.is_valid(&Version::Version1_1));

    let expected_json = json(
        r#"{
            "version": "https://jsonfeed.org/version/1.1",
            "title": "Lorem ipsum dolor sit amet.",
            "_example": "123456",
            "items": [
                {
                    "id": "2bcb497d-c40b-4493-b5ae-bc63c74b48fa",
                    "content_text": "Vestibulum non magna vitae tortor.",
                    "url": "https://example.org/vestibulum-non"
                }
            ]
        }"#,
    );
    assert_eq!(feed, from_value(expected_json)?);

    assert_eq!(feed.example()?, Some("123456"));

    let output = serde_json::to_string(feed.as_map());
    assert!(output.is_ok());

    Ok(())
}

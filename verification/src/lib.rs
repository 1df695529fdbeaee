//! A typed model of JSON Feed documents over `serde_json` values.
//!
//! A feed, its items, authors, hubs and attachments are JSON objects. Each
//! kind has three types over one object: one that owns it (`Feed`), one that
//! borrows it (`FeedRef`), and one that borrows it mutably (`FeedMut`). All
//! three read the declared fields with the same meaning; the first and the
//! last also write them. `is_valid` decides whether an object complies with
//! a version of the format.
//!
//! Every function carries a contract over the document it works on, and
//! Verus proves each body against it. What is assumed of `serde_json` is
//! gathered in [`json`].

pub mod attachment;
pub mod author;
pub mod decode;
pub mod error;
pub mod feed;
pub mod field;
pub mod hub;
pub mod item;
pub mod json;
pub mod laws;
mod spelling;
pub mod validate;
pub mod version;

pub use attachment::{Attachment, AttachmentMut, AttachmentRef};
pub use author::{Author, AuthorMut, AuthorRef};
pub use decode::{from_slice, from_str, from_value};
pub use error::Error;
pub use feed::{Feed, FeedMut, FeedRef};
pub use hub::{Hub, HubMut, HubRef};
pub use item::{Item, ItemMut, ItemRef};
pub use validate::{are_keys_valid, is_extension_key};
pub use version::{Version, VERSION_1, VERSION_1_1};

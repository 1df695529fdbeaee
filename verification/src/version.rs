//! The revisions of the feed format, and how a feed's declared revision
//! relates to the revision it is validated against.

use crate::json::same_text;
use vstd::prelude::*;
use vstd::std_specs::convert::FromSpecImpl;

verus! {

/// Version 1 identifier (for 1.0 feeds).
pub const VERSION_1: &'static str = "https://jsonfeed.org/version/1";

/// Version 1.1 identifier.
pub const VERSION_1_1: &'static str = "https://jsonfeed.org/version/1.1";

/// A version identifier of the feed format.
#[derive(Debug, PartialEq, Eq)]
pub enum Version<'a> {
    /// `https://jsonfeed.org/version/1`
    Version1,
    /// `https://jsonfeed.org/version/1.1`
    Version1_1,
    /// An unknown version, with the text that named it.
    Unknown(&'a str),
}

impl<'a> Version<'a> {
    /// The identifier that this version is written as.
    pub open spec fn text(self) -> Seq<char> {
        match self {
            Version::Version1 => VERSION_1@,
            Version::Version1_1 => VERSION_1_1@,
            Version::Unknown(v) => v@,
        }
    }

    /// Whether this is one of the two revisions that feeds are validated
    /// against.
    pub open spec fn is_recognized(self) -> bool {
        !(self is Unknown)
    }

    /// The identifier as an owned string.
    pub fn to_string(&self) -> (r: String)
        ensures
            r@ == self.text(),
    {
        self.as_ref().to_owned()
    }
}

/// The version that an identifier names: one of the two known revisions
/// where the text is exactly its identifier, otherwise unknown with the
/// text kept.
pub open spec fn version_named<'a>(value: &'a str) -> Version<'a> {
    if value@ == VERSION_1@ {
        Version::Version1
    } else if value@ == VERSION_1_1@ {
        Version::Version1_1
    } else {
        Version::Unknown(value)
    }
}

/// Whether a feed that declares `declared` as its version may validate
/// against `target`. A feed of the earlier revision passes for both
/// revisions, a feed of the later revision only for the later one. Nothing
/// passes for an unknown target, and an unknown declared version passes for
/// no target.
pub open spec fn version_compatible(declared: Seq<char>, target: Version<'_>) -> bool {
    match target {
        Version::Version1 => declared == VERSION_1@,
        Version::Version1_1 => declared == VERSION_1@ || declared == VERSION_1_1@,
        Version::Unknown(_) => false,
    }
}

impl<'a> Clone for Version<'a> {
    fn clone(&self) -> (r: Self)
        ensures
            r == *self,
    {
        match self {
            Version::Version1 => Version::Version1,
            Version::Version1_1 => Version::Version1_1,
            Version::Unknown(v) => Version::Unknown(v),
        }
    }
}

impl<'a> AsRef<str> for Version<'a> {
    fn as_ref(&self) -> (r: &str)
        ensures
            r@ == self.text(),
    {
        match self {
            Version::Version1 => VERSION_1,
            Version::Version1_1 => VERSION_1_1,
            Version::Unknown(v) => v,
        }
    }
}

impl<'a> From<&'a str> for Version<'a> {
    fn from(value: &'a str) -> (r: Self) {
        if same_text(value, VERSION_1) {
            Version::Version1
        } else if same_text(value, VERSION_1_1) {
            Version::Version1_1
        } else {
            Version::Unknown(value)
        }
    }
}

impl<'a> FromSpecImpl<&'a str> for Version<'a> {
    open spec fn obeys_from_spec() -> bool {
        true
    }

    open spec fn from_spec(value: &'a str) -> Self {
        version_named(value)
    }
}

/// Decides [`version_compatible`] for a declared version.
pub fn is_compatible(declared: &str, target: &Version<'_>) -> (ok: bool)
    ensures
        ok == version_compatible(declared@, *target),
{
    match Version::from(declared) {
        Version::Unknown(_) => false,
        Version::Version1 => match target {
            Version::Version1 | Version::Version1_1 => true,
            Version::Unknown(_) => false,
        },
        Version::Version1_1 => match target {
            Version::Version1 | Version::Unknown(_) => false,
            Version::Version1_1 => true,
        },
    }
}

/// The two identifiers differ, so each names a revision of its own.
pub proof fn lemma_identifiers_differ()
    ensures
        VERSION_1@ != VERSION_1_1@,
{
    reveal_strlit("https://jsonfeed.org/version/1");
    reveal_strlit("https://jsonfeed.org/version/1.1");
    assert(VERSION_1@.len() != VERSION_1_1@.len());
}

} // verus!

//! The profile of a user: a name, and optionally a text and a picture.

use crate::text::text_of;
use vstd::prelude::*;
use vstd::string::StringExecFns;

verus! {

/// What a [`NostrMetadata`] holds, as plain text.
pub struct NostrMetadataView {
    pub name: Seq<char>,
    pub about: Option<Seq<char>>,
    pub picture: Option<Seq<char>>,
}

/// A user's profile.
#[derive(Debug)]
pub struct NostrMetadata {
    pub name: String,
    pub about: Option<String>,
    pub picture: Option<String>,
}

impl View for NostrMetadata {
    type V = NostrMetadataView;

    open spec fn view(&self) -> NostrMetadataView {
        NostrMetadataView {
            name: self.name@,
            about: text_of(self.about),
            picture: text_of(self.picture),
        }
    }
}

/// A copy of an optional string.
fn clone_text(s: &Option<String>) -> (r: Option<String>)
    ensures
        text_of(r) == text_of(*s),
{
    match s {
        Some(t) => Some(t.clone()),
        None => None,
    }
}

impl Clone for NostrMetadata {
    fn clone(&self) -> (r: Self)
        ensures
            r@ == self@,
    {
        NostrMetadata {
            name: self.name.clone(),
            about: clone_text(&self.about),
            picture: clone_text(&self.picture),
        }
    }
}

impl NostrMetadata {
    /// A profile made of the three values given.
    pub fn new(name: String, about: Option<String>, picture: Option<String>) -> (r: Self)
        ensures
            r.name == name,
            r.about == about,
            r.picture == picture,
            r@ == (NostrMetadataView {
                name: name@,
                about: text_of(about),
                picture: text_of(picture),
            }),
    {
        Self { name, about, picture }
    }

    /// The profile with another name.
    pub fn with_name(self, name: String) -> (r: Self)
        ensures
            r.name == name,
            r.about == self.about,
            r.picture == self.picture,
    {
        Self { name, about: self.about, picture: self.picture }
    }

    /// The profile with another text about the user.
    pub fn with_about(self, about: String) -> (r: Self)
        ensures
            r.name == self.name,
            r.about == Some(about),
            r.picture == self.picture,
    {
        Self { name: self.name, about: Some(about), picture: self.picture }
    }

    /// The profile with another picture.
    pub fn with_picture(self, picture: String) -> (r: Self)
        ensures
            r.name == self.name,
            r.about == self.about,
            r.picture == Some(picture),
    {
        Self { name: self.name, about: self.about, picture: Some(picture) }
    }
}

impl Default for NostrMetadata {
    /// The profile of a user who has not given a name: "Anon", nothing else.
    fn default() -> (r: Self)
        ensures
            r@ == (NostrMetadataView { name: "Anon"@, about: None, picture: None }),
    {
        Self { name: String::from_str("Anon"), about: None, picture: None }
    }
}

} // verus!

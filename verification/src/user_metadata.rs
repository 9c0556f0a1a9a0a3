//! The profile of the user as the annotator holds it: what was last
//! received or published, and what the user has changed since.

use crate::nostr_metadata::{NostrMetadata, NostrMetadataView};
use vstd::prelude::*;

verus! {

/// What a [`UserMetadataStore`] holds, as plain values.
pub struct StoreView {
    pub metadata: Option<NostrMetadataView>,
    pub signed: bool,
}

/// What a [`UserMetadataAction`] holds, as plain values.
pub enum MetadataActionView {
    SetMetadata(NostrMetadataView),
    UpdateName(Seq<char>),
    UpdateAbout(Seq<char>),
    UpdatePicture(Seq<char>),
}

/// An action on the profile.
#[derive(Debug)]
pub enum UserMetadataAction {
    /// A signed profile was received or published.
    SetMetadata(NostrMetadata),
    /// The user changed the name.
    UpdateName(String),
    /// The user changed the text about themselves.
    UpdateAbout(String),
    /// The user changed the picture.
    UpdatePicture(String),
}

impl View for UserMetadataAction {
    type V = MetadataActionView;

    open spec fn view(&self) -> MetadataActionView {
        match self {
            UserMetadataAction::SetMetadata(m) => MetadataActionView::SetMetadata(m@),
            UserMetadataAction::UpdateName(name) => MetadataActionView::UpdateName(name@),
            UserMetadataAction::UpdateAbout(about) => MetadataActionView::UpdateAbout(about@),
            UserMetadataAction::UpdatePicture(picture) => MetadataActionView::UpdatePicture(
                picture@,
            ),
        }
    }
}

/// The store after `action`. A profile that is set is signed. A change by
/// the user counts only where there is a profile to change, and leaves a
/// profile that is not signed yet.
pub open spec fn store_after(s: StoreView, action: MetadataActionView) -> StoreView {
    match action {
        MetadataActionView::SetMetadata(m) => StoreView { metadata: Some(m), signed: true },
        MetadataActionView::UpdateName(name) => match s.metadata {
            Some(m) => StoreView {
                metadata: Some(NostrMetadataView { name, ..m }),
                signed: false,
            },
            None => s,
        },
        MetadataActionView::UpdateAbout(about) => match s.metadata {
            Some(m) => StoreView {
                metadata: Some(NostrMetadataView { about: Some(about), ..m }),
                signed: false,
            },
            None => s,
        },
        MetadataActionView::UpdatePicture(picture) => match s.metadata {
            Some(m) => StoreView {
                metadata: Some(NostrMetadataView { picture: Some(picture), ..m }),
                signed: false,
            },
            None => s,
        },
    }
}

/// The profile of the user, if there is one, and whether it is signed.
#[derive(Debug)]
pub struct UserMetadataStore {
    metadata: Option<NostrMetadata>,
    signed: bool,
}

impl View for UserMetadataStore {
    type V = StoreView;

    closed spec fn view(&self) -> StoreView {
        StoreView {
            metadata: match self.metadata {
                Some(m) => Some(m@),
                None => None,
            },
            signed: self.signed,
        }
    }
}

impl Clone for UserMetadataStore {
    fn clone(&self) -> (r: Self)
        ensures
            r@ == self@,
    {
        let metadata = match &self.metadata {
            Some(m) => Some(m.clone()),
            None => None,
        };
        UserMetadataStore { metadata, signed: self.signed }
    }
}

impl UserMetadataStore {
    /// A store that holds `metadata` as a signed profile, or nothing.
    pub fn new(metadata: Option<NostrMetadata>) -> (s: UserMetadataStore)
        ensures
            s@.metadata == (match metadata {
                Some(m) => Some(m@),
                None => None,
            }),
            s@.signed == metadata.is_some(),
    {
        let signed = metadata.is_some();
        UserMetadataStore { metadata, signed }
    }

    /// The profile, if there is one.
    pub fn get_metadata(&self) -> (m: Option<NostrMetadata>)
        ensures
            m.is_some() == self@.metadata.is_some(),
            m matches Some(profile) ==> self@.metadata == Some(profile@),
    {
        match &self.metadata {
            Some(m) => Some(m.clone()),
            None => None,
        }
    }

    /// Whether the profile is signed: it was set and has not been changed
    /// by the user since.
    pub fn is_signed(&self) -> (b: bool)
        ensures
            b == self@.signed,
    {
        self.signed
    }

    /// The store after `action`: see [`store_after`].
    pub fn reduce(self, action: UserMetadataAction) -> (s: UserMetadataStore)
        ensures
            s@ == store_after(self@, action@),
    {
        match action {
            UserMetadataAction::SetMetadata(m) => UserMetadataStore {
                metadata: Some(m),
                signed: true,
            },
            UserMetadataAction::UpdateName(name) => match self.metadata {
                Some(m) => UserMetadataStore { metadata: Some(m.with_name(name)), signed: false },
                None => UserMetadataStore { metadata: None, signed: self.signed },
            },
            UserMetadataAction::UpdateAbout(about) => match self.metadata {
                Some(m) => UserMetadataStore { metadata: Some(m.with_about(about)), signed: false },
                None => UserMetadataStore { metadata: None, signed: self.signed },
            },
            UserMetadataAction::UpdatePicture(picture) => match self.metadata {
                Some(m) => UserMetadataStore {
                    metadata: Some(m.with_picture(picture)),
                    signed: false,
                },
                None => UserMetadataStore { metadata: None, signed: self.signed },
            },
        }
    }
}

} // verus!

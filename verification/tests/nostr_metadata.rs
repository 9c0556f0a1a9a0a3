use annotator::startup::screen_for;
use annotator::{NostrMetadata, Screen, UserMetadataAction, UserMetadataStore};

#[test]
fn new_keeps_the_three_values() {
    let m = NostrMetadata::new(
        "Alice".to_string(),
        Some("plays the Sicilian".to_string()),
        None,
    );
    assert_eq!(m.name, "Alice");
    assert_eq!(m.about.as_deref(), Some("plays the Sicilian"));
    assert_eq!(m.picture, None);
}

#[test]
fn default_is_anon() {
    let m = NostrMetadata::default();
    assert_eq!(m.name, "Anon");
    assert_eq!(m.about, None);
    assert_eq!(m.picture, None);
}

#[test]
fn updates_touch_one_field() {
    let m = NostrMetadata::default()
        .with_name("Bob".to_string())
        .with_about("hello".to_string())
        .with_picture("https://example.org/b.png".to_string());
    assert_eq!(m.name, "Bob");
    assert_eq!(m.about.as_deref(), Some("hello"));
    assert_eq!(m.picture.as_deref(), Some("https://example.org/b.png"));
}

#[test]
fn a_store_without_profile_ignores_changes() {
    let store = UserMetadataStore::new(None);
    assert!(store.get_metadata().is_none());
    assert!(!store.is_signed());
    let store = store.reduce(UserMetadataAction::UpdateName("Bob".to_string()));
    assert!(store.get_metadata().is_none());
    assert!(!store.is_signed());
}

#[test]
fn a_change_replaces_one_field_and_unsigns_the_profile() {
    let store = UserMetadataStore::new(Some(NostrMetadata::default()));
    assert!(store.is_signed());
    let store = store.reduce(UserMetadataAction::UpdateName("Bob".to_string()));
    assert!(!store.is_signed());
    let store = store
        .reduce(UserMetadataAction::UpdateAbout("hello".to_string()))
        .reduce(UserMetadataAction::UpdatePicture("b.png".to_string()));
    let copy = store.clone();
    let m = store.get_metadata().unwrap();
    assert_eq!((m.name.as_str(), m.about.as_deref(), m.picture.as_deref()), ("Bob", Some("hello"), Some("b.png")));
    assert_eq!(copy.get_metadata().unwrap().name, "Bob");
    let store = store.reduce(UserMetadataAction::SetMetadata(NostrMetadata::new(
        "Carol".to_string(),
        None,
        None,
    )));
    assert!(store.is_signed());
    let m = store.get_metadata().unwrap();
    assert_eq!((m.name.as_str(), m.about, m.picture), ("Carol", None, None));
}

#[test]
fn the_screen_follows_what_is_loaded() {
    assert_eq!(screen_for(false, false, false), Screen::Splash);
    assert_eq!(screen_for(true, false, true), Screen::Splash);
    assert_eq!(screen_for(false, true, true), Screen::Splash);
    assert_eq!(screen_for(true, true, false), Screen::Login);
    assert_eq!(screen_for(true, true, true), Screen::Annotator);
}

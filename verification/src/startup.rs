//! What the annotator shows while it starts.

use vstd::prelude::*;

verus! {

/// What is on the screen.
#[derive(Clone, Copy, Debug, PartialEq, Eq, Structural, Hash)]
pub enum Screen {
    /// The keys or the settings are still being loaded.
    Splash,
    /// Everything is loaded, and no user is known.
    Login,
    /// Everything is loaded, and the user is known.
    Annotator,
}

/// The screen for what has been loaded and found.
pub open spec fn screen_of(keys_loaded: bool, settings_loaded: bool, has_identity: bool) -> Screen {
    if !(keys_loaded && settings_loaded) {
        Screen::Splash
    } else if has_identity {
        Screen::Annotator
    } else {
        Screen::Login
    }
}

/// The screen to show: the splash screen until the keys and the settings
/// are loaded, then the login page for a user without identity and the
/// annotator for one with it.
pub fn screen_for(keys_loaded: bool, settings_loaded: bool, has_identity: bool) -> (s: Screen)
    ensures
        s == screen_of(keys_loaded, settings_loaded, has_identity),
{
    if !(keys_loaded && settings_loaded) {
        Screen::Splash
    } else if has_identity {
        Screen::Annotator
    } else {
        Screen::Login
    }
}

} // verus!

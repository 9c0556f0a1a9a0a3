//! The settings of the annotator: language, experience level and the side
//! from which the board is seen.

use vstd::prelude::*;
use vstd::string::StringExecFns;

verus! {

/// How the user enters moves.
#[derive(Clone, Copy, Debug, PartialEq, Eq, Structural, Hash)]
pub enum ExperienceLevel {
    /// Step by step: piece, square, move.
    Rookie,
    /// By typed notation.
    Expert,
}

impl ExperienceLevel {
    /// The word that stands for the level.
    pub open spec fn spec_name(self) -> Seq<char> {
        match self {
            ExperienceLevel::Rookie => "rookie"@,
            ExperienceLevel::Expert => "expert"@,
        }
    }

    /// The word that stands for the level: `rookie` or `expert`.
    pub fn as_str(self) -> (s: &'static str)
        ensures
            s@ == self.spec_name(),
    {
        match self {
            ExperienceLevel::Rookie => "rookie",
            ExperienceLevel::Expert => "expert",
        }
    }
}

impl Default for ExperienceLevel {
    fn default() -> (r: Self)
        ensures
            r == ExperienceLevel::Rookie,
    {
        ExperienceLevel::Rookie
    }
}

/// The language of the texts.
#[derive(Clone, Copy, Debug, PartialEq, Eq, Structural, Hash)]
pub enum Language {
    English,
    Spanish,
    Portuguese,
}

impl Default for Language {
    fn default() -> (r: Self)
        ensures
            r == Language::English,
    {
        Language::English
    }
}

/// The side from which the board is seen.
#[derive(Clone, Copy, Debug, PartialEq, Eq, Structural, Hash)]
pub enum BoardPlayingSide {
    White,
    Black,
}

impl Default for BoardPlayingSide {
    fn default() -> (r: Self)
        ensures
            r == BoardPlayingSide::White,
    {
        BoardPlayingSide::White
    }
}

/// The three settings.
#[derive(Clone, Copy, Debug, PartialEq, Eq, Structural, Hash)]
pub struct Settings {
    pub language: Language,
    pub experience_level: ExperienceLevel,
    pub playing_as: BoardPlayingSide,
}

/// The settings as they are stored, under a key.
#[derive(Debug)]
pub struct AnnotatorConfigurationEntry {
    id: String,
    pub language: Language,
    pub experience_level: ExperienceLevel,
    pub playing_as: BoardPlayingSide,
}

impl AnnotatorConfigurationEntry {
    /// The key under which the settings are stored.
    pub closed spec fn spec_key(&self) -> Seq<char> {
        self.id@
    }

    /// The three settings of the entry.
    pub closed spec fn spec_settings(&self) -> Settings {
        Settings {
            language: self.language,
            experience_level: self.experience_level,
            playing_as: self.playing_as,
        }
    }

    /// The three settings of the entry.
    #[verifier::when_used_as_spec(spec_settings)]
    pub fn settings(&self) -> (s: Settings)
        ensures
            s == self.spec_settings(),
    {
        Settings {
            language: self.language,
            experience_level: self.experience_level,
            playing_as: self.playing_as,
        }
    }

    /// The entry that stores `settings` under the key `app_config`.
    pub fn new(settings: Settings) -> (r: Self)
        ensures
            r.settings() == settings,
            r.spec_key() == "app_config"@,
    {
        AnnotatorConfigurationEntry {
            id: String::from_str("app_config"),
            language: settings.language,
            experience_level: settings.experience_level,
            playing_as: settings.playing_as,
        }
    }

    /// The entry that was read from the store under the key `id`.
    pub fn stored(id: String, settings: Settings) -> (r: Self)
        ensures
            r.settings() == settings,
            r.spec_key() == id@,
    {
        AnnotatorConfigurationEntry {
            id,
            language: settings.language,
            experience_level: settings.experience_level,
            playing_as: settings.playing_as,
        }
    }

    /// The key under which the settings are stored.
    pub fn key(&self) -> (s: &str)
        ensures
            s@ == self.spec_key(),
    {
        self.id.as_str()
    }
}

impl Default for AnnotatorConfigurationEntry {
    /// English, rookie, seen from White, under the key `app_config`.
    fn default() -> (r: Self)
        ensures
            r.settings() == (Settings {
                language: Language::English,
                experience_level: ExperienceLevel::Rookie,
                playing_as: BoardPlayingSide::White,
            }),
            r.spec_key() == "app_config"@,
    {
        AnnotatorConfigurationEntry::new(
            Settings {
                language: Language::English,
                experience_level: ExperienceLevel::Rookie,
                playing_as: BoardPlayingSide::White,
            },
        )
    }
}

/// The settings in use, and whether they have been loaded.
#[derive(Clone, Copy, Debug, PartialEq, Eq, Structural, Hash)]
pub struct AnnotatorConfig {
    pub loaded: bool,
    pub language: Language,
    pub experience_level: ExperienceLevel,
    pub playing_as: BoardPlayingSide,
}

impl AnnotatorConfig {
    /// The three settings in use.
    pub open spec fn settings(self) -> Settings {
        Settings {
            language: self.language,
            experience_level: self.experience_level,
            playing_as: self.playing_as,
        }
    }
}

impl Default for AnnotatorConfig {
    /// Not loaded; English, rookie, seen from White.
    fn default() -> (r: Self)
        ensures
            r == (AnnotatorConfig {
                loaded: false,
                language: Language::English,
                experience_level: ExperienceLevel::Rookie,
                playing_as: BoardPlayingSide::White,
            }),
    {
        AnnotatorConfig {
            loaded: false,
            language: Language::English,
            experience_level: ExperienceLevel::Rookie,
            playing_as: BoardPlayingSide::White,
        }
    }
}

/// What an [`AnnotatorConfigAction`] holds, as plain values.
pub enum ConfigActionView {
    Loaded,
    LoadConfig { key: Seq<char>, settings: Settings },
    SetLanguage(Language),
    SetExperienceLevel(ExperienceLevel),
    SetPlayingAs(BoardPlayingSide),
}

/// An action on the settings.
#[derive(Debug)]
pub enum AnnotatorConfigAction {
    /// Loading ended without stored settings.
    Loaded,
    /// Stored settings were read.
    LoadConfig(AnnotatorConfigurationEntry),
    SetLanguage(Language),
    SetExperienceLevel(ExperienceLevel),
    SetPlayingAs(BoardPlayingSide),
}

impl View for AnnotatorConfigAction {
    type V = ConfigActionView;

    open spec fn view(&self) -> ConfigActionView {
        match self {
            AnnotatorConfigAction::Loaded => ConfigActionView::Loaded,
            AnnotatorConfigAction::LoadConfig(entry) => ConfigActionView::LoadConfig {
                key: entry.spec_key(),
                settings: entry.settings(),
            },
            AnnotatorConfigAction::SetLanguage(language) => ConfigActionView::SetLanguage(
                *language,
            ),
            AnnotatorConfigAction::SetExperienceLevel(level) => {
                ConfigActionView::SetExperienceLevel(*level)
            },
            AnnotatorConfigAction::SetPlayingAs(side) => ConfigActionView::SetPlayingAs(*side),
        }
    }
}

/// The settings after `action`. Reading stored settings, or finding none,
/// marks the settings as loaded; setting one value leaves the others. The
/// key under which settings were stored plays no part.
pub open spec fn config_after(c: AnnotatorConfig, action: ConfigActionView) -> AnnotatorConfig {
    match action {
        ConfigActionView::Loaded => AnnotatorConfig { loaded: true, ..c },
        ConfigActionView::LoadConfig { key: _, settings } => AnnotatorConfig {
            loaded: true,
            language: settings.language,
            experience_level: settings.experience_level,
            playing_as: settings.playing_as,
        },
        ConfigActionView::SetLanguage(language) => AnnotatorConfig { language, ..c },
        ConfigActionView::SetExperienceLevel(experience_level) => AnnotatorConfig {
            experience_level,
            ..c
        },
        ConfigActionView::SetPlayingAs(playing_as) => AnnotatorConfig { playing_as, ..c },
    }
}

/// Whether `action` changes a setting by the user's hand, so that the new
/// settings are to be stored.
pub open spec fn to_be_stored(action: ConfigActionView) -> bool {
    match action {
        ConfigActionView::Loaded => false,
        ConfigActionView::LoadConfig { .. } => false,
        _ => true,
    }
}

impl AnnotatorConfig {
    /// The settings after `action`, and the entry to store where the user
    /// changed a setting: it holds the new settings under the key
    /// `app_config`.
    pub fn reduce(self, action: AnnotatorConfigAction) -> (r: (
        AnnotatorConfig,
        Option<AnnotatorConfigurationEntry>,
    ))
        ensures
            r.0 == config_after(self, action@),
            r.1.is_some() == to_be_stored(action@),
            r.1.is_some() ==> r.1.unwrap().settings() == r.0.settings() && r.1.unwrap().spec_key()
                == "app_config"@,
    {
        match action {
            AnnotatorConfigAction::Loaded => (AnnotatorConfig { loaded: true, ..self }, None),
            AnnotatorConfigAction::LoadConfig(entry) => (
                AnnotatorConfig {
                    loaded: true,
                    language: entry.language,
                    experience_level: entry.experience_level,
                    playing_as: entry.playing_as,
                },
                None,
            ),
            AnnotatorConfigAction::SetLanguage(language) => {
                let next = AnnotatorConfig { language, ..self };
                (next, Some(next.entry()))
            },
            AnnotatorConfigAction::SetExperienceLevel(experience_level) => {
                let next = AnnotatorConfig { experience_level, ..self };
                (next, Some(next.entry()))
            },
            AnnotatorConfigAction::SetPlayingAs(playing_as) => {
                let next = AnnotatorConfig { playing_as, ..self };
                (next, Some(next.entry()))
            },
        }
    }

    /// The entry that stores the settings in use.
    pub fn entry(self) -> (e: AnnotatorConfigurationEntry)
        ensures
            e.settings() == self.settings(),
            e.spec_key() == "app_config"@,
    {
        AnnotatorConfigurationEntry::new(
            Settings {
                language: self.language,
                experience_level: self.experience_level,
                playing_as: self.playing_as,
            },
        )
    }
}

} // verus!

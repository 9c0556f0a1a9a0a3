//! Game state and move resolution for a chess annotation tool.
//!
//! A game is recorded ply by ply. The position history and the game record
//! move together through [`AnnotatedGame::reduce`]. Two resolvers narrow the
//! legal moves of the current position down to one move that can be played:
//! [`ExpertResolver`] by typed notation, [`RookieResolver`] by piece, origin
//! square and move. The rules of chess themselves come from `shakmaty`.

pub mod calendar;
pub mod chess;
pub mod configs;
pub mod details;
pub mod expert;
pub mod filters;
pub mod live_game;
pub mod nostr_metadata;
pub mod position;
pub mod record;
pub mod relays;
pub mod resolver;
pub mod rookie;
pub mod rules;
pub mod startup;
pub mod text;
pub mod user_metadata;

pub use calendar::Date;
pub use chess::{Color, Move, Outcome, Role, Square};
pub use configs::{
    AnnotatorConfig, AnnotatorConfigAction, AnnotatorConfigurationEntry, BoardPlayingSide,
    ExperienceLevel, Language, Settings,
};
pub use details::{DetailsView, GameDetails};
pub use expert::{ExpertResolver, ExpertView};
pub use live_game::{ActionView, AnnotatedGame, AnnotatedGameAction, GameView};
pub use nostr_metadata::{NostrMetadata, NostrMetadataView};
pub use position::Position;
pub use record::{GameRecord, RecordView, Turn, TurnView};
pub use relays::ConnectionQuality;
pub use resolver::{Resolver, ResolverView};
pub use rookie::{RookieResolver, RookieView, Stage};
pub use startup::Screen;
pub use user_metadata::{UserMetadataAction, UserMetadataStore};

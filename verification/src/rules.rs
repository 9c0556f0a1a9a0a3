//! The rules of chess, as `shakmaty` gives them.
//!
//! A position crosses this boundary as its FEN text and a move as a
//! [`Move`]. Nothing in this file is proved: each function states what the
//! call into `shakmaty` returns, by a name for the result. Every function
//! answers `None` where the text describes no position of standard chess.

use crate::chess::{Color, Move, Outcome};
use crate::text::text_of;
use shakmaty::fen::Fen;
use shakmaty::san::SanPlus;
use shakmaty::uci::UciMove;
use shakmaty::{CastlingMode, Chess, EnPassantMode, Position};
use vstd::prelude::*;

verus! {

/// The moves that an optional list holds.
pub open spec fn moves_of(v: Option<Vec<Move>>) -> Option<Seq<Move>> {
    match v {
        Some(l) => Some(l@),
        None => None,
    }
}

/// The legal moves of the position that `fen` describes, in the order in
/// which the engine lists them.
pub uninterp spec fn engine_legal_moves(fen: Seq<char>) -> Option<Seq<Move>>;

/// The FEN of the position that the engine reaches from `fen` by the move
/// with the origin, target and promotion of `m`; `None` also where the
/// engine does not accept such a move there.
pub uninterp spec fn engine_play(fen: Seq<char>, m: Move) -> Option<Seq<char>>;

/// The notation that the engine writes for the move with the origin, target
/// and promotion of `m` in the position `fen`, check and mate signs
/// included; `None` also where the engine does not accept such a move there.
pub uninterp spec fn engine_notation(fen: Seq<char>, m: Move) -> Option<Seq<char>>;

/// The result of the game in the position `fen`; `None` also while the game
/// is not over.
pub uninterp spec fn engine_outcome(fen: Seq<char>) -> Option<Outcome>;

/// The side to move in the position `fen`.
pub uninterp spec fn engine_turn(fen: Seq<char>) -> Option<Color>;

/// Calls `shakmaty::Position::legal_moves` on the position parsed from `fen`
/// and hands each move out by its role, origin, target and promotion, as the
/// numbers that `shakmaty` gives to its roles (1 to 6) and squares (0 to
/// 63). The result is the one named by [`engine_legal_moves`].
#[verifier::external_body]
pub(crate) fn legal_moves_at(fen: &str) -> (r: Option<Vec<Move>>)
    ensures
        moves_of(r) == engine_legal_moves(fen@),
        r matches Some(v) ==> forall|i: int| 0 <= i < v@.len() ==> (#[trigger] v@[i]).well_coded(),
{
    let parsed = Fen::from_ascii(fen.as_bytes()).ok()?;
    let pos: Chess = parsed.into_position(CastlingMode::Standard).ok()?;
    Some(pos.legal_moves().iter().map(|m| Move {
        role: u8::from(m.role()),
        from: m.from().map(u8::from),
        to: u8::from(m.to()),
        promotion: m.promotion().map(u8::from),
    }).collect())
}

/// Calls `shakmaty::Position::play` on the position parsed from `fen`, with
/// the move that `shakmaty::uci::UciMove::to_move` finds there for the
/// origin, target and promotion of `m`, and writes the new position as FEN.
/// The result is the one named by [`engine_play`].
#[verifier::external_body]
pub(crate) fn play_at(fen: &str, m: Move) -> (r: Option<String>)
    ensures
        text_of(r) == engine_play(fen@, m),
{
    let parsed = Fen::from_ascii(fen.as_bytes()).ok()?;
    let pos: Chess = parsed.into_position(CastlingMode::Standard).ok()?;
    let uci = UciMove::Normal {
        from: shakmaty::Square::try_from(m.from?).ok()?,
        to: shakmaty::Square::try_from(m.to).ok()?,
        promotion: m.promotion.map(shakmaty::Role::try_from).transpose().ok()?,
    };
    let next = pos.clone().play(&uci.to_move(&pos).ok()?).ok()?;
    Some(Fen::from_position(next, EnPassantMode::Legal).to_string())
}

/// Calls `shakmaty::san::SanPlus::from_move` on the position parsed from
/// `fen`, with the move that `shakmaty::uci::UciMove::to_move` finds there
/// for the origin, target and promotion of `m`, and writes it out. The
/// result is the one named by [`engine_notation`].
#[verifier::external_body]
pub(crate) fn notation_at(fen: &str, m: Move) -> (r: Option<String>)
    ensures
        text_of(r) == engine_notation(fen@, m),
{
    let parsed = Fen::from_ascii(fen.as_bytes()).ok()?;
    let pos: Chess = parsed.into_position(CastlingMode::Standard).ok()?;
    let uci = UciMove::Normal {
        from: shakmaty::Square::try_from(m.from?).ok()?,
        to: shakmaty::Square::try_from(m.to).ok()?,
        promotion: m.promotion.map(shakmaty::Role::try_from).transpose().ok()?,
    };
    let found = uci.to_move(&pos).ok()?;
    Some(SanPlus::from_move(pos, &found).to_string())
}

/// Calls `shakmaty::Position::outcome` on the position parsed from `fen`.
/// The result is the one named by [`engine_outcome`]. As that function is
/// written for standard chess, a game without legal moves is over, and a
/// game is won only without legal moves, by the side that is not to move.
#[verifier::external_body]
pub(crate) fn outcome_at(fen: &str) -> (r: Option<Outcome>)
    ensures
        r == engine_outcome(fen@),
        engine_legal_moves(fen@) == Some(Seq::<Move>::empty()) ==> r.is_some(),
        r matches Some(Outcome::Decisive { winner }) ==> engine_legal_moves(fen@) == Some(
            Seq::<Move>::empty(),
        ) && engine_turn(fen@) == Some(winner.spec_other()),
{
    let parsed = Fen::from_ascii(fen.as_bytes()).ok()?;
    let pos: Chess = parsed.into_position(CastlingMode::Standard).ok()?;
    match pos.outcome()? {
        shakmaty::Outcome::Draw => Some(Outcome::Draw),
        shakmaty::Outcome::Decisive { winner: shakmaty::Color::White } => {
            Some(Outcome::Decisive { winner: Color::White })
        },
        shakmaty::Outcome::Decisive { winner: shakmaty::Color::Black } => {
            Some(Outcome::Decisive { winner: Color::Black })
        },
    }
}

/// Calls `shakmaty::Position::turn` on the position parsed from `fen`. The
/// result is the one named by [`engine_turn`].
#[verifier::external_body]
pub(crate) fn turn_at(fen: &str) -> (r: Option<Color>)
    ensures
        r == engine_turn(fen@),
{
    let parsed = Fen::from_ascii(fen.as_bytes()).ok()?;
    let pos: Chess = parsed.into_position(CastlingMode::Standard).ok()?;
    match pos.turn() {
        shakmaty::Color::White => Some(Color::White),
        shakmaty::Color::Black => Some(Color::Black),
    }
}

} // verus!

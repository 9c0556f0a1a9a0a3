//! The record of a game: who played, when and where, the moves in notation,
//! and the result.

use crate::calendar::Date;
use crate::chess::{Color, Outcome};
use crate::text::{lemma_texts_drop_last, lemma_texts_push, text_of, texts};
use chrono::NaiveDate;
use rooky_core::pgn_standards::{PgnEvent, PgnRound, PgnSite};
use rooky_core::RookyGame;
use shakmaty::san::SanPlus;
use vstd::prelude::*;

verus! {

/// What a [`GameRecord`] holds, as plain values.
pub struct RecordView {
    pub white: Seq<char>,
    pub black: Seq<char>,
    pub date: Date,
    pub event: Option<Seq<char>>,
    pub site: Option<Seq<char>>,
    pub round: Option<Seq<char>>,
    pub moves: Seq<Seq<char>>,
    pub outcome: Option<Outcome>,
}

/// The record of a game that has not begun: no names, a casual game, no
/// moves and no result.
pub open spec fn empty_record(date: Date) -> RecordView {
    RecordView {
        white: Seq::empty(),
        black: Seq::empty(),
        date,
        event: None,
        site: None,
        round: None,
        moves: Seq::empty(),
        outcome: None,
    }
}

/// The record of a game. A player without a name has the empty name. The
/// event, the site and the round are `None` for a casual game, which names
/// none, and hold the name otherwise.
#[derive(Debug)]
pub struct GameRecord {
    pub white: String,
    pub black: String,
    pub date: Date,
    pub event: Option<String>,
    pub site: Option<String>,
    pub round: Option<String>,
    pub moves: Vec<String>,
    pub outcome: Option<Outcome>,
}

impl View for GameRecord {
    type V = RecordView;

    open spec fn view(&self) -> RecordView {
        RecordView {
            white: self.white@,
            black: self.black@,
            date: self.date,
            event: text_of(self.event),
            site: text_of(self.site),
            round: text_of(self.round),
            moves: texts(self.moves@),
            outcome: self.outcome,
        }
    }
}

/// One numbered turn of a game, as plain values: the move of White and,
/// where Black has answered, the move of Black.
pub struct TurnView {
    pub number: nat,
    pub white: Seq<char>,
    pub black: Option<Seq<char>>,
}

/// One numbered turn of a game.
#[derive(Debug)]
pub struct Turn {
    pub number: usize,
    pub white: String,
    pub black: Option<String>,
}

impl View for Turn {
    type V = TurnView;

    open spec fn view(&self) -> TurnView {
        TurnView { number: self.number as nat, white: self.white@, black: text_of(self.black) }
    }
}

/// The turns of a list, as plain values.
pub open spec fn turn_views(turns: Seq<Turn>) -> Seq<TurnView> {
    Seq::new(turns.len(), |i: int| turns[i]@)
}

/// The moves of a game in turns: two moves to a turn, numbered from 1. The
/// last turn has no move of Black where the number of moves is odd.
pub open spec fn turns_of(moves: Seq<Seq<char>>) -> Seq<TurnView> {
    Seq::new(
        (moves.len() + 1) / 2,
        |i: int|
            TurnView {
                number: (i + 1) as nat,
                white: moves[2 * i],
                black: if 2 * i + 1 < moves.len() {
                    Some(moves[2 * i + 1])
                } else {
                    None
                },
            },
    )
}

/// The text that stands for a result in movetext: `1-0`, `0-1` or
/// `1/2-1/2`.
pub open spec fn score_of(result: Outcome) -> Seq<char> {
    match result {
        Outcome::Decisive { winner: Color::White } => "1-0"@,
        Outcome::Decisive { winner: Color::Black } => "0-1"@,
        Outcome::Draw => "1/2-1/2"@,
    }
}

/// The movetext that `rooky_core` writes for a game with the names, date,
/// details and moves of `record` and with the result that `score` stands
/// for: the seven tags, then the numbered moves, then the result. `None`
/// where a move is not written in notation, the date names no day or the
/// score stands for no result.
pub uninterp spec fn rooky_movetext(record: RecordView, score: Seq<char>) -> Option<Seq<char>>;

/// Calls `rooky_core::RookyGame::to_pgn` on a game made of the fields of
/// `record`: each move read by `shakmaty::san::SanPlus::from_ascii`, the date
/// by `chrono::NaiveDate::from_ymd_opt`, the result by
/// `shakmaty::Outcome::from_ascii` from `score`, and an event, site or round
/// without a name as the value that `rooky_core` starts a game with. The
/// result is the one named by [`rooky_movetext`].
#[verifier::external_body]
fn movetext_from(record: &GameRecord, score: &str) -> (r: Option<String>)
    ensures
        text_of(r) == rooky_movetext(record@, score@),
{
    let date = record.date;
    let moves = record.moves.iter().map(|s| SanPlus::from_ascii(s.as_bytes()));
    Some(RookyGame {
        event: record.event.clone().map_or(PgnEvent::Casual, PgnEvent::Named),
        site: record.site.clone().map_or(PgnSite::Unknown, PgnSite::Named),
        round: record.round.clone().map_or(PgnRound::Unknown, PgnRound::Named),
        date: NaiveDate::from_ymd_opt(date.year, date.month, date.day)?,
        white: record.white.clone(),
        black: record.black.clone(),
        outcome: shakmaty::Outcome::from_ascii(score.as_bytes()).ok()?,
        moves: moves.collect::<Result<_, _>>().ok()?,
    }.to_pgn())
}

/// The movetext of a record: there is one once the game has a result.
pub open spec fn movetext_of(record: RecordView) -> Option<Seq<char>> {
    match record.outcome {
        Some(result) => rooky_movetext(record, score_of(result)),
        None => None,
    }
}

/// The text by which a result is written in movetext.
pub fn score(result: Outcome) -> (s: &'static str)
    ensures
        s@ == score_of(result),
{
    match result {
        Outcome::Decisive { winner: Color::White } => "1-0",
        Outcome::Decisive { winner: Color::Black } => "0-1",
        Outcome::Draw => "1/2-1/2",
    }
}

/// A copy of an optional string.
fn clone_text(s: &Option<String>) -> (r: Option<String>)
    ensures
        text_of(r) == text_of(*s),
{
    match s {
        Some(t) => Some(t.clone()),
        None => None,
    }
}

impl Clone for GameRecord {
    fn clone(&self) -> (r: Self)
        ensures
            r@ == self@,
    {
        let mut moves: Vec<String> = Vec::new();
        let mut i: usize = 0;
        while i < self.moves.len()
            invariant
                i <= self.moves.len(),
                moves@.len() == i,
                forall|k: int| 0 <= k < i ==> moves@[k]@ == self.moves@[k]@,
            decreases self.moves.len() - i,
        {
            moves.push(self.moves[i].clone());
            i += 1;
        }
        assert(texts(moves@) =~= texts(self.moves@));
        GameRecord {
            white: self.white.clone(),
            black: self.black.clone(),
            date: self.date,
            event: clone_text(&self.event),
            site: clone_text(&self.site),
            round: clone_text(&self.round),
            moves,
            outcome: self.outcome,
        }
    }
}

impl GameRecord {
    /// The record of a game that has not begun, dated `date`.
    pub fn new(date: Date) -> (r: GameRecord)
        ensures
            r@ == empty_record(date),
    {
        let r = GameRecord {
            white: String::new(),
            black: String::new(),
            date,
            event: None,
            site: None,
            round: None,
            moves: Vec::new(),
            outcome: None,
        };
        assert(texts(r.moves@) =~= Seq::<Seq<char>>::empty());
        r
    }

    /// The record with White named `name`.
    pub fn add_white_name(self, name: String) -> (r: GameRecord)
        ensures
            r@ == (RecordView { white: name@, ..self@ }),
    {
        GameRecord { white: name, ..self }
    }

    /// The record with Black named `name`.
    pub fn add_black_name(self, name: String) -> (r: GameRecord)
        ensures
            r@ == (RecordView { black: name@, ..self@ }),
    {
        GameRecord { black: name, ..self }
    }

    /// The record dated `date`.
    pub fn add_date(self, date: Date) -> (r: GameRecord)
        ensures
            r@ == (RecordView { date, ..self@ }),
    {
        GameRecord { date, ..self }
    }

    /// The record with the event named `event`.
    pub fn add_event(self, event: String) -> (r: GameRecord)
        ensures
            r@ == (RecordView { event: Some(event@), ..self@ }),
    {
        GameRecord { event: Some(event), ..self }
    }

    /// The record with the site named `site`.
    pub fn add_site(self, site: String) -> (r: GameRecord)
        ensures
            r@ == (RecordView { site: Some(site@), ..self@ }),
    {
        GameRecord { site: Some(site), ..self }
    }

    /// The record with the round named `round`.
    pub fn add_round(self, round: String) -> (r: GameRecord)
        ensures
            r@ == (RecordView { round: Some(round@), ..self@ }),
    {
        GameRecord { round: Some(round), ..self }
    }

    /// The record with the result `result`, whatever result it had.
    pub fn add_result(self, result: Outcome) -> (r: GameRecord)
        ensures
            r@ == (RecordView { outcome: Some(result), ..self@ }),
    {
        GameRecord { outcome: Some(result), ..self }
    }

    /// The record without a result.
    pub fn clear_result(self) -> (r: GameRecord)
        ensures
            r@ == (RecordView { outcome: None, ..self@ }),
    {
        GameRecord { outcome: None, ..self }
    }

    /// The record with one more move, written `notation`.
    pub fn new_move(self, notation: String) -> (r: GameRecord)
        ensures
            r@ == (RecordView { moves: self@.moves.push(notation@), ..self@ }),
    {
        let mut r = self;
        proof {
            lemma_texts_push(r.moves@, notation);
        }
        r.moves.push(notation);
        r
    }

    /// Takes the last move off the record and hands it out; `None`, and
    /// nothing changes, where the record has no move.
    pub fn take_back(&mut self) -> (taken: Option<String>)
        ensures
            old(self)@.moves.len() == 0 ==> taken.is_none() && final(self)@ == old(self)@,
            old(self)@.moves.len() > 0 ==> text_of(taken) == Some(old(self)@.moves.last())
                && final(self)@ == (RecordView {
                moves: old(self)@.moves.drop_last(),
                ..old(self)@
            }),
    {
        proof {
            if self.moves@.len() > 0 {
                lemma_texts_drop_last(self.moves@);
            }
        }
        self.moves.pop()
    }

    /// Whether nothing has been entered yet: no player is named and no move
    /// is recorded.
    pub fn is_blank(&self) -> (b: bool)
        ensures
            b == (self@.white.len() == 0 && self@.black.len() == 0 && self@.moves.len() == 0),
    {
        self.white.as_str().is_empty() && self.black.as_str().is_empty() && self.moves.len() == 0
    }

    /// Whether both players are named.
    pub fn has_both_names(&self) -> (b: bool)
        ensures
            b == (self@.white.len() > 0 && self@.black.len() > 0),
    {
        !self.white.as_str().is_empty() && !self.black.as_str().is_empty()
    }

    /// The moves in numbered turns, as a move list shows them.
    pub fn turns(&self) -> (out: Vec<Turn>)
        ensures
            turn_views(out@) == turns_of(self@.moves),
    {
        let n = self.moves.len();
        let count = n / 2 + n % 2;
        let mut out: Vec<Turn> = Vec::new();
        let mut t: usize = 0;
        while t < count
            invariant
                n == self.moves@.len(),
                count == (n + 1) / 2,
                t <= count,
                out@.len() == t,
                forall|k: int| 0 <= k < out@.len() ==> (#[trigger] out@[k])@ == turns_of(self@.moves)[k],
            decreases count - t,
        {
            let white = self.moves[2 * t].clone();
            let black = if 2 * t + 1 < n {
                Some(self.moves[2 * t + 1].clone())
            } else {
                None
            };
            out.push(Turn { number: t + 1, white, black });
            t += 1;
        }
        assert(turn_views(out@) =~= turns_of(self@.moves));
        out
    }

    /// The movetext of the game: the tags for event, site, round, date,
    /// White, Black and result, then the numbered moves and the result.
    /// There is none before the game has a result.
    pub fn to_pgn(&self) -> (r: Option<String>)
        ensures
            text_of(r) == movetext_of(self@),
    {
        match self.outcome {
            Some(result) => movetext_from(self, score(result)),
            None => None,
        }
    }
}

} // verus!

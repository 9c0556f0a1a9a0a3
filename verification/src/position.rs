//! A position of a game, known by its FEN text and questioned through the
//! rules engine.

use crate::chess::{Color, Move, Outcome};
use crate::filters::{distinct, lemma_distinct};
use crate::rules::{
    engine_legal_moves, engine_notation, engine_outcome, engine_play, engine_turn, legal_moves_at,
    notation_at, outcome_at, play_at, turn_at,
};
use vstd::prelude::*;
use vstd::string::StringExecFns;

verus! {

/// The FEN text of the position from which every game starts.
pub open spec fn initial_fen() -> Seq<char> {
    "rnbqkbnr/pppppppp/8/8/8/8/PPPPPPPP/RNBQKBNR w KQkq - 0 1"@
}

/// Whether `fen` describes a position of standard chess.
pub open spec fn described(fen: Seq<char>) -> bool {
    engine_legal_moves(fen).is_some()
}

/// The legal moves in the position `fen`: the moves that the engine lists,
/// each once, in the order in which it first lists them; none where `fen`
/// describes no position.
pub open spec fn legal_moves_of(fen: Seq<char>) -> Seq<Move> {
    match engine_legal_moves(fen) {
        Some(moves) => distinct(moves),
        None => Seq::empty(),
    }
}

/// The legal moves of a position are a set in a fixed order: no move is
/// among them twice. A move is among them exactly where the engine lists
/// it.
pub proof fn lemma_legal_moves_listed_once(fen: Seq<char>)
    ensures
        legal_moves_of(fen).no_duplicates(),
        forall|i: int, j: int|
            0 <= i < j < legal_moves_of(fen).len() ==> legal_moves_of(fen)[i] != legal_moves_of(
                fen,
            )[j],
        forall|m: Move|
            #[trigger] legal_moves_of(fen).contains(m) <==> (engine_legal_moves(fen) matches Some(
                listed,
            ) && listed.contains(m)),
{
    match engine_legal_moves(fen) {
        Some(listed) => {
            lemma_distinct(listed);
        },
        None => {},
    }
}

/// The notation of `m` in the position `fen`; empty where the engine writes
/// none.
pub open spec fn notation_of(fen: Seq<char>, m: Move) -> Seq<char> {
    match engine_notation(fen, m) {
        Some(text) => text,
        None => Seq::empty(),
    }
}

/// The position that follows `fen` by `m`: there is one where `m` is among
/// the legal moves of `fen` and the engine plays it.
pub open spec fn successor_of(fen: Seq<char>, m: Move) -> Option<Seq<char>> {
    if legal_moves_of(fen).contains(m) {
        engine_play(fen, m)
    } else {
        None
    }
}

/// The result of the game in the position `fen`, `None` while it goes on.
pub open spec fn outcome_of(fen: Seq<char>) -> Option<Outcome> {
    engine_outcome(fen)
}

/// The side to move in the position `fen`; White where `fen` describes no
/// position.
pub open spec fn turn_of(fen: Seq<char>) -> Color {
    match engine_turn(fen) {
        Some(color) => color,
        None => Color::White,
    }
}

/// Whether notation tells the legal moves of the position `fen` apart: no
/// two places of the list of legal moves hold the same notation.
pub open spec fn notation_identifies(fen: Seq<char>) -> bool {
    forall|i: int, j: int|
        #![trigger legal_moves_of(fen)[i], legal_moves_of(fen)[j]]
        0 <= i < j < legal_moves_of(fen).len() ==> notation_of(fen, legal_moves_of(fen)[i])
            != notation_of(fen, legal_moves_of(fen)[j])
}

/// Where notation tells the legal moves apart, two legal moves with the
/// same notation are one move, and no move is listed twice.
pub proof fn lemma_notation_identifies(fen: Seq<char>, a: Move, b: Move)
    requires
        notation_identifies(fen),
        legal_moves_of(fen).contains(a),
        legal_moves_of(fen).contains(b),
        notation_of(fen, a) == notation_of(fen, b),
    ensures
        a == b,
        legal_moves_of(fen).no_duplicates(),
{
    let moves = legal_moves_of(fen);
    let i = choose|i: int| 0 <= i < moves.len() && moves[i] == a;
    let j = choose|j: int| 0 <= j < moves.len() && moves[j] == b;
    if i < j {
        assert(notation_of(fen, moves[i]) != notation_of(fen, moves[j]));
    } else if j < i {
        assert(notation_of(fen, moves[j]) != notation_of(fen, moves[i]));
    }
    assert forall|x: int, y: int| 0 <= x < moves.len() && 0 <= y < moves.len() && x != y implies moves[x]
        != moves[y] by {
        if x < y {
            assert(notation_of(fen, moves[x]) != notation_of(fen, moves[y]));
        } else {
            assert(notation_of(fen, moves[y]) != notation_of(fen, moves[x]));
        }
    }
}

/// Whether `m` occurs in `moves`.
pub fn contains_move(moves: &Vec<Move>, m: Move) -> (b: bool)
    ensures
        b == moves@.contains(m),
{
    let mut i: usize = 0;
    while i < moves.len()
        invariant
            i <= moves.len(),
            forall|k: int| 0 <= k < i ==> moves@[k] != m,
        decreases moves.len() - i,
    {
        if moves[i] == m {
            return true;
        }
        i += 1;
    }
    false
}

/// A position of a game. Its view is its FEN text.
#[derive(Debug)]
pub struct Position {
    fen: String,
}

impl View for Position {
    type V = Seq<char>;

    closed spec fn view(&self) -> Seq<char> {
        self.fen@
    }
}

impl Clone for Position {
    fn clone(&self) -> (r: Self)
        ensures
            r@ == self@,
    {
        Position { fen: self.fen.clone() }
    }
}

impl Position {
    /// The position from which every game starts.
    pub fn initial() -> (p: Position)
        ensures
            p@ == initial_fen(),
    {
        Position {
            fen: String::from_str("rnbqkbnr/pppppppp/8/8/8/8/PPPPPPPP/RNBQKBNR w KQkq - 0 1"),
        }
    }

    /// The FEN text of the position.
    pub fn fen(&self) -> (s: &str)
        ensures
            s@ == self@,
    {
        self.fen.as_str()
    }

    /// The legal moves in this position, in the order of the engine, each
    /// once. An empty list means that the game is over.
    pub fn legal_moves(&self) -> (moves: Vec<Move>)
        ensures
            moves@ == legal_moves_of(self@),
            moves@.no_duplicates(),
            forall|i: int| 0 <= i < moves@.len() ==> (#[trigger] moves@[i]).well_coded(),
    {
        match legal_moves_at(self.fen.as_str()) {
            Some(listed) => {
                let mut moves: Vec<Move> = Vec::new();
                proof {
                    assert(listed@.take(0) =~= Seq::<Move>::empty());
                }
                let mut i: usize = 0;
                while i < listed.len()
                    invariant
                        i <= listed.len(),
                        moves@ == distinct(listed@.take(i as int)),
                        forall|k: int| 0 <= k < listed@.len() ==> (#[trigger] listed@[k]).well_coded(),
                        forall|k: int| 0 <= k < moves@.len() ==> (#[trigger] moves@[k]).well_coded(),
                    decreases listed.len() - i,
                {
                    let m = listed[i];
                    proof {
                        let now = listed@.take(i as int + 1);
                        assert(now.drop_last() =~= listed@.take(i as int));
                        assert(now.last() == m);
                    }
                    if !contains_move(&moves, m) {
                        moves.push(m);
                    }
                    i += 1;
                }
                proof {
                    assert(listed@.take(listed.len() as int) =~= listed@);
                    lemma_distinct(listed@);
                }
                moves
            },
            None => Vec::new(),
        }
    }

    /// Whether `m` is a legal move in this position.
    pub fn is_legal(&self, m: Move) -> (b: bool)
        ensures
            b == legal_moves_of(self@).contains(m),
    {
        let moves = self.legal_moves();
        contains_move(&moves, m)
    }

    /// The notation of `m` in this position.
    pub fn notation(&self, m: Move) -> (text: String)
        ensures
            text@ == notation_of(self@, m),
    {
        match notation_at(self.fen.as_str(), m) {
            Some(text) => text,
            None => String::new(),
        }
    }

    /// Whether notation tells the legal moves of this position apart, so
    /// that a notation leads back to the one move it was written for.
    pub fn notation_identifies_moves(&self) -> (b: bool)
        ensures
            b == notation_identifies(self@),
    {
        let moves = self.legal_moves();
        let mut names: Vec<String> = Vec::new();
        let mut k: usize = 0;
        while k < moves.len()
            invariant
                k <= moves.len(),
                moves@ == legal_moves_of(self@),
                names@.len() == k,
                forall|x: int| 0 <= x < k ==> (#[trigger] names@[x])@ == notation_of(self@, moves@[x]),
            decreases moves.len() - k,
        {
            names.push(self.notation(moves[k]));
            k += 1;
        }
        let mut j: usize = 0;
        while j < names.len()
            invariant
                j <= names.len(),
                names@.len() == moves@.len(),
                moves@ == legal_moves_of(self@),
                forall|x: int| 0 <= x < names@.len() ==> (#[trigger] names@[x])@ == notation_of(self@, moves@[x]),
                forall|x: int, y: int|
                    #![trigger moves@[x], moves@[y]]
                    0 <= x < y < j ==> notation_of(self@, moves@[x]) != notation_of(
                        self@,
                        moves@[y],
                    ),
            decreases names.len() - j,
        {
            let mut i: usize = 0;
            while i < j
                invariant
                    i <= j,
                    j < names.len(),
                    names@.len() == moves@.len(),
                    moves@ == legal_moves_of(self@),
                    forall|x: int| 0 <= x < names@.len() ==> (#[trigger] names@[x])@ == notation_of(self@, moves@[x]),
                    forall|x: int|
                        0 <= x < i ==> notation_of(self@, #[trigger] moves@[x]) != notation_of(
                            self@,
                            moves@[j as int],
                        ),
                decreases j - i,
            {
                if names[i] == names[j] {
                    assert(notation_of(self@, legal_moves_of(self@)[i as int]) == notation_of(
                        self@,
                        legal_moves_of(self@)[j as int],
                    ));
                    return false;
                }
                i += 1;
            }
            j += 1;
        }
        true
    }

    /// The position after `m`, or `None` where `m` is not a legal move here.
    pub fn play(&self, m: Move) -> (next: Option<Position>)
        ensures
            match next {
                Some(p) => successor_of(self@, m) == Some(p@),
                None => successor_of(self@, m).is_none(),
            },
    {
        if !self.is_legal(m) {
            return None;
        }
        match play_at(self.fen.as_str(), m) {
            Some(fen) => Some(Position { fen }),
            None => None,
        }
    }

    /// The result of the game in this position, `None` while it goes on. A
    /// position without legal moves has a result, and a game is won only in
    /// a position without legal moves, by the side that is not to move.
    pub fn outcome(&self) -> (o: Option<Outcome>)
        ensures
            o == outcome_of(self@),
            described(self@) && legal_moves_of(self@).len() == 0 ==> o.is_some(),
            o matches Some(Outcome::Decisive { winner }) ==> legal_moves_of(self@).len() == 0
                && turn_of(self@) == winner.spec_other(),
    {
        proof {
            if described(self@) {
                lemma_distinct(engine_legal_moves(self@).unwrap());
                if legal_moves_of(self@).len() == 0 {
                    assert(engine_legal_moves(self@).unwrap() =~= Seq::<Move>::empty());
                }
            }
            assert(distinct(Seq::<Move>::empty()) =~= Seq::<Move>::empty());
        }
        outcome_at(self.fen.as_str())
    }

    /// The side to move.
    pub fn turn(&self) -> (c: Color)
        ensures
            c == turn_of(self@),
    {
        match turn_at(self.fen.as_str()) {
            Some(color) => color,
            None => Color::White,
        }
    }
}

} // verus!

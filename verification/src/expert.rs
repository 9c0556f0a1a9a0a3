//! Resolving a move from typed notation: each character narrows the legal
//! moves to those whose notation begins with what was typed.

use crate::chess::Move;
use crate::filters::{
    lemma_filter_all, lemma_filter_empty, lemma_filter_member, lemma_filter_no_duplicates,
    lemma_filter_one,
};
use crate::live_game::{played, well_formed, AnnotatedGame, GameView};
use crate::position::{lemma_legal_moves_listed_once, legal_moves_of, notation_of, Position};
use crate::text::{contains_char, starts_with};
use vstd::prelude::*;
use vstd::string::StringExecFns;

verus! {

/// What an [`ExpertResolver`] holds, as plain values.
pub struct ExpertView {
    pub input: Seq<char>,
    pub candidates: Seq<Move>,
    pub ready: Option<Move>,
}

/// The condition that `input` puts on a move of the position `fen`: its
/// notation begins with `input`.
pub open spec fn begins_with(fen: Seq<char>, input: Seq<char>) -> spec_fn(Move) -> bool {
    |m: Move| input.is_prefix_of(notation_of(fen, m))
}

/// The candidates for `input` in the position `fen`: the legal moves whose
/// notation begins with `input`, in the order of the legal moves.
pub open spec fn candidates_for(fen: Seq<char>, input: Seq<char>) -> Seq<Move> {
    legal_moves_of(fen).filter(begins_with(fen, input))
}

/// The move that is ready to be played: the only candidate, where there is
/// exactly one.
pub open spec fn sole(candidates: Seq<Move>) -> Option<Move> {
    if candidates.len() == 1 {
        Some(candidates[0])
    } else {
        None
    }
}

/// The state of a resolver that holds `input` in the position `fen`.
pub open spec fn resolved(fen: Seq<char>, input: Seq<char>) -> ExpertView {
    ExpertView {
        input,
        candidates: candidates_for(fen, input),
        ready: sole(candidates_for(fen, input)),
    }
}

/// Whether the character `c` can be typed in the position `fen`: it occurs
/// somewhere in the notation of some legal move.
pub open spec fn accepts(fen: Seq<char>, c: char) -> bool {
    exists|i: int|
        0 <= i < legal_moves_of(fen).len() && (#[trigger] notation_of(
            fen,
            legal_moves_of(fen)[i],
        )).contains(c)
}

/// The input after `c` is typed in the position `fen`: `c` is added where
/// it can be typed there, and dropped otherwise.
pub open spec fn typed(fen: Seq<char>, input: Seq<char>, c: char) -> Seq<char> {
    if accepts(fen, c) {
        input.push(c)
    } else {
        input
    }
}

/// The game after a resolver that holds `ready` is committed: the move it
/// holds as ready is asked for, so that it is played where it is a legal
/// move of the current position and dropped where it is not. With no move
/// ready the game stays.
pub open spec fn committed(g: GameView, ready: Option<Move>) -> GameView {
    match ready {
        Some(m) => played(g, m),
        None => g,
    }
}

/// A ready move that is no legal move of the current position any more is
/// dropped: the commit leaves the game as it was, whatever the typed text
/// would name in the current position.
pub proof fn lemma_stale_ready_dropped(g: GameView, m: Move)
    requires
        !legal_moves_of(g.positions.last()).contains(m),
    ensures
        committed(g, Some(m)) == g,
{
}

/// A commit plays the held move or nothing: the game afterwards is the game
/// before, or the game with that one move played.
pub proof fn lemma_commit_plays_held_move_only(g: GameView, ready: Option<Move>)
    ensures
        committed(g, ready) == g || (ready matches Some(m) && legal_moves_of(
            g.positions.last(),
        ).contains(m) && committed(g, ready) == played(g, m)),
{
}

/// With nothing typed, every legal move is a candidate.
pub proof fn lemma_empty_input_keeps_all(fen: Seq<char>)
    ensures
        candidates_for(fen, Seq::empty()) == legal_moves_of(fen),
        resolved(fen, Seq::empty()).candidates == legal_moves_of(fen),
{
    let moves = legal_moves_of(fen);
    let pred = begins_with(fen, Seq::empty());
    assert forall|i: int| 0 <= i < moves.len() implies pred(#[trigger] moves[i]) by {
        let notation = notation_of(fen, moves[i]);
        assert(notation.subrange(0, 0) =~= Seq::<char>::empty());
    }
    lemma_filter_all(moves, pred);
}

/// With the whole notation of a legal move typed, that move is the only
/// candidate and is ready, unless the notation of a legal move at another
/// place of the list begins with the same text.
pub proof fn lemma_full_notation_resolves(fen: Seq<char>, k: int)
    requires
        0 <= k < legal_moves_of(fen).len(),
        forall|j: int|
            0 <= j < legal_moves_of(fen).len() && j != k ==> !notation_of(
                fen,
                legal_moves_of(fen)[k],
            ).is_prefix_of(#[trigger] notation_of(fen, legal_moves_of(fen)[j])),
    ensures
        ({
            let m = legal_moves_of(fen)[k];
            let state = resolved(fen, notation_of(fen, m));
            state.candidates == seq![m] && state.ready == Some(m)
        }),
{
    let moves = legal_moves_of(fen);
    let input = notation_of(fen, moves[k]);
    let pred = begins_with(fen, input);
    assert(input.subrange(0, input.len() as int) =~= input);
    assert(pred(moves[k]));
    assert forall|j: int| 0 <= j < moves.len() && j != k implies !pred(#[trigger] moves[j]) by {
        assert(!input.is_prefix_of(notation_of(fen, moves[j])));
    }
    lemma_filter_one(moves, pred, k);
}

/// A candidate is a legal move of the position, and its notation begins
/// with the input; every such move is a candidate.
pub proof fn lemma_candidates_are_legal(fen: Seq<char>, input: Seq<char>, m: Move)
    ensures
        candidates_for(fen, input).contains(m) <==> legal_moves_of(fen).contains(m)
            && input.is_prefix_of(notation_of(fen, m)),
        resolved(fen, input).ready == Some(m) ==> legal_moves_of(fen).contains(m),
{
    lemma_filter_member(legal_moves_of(fen), begins_with(fen, input), m);
    let candidates = candidates_for(fen, input);
    if sole(candidates) == Some(m) {
        assert(candidates[0] == m);
        assert(candidates.contains(m));
    }
}

/// No move is a candidate twice.
pub proof fn lemma_candidates_listed_once(fen: Seq<char>, input: Seq<char>)
    ensures
        candidates_for(fen, input).no_duplicates(),
{
    lemma_legal_moves_listed_once(fen);
    lemma_filter_no_duplicates(legal_moves_of(fen), begins_with(fen, input));
}

/// Shortening the input never loses a candidate: every candidate for a
/// text is a candidate for each beginning of that text. So the candidates
/// that a longer input excluded are back once the input is shortened.
pub proof fn lemma_shorter_input_keeps_candidates(
    fen: Seq<char>,
    shorter: Seq<char>,
    longer: Seq<char>,
    m: Move,
)
    requires
        shorter.is_prefix_of(longer),
        candidates_for(fen, longer).contains(m),
    ensures
        candidates_for(fen, shorter).contains(m),
{
    lemma_candidates_are_legal(fen, longer, m);
    lemma_candidates_are_legal(fen, shorter, m);
    let notation = notation_of(fen, m);
    assert(shorter =~= notation.subrange(0, shorter.len() as int)) by {
        assert(longer == notation.subrange(0, longer.len() as int));
        assert(shorter == longer.subrange(0, shorter.len() as int));
    }
}

/// The candidates for `input` among the legal moves of `position`.
pub fn narrow(position: &Position, input: &str) -> (out: Vec<Move>)
    ensures
        out@ == candidates_for(position@, input@),
{
    let moves = position.legal_moves();
    let mut out: Vec<Move> = Vec::new();
    let ghost pred = begins_with(position@, input@);
    proof {
        lemma_filter_empty(pred);
        assert(moves@.take(0) =~= Seq::<Move>::empty());
    }
    let mut i: usize = 0;
    while i < moves.len()
        invariant
            i <= moves.len(),
            moves@ == legal_moves_of(position@),
            pred == begins_with(position@, input@),
            out@ == moves@.take(i as int).filter(pred),
        decreases moves.len() - i,
    {
        let m = moves[i];
        let notation = position.notation(m);
        let keep = starts_with(notation.as_str(), input);
        proof {
            moves@.take(i as int).lemma_filter_push(m, pred);
            assert(moves@.take(i as int + 1) =~= moves@.take(i as int).push(m));
        }
        if keep {
            out.push(m);
        }
        i += 1;
    }
    proof {
        assert(moves@.take(moves.len() as int) =~= moves@);
    }
    out
}

/// The notations of `moves` in the position `fen` as one line: a colon
/// and a space before the first, a comma and a space between two.
pub open spec fn listed(fen: Seq<char>, moves: Seq<Move>) -> Seq<char>
    decreases moves.len(),
{
    if moves.len() == 0 {
        Seq::empty()
    } else if moves.len() == 1 {
        ": "@ + notation_of(fen, moves[0])
    } else {
        listed(fen, moves.drop_last()) + ", "@ + notation_of(fen, moves.last())
    }
}

/// The notations of `moves` in `position` as one line, as the display shows
/// the candidates beside what was typed.
pub fn candidates_text(position: &Position, moves: &Vec<Move>) -> (line: String)
    ensures
        line@ == listed(position@, moves@),
{
    let mut line = String::new();
    let mut i: usize = 0;
    proof {
        assert(moves@.take(0) =~= Seq::<Move>::empty());
    }
    while i < moves.len()
        invariant
            i <= moves.len(),
            line@ == listed(position@, moves@.take(i as int)),
        decreases moves.len() - i,
    {
        let notation = position.notation(moves[i]);
        proof {
            let now = moves@.take(i as int + 1);
            assert(now.drop_last() =~= moves@.take(i as int));
            assert(now.last() == moves@[i as int]);
            assert(now[0] == moves@[0]);
        }
        if i == 0 {
            line.append(": ");
        } else {
            line.append(", ");
        }
        line.append(notation.as_str());
        i += 1;
    }
    proof {
        assert(moves@.take(moves.len() as int) =~= moves@);
    }
    line
}

/// The only move of `candidates`, where there is exactly one.
pub fn only(candidates: &Vec<Move>) -> (m: Option<Move>)
    ensures
        m == sole(candidates@),
{
    if candidates.len() == 1 {
        Some(candidates[0])
    } else {
        None
    }
}

/// Whether the character `c` can be typed in `position`: it occurs in the
/// notation of at least one legal move.
pub fn can_type(position: &Position, c: char) -> (b: bool)
    ensures
        b == accepts(position@, c),
{
    let moves = position.legal_moves();
    let mut i: usize = 0;
    while i < moves.len()
        invariant
            i <= moves.len(),
            moves@ == legal_moves_of(position@),
            forall|k: int| 0 <= k < i ==> !notation_of(position@, moves@[k]).contains(c),
        decreases moves.len() - i,
    {
        let notation = position.notation(moves[i]);
        if contains_char(notation.as_str(), c) {
            assert(notation_of(position@, legal_moves_of(position@)[i as int]).contains(c));
            return true;
        }
        i += 1;
    }
    false
}

/// A resolver that narrows the legal moves by typed notation.
#[derive(Debug)]
pub struct ExpertResolver {
    input: String,
    candidates: Vec<Move>,
    ready: Option<Move>,
}

impl View for ExpertResolver {
    type V = ExpertView;

    closed spec fn view(&self) -> ExpertView {
        ExpertView { input: self.input@, candidates: self.candidates@, ready: self.ready }
    }
}

impl ExpertResolver {
    /// A resolver for `position` with nothing typed: every legal move is a
    /// candidate.
    pub fn new(position: &Position) -> (r: ExpertResolver)
        ensures
            r@ == resolved(position@, Seq::empty()),
            r@.candidates == legal_moves_of(position@),
    {
        proof {
            lemma_empty_input_keeps_all(position@);
        }
        ExpertResolver::set_input(position, String::new())
    }

    /// A resolver for `position` that holds `input`. The candidates are
    /// made from the legal moves of `position` and from nothing else.
    pub fn set_input(position: &Position, input: String) -> (r: ExpertResolver)
        ensures
            r@ == resolved(position@, input@),
    {
        let candidates = narrow(position, input.as_str());
        let ready = only(&candidates);
        ExpertResolver { input, candidates, ready }
    }

    /// What has been typed.
    pub fn input(&self) -> (s: &str)
        ensures
            s@ == self@.input,
    {
        self.input.as_str()
    }

    /// The candidates: the moves that what has been typed can still become.
    pub fn candidates(&self) -> (v: &Vec<Move>)
        ensures
            v@ == self@.candidates,
    {
        &self.candidates
    }

    /// The move that is ready to be played, if the candidates are down to
    /// one.
    pub fn ready(&self) -> (m: Option<Move>)
        ensures
            m == self@.ready,
    {
        self.ready
    }

    /// The resolver after `position` has taken the place of the position it
    /// was made for: the same input, the candidates made anew.
    pub fn refresh(self, position: &Position) -> (r: ExpertResolver)
        ensures
            r@ == resolved(position@, self@.input),
    {
        ExpertResolver::set_input(position, self.input)
    }

    /// The resolver after the character `c` is typed: see [`typed`].
    pub fn type_char(self, position: &Position, c: char) -> (r: ExpertResolver)
        ensures
            r@ == resolved(position@, typed(position@, self@.input, c)),
    {
        let mut input = self.input;
        if can_type(position, c) {
            input.push(c);
        }
        ExpertResolver::set_input(position, input)
    }

    /// The resolver after the input is cancelled: nothing typed, every legal
    /// move a candidate again.
    pub fn cancel(self, position: &Position) -> (r: ExpertResolver)
        ensures
            r@ == resolved(position@, Seq::empty()),
            r@.candidates == legal_moves_of(position@),
    {
        ExpertResolver::new(position)
    }

    /// Commits to `game` the move that the resolver holds as ready. The move
    /// is checked against the legal moves of the current position of `game`:
    /// it is played where it is one of them, and dropped where the position
    /// has changed since and it is none. The typed text is not read again, so
    /// no other move is ever played in its place. The resolver that comes
    /// back has nothing typed and is made for the position that is current
    /// after the commit.
    pub fn commit(self, game: AnnotatedGame) -> (r: (ExpertResolver, AnnotatedGame))
        ensures
            r.1@ == committed(game@, self@.ready),
            self@.ready matches Some(m) ==> r.1@ == played(game@, m),
            self@.ready.is_none() ==> r.1@ == game@,
            self@.ready matches Some(m) && !legal_moves_of(game@.positions.last()).contains(m)
                ==> r.1@ == game@,
            well_formed(r.1@),
            r.0@ == resolved(r.1@.positions.last(), Seq::empty()),
    {
        let game = match self.ready {
            Some(m) => game.play_move(m),
            None => {
                let _ = game.position_count();
                game
            },
        };
        let resolver = ExpertResolver::new(&game.last_game_position());
        (resolver, game)
    }
}

} // verus!

//! The game being annotated: the positions reached so far, the record that
//! goes with them, and the actions that change both together.

use crate::calendar::Date;
use crate::chess::{Color, Move, Outcome};
use crate::position::{
    described, initial_fen, legal_moves_of, notation_of, outcome_of, successor_of, turn_of,
    Position,
};
use crate::record::{empty_record, GameRecord, RecordView};
use vstd::prelude::*;

verus! {

/// What an [`AnnotatedGame`] holds, as plain values: each position by its
/// FEN text, the first one first.
pub struct GameView {
    pub loaded: bool,
    pub positions: Seq<Seq<char>>,
    pub record: RecordView,
}

/// What an [`AnnotatedGameAction`] holds, as plain values.
pub enum ActionView {
    FinishedLoading,
    Reset,
    PlayMove(Move),
    TakeBack,
    AddOutcome(Outcome),
    AddWhiteName(Seq<char>),
    AddBlackName(Seq<char>),
    ChangeDate(Date),
    UpdateEventDetails { event: Seq<char>, site: Seq<char>, round: Seq<char> },
}

/// An action on the game.
#[derive(Debug)]
pub enum AnnotatedGameAction {
    /// The game has been loaded.
    FinishedLoading,
    /// Start a new game.
    Reset,
    /// Play a move in the current position.
    PlayMove(Move),
    /// Take the last move back.
    TakeBack,
    /// Set the result of the game.
    AddOutcome(Outcome),
    /// Name the player of the white pieces.
    AddWhiteName(String),
    /// Name the player of the black pieces.
    AddBlackName(String),
    /// Set the date of the game.
    ChangeDate(Date),
    /// Name the event, the site and the round.
    UpdateEventDetails { event: String, site: String, round: String },
}

impl View for AnnotatedGameAction {
    type V = ActionView;

    open spec fn view(&self) -> ActionView {
        match self {
            AnnotatedGameAction::FinishedLoading => ActionView::FinishedLoading,
            AnnotatedGameAction::Reset => ActionView::Reset,
            AnnotatedGameAction::PlayMove(m) => ActionView::PlayMove(*m),
            AnnotatedGameAction::TakeBack => ActionView::TakeBack,
            AnnotatedGameAction::AddOutcome(o) => ActionView::AddOutcome(*o),
            AnnotatedGameAction::AddWhiteName(name) => ActionView::AddWhiteName(name@),
            AnnotatedGameAction::AddBlackName(name) => ActionView::AddBlackName(name@),
            AnnotatedGameAction::ChangeDate(date) => ActionView::ChangeDate(*date),
            AnnotatedGameAction::UpdateEventDetails { event, site, round } => {
                ActionView::UpdateEventDetails { event: event@, site: site@, round: round@ }
            },
        }
    }
}

/// The FEN texts of a list of positions, in order.
pub open spec fn fens(positions: Seq<Position>) -> Seq<Seq<char>> {
    Seq::new(positions.len(), |i: int| positions[i]@)
}

/// Whether the legal move `m` leads from the position `before` to the
/// position `after` and is written `notation`.
pub open spec fn links(before: Seq<char>, m: Move, after: Seq<char>, notation: Seq<char>) -> bool {
    successor_of(before, m) == Some(after) && notation_of(before, m) == notation
}

/// Whether some legal move leads from the position at place `i` to the next
/// one and is recorded at place `i`.
pub open spec fn linked_at(g: GameView, i: int) -> bool {
    exists|m: Move| #[trigger] links(g.positions[i], m, g.positions[i + 1], g.record.moves[i])
}

/// What holds of every game: it starts from the initial position, it has
/// one position more than it has recorded moves, and each position but the
/// first comes from the one before it by a legal move, which the record
/// holds in notation at the same place.
pub open spec fn well_formed(g: GameView) -> bool {
    &&& g.positions.len() == g.record.moves.len() + 1
    &&& g.positions[0] == initial_fen()
    &&& forall|i: int| 0 <= i < g.record.moves.len() ==> #[trigger] linked_at(g, i)
}

/// The game after a reset on the day `today`: one position, the initial
/// one, and an empty record of that day. Whether the game was loaded stays.
pub open spec fn reset_of(g: GameView, today: Date) -> GameView {
    GameView { loaded: g.loaded, positions: seq![initial_fen()], record: empty_record(today) }
}

/// The game after the move `m` is asked for. Where `m` is a legal move of
/// the current position, the position after it is added, its notation is
/// added to the record, and where that position ends the game the record
/// gets its result. Otherwise nothing changes.
pub open spec fn played(g: GameView, m: Move) -> GameView {
    let current = g.positions.last();
    match successor_of(current, m) {
        Some(next) => GameView {
            loaded: g.loaded,
            positions: g.positions.push(next),
            record: RecordView {
                moves: g.record.moves.push(notation_of(current, m)),
                outcome: match outcome_of(next) {
                    Some(result) => Some(result),
                    None => g.record.outcome,
                },
                ..g.record
            },
        },
        None => g,
    }
}

/// The game after a move is taken back: the last position and the last
/// recorded move leave together, and the game has no result any more. With
/// only the initial position left, nothing changes.
pub open spec fn taken_back(g: GameView) -> GameView {
    if g.positions.len() <= 1 {
        g
    } else {
        GameView {
            loaded: g.loaded,
            positions: g.positions.drop_last(),
            record: RecordView { moves: g.record.moves.drop_last(), outcome: None, ..g.record },
        }
    }
}

/// The game after `action`, where `today` is the day on which it happens.
pub open spec fn step(g: GameView, action: ActionView, today: Date) -> GameView {
    match action {
        ActionView::FinishedLoading => GameView { loaded: true, ..g },
        ActionView::Reset => reset_of(g, today),
        ActionView::PlayMove(m) => played(g, m),
        ActionView::TakeBack => taken_back(g),
        ActionView::AddOutcome(result) => GameView {
            record: RecordView { outcome: Some(result), ..g.record },
            ..g
        },
        ActionView::AddWhiteName(name) => GameView {
            record: RecordView { white: name, ..g.record },
            ..g
        },
        ActionView::AddBlackName(name) => GameView {
            record: RecordView { black: name, ..g.record },
            ..g
        },
        ActionView::ChangeDate(date) => GameView { record: RecordView { date, ..g.record }, ..g },
        ActionView::UpdateEventDetails { event, site, round } => GameView {
            record: RecordView {
                event: Some(event),
                site: Some(site),
                round: Some(round),
                ..g.record
            },
            ..g
        },
    }
}

/// Whether the step from `before` to `after` ends the game: `before` had no
/// result and `after` has one.
pub open spec fn concludes(before: GameView, after: GameView) -> bool {
    before.record.outcome.is_none() && after.record.outcome.is_some()
}

/// A reset leaves a well-formed game.
pub proof fn lemma_reset_well_formed(g: GameView, today: Date)
    ensures
        well_formed(reset_of(g, today)),
{
}

/// Playing a move keeps a game well-formed.
pub proof fn lemma_played_well_formed(g: GameView, m: Move)
    requires
        well_formed(g),
    ensures
        well_formed(played(g, m)),
{
    let current = g.positions.last();
    let after = played(g, m);
    match successor_of(current, m) {
        Some(next) => {
            let n = g.record.moves.len() as int;
            assert forall|i: int| 0 <= i < after.record.moves.len() implies #[trigger] linked_at(
                after,
                i,
            ) by {
                if i < n {
                    assert(linked_at(g, i));
                    let x = choose|x: Move| #[trigger]
                        links(g.positions[i], x, g.positions[i + 1], g.record.moves[i]);
                    assert(links(after.positions[i], x, after.positions[i + 1], after.record.moves[i]));
                } else {
                    assert(links(after.positions[i], m, after.positions[i + 1], after.record.moves[i]));
                }
            }
        },
        None => {},
    }
}

/// Taking a move back keeps a game well-formed.
pub proof fn lemma_taken_back_well_formed(g: GameView)
    requires
        well_formed(g),
    ensures
        well_formed(taken_back(g)),
{
    let after = taken_back(g);
    if g.positions.len() > 1 {
        assert forall|i: int| 0 <= i < after.record.moves.len() implies #[trigger] linked_at(
            after,
            i,
        ) by {
            assert(linked_at(g, i));
            let x = choose|x: Move| #[trigger]
                links(g.positions[i], x, g.positions[i + 1], g.record.moves[i]);
            assert(links(after.positions[i], x, after.positions[i + 1], after.record.moves[i]));
        }
    }
}

/// Every action keeps a game well-formed: in every state that actions
/// reach, there is one position more than there are recorded moves.
pub proof fn lemma_step_well_formed(g: GameView, action: ActionView, today: Date)
    requires
        well_formed(g),
    ensures
        well_formed(step(g, action, today)),
        step(g, action, today).positions.len() == step(g, action, today).record.moves.len() + 1,
{
    match action {
        ActionView::Reset => lemma_reset_well_formed(g, today),
        ActionView::PlayMove(m) => lemma_played_well_formed(g, m),
        ActionView::TakeBack => lemma_taken_back_well_formed(g),
        _ => {
            let after = step(g, action, today);
            assert(after.positions == g.positions);
            assert(after.record.moves == g.record.moves);
            assert forall|i: int| 0 <= i < after.record.moves.len() implies #[trigger] linked_at(
                after,
                i,
            ) by {
                assert(linked_at(g, i));
                let x = choose|x: Move| #[trigger]
                    links(g.positions[i], x, g.positions[i + 1], g.record.moves[i]);
                assert(links(after.positions[i], x, after.positions[i + 1], after.record.moves[i]));
            }
        },
    }
}

/// The game with which an annotation starts on the day `today`: loaded, the
/// initial position, an empty record of that day.
pub open spec fn new_game(today: Date) -> GameView {
    GameView { loaded: true, positions: seq![initial_fen()], record: empty_record(today) }
}

/// The game after the actions of `steps`, each on its day, one after the
/// other.
pub open spec fn after_all(g: GameView, steps: Seq<(ActionView, Date)>) -> GameView
    decreases steps.len(),
{
    if steps.len() == 0 {
        g
    } else {
        step(after_all(g, steps.drop_last()), steps.last().0, steps.last().1)
    }
}

/// Whatever actions follow a new game, the game they reach is well-formed:
/// it has one position more than it has recorded moves.
pub proof fn lemma_reachable_well_formed(today: Date, steps: Seq<(ActionView, Date)>)
    ensures
        well_formed(after_all(new_game(today), steps)),
        after_all(new_game(today), steps).positions.len() == after_all(
            new_game(today),
            steps,
        ).record.moves.len() + 1,
        after_all(new_game(today), steps).positions.len() >= 1,
    decreases steps.len(),
{
    if steps.len() > 0 {
        lemma_reachable_well_formed(today, steps.drop_last());
        lemma_step_well_formed(
            after_all(new_game(today), steps.drop_last()),
            steps.last().0,
            steps.last().1,
        );
    }
}

/// A reset after a reset gives what the second reset alone gives; on one
/// day, resetting twice is resetting once.
pub proof fn lemma_reset_idempotent(g: GameView, first: Date, second: Date)
    ensures
        reset_of(reset_of(g, first), second) == reset_of(g, second),
        step(step(g, ActionView::Reset, first), ActionView::Reset, first) == step(
            g,
            ActionView::Reset,
            first,
        ),
{
}

/// Taking back with only the initial position left changes nothing.
pub proof fn lemma_take_back_at_floor(g: GameView, today: Date)
    requires
        g.positions.len() == 1,
    ensures
        step(g, ActionView::TakeBack, today) == g,
{
}

/// Asking for a move that is not legal in the current position changes
/// nothing.
pub proof fn lemma_illegal_move_ignored(g: GameView, m: Move, today: Date)
    requires
        !legal_moves_of(g.positions.last()).contains(m),
    ensures
        step(g, ActionView::PlayMove(m), today) == g,
{
}

/// Taking back removes one position and one recorded move together, or
/// neither.
pub proof fn lemma_take_back_atomic(g: GameView, today: Date)
    requires
        well_formed(g),
    ensures
        ({
            let after = step(g, ActionView::TakeBack, today);
            ||| after == g
            ||| (after.positions.len() == g.positions.len() - 1 && after.record.moves.len()
                == g.record.moves.len() - 1)
        }),
{
}

/// Taking back after a move undoes the move: where the move was played,
/// the positions and the recorded moves are those from before it, and the
/// game has no result; where it was not played, it had changed nothing.
pub proof fn lemma_take_back_undoes_play(g: GameView, m: Move)
    requires
        well_formed(g),
    ensures
        match successor_of(g.positions.last(), m) {
            Some(_) => taken_back(played(g, m)) == (GameView {
                record: RecordView { outcome: None, ..g.record },
                ..g
            }),
            None => played(g, m) == g,
        },
{
    match successor_of(g.positions.last(), m) {
        Some(next) => {
            assert(g.positions.push(next).drop_last() =~= g.positions);
            assert(g.record.moves.push(notation_of(g.positions.last(), m)).drop_last()
                =~= g.record.moves);
        },
        None => {},
    }
}

/// Whether `action` only changes what the record says about the game, or
/// marks it loaded: it is no move, no take-back and no reset.
pub open spec fn is_annotation(action: ActionView) -> bool {
    match action {
        ActionView::Reset => false,
        ActionView::PlayMove(_) => false,
        ActionView::TakeBack => false,
        _ => true,
    }
}

/// An action that only annotates leaves the positions and the recorded
/// moves alone.
pub proof fn lemma_annotation_keeps_positions(g: GameView, action: ActionView, today: Date)
    requires
        is_annotation(action),
    ensures
        step(g, action, today).positions == g.positions,
        step(g, action, today).record.moves == g.record.moves,
{
}

/// Setting the result twice leaves the result that was set last.
pub proof fn lemma_outcome_overwrites(g: GameView, first: Outcome, second: Outcome, today: Date)
    ensures
        step(step(g, ActionView::AddOutcome(first), today), ActionView::AddOutcome(second), today)
            == step(g, ActionView::AddOutcome(second), today),
{
}

/// The game being annotated.
#[derive(Debug)]
pub struct AnnotatedGame {
    has_loaded: bool,
    game_positions: Vec<Position>,
    pgn_game: GameRecord,
}

impl View for AnnotatedGame {
    type V = GameView;

    closed spec fn view(&self) -> GameView {
        GameView {
            loaded: self.has_loaded,
            positions: fens(self.game_positions@),
            record: self.pgn_game@,
        }
    }
}

impl Clone for AnnotatedGame {
    fn clone(&self) -> (r: Self)
        ensures
            r@ == self@,
    {
        proof {
            use_type_invariant(self);
        }
        let mut positions: Vec<Position> = Vec::new();
        let mut i: usize = 0;
        while i < self.game_positions.len()
            invariant
                i <= self.game_positions.len(),
                positions@.len() == i,
                forall|k: int| 0 <= k < i ==> positions@[k]@ == self.game_positions@[k]@,
            decreases self.game_positions.len() - i,
        {
            positions.push(self.game_positions[i].clone());
            i += 1;
        }
        assert(fens(positions@) =~= fens(self.game_positions@));
        AnnotatedGame {
            has_loaded: self.has_loaded,
            game_positions: positions,
            pgn_game: self.pgn_game.clone(),
        }
    }
}

impl AnnotatedGame {
    #[verifier::type_invariant]
    spec fn inv(self) -> bool {
        well_formed(self@)
    }

    /// A new game on the day `today`: the initial position, an empty record
    /// of that day, loaded.
    pub fn new(today: Date) -> (g: AnnotatedGame)
        ensures
            g@ == new_game(today),
            well_formed(g@),
    {
        let mut positions: Vec<Position> = Vec::new();
        positions.push(Position::initial());
        let g = AnnotatedGame {
            has_loaded: true,
            game_positions: positions,
            pgn_game: GameRecord::new(today),
        };
        assert(fens(g.game_positions@) =~= seq![initial_fen()]);
        g
    }

    /// Whether the game has been loaded.
    pub fn finished_loading(&self) -> (b: bool)
        ensures
            b == self@.loaded,
    {
        self.has_loaded
    }

    /// The number of positions reached so far, the initial one included: one
    /// more than the number of recorded moves.
    pub fn position_count(&self) -> (n: usize)
        ensures
            n == self@.positions.len(),
            n == self@.record.moves.len() + 1,
            well_formed(self@),
    {
        proof {
            use_type_invariant(self);
        }
        self.game_positions.len()
    }

    /// The current position: the last one reached.
    pub fn last_game_position(&self) -> (p: Position)
        ensures
            p@ == self@.positions.last(),
    {
        proof {
            use_type_invariant(self);
        }
        self.game_positions[self.game_positions.len() - 1].clone()
    }

    /// The record of the game.
    pub fn pgn_game(&self) -> (r: &GameRecord)
        ensures
            r@ == self@.record,
    {
        &self.pgn_game
    }

    /// The side to move in the current position.
    pub fn color_turn(&self) -> (c: Color)
        ensures
            c == turn_of(self@.positions.last()),
    {
        proof {
            use_type_invariant(self);
        }
        self.game_positions[self.game_positions.len() - 1].turn()
    }

    /// The legal moves of the current position, each once.
    pub fn legal_moves(&self) -> (moves: Vec<Move>)
        ensures
            moves@ == legal_moves_of(self@.positions.last()),
            moves@.no_duplicates(),
            forall|i: int| 0 <= i < moves@.len() ==> (#[trigger] moves@[i]).well_coded(),
    {
        proof {
            use_type_invariant(self);
        }
        self.game_positions[self.game_positions.len() - 1].legal_moves()
    }

    /// The game after a reset on the day `today`.
    pub fn reset_on(self, today: Date) -> (g: AnnotatedGame)
        ensures
            g@ == reset_of(self@, today),
            well_formed(g@),
    {
        let mut positions: Vec<Position> = Vec::new();
        positions.push(Position::initial());
        let g = AnnotatedGame {
            has_loaded: self.has_loaded,
            game_positions: positions,
            pgn_game: GameRecord::new(today),
        };
        assert(fens(g.game_positions@) =~= seq![initial_fen()]);
        g
    }

    /// The game after the move `m` is asked for: see [`played`]. Where the
    /// move is played and leaves the opponent without a legal move, the game
    /// has a result afterwards; and where it wins the game, the opponent is
    /// left without a legal move and the winner is the side that moved, the
    /// one that is not to move in the new position.
    pub fn play_move(self, m: Move) -> (g: AnnotatedGame)
        ensures
            g@ == played(self@, m),
            well_formed(g@),
            successor_of(self@.positions.last(), m) matches Some(next) ==> {
                &&& described(next) && legal_moves_of(next).len() == 0
                    ==> g@.record.outcome.is_some()
                &&& outcome_of(next) matches Some(Outcome::Decisive { winner })
                    ==> legal_moves_of(next).len() == 0 && turn_of(next) == winner.spec_other()
                    && g@.record.outcome == Some(Outcome::Decisive { winner })
            },
    {
        proof {
            use_type_invariant(&self);
            lemma_played_well_formed(self@, m);
        }
        let n = self.game_positions.len();
        let step = self.game_positions[n - 1].play(m);
        match step {
            None => self,
            Some(next) => {
                let notation = self.game_positions[n - 1].notation(m);
                let outcome = next.outcome();
                let ghost before = self@;
                let AnnotatedGame { has_loaded, game_positions, pgn_game } = self;
                let mut positions = game_positions;
                positions.push(next);
                assert(fens(positions@) =~= before.positions.push(next@));
                let record = pgn_game.new_move(notation);
                let record = match outcome {
                    Some(result) => record.add_result(result),
                    None => record,
                };
                AnnotatedGame { has_loaded, game_positions: positions, pgn_game: record }
            },
        }
    }

    /// The game after the last move is taken back: see [`taken_back`].
    pub fn take_back(self) -> (g: AnnotatedGame)
        ensures
            g@ == taken_back(self@),
            well_formed(g@),
    {
        proof {
            use_type_invariant(&self);
            lemma_taken_back_well_formed(self@);
        }
        if self.game_positions.len() <= 1 {
            return self;
        }
        let ghost before = self@;
        let AnnotatedGame { has_loaded, game_positions, pgn_game } = self;
        let mut positions = game_positions;
        let mut record = pgn_game;
        positions.pop();
        assert(fens(positions@) =~= before.positions.drop_last());
        record.take_back();
        let record = record.clear_result();
        AnnotatedGame { has_loaded, game_positions: positions, pgn_game: record }
    }

    /// The game after `action` on the day `today`. Only a reset looks at the
    /// day.
    pub fn reduce_on(self, action: AnnotatedGameAction, today: Date) -> (g: AnnotatedGame)
        ensures
            g@ == step(self@, action@, today),
            well_formed(g@),
            g@.positions.len() == g@.record.moves.len() + 1,
    {
        proof {
            use_type_invariant(&self);
            lemma_step_well_formed(self@, action@, today);
        }
        match action {
            AnnotatedGameAction::Reset => self.reset_on(today),
            AnnotatedGameAction::PlayMove(m) => self.play_move(m),
            AnnotatedGameAction::TakeBack => self.take_back(),
            AnnotatedGameAction::FinishedLoading => {
                let AnnotatedGame { has_loaded: _, game_positions, pgn_game } = self;
                AnnotatedGame { has_loaded: true, game_positions, pgn_game }
            },
            AnnotatedGameAction::AddOutcome(result) => {
                let AnnotatedGame { has_loaded, game_positions, pgn_game } = self;
                AnnotatedGame { has_loaded, game_positions, pgn_game: pgn_game.add_result(result) }
            },
            AnnotatedGameAction::AddWhiteName(name) => {
                let AnnotatedGame { has_loaded, game_positions, pgn_game } = self;
                AnnotatedGame { has_loaded, game_positions, pgn_game: pgn_game.add_white_name(name) }
            },
            AnnotatedGameAction::AddBlackName(name) => {
                let AnnotatedGame { has_loaded, game_positions, pgn_game } = self;
                AnnotatedGame { has_loaded, game_positions, pgn_game: pgn_game.add_black_name(name) }
            },
            AnnotatedGameAction::ChangeDate(date) => {
                let AnnotatedGame { has_loaded, game_positions, pgn_game } = self;
                AnnotatedGame { has_loaded, game_positions, pgn_game: pgn_game.add_date(date) }
            },
            AnnotatedGameAction::UpdateEventDetails { event, site, round } => {
                let AnnotatedGame { has_loaded, game_positions, pgn_game } = self;
                let record = pgn_game.add_event(event).add_site(site).add_round(round);
                AnnotatedGame { has_loaded, game_positions, pgn_game: record }
            },
        }
    }

    /// The game after `action`. A reset dates the new record with the day
    /// that the clock shows; no other action looks at the clock.
    pub fn reduce(self, action: AnnotatedGameAction) -> (g: AnnotatedGame)
        ensures
            g@ == step(self@, action@, g@.record.date),
            action@ is Reset ==> 1 <= g@.record.date.month <= 12 && 1 <= g@.record.date.day <= 31,
            well_formed(g@),
            g@.positions.len() == g@.record.moves.len() + 1,
    {
        let today = Date::today();
        self.reduce_on(action, today)
    }

    /// The game after `action`, and whether this step ended the game: the
    /// second value is true exactly where the game had no result before and
    /// has one now.
    pub fn dispatch(self, action: AnnotatedGameAction) -> (r: (AnnotatedGame, bool))
        ensures
            r.0@ == step(self@, action@, r.0@.record.date),
            action@ is Reset ==> 1 <= r.0@.record.date.month <= 12 && 1 <= r.0@.record.date.day
                <= 31,
            well_formed(r.0@),
            r.0@.positions.len() == r.0@.record.moves.len() + 1,
            r.1 == concludes(self@, r.0@),
    {
        let was_open = self.pgn_game.outcome.is_none();
        let after = self.reduce(action);
        let concluded = was_open && after.pgn_game.outcome.is_some();
        (after, concluded)
    }
}

} // verus!

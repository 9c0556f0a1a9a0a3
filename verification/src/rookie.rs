//! Resolving a move step by step: first the kind of piece, then the square
//! it stands on, then the move itself.

use crate::chess::{Move, Role, Square};
use crate::filters::{lemma_filter_empty, lemma_filter_member};
use crate::live_game::{played, well_formed, AnnotatedGame, GameView};
use crate::position::{contains_move, legal_moves_of, Position};
use vstd::prelude::*;

verus! {

/// The step that a [`RookieResolver`] is at.
#[derive(Clone, Copy, Debug, PartialEq, Eq, Structural)]
pub enum Stage {
    /// No piece chosen yet.
    Piece,
    /// A piece chosen, no origin square yet.
    Origin,
    /// A piece and an origin square chosen; a move may be chosen too.
    Target,
}

/// What a [`RookieResolver`] holds, as plain values.
pub struct RookieView {
    pub role: Option<Role>,
    pub from_square: Option<Square>,
    pub resolved: Option<Move>,
}

/// The state in which nothing is chosen.
pub open spec fn nothing_chosen() -> RookieView {
    RookieView { role: None, from_square: None, resolved: None }
}

/// The step that the state `v` is at.
pub open spec fn stage_of(v: RookieView) -> Stage {
    if v.role.is_none() {
        Stage::Piece
    } else if v.from_square.is_none() {
        Stage::Origin
    } else {
        Stage::Target
    }
}

/// What holds of every state: an origin square is chosen only after a
/// piece, and a move only after an origin square.
pub open spec fn consistent(v: RookieView) -> bool {
    &&& v.from_square.is_some() ==> v.role.is_some()
    &&& v.resolved.is_some() ==> v.from_square.is_some()
}

/// Whether some legal move of the position `fen` moves a piece of `role`.
pub open spec fn role_can_move(fen: Seq<char>, role: Role) -> bool {
    exists|i: int|
        0 <= i < legal_moves_of(fen).len() && (#[trigger] legal_moves_of(fen)[i]).spec_has_role(
            role,
        )
}

/// The condition on a move that it moves a piece of `role` from `square`.
pub open spec fn moves_piece(role: Role, square: Square) -> spec_fn(Move) -> bool {
    |m: Move| m.spec_has_role(role) && m.from == Some(square.index)
}

/// The legal moves of the position `fen` that move a piece of `role` from
/// `square`, in the order of the legal moves.
pub open spec fn moves_from(fen: Seq<char>, role: Role, square: Square) -> Seq<Move> {
    legal_moves_of(fen).filter(moves_piece(role, square))
}

/// The squares from which the moves of `moves` move a piece of `role`: each
/// once, in the order in which the moves first name them.
pub open spec fn origins_in(moves: Seq<Move>, role: Role) -> Seq<Square>
    decreases moves.len(),
{
    if moves.len() == 0 {
        Seq::empty()
    } else {
        let rest = origins_in(moves.drop_last(), role);
        let last = moves.last();
        match last.from {
            Some(index) => if last.spec_has_role(role) && !rest.contains(Square { index }) {
                rest.push(Square { index })
            } else {
                rest
            },
            None => rest,
        }
    }
}

/// The squares from which a piece of `role` can move in the position `fen`.
pub open spec fn origins_of(fen: Seq<char>, role: Role) -> Seq<Square> {
    origins_in(legal_moves_of(fen), role)
}

/// The state after `role` is chosen in the position `fen`. The choice counts
/// where no piece is chosen yet and a piece of `role` can move; otherwise
/// nothing changes.
pub open spec fn role_chosen(fen: Seq<char>, v: RookieView, role: Role) -> RookieView {
    if v.role.is_none() && role_can_move(fen, role) {
        RookieView { role: Some(role), from_square: None, resolved: None }
    } else {
        v
    }
}

/// The state after `square` is chosen in the position `fen`. The choice
/// counts where a piece is chosen, no origin square yet, and the piece can
/// move from `square`; otherwise nothing changes.
pub open spec fn square_chosen(fen: Seq<char>, v: RookieView, square: Square) -> RookieView {
    match v.role {
        Some(role) => if v.from_square.is_none() && origins_of(fen, role).contains(square) {
            RookieView { role: v.role, from_square: Some(square), resolved: None }
        } else {
            v
        },
        None => v,
    }
}

/// The state after the move `m` is chosen in the position `fen`. The choice
/// counts where a piece and an origin square are chosen and `m` is a legal
/// move of that piece from that square; otherwise nothing changes.
pub open spec fn move_chosen(fen: Seq<char>, v: RookieView, m: Move) -> RookieView {
    match (v.role, v.from_square) {
        (Some(role), Some(square)) => if moves_from(fen, role, square).contains(m) {
            RookieView { role: v.role, from_square: v.from_square, resolved: Some(m) }
        } else {
            v
        },
        _ => v,
    }
}

/// The state one step back: from a chosen origin square back to the choice
/// of the square, from a chosen piece back to the choice of the piece, and
/// no further.
pub open spec fn stepped_back(v: RookieView) -> RookieView {
    match stage_of(v) {
        Stage::Target => RookieView { role: v.role, from_square: None, resolved: None },
        Stage::Origin => nothing_chosen(),
        Stage::Piece => v,
    }
}

/// The game after the state `v` is committed: the chosen move is played,
/// where there is one and it is legal in the current position.
pub open spec fn committed(g: GameView, v: RookieView) -> GameView {
    match v.resolved {
        Some(m) => played(g, m),
        None => g,
    }
}

/// Choosing a piece that has no legal move leaves the first step as it was.
pub proof fn lemma_role_without_moves_rejected(fen: Seq<char>, v: RookieView, role: Role)
    requires
        !role_can_move(fen, role),
    ensures
        role_chosen(fen, v, role) == v,
        stage_of(v) == Stage::Piece ==> stage_of(role_chosen(fen, v, role)) == Stage::Piece,
{
}

/// Whatever is chosen or taken back, in whatever position, the state stays
/// consistent: so it is after every run of such events, also where the
/// position changes between them.
pub proof fn lemma_choices_keep_consistent(
    fen: Seq<char>,
    v: RookieView,
    role: Role,
    square: Square,
    m: Move,
)
    requires
        consistent(v),
    ensures
        consistent(nothing_chosen()),
        consistent(role_chosen(fen, v, role)),
        consistent(square_chosen(fen, v, square)),
        consistent(move_chosen(fen, v, m)),
        consistent(stepped_back(v)),
{
}

/// A square is among the origins exactly where some move of the list moves
/// a piece of the role from it, and no square is there twice.
pub proof fn lemma_origins(moves: Seq<Move>, role: Role)
    ensures
        forall|square: Square|
            origins_in(moves, role).contains(square) <==> exists|i: int|
                0 <= i < moves.len() && (#[trigger] moves[i]).spec_has_role(role) && moves[i].from
                    == Some(square.index),
        origins_in(moves, role).no_duplicates(),
    decreases moves.len(),
{
    let out = origins_in(moves, role);
    if moves.len() == 0 {
    } else {
        let rest_moves = moves.drop_last();
        let rest = origins_in(rest_moves, role);
        let last = moves.last();
        lemma_origins(rest_moves, role);
        assert forall|square: Square| out.contains(square) implies exists|i: int|
            0 <= i < moves.len() && (#[trigger] moves[i]).spec_has_role(role) && moves[i].from
                == Some(square.index) by {
            if rest.contains(square) {
                let i = choose|i: int|
                    0 <= i < rest_moves.len() && (#[trigger] rest_moves[i]).spec_has_role(role)
                        && rest_moves[i].from == Some(square.index);
                assert(moves[i] == rest_moves[i]);
            } else {
                let j = choose|j: int| 0 <= j < out.len() && out[j] == square;
                assert(j == rest.len());
                assert(moves[moves.len() - 1].spec_has_role(role));
            }
        }
        assert forall|square: Square|
            (exists|i: int|
                0 <= i < moves.len() && (#[trigger] moves[i]).spec_has_role(role) && moves[i].from
                    == Some(square.index)) implies out.contains(square) by {
            let i = choose|i: int|
                0 <= i < moves.len() && (#[trigger] moves[i]).spec_has_role(role) && moves[i].from
                    == Some(square.index);
            if i < moves.len() - 1 {
                assert(rest_moves[i] == moves[i]);
                assert(rest.contains(square));
                let j = choose|j: int| 0 <= j < rest.len() && rest[j] == square;
                assert(out[j] == square);
            } else {
                if rest.contains(square) {
                    let j = choose|j: int| 0 <= j < rest.len() && rest[j] == square;
                    assert(out[j] == square);
                } else {
                    assert(out == rest.push(square));
                    assert(out[rest.len() as int] == square);
                }
            }
        }
    }
}

/// A move that can be chosen at the last step is a legal move of the
/// position, of the chosen piece and from the chosen square.
pub proof fn lemma_chosen_move_is_legal(fen: Seq<char>, v: RookieView, m: Move)
    requires
        move_chosen(fen, v, m).resolved == Some(m),
        v.resolved != Some(m),
    ensures
        legal_moves_of(fen).contains(m),
        v.role.is_some() && m.spec_has_role(v.role.unwrap()),
        v.from_square.is_some() && m.spec_from_square() == v.from_square,
{
    let role = v.role.unwrap();
    let square = v.from_square.unwrap();
    lemma_filter_member(legal_moves_of(fen), moves_piece(role, square), m);
}

/// Whether some legal move of `position` moves a piece of `role`.
pub fn can_move(position: &Position, role: Role) -> (b: bool)
    ensures
        b == role_can_move(position@, role),
{
    let moves = position.legal_moves();
    let mut i: usize = 0;
    while i < moves.len()
        invariant
            i <= moves.len(),
            moves@ == legal_moves_of(position@),
            forall|k: int| 0 <= k < i ==> !moves@[k].spec_has_role(role),
        decreases moves.len() - i,
    {
        if moves[i].has_role(role) {
            assert(legal_moves_of(position@)[i as int].spec_has_role(role));
            return true;
        }
        i += 1;
    }
    false
}

/// Whether `square` occurs in `squares`.
pub fn contains_square(squares: &Vec<Square>, square: Square) -> (b: bool)
    ensures
        b == squares@.contains(square),
{
    let mut i: usize = 0;
    while i < squares.len()
        invariant
            i <= squares.len(),
            forall|k: int| 0 <= k < i ==> squares@[k] != square,
        decreases squares.len() - i,
    {
        if squares[i] == square {
            return true;
        }
        i += 1;
    }
    false
}

/// The squares from which a piece of `role` can move in `position`, each
/// once.
pub fn origins(position: &Position, role: Role) -> (out: Vec<Square>)
    ensures
        out@ == origins_of(position@, role),
        out@.no_duplicates(),
{
    let moves = position.legal_moves();
    let mut out: Vec<Square> = Vec::new();
    proof {
        assert(moves@.take(0) =~= Seq::<Move>::empty());
    }
    let mut i: usize = 0;
    while i < moves.len()
        invariant
            i <= moves.len(),
            moves@ == legal_moves_of(position@),
            out@ == origins_in(moves@.take(i as int), role),
        decreases moves.len() - i,
    {
        let m = moves[i];
        proof {
            let before = moves@.take(i as int);
            let now = moves@.take(i as int + 1);
            assert(now.drop_last() =~= before);
            assert(now.last() == m);
        }
        if m.has_role(role) {
            match m.from_square() {
                Some(square) => {
                    if !contains_square(&out, square) {
                        out.push(square);
                    }
                },
                None => {},
            }
        }
        i += 1;
    }
    proof {
        assert(moves@.take(moves.len() as int) =~= moves@);
        lemma_origins(moves@, role);
    }
    out
}

/// The legal moves of `position` that move a piece of `role` from `square`.
pub fn moves_of_piece(position: &Position, role: Role, square: Square) -> (out: Vec<Move>)
    ensures
        out@ == moves_from(position@, role, square),
{
    let moves = position.legal_moves();
    let mut out: Vec<Move> = Vec::new();
    let ghost pred = moves_piece(role, square);
    proof {
        lemma_filter_empty(pred);
        assert(moves@.take(0) =~= Seq::<Move>::empty());
    }
    let mut i: usize = 0;
    while i < moves.len()
        invariant
            i <= moves.len(),
            moves@ == legal_moves_of(position@),
            pred == moves_piece(role, square),
            out@ == moves@.take(i as int).filter(pred),
        decreases moves.len() - i,
    {
        let m = moves[i];
        proof {
            moves@.take(i as int).lemma_filter_push(m, pred);
            assert(moves@.take(i as int + 1) =~= moves@.take(i as int).push(m));
        }
        if m.has_role(role) && m.from == Some(square.index) {
            out.push(m);
        }
        i += 1;
    }
    proof {
        assert(moves@.take(moves.len() as int) =~= moves@);
    }
    out
}

/// The first move of `moves` that goes to `square`, if there is one: the
/// move that a click on that square of the board chooses.
pub fn move_to(moves: &Vec<Move>, square: Square) -> (r: Option<Move>)
    ensures
        match r {
            Some(m) => exists|i: int|
                0 <= i < moves@.len() && #[trigger] moves@[i] == m && m.to == square.index
                    && forall|j: int| 0 <= j < i ==> (#[trigger] moves@[j]).to != square.index,
            None => forall|i: int| 0 <= i < moves@.len() ==> (#[trigger] moves@[i]).to
                != square.index,
        },
{
    let mut i: usize = 0;
    while i < moves.len()
        invariant
            i <= moves.len(),
            forall|j: int| 0 <= j < i ==> (#[trigger] moves@[j]).to != square.index,
        decreases moves.len() - i,
    {
        if moves[i].to == square.index {
            assert(moves@[i as int] == moves@[i as int]);
            return Some(moves[i]);
        }
        i += 1;
    }
    None
}

/// A resolver that leads to a move in three steps.
#[derive(Clone, Copy, Debug, PartialEq, Eq, Structural)]
pub struct RookieResolver {
    role: Option<Role>,
    from_square: Option<Square>,
    resolved: Option<Move>,
}

impl View for RookieResolver {
    type V = RookieView;

    closed spec fn view(&self) -> RookieView {
        RookieView { role: self.role, from_square: self.from_square, resolved: self.resolved }
    }
}

impl RookieResolver {
    #[verifier::type_invariant]
    spec fn inv(self) -> bool {
        consistent(self@)
    }

    /// A resolver with nothing chosen.
    pub fn new() -> (r: RookieResolver)
        ensures
            r@ == nothing_chosen(),
    {
        RookieResolver { role: None, from_square: None, resolved: None }
    }

    /// The chosen piece.
    pub fn role(&self) -> (r: Option<Role>)
        ensures
            r == self@.role,
    {
        self.role
    }

    /// The chosen origin square.
    pub fn from_square(&self) -> (s: Option<Square>)
        ensures
            s == self@.from_square,
            s.is_some() ==> self@.role.is_some(),
    {
        proof {
            use_type_invariant(self);
        }
        self.from_square
    }

    /// The chosen move, which a commit would play.
    pub fn resolved_move(&self) -> (m: Option<Move>)
        ensures
            m == self@.resolved,
            m.is_some() ==> self@.from_square.is_some() && self@.role.is_some(),
    {
        proof {
            use_type_invariant(self);
        }
        self.resolved
    }

    /// The step that the resolver is at.
    pub fn stage(&self) -> (s: Stage)
        ensures
            s == stage_of(self@),
            consistent(self@),
    {
        proof {
            use_type_invariant(self);
        }
        if self.role.is_none() {
            Stage::Piece
        } else if self.from_square.is_none() {
            Stage::Origin
        } else {
            Stage::Target
        }
    }

    /// The resolver after `role` is chosen: see [`role_chosen`].
    pub fn select_role(self, position: &Position, role: Role) -> (r: RookieResolver)
        ensures
            r@ == role_chosen(position@, self@, role),
    {
        if self.role.is_none() && can_move(position, role) {
            RookieResolver { role: Some(role), from_square: None, resolved: None }
        } else {
            self
        }
    }

    /// The resolver after `square` is chosen: see [`square_chosen`].
    pub fn select_square(self, position: &Position, square: Square) -> (r: RookieResolver)
        ensures
            r@ == square_chosen(position@, self@, square),
    {
        match self.role {
            Some(role) => {
                if self.from_square.is_none() {
                    let squares = origins(position, role);
                    if contains_square(&squares, square) {
                        return RookieResolver {
                            role: self.role,
                            from_square: Some(square),
                            resolved: None,
                        };
                    }
                }
                self
            },
            None => self,
        }
    }

    /// The resolver after the move `m` is chosen: see [`move_chosen`].
    pub fn select_move(self, position: &Position, m: Move) -> (r: RookieResolver)
        ensures
            r@ == move_chosen(position@, self@, m),
    {
        match (self.role, self.from_square) {
            (Some(role), Some(square)) => {
                let moves = moves_of_piece(position, role, square);
                if contains_move(&moves, m) {
                    RookieResolver {
                        role: self.role,
                        from_square: self.from_square,
                        resolved: Some(m),
                    }
                } else {
                    self
                }
            },
            _ => self,
        }
    }

    /// The resolver one step back: see [`stepped_back`].
    pub fn back(self) -> (r: RookieResolver)
        ensures
            r@ == stepped_back(self@),
    {
        proof {
            use_type_invariant(&self);
        }
        if self.role.is_none() {
            self
        } else if self.from_square.is_none() {
            RookieResolver::new()
        } else {
            RookieResolver { role: self.role, from_square: None, resolved: None }
        }
    }

    /// Commits the chosen move to `game`: it is played where it is a legal
    /// move of the current position, and dropped otherwise. The resolver
    /// that comes back has nothing chosen.
    pub fn commit(self, game: AnnotatedGame) -> (r: (RookieResolver, AnnotatedGame))
        ensures
            r.1@ == committed(game@, self@),
            well_formed(r.1@),
            r.0@ == nothing_chosen(),
    {
        let game = match self.resolved {
            Some(m) => game.play_move(m),
            None => {
                let _ = game.position_count();
                game
            },
        };
        (RookieResolver::new(), game)
    }
}

} // verus!

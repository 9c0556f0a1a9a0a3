//! Plain chess values: sides, piece kinds, squares, moves and results.

use vstd::prelude::*;

verus! {

/// One of the two sides.
#[derive(Clone, Copy, Debug, PartialEq, Eq, Structural, Hash)]
pub enum Color {
    White,
    Black,
}

impl Color {
    /// The opposing side.
    pub open spec fn spec_other(self) -> Color {
        match self {
            Color::White => Color::Black,
            Color::Black => Color::White,
        }
    }

    /// The opposing side.
    #[verifier::when_used_as_spec(spec_other)]
    pub fn other(self) -> (c: Color)
        ensures
            c == self.spec_other(),
    {
        match self {
            Color::White => Color::Black,
            Color::Black => Color::White,
        }
    }
}

/// A kind of piece.
#[derive(Clone, Copy, Debug, PartialEq, Eq, Structural, Hash)]
pub enum Role {
    Pawn,
    Knight,
    Bishop,
    Rook,
    Queen,
    King,
}

impl Role {
    /// The number that stands for this role inside a [`Move`]: 1 for the
    /// pawn up to 6 for the king.
    pub open spec fn spec_code(self) -> u8 {
        match self {
            Role::Pawn => 1u8,
            Role::Knight => 2u8,
            Role::Bishop => 3u8,
            Role::Rook => 4u8,
            Role::Queen => 5u8,
            Role::King => 6u8,
        }
    }

    /// The role that a number stands for, if it stands for one.
    pub open spec fn spec_from_code(code: u8) -> Option<Role> {
        if code == 1 {
            Some(Role::Pawn)
        } else if code == 2 {
            Some(Role::Knight)
        } else if code == 3 {
            Some(Role::Bishop)
        } else if code == 4 {
            Some(Role::Rook)
        } else if code == 5 {
            Some(Role::Queen)
        } else if code == 6 {
            Some(Role::King)
        } else {
            None
        }
    }

    /// The number that stands for this role inside a [`Move`].
    #[verifier::when_used_as_spec(spec_code)]
    pub fn code(self) -> (c: u8)
        ensures
            c == self.spec_code(),
            1 <= c <= 6,
    {
        match self {
            Role::Pawn => 1,
            Role::Knight => 2,
            Role::Bishop => 3,
            Role::Rook => 4,
            Role::Queen => 5,
            Role::King => 6,
        }
    }

    /// The role that a number stands for: `Some` exactly for 1 to 6.
    pub fn from_code(code: u8) -> (r: Option<Role>)
        ensures
            r == Role::spec_from_code(code),
            r.is_some() <==> 1 <= code <= 6,
    {
        match code {
            1 => Some(Role::Pawn),
            2 => Some(Role::Knight),
            3 => Some(Role::Bishop),
            4 => Some(Role::Rook),
            5 => Some(Role::Queen),
            6 => Some(Role::King),
            _ => None,
        }
    }
}

/// A square of the board, counted from 0 (a1) along the ranks to 63 (h8).
#[derive(Clone, Copy, Debug, PartialEq, Eq, Structural, Hash)]
pub struct Square {
    pub index: u8,
}

impl Square {
    /// The square with the given index, if the index is on the board.
    pub fn new(index: u8) -> (r: Option<Square>)
        ensures
            r == (if index < 64 { Some(Square { index }) } else { None::<Square> }),
    {
        if index < 64 {
            Some(Square { index })
        } else {
            None
        }
    }
}

/// How a game ended.
#[derive(Clone, Copy, Debug, PartialEq, Eq, Structural, Hash)]
pub enum Outcome {
    Draw,
    Decisive { winner: Color },
}

/// A move as the rules engine reports it for one position.
///
/// The fields are the numbers of the engine: `role` is the code of the piece
/// that moves (see [`Role::code`]), `from` and `to` are square indices (`from`
/// is absent for a drop, `to` is the rook's square for castling), and
/// `promotion` is the code of the piece a pawn turns into. A move is meant to
/// be taken from the legal moves of a position, not made up.
#[derive(Clone, Copy, Debug, PartialEq, Eq, Structural, Hash)]
pub struct Move {
    pub role: u8,
    pub from: Option<u8>,
    pub to: u8,
    pub promotion: Option<u8>,
}

impl Move {
    /// Whether the numbers of the move are such as the engine gives out:
    /// role codes from 1 to 6 and squares from 0 to 63.
    pub open spec fn well_coded(self) -> bool {
        &&& 1 <= self.role <= 6
        &&& self.to < 64
        &&& self.from matches Some(index) ==> index < 64
        &&& self.promotion matches Some(code) ==> 1 <= code <= 6
    }

    /// The role of the piece that moves, `None` if the code names no role.
    pub open spec fn spec_role(self) -> Option<Role> {
        Role::spec_from_code(self.role)
    }

    /// The square the piece leaves.
    pub open spec fn spec_from_square(self) -> Option<Square> {
        match self.from {
            Some(index) => Some(Square { index }),
            None => None,
        }
    }

    /// The square the piece goes to.
    pub open spec fn spec_to_square(self) -> Square {
        Square { index: self.to }
    }

    /// Whether the moving piece has the given role.
    pub open spec fn spec_has_role(self, role: Role) -> bool {
        self.role == role.spec_code()
    }

    /// The role of the piece that moves, `None` if the code names no role.
    #[verifier::when_used_as_spec(spec_role)]
    pub fn role(self) -> (r: Option<Role>)
        ensures
            r == self.spec_role(),
            self.well_coded() ==> r.is_some(),
    {
        Role::from_code(self.role)
    }

    /// The square the piece leaves: `None` for a drop.
    #[verifier::when_used_as_spec(spec_from_square)]
    pub fn from_square(self) -> (r: Option<Square>)
        ensures
            r == self.spec_from_square(),
    {
        match self.from {
            Some(index) => Some(Square { index }),
            None => None,
        }
    }

    /// The square the piece goes to; for castling, the square of the rook.
    #[verifier::when_used_as_spec(spec_to_square)]
    pub fn to_square(self) -> (r: Square)
        ensures
            r == self.spec_to_square(),
    {
        Square { index: self.to }
    }

    /// Whether the moving piece has the given role.
    #[verifier::when_used_as_spec(spec_has_role)]
    pub fn has_role(self, role: Role) -> (b: bool)
        ensures
            b == self.spec_has_role(role),
            b <==> self.spec_role() == Some(role),
    {
        self.role == role.code()
    }
}

} // verus!

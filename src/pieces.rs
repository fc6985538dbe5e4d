use vstd::prelude::*;
use crate::geometry::Square;

verus! {

#[derive(Clone, Copy, Debug, PartialEq, Eq, Structural)]
pub enum Color {
    White,
    Black,
}

#[derive(Clone, Copy, Debug, PartialEq, Eq, Structural)]
pub enum PieceType {
    Pawn,
    Knight,
    Bishop,
    Rook,
    Queen,
    King,
}

/// The content of a square or of a capture-bin slot; `Empty` is also the
/// sentinel left in a slot whose piece went back onto the board.
#[derive(Clone, Copy, Debug, PartialEq, Eq, Structural)]
pub enum Piece {
    Empty,
    Occupied(Color, PieceType),
}

#[derive(Clone, Copy, Debug, PartialEq, Eq, Structural)]
pub enum CastleSide {
    KingSide,
    QueenSide,
}

pub open spec fn opposite(c: Color) -> Color {
    match c {
        Color::White => Color::Black,
        Color::Black => Color::White,
    }
}

impl Color {
    /// The other color.
    pub fn opponent(self) -> (r: Color)
        ensures
            r == opposite(self),
    {
        match self {
            Color::White => Color::Black,
            Color::Black => Color::White,
        }
    }
}

impl Piece {
    pub open spec fn has_kind(self, kind: PieceType) -> bool {
        match self {
            Piece::Empty => false,
            Piece::Occupied(_, k) => k == kind,
        }
    }

    /// True when this is a piece of type `kind`; never for `Empty`.
    pub fn is_kind(&self, kind: PieceType) -> (r: bool)
        ensures
            r == self.has_kind(kind),
    {
        match self {
            Piece::Empty => false,
            Piece::Occupied(_, k) => *k == kind,
        }
    }
}

/// A legal chess move, as resolved by the rules engine, with what the planner
/// needs to know of it.
#[derive(Clone, Copy, Debug, PartialEq, Eq, Structural)]
pub struct ChessMove {
    pub origin: Square,
    pub target: Square,
    /// The side to move.
    pub side: Color,
    /// The type of the piece on `origin`.
    pub piece: PieceType,
    /// Whether the move captures (en passant included).
    pub capture: bool,
    pub en_passant: bool,
    /// The piece that the move captures; `Empty` where it captures nothing.
    pub captured: Piece,
    pub castle: Option<CastleSide>,
    /// The piece type a pawn promotes to.
    pub promotion: Option<PieceType>,
}

impl ChessMove {
    /// Well-formed: both squares are on the board, and the square behind the
    /// target of an en-passant capture is too.
    pub open spec fn wf(self) -> bool {
        &&& self.origin.wf()
        &&& self.target.wf()
        &&& self.en_passant ==> match self.side {
            Color::White => self.target.rank >= 1,
            Color::Black => self.target.rank <= 6,
        }
    }
}

} // verus!

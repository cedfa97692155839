//! Pieces and their colors.

use vstd::prelude::*;

verus! {

/// The six kinds of chess piece.
#[derive(Clone, Copy, PartialEq, Eq, Structural, Debug)]
pub enum PieceType {
    King,
    Queen,
    Rook,
    Bishop,
    Knight,
    Pawn,
}

impl PieceType {
    /// The lower-case letter that stands for this kind of piece.
    pub open spec fn letter(self) -> char {
        match self {
            PieceType::King => 'k',
            PieceType::Queen => 'q',
            PieceType::Rook => 'r',
            PieceType::Bishop => 'b',
            PieceType::Knight => 'n',
            PieceType::Pawn => 'p',
        }
    }

    /// The lower-case letter that stands for this kind of piece.
    pub fn to_char(&self) -> (c: char)
        ensures
            c == self.letter(),
    {
        match self {
            PieceType::King => 'k',
            PieceType::Queen => 'q',
            PieceType::Rook => 'r',
            PieceType::Bishop => 'b',
            PieceType::Knight => 'n',
            PieceType::Pawn => 'p',
        }
    }
}

/// The two sides of a game.
#[derive(Clone, Copy, PartialEq, Eq, Structural, Debug)]
pub enum PieceColor {
    Black,
    White,
}

impl PieceColor {
    /// The opposing side.
    pub open spec fn spec_opposite(self) -> PieceColor {
        match self {
            PieceColor::Black => PieceColor::White,
            PieceColor::White => PieceColor::Black,
        }
    }

    /// The opposing side.
    #[verifier::when_used_as_spec(spec_opposite)]
    pub fn opposite(self) -> (r: PieceColor)
        ensures
            r == self.spec_opposite(),
    {
        match self {
            PieceColor::Black => PieceColor::White,
            PieceColor::White => PieceColor::Black,
        }
    }

    /// `w` for White, `b` for Black.
    pub open spec fn letter(self) -> char {
        match self {
            PieceColor::White => 'w',
            PieceColor::Black => 'b',
        }
    }

    /// The letter of the side in a position string.
    pub fn to_char(&self) -> (c: char)
        ensures
            c == self.letter(),
    {
        match self {
            PieceColor::White => 'w',
            PieceColor::Black => 'b',
        }
    }

    /// The rank step of this side's pawns: up the board for White, down for Black.
    pub open spec fn forward(self) -> int {
        match self {
            PieceColor::White => 1,
            PieceColor::Black => -1,
        }
    }

    /// The rank on which this side's pawns start.
    pub open spec fn pawn_rank(self) -> int {
        match self {
            PieceColor::White => 1,
            PieceColor::Black => 6,
        }
    }

    /// The rank on which this side's pawns promote.
    pub open spec fn promotion_rank(self) -> int {
        match self {
            PieceColor::White => 7,
            PieceColor::Black => 0,
        }
    }

    /// The rank on which this side's king and rooks start.
    pub open spec fn home_rank(self) -> int {
        match self {
            PieceColor::White => 0,
            PieceColor::Black => 7,
        }
    }
}

impl core::ops::Not for PieceColor {
    type Output = PieceColor;

    /// The opposing side.
    fn not(self) -> (r: PieceColor) {
        self.opposite()
    }
}

impl vstd::std_specs::ops::NotSpecImpl for PieceColor {
    open spec fn obeys_not_spec() -> bool {
        true
    }

    open spec fn not_req(self) -> bool {
        true
    }

    open spec fn not_spec(self) -> PieceColor {
        self.spec_opposite()
    }
}

/// A piece of one side.
#[derive(Clone, Copy, PartialEq, Eq, Structural, Debug)]
pub struct Piece {
    pub piece: PieceType,
    pub color: PieceColor,
}

impl Piece {
    /// The piece's letter in a position string: upper case for White,
    /// lower case for Black.
    pub open spec fn letter(self) -> char {
        match self.color {
            PieceColor::Black => self.piece.letter(),
            PieceColor::White => match self.piece {
                PieceType::King => 'K',
                PieceType::Queen => 'Q',
                PieceType::Rook => 'R',
                PieceType::Bishop => 'B',
                PieceType::Knight => 'N',
                PieceType::Pawn => 'P',
            },
        }
    }

    /// The piece's letter in a position string.
    pub fn to_char(&self) -> (c: char)
        ensures
            c == self.letter(),
    {
        match self.color {
            PieceColor::Black => self.piece.to_char(),
            PieceColor::White => match self.piece {
                PieceType::King => 'K',
                PieceType::Queen => 'Q',
                PieceType::Rook => 'R',
                PieceType::Bishop => 'B',
                PieceType::Knight => 'N',
                PieceType::Pawn => 'P',
            },
        }
    }
}

} // verus!

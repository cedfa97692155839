//! Move records, castling rights and game outcomes.

use vstd::prelude::*;
use crate::piece::{Piece, PieceColor, PieceType};

verus! {

/// How a game stands or ended.
#[derive(Clone, Copy, PartialEq, Eq, Structural, Debug)]
pub enum GameOverState {
    AgreedDraw,
    Stalemate,
    /// Checkmate, with the side that delivered it.
    Checkmate(PieceColor),
    Resignation(PieceColor),
    Ongoing,
}

/// The answer to a castling query: whether the king may castle, and if so
/// where the rook stands and where it goes.
#[derive(Clone, Copy, PartialEq, Eq, Debug)]
pub struct CastleCheck {
    pub cancastle: bool,
    pub rooksource: Option<(usize, usize)>,
    pub rookdestination: Option<(usize, usize)>,
}

impl CastleCheck {
    /// An answer that names no rook squares.
    pub fn new(cancastle: bool) -> (c: CastleCheck)
        ensures
            c == (CastleCheck { cancastle, rooksource: None, rookdestination: None }),
    {
        CastleCheck { cancastle, rooksource: None, rookdestination: None }
    }
}

/// A move as callers and an engine give it: two squares and, for a
/// promotion, the kind of piece chosen.
#[derive(Clone, Copy, PartialEq, Eq, Debug)]
pub struct SimpleMove {
    pub from: (usize, usize),
    pub to: (usize, usize),
    pub promotion: Option<PieceType>,
}

/// A committed move: its squares, the side that made it, the piece as it
/// stood before the move, and whether a piece was captured, on the
/// destination or in passing.
#[derive(Clone, Copy, PartialEq, Eq, Debug)]
pub struct Move {
    pub from: (usize, usize),
    pub to: (usize, usize),
    pub color: PieceColor,
    pub piece: Piece,
    pub capture: bool,
}

/// The four castling rights.
#[derive(Clone, Copy, PartialEq, Eq, Structural, Debug)]
pub struct CastleAvailability {
    pub white_kingside: bool,
    pub white_queenside: bool,
    pub black_kingside: bool,
    pub black_queenside: bool,
}

impl CastleAvailability {
    /// All four rights set.
    pub open spec fn full() -> CastleAvailability {
        CastleAvailability {
            white_kingside: true,
            white_queenside: true,
            black_kingside: true,
            black_queenside: true,
        }
    }

    /// The right of one color on one side.
    pub open spec fn available(self, color: PieceColor, kingside: bool) -> bool {
        match color {
            PieceColor::Black => if kingside {
                self.black_kingside
            } else {
                self.black_queenside
            },
            PieceColor::White => if kingside {
                self.white_kingside
            } else {
                self.white_queenside
            },
        }
    }

    /// The rights with one of them replaced.
    pub open spec fn with(self, color: PieceColor, kingside: bool, availability: bool)
        -> CastleAvailability {
        match color {
            PieceColor::Black => if kingside {
                CastleAvailability { black_kingside: availability, ..self }
            } else {
                CastleAvailability { black_queenside: availability, ..self }
            },
            PieceColor::White => if kingside {
                CastleAvailability { white_kingside: availability, ..self }
            } else {
                CastleAvailability { white_queenside: availability, ..self }
            },
        }
    }

    /// The rights that remain once the given piece has left the given
    /// square: a king gives up both rights of its color, a rook that leaves
    /// its home square gives up the right of that side.
    pub open spec fn after_leaving(self, piece: Piece, r: int, f: int) -> CastleAvailability {
        match piece.piece {
            PieceType::King => self.with(piece.color, true, false).with(piece.color, false, false),
            PieceType::Rook => {
                let kept = if r == piece.color.home_rank() && f == 7 {
                    self.with(piece.color, true, false)
                } else {
                    self
                };
                if r == piece.color.home_rank() && f == 0 {
                    kept.with(piece.color, false, false)
                } else {
                    kept
                }
            },
            _ => self,
        }
    }

    /// Whether every right set in `self` is also set in `earlier`.
    pub open spec fn within(self, earlier: CastleAvailability) -> bool {
        &&& self.white_kingside ==> earlier.white_kingside
        &&& self.white_queenside ==> earlier.white_queenside
        &&& self.black_kingside ==> earlier.black_kingside
        &&& self.black_queenside ==> earlier.black_queenside
    }

    /// The rights at the start of a game: all four set.
    pub fn new() -> (c: CastleAvailability)
        ensures
            c == CastleAvailability::full(),
    {
        CastleAvailability {
            white_kingside: true,
            white_queenside: true,
            black_kingside: true,
            black_queenside: true,
        }
    }

    /// Replaces the right of one color on one side.
    pub fn set_availability(&mut self, color: PieceColor, kingside: bool, availability: bool)
        ensures
            *final(self) == old(self).with(color, kingside, availability),
    {
        match color {
            PieceColor::Black => {
                if kingside {
                    self.black_kingside = availability;
                } else {
                    self.black_queenside = availability;
                }
            },
            PieceColor::White => {
                if kingside {
                    self.white_kingside = availability;
                } else {
                    self.white_queenside = availability;
                }
            },
        }
    }

    /// Whether the color still has a right on either side.
    pub fn any_castle(&self, color: PieceColor) -> (any: bool)
        ensures
            any == (self.available(color, true) || self.available(color, false)),
    {
        match color {
            PieceColor::Black => self.black_kingside || self.black_queenside,
            PieceColor::White => self.white_kingside || self.white_queenside,
        }
    }

    /// The right of one color on one side.
    pub fn check_availability(&self, color: PieceColor, kingside: bool) -> (ok: bool)
        ensures
            ok == self.available(color, kingside),
    {
        match color {
            PieceColor::Black => {
                if kingside {
                    self.black_kingside
                } else {
                    self.black_queenside
                }
            },
            PieceColor::White => {
                if kingside {
                    self.white_kingside
                } else {
                    self.white_queenside
                }
            },
        }
    }
}

} // verus!

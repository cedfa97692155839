//! The mathematical model of a game in progress and the rules stated over
//! it: whose turn it is, which moves are legal, what a move changes and how
//! the game stands.

use vstd::prelude::*;
use crate::attack::{
    attacked, attacks, dist, in_check, layout_wf, on_board, piece_at, put, relocate, Layout,
};
use crate::moves::{CastleAvailability, GameOverState, Move};
use crate::piece::{Piece, PieceColor, PieceType};

verus! {

/// A game in progress: the squares, the last move, the history of moves,
/// the two counters and the castling rights.
pub struct Position {
    pub layout: Layout,
    pub last: Option<Move>,
    pub history: Seq<Move>,
    pub halfmoves: nat,
    pub fullmoves: nat,
    pub castles: CastleAvailability,
}

/// The piece that starts on a square of the back rank.
pub open spec fn back_rank_piece(f: int) -> PieceType {
    if f == 0 || f == 7 {
        PieceType::Rook
    } else if f == 1 || f == 6 {
        PieceType::Knight
    } else if f == 2 || f == 5 {
        PieceType::Bishop
    } else if f == 3 {
        PieceType::Queen
    } else {
        PieceType::King
    }
}

/// What stands on a square when a game starts.
pub open spec fn initial_piece(r: int, f: int) -> Option<Piece> {
    if r == 0 {
        Some(Piece { piece: back_rank_piece(f), color: PieceColor::White })
    } else if r == 1 {
        Some(Piece { piece: PieceType::Pawn, color: PieceColor::White })
    } else if r == 6 {
        Some(Piece { piece: PieceType::Pawn, color: PieceColor::Black })
    } else if r == 7 {
        Some(Piece { piece: back_rank_piece(f), color: PieceColor::Black })
    } else {
        None
    }
}

/// The file on which the rook of a castle stands, given the king's
/// destination file.
pub open spec fn rook_file(king_to: int) -> int {
    if king_to == 2 {
        0
    } else {
        7
    }
}

/// The file to which the rook of a castle goes, given the king's
/// destination file.
pub open spec fn rook_target_file(king_to: int) -> int {
    if king_to == 2 {
        3
    } else {
        5
    }
}

/// Whether the squares between a king on its home square and the rook on
/// the side of the king's destination file are all empty.
pub open spec fn castle_path_empty(l: Layout, rank: int, king_to: int) -> bool {
    if king_to == 6 {
        piece_at(l, rank, 5) is None && piece_at(l, rank, 6) is None
    } else {
        piece_at(l, rank, 1) is None && piece_at(l, rank, 2) is None && piece_at(l, rank, 3)
            is None
    }
}

/// Whether no piece of the other color threatens a square that the king
/// crosses or lands on.
pub open spec fn castle_path_safe(l: Layout, rank: int, king_to: int, color: PieceColor) -> bool {
    if king_to == 6 {
        !attacked(l, rank, 5, Some(color)) && !attacked(l, rank, 6, Some(color))
    } else {
        !attacked(l, rank, 3, Some(color)) && !attacked(l, rank, 2, Some(color))
    }
}

impl Position {
    /// The position at the start of a game.
    pub open spec fn initial() -> Position {
        Position {
            layout: Seq::new(8, |r: int| Seq::new(8, |f: int| initial_piece(r, f))),
            last: None,
            history: Seq::empty(),
            halfmoves: 0,
            fullmoves: 1,
            castles: CastleAvailability::full(),
        }
    }

    /// The board has eight ranks of eight squares and the last move, if
    /// any, names squares of the board.
    pub open spec fn wf(self) -> bool {
        &&& layout_wf(self.layout)
        &&& self.last matches Some(m) ==> on_board(m.from.0 as int, m.from.1 as int) && on_board(
            m.to.0 as int,
            m.to.1 as int,
        )
    }

    /// The side to move: the other side than made the last move, White
    /// where no move has been made.
    pub open spec fn to_move(self) -> PieceColor {
        match self.last {
            Some(m) => m.color.opposite(),
            None => PieceColor::White,
        }
    }

    /// Whether the last move was a pawn's advance of two ranks.
    pub open spec fn double_step(self) -> bool {
        self.last matches Some(m) && m.piece.piece == PieceType::Pawn && dist(
            m.to.0 as int,
            m.from.0 as int,
        ) == 2
    }

    /// Whether the move is a pawn's capture in passing: the last move was a
    /// pawn's advance of two ranks, the capturing pawn stands beside the
    /// square where that pawn landed, and goes to the square one rank
    /// beyond it on the same file.
    pub open spec fn en_passant(self, fr: int, ff: int, tr: int, tf: int) -> bool {
        &&& self.double_step()
        &&& piece_at(self.layout, fr, ff) matches Some(p)
        &&& p.piece == PieceType::Pawn
        &&& fr == self.last.unwrap().to.0
        &&& dist(self.last.unwrap().to.1 as int, ff) == 1
        &&& tf == self.last.unwrap().to.1
        &&& tr - self.last.unwrap().to.0 == p.color.forward()
    }

    /// Whether the move is a castle that the rules allow: a king on its home
    /// square goes two files towards a rook, the right of that side is
    /// still held, the squares between king and rook are empty, no enemy
    /// piece threatens a square that the king crosses or lands on, and the
    /// king is not in check.
    pub open spec fn castle(self, fr: int, ff: int, tr: int, tf: int) -> bool {
        &&& piece_at(self.layout, fr, ff) matches Some(p)
        &&& p.piece == PieceType::King
        &&& fr == p.color.home_rank()
        &&& ff == 4
        &&& tr == fr
        &&& (tf == 2 || tf == 6)
        &&& self.castles.available(p.color, tf == 6)
        &&& castle_path_empty(self.layout, tr, tf)
        &&& castle_path_safe(self.layout, tr, tf, p.color)
        &&& !in_check(self.layout, p.color)
    }

    /// Whether a pawn of the given color may advance from the first square
    /// to the second without capturing: one rank forward onto an empty
    /// square, or two from its starting rank over an empty square.
    pub open spec fn pawn_advance(self, color: PieceColor, fr: int, ff: int, tr: int, tf: int)
        -> bool {
        &&& piece_at(self.layout, tr, tf) is None
        &&& ff == tf
        &&& (tr - fr == color.forward() || (fr == color.pawn_rank() && tr - fr == 2
            * color.forward() && piece_at(self.layout, fr + color.forward(), ff) is None))
    }

    /// Whether the piece `p` on the first square may go to the second by
    /// the way its kind moves, leaving aside whose turn it is and the safety
    /// of its king.
    pub open spec fn reaches(self, p: Piece, fr: int, ff: int, tr: int, tf: int) -> bool {
        match p.piece {
            PieceType::Pawn => if piece_at(self.layout, tr, tf) is Some {
                attacks(self.layout, fr, ff, tr, tf, None)
            } else {
                self.pawn_advance(p.color, fr, ff, tr, tf) || self.en_passant(fr, ff, tr, tf)
            },
            PieceType::King => self.castle(fr, ff, tr, tf) || attacks(
                self.layout,
                fr,
                ff,
                tr,
                tf,
                None,
            ),
            _ => attacks(self.layout, fr, ff, tr, tf, None),
        }
    }

    /// Whether the king of the given color is in check once the piece on the
    /// first square has been carried to the second.
    pub open spec fn check_after(self, color: PieceColor, fr: int, ff: int, tr: int, tf: int)
        -> bool {
        in_check(relocate(self.layout, fr, ff, tr, tf), color)
    }

    /// Whether the move is legal: a piece of the side to move stands on the
    /// first square, it may go to the second by the way its kind moves, and
    /// its king is not in check afterwards.
    pub open spec fn legal(self, fr: int, ff: int, tr: int, tf: int) -> bool {
        &&& piece_at(self.layout, fr, ff) matches Some(p)
        &&& p.color == self.to_move()
        &&& self.reaches(p, fr, ff, tr, tf)
        &&& !self.check_after(p.color, fr, ff, tr, tf)
    }

    /// Whether the piece on the square has a legal move.
    pub open spec fn movable(self, fr: int, ff: int) -> bool {
        exists|tr: int, tf: int| on_board(tr, tf) && #[trigger] self.legal(fr, ff, tr, tf)
    }

    /// Whether the side to move has a legal move.
    pub open spec fn has_legal_move(self) -> bool {
        exists|fr: int, ff: int| on_board(fr, ff) && #[trigger] self.movable(fr, ff)
    }

    /// How the game stands: ongoing while the side to move has a legal
    /// move; otherwise checkmate by the other side if the side to move is in
    /// check, stalemate if it is not.
    pub open spec fn outcome(self) -> GameOverState {
        if self.has_legal_move() {
            GameOverState::Ongoing
        } else if in_check(self.layout, self.to_move()) {
            GameOverState::Checkmate(self.to_move().opposite())
        } else {
            GameOverState::Stalemate
        }
    }

    /// Whether the move is a legal move of a pawn onto the last rank.
    pub open spec fn promotable(self, fr: int, ff: int, tr: int, tf: int) -> bool {
        &&& piece_at(self.layout, fr, ff) matches Some(p)
        &&& p.piece == PieceType::Pawn
        &&& tr == p.color.promotion_rank()
        &&& self.legal(fr, ff, tr, tf)
    }

    /// The squares once the side effects of a legal move are done: the pawn
    /// captured in passing is gone and the rook of a castle stands beside
    /// the king's destination.
    pub open spec fn cleared(self, fr: int, ff: int, tr: int, tf: int) -> Layout {
        let passed = if self.en_passant(fr, ff, tr, tf) {
            put(
                self.layout,
                self.last.unwrap().to.0 as int,
                self.last.unwrap().to.1 as int,
                None,
            )
        } else {
            self.layout
        };
        if self.castle(fr, ff, tr, tf) {
            relocate(passed, tr, rook_file(tf), tr, rook_target_file(tf))
        } else {
            passed
        }
    }

    /// The record of a legal move. It counts as a capture where the
    /// destination is occupied or the move is a capture in passing.
    pub open spec fn record(self, fr: int, ff: int, tr: int, tf: int) -> Move {
        let piece = piece_at(self.layout, fr, ff).unwrap();
        Move {
            from: (fr as usize, ff as usize),
            to: (tr as usize, tf as usize),
            color: piece.color,
            piece,
            capture: piece_at(self.layout, tr, tf) is Some || self.en_passant(fr, ff, tr, tf),
        }
    }

    /// The position after a move is asked for. An illegal move changes
    /// nothing. A legal one carries the piece to its destination, as the
    /// promotion piece where one is given and the move promotes; takes
    /// away the pawn captured in passing; carries the rook of a castle;
    /// updates the counters and the castling rights; and is recorded as the
    /// last move and at the end of the history.
    pub open spec fn after_move(self, fr: int, ff: int, tr: int, tf: int, promote: Option<Piece>)
        -> Position {
        if !self.legal(fr, ff, tr, tf) {
            self
        } else {
            let piece = piece_at(self.layout, fr, ff).unwrap();
            let placed = if promote is Some && self.promotable(fr, ff, tr, tf) {
                promote.unwrap()
            } else {
                piece
            };
            let mv = self.record(fr, ff, tr, tf);
            Position {
                layout: put(
                    put(self.cleared(fr, ff, tr, tf), tr, tf, Some(placed)),
                    fr,
                    ff,
                    None,
                ),
                last: Some(mv),
                history: self.history.push(mv),
                halfmoves: if mv.capture || piece.piece == PieceType::Pawn {
                    0
                } else {
                    self.halfmoves + 1
                },
                fullmoves: if piece.color == PieceColor::Black {
                    self.fullmoves + 1
                } else {
                    self.fullmoves
                },
                castles: self.castles.after_leaving(piece, fr, ff),
            }
        }
    }
}

} // verus!

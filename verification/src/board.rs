//! The board of a running game: queries on it and the one operation that
//! changes it.

use vstd::prelude::*;
use crate::attack::{
    any_attacker, attacking, attacks, checked, find_king, in_check, king_square, layout,
    layout_wf, on_board, piece_at, relocated, set_tile, tile, Grid,
};
use crate::moves::{CastleAvailability, CastleCheck, GameOverState, Move};
use crate::piece::{Piece, PieceColor, PieceType};
use crate::position::{rook_file, rook_target_file, Position};

verus! {

/// The authoritative state of a game.
#[derive(Clone)]
pub struct Board {
    pub tiles: Grid,
    pub lastmove: Option<Move>,
    pub movelist: Vec<Move>,
    pub halfmoves: usize,
    pub fullmoves: usize,
    pub castles: CastleAvailability,
}

impl View for Board {
    type V = Position;

    open spec fn view(&self) -> Position {
        Position {
            layout: layout(self.tiles),
            last: self.lastmove,
            history: self.movelist@,
            halfmoves: self.halfmoves as nat,
            fullmoves: self.fullmoves as nat,
            castles: self.castles,
        }
    }
}

/// The layout of every grid has eight ranks of eight squares.
pub proof fn lemma_grid_layout_wf(g: Grid)
    ensures
        layout_wf(layout(g)),
{
}

impl Board {
    /// The last move, if any, names squares of the board.
    pub open spec fn wf(&self) -> bool {
        self@.wf()
    }

    /// Whether the board meets `wf`.
    pub fn is_wf(&self) -> (ok: bool)
        ensures
            ok == self.wf(),
    {
        proof {
            lemma_grid_layout_wf(self.tiles);
        }
        match self.lastmove {
            Some(m) => m.from.0 < 8 && m.from.1 < 8 && m.to.0 < 8 && m.to.1 < 8,
            None => true,
        }
    }

    /// The board at the start of a game.
    pub fn new() -> (b: Board)
        ensures
            b@ == Position::initial(),
            b.wf(),
    {
        let w = PieceColor::White;
        let k = PieceColor::Black;
        let b = Board {
            tiles: [
                [
                    Some(Piece { piece: PieceType::Rook, color: w }),
                    Some(Piece { piece: PieceType::Knight, color: w }),
                    Some(Piece { piece: PieceType::Bishop, color: w }),
                    Some(Piece { piece: PieceType::Queen, color: w }),
                    Some(Piece { piece: PieceType::King, color: w }),
                    Some(Piece { piece: PieceType::Bishop, color: w }),
                    Some(Piece { piece: PieceType::Knight, color: w }),
                    Some(Piece { piece: PieceType::Rook, color: w }),
                ],
                [Some(Piece { piece: PieceType::Pawn, color: w });8],
                [None;8],
                [None;8],
                [None;8],
                [None;8],
                [Some(Piece { piece: PieceType::Pawn, color: k });8],
                [
                    Some(Piece { piece: PieceType::Rook, color: k }),
                    Some(Piece { piece: PieceType::Knight, color: k }),
                    Some(Piece { piece: PieceType::Bishop, color: k }),
                    Some(Piece { piece: PieceType::Queen, color: k }),
                    Some(Piece { piece: PieceType::King, color: k }),
                    Some(Piece { piece: PieceType::Bishop, color: k }),
                    Some(Piece { piece: PieceType::Knight, color: k }),
                    Some(Piece { piece: PieceType::Rook, color: k }),
                ],
            ],
            lastmove: None,
            movelist: Vec::new(),
            halfmoves: 0usize,
            fullmoves: 1usize,
            castles: CastleAvailability::new(),
        };
        proof {
            broadcast use vstd::array::axiom_spec_array_fill_for_copy_type;

            assert(b@.layout =~~= Position::initial().layout);
            assert(b@.history =~= Position::initial().history);
        }
        b
    }

    /// The side to move.
    pub fn to_move(&self) -> (c: PieceColor)
        ensures
            c == self@.to_move(),
    {
        if let Some(prevmove) = self.lastmove {
            return prevmove.color.opposite();
        }
        PieceColor::White
    }

    /// Whether the piece on `source` threatens `target`. Pieces of the
    /// color given as the third argument threaten nothing.
    pub fn is_attacking(
        &self,
        source: (usize, usize),
        target: (usize, usize),
        override_source_color: Option<PieceColor>,
    ) -> (hit: bool)
        requires
            on_board(source.0 as int, source.1 as int),
            on_board(target.0 as int, target.1 as int),
        ensures
            hit == attacks(
                self@.layout,
                source.0 as int,
                source.1 as int,
                target.0 as int,
                target.1 as int,
                override_source_color,
            ),
            source == target ==> !hit,
    {
        attacking(&self.tiles, source, target, override_source_color)
    }

    /// The square of the king of the given color: the first one found rank
    /// by rank, or `(0, 0)` where the board holds none.
    pub fn king_coords(&self, color: PieceColor) -> (at: (usize, usize))
        ensures
            (at.0 as int, at.1 as int) == king_square(self@.layout, color),
            on_board(at.0 as int, at.1 as int),
    {
        find_king(&self.tiles, color)
    }

    /// Whether the king of the given color is threatened.
    pub fn is_check(&self, color: PieceColor) -> (hit: bool)
        ensures
            hit == in_check(self@.layout, color),
    {
        checked(&self.tiles, color)
    }

    /// Whether the king of the given color is in check once the piece on
    /// `from` has been carried to `to`. The board itself is left as it is.
    pub fn is_check_after(&self, color: PieceColor, from: (usize, usize), to: (usize, usize)) -> (hit:
        bool)
        requires
            on_board(from.0 as int, from.1 as int),
            on_board(to.0 as int, to.1 as int),
        ensures
            hit == self@.check_after(color, from.0 as int, from.1 as int, to.0 as int, to.1 as int),
    {
        let scratch = relocated(&self.tiles, from, to);
        checked(&scratch, color)
    }

    /// Whether the move of the piece on `from` leaves its own king out of
    /// check.
    pub fn final_move_validation(&self, from: (usize, usize), to: (usize, usize)) -> (ok: bool)
        requires
            on_board(from.0 as int, from.1 as int),
            on_board(to.0 as int, to.1 as int),
            piece_at(self@.layout, from.0 as int, from.1 as int) is Some,
        ensures
            ok == !self@.check_after(
                piece_at(self@.layout, from.0 as int, from.1 as int).unwrap().color,
                from.0 as int,
                from.1 as int,
                to.0 as int,
                to.1 as int,
            ),
    {
        match tile(&self.tiles, from.0, from.1) {
            Some(orig) => !self.is_check_after(orig.color, from, to),
            None => false,
        }
    }

    /// Whether the move is a pawn's capture in passing.
    pub fn is_en_passant(&self, from: (usize, usize), to: (usize, usize)) -> (ok: bool)
        requires
            self.wf(),
            on_board(from.0 as int, from.1 as int),
            on_board(to.0 as int, to.1 as int),
        ensures
            ok == self@.en_passant(from.0 as int, from.1 as int, to.0 as int, to.1 as int),
    {
        let lastmove = match self.lastmove {
            Some(lastmove) => lastmove,
            None => {
                return false;
            },
        };
        let piece = match tile(&self.tiles, from.0, from.1) {
            Some(piece) => piece,
            None => {
                return false;
            },
        };
        if lastmove.piece.piece != PieceType::Pawn || piece.piece != PieceType::Pawn {
            return false;
        }
        let two_ranks = lastmove.to.0 == lastmove.from.0 + 2 || lastmove.from.0 == lastmove.to.0
            + 2;
        if !two_ranks {
            return false;
        }
        let beside = from.0 == lastmove.to.0 && (from.1 + 1 == lastmove.to.1 || lastmove.to.1 + 1
            == from.1);
        if !beside || to.1 != lastmove.to.1 {
            return false;
        }
        match piece.color {
            PieceColor::White => to.0 == lastmove.to.0 + 1,
            PieceColor::Black => to.0 + 1 == lastmove.to.0,
        }
    }

    /// Whether the move is a castle that the rules allow, and if so the
    /// squares that the rook leaves and reaches.
    pub fn can_castle(&self, from: (usize, usize), to: (usize, usize)) -> (c: CastleCheck)
        requires
            on_board(from.0 as int, from.1 as int),
            on_board(to.0 as int, to.1 as int),
        ensures
            c.cancastle == self@.castle(from.0 as int, from.1 as int, to.0 as int, to.1 as int),
            c.cancastle ==> c.rooksource == Some((to.0, rook_file(to.1 as int) as usize))
                && c.rookdestination == Some((to.0, rook_target_file(to.1 as int) as usize)),
            !c.cancastle ==> c.rooksource.is_none() && c.rookdestination.is_none(),
    {
        let piece = match tile(&self.tiles, from.0, from.1) {
            Some(piece) => piece,
            None => {
                return CastleCheck::new(false);
            },
        };
        if piece.piece != PieceType::King {
            return CastleCheck::new(false);
        }
        let home: usize = match piece.color {
            PieceColor::White => 0,
            PieceColor::Black => 7,
        };
        if from.0 != home || from.1 != 4 || to.0 != home || (to.1 != 2 && to.1 != 6) {
            return CastleCheck::new(false);
        }
        let kingside = to.1 == 6;
        if !self.castles.check_availability(piece.color, kingside) {
            return CastleCheck::new(false);
        }
        let (rook, dest): (usize, usize) = if kingside {
            (7, 5)
        } else {
            (0, 3)
        };
        if !kingside && tile(&self.tiles, home, 1).is_some() {
            return CastleCheck::new(false);
        }
        if tile(&self.tiles, home, dest).is_some() || tile(&self.tiles, home, to.1).is_some() {
            return CastleCheck::new(false);
        }
        if any_attacker(&self.tiles, (home, dest), Some(piece.color)) || any_attacker(
            &self.tiles,
            (home, to.1),
            Some(piece.color),
        ) {
            return CastleCheck::new(false);
        }
        if self.is_check(piece.color) {
            return CastleCheck::new(false);
        }
        CastleCheck { cancastle: true, rooksource: Some((home, rook)), rookdestination: Some((home, dest)) }
    }

    /// Whether the move is legal for the side to move.
    pub fn is_legal_move(&self, from: (usize, usize), to: (usize, usize)) -> (ok: bool)
        requires
            self.wf(),
            on_board(from.0 as int, from.1 as int),
            on_board(to.0 as int, to.1 as int),
        ensures
            ok == self@.legal(from.0 as int, from.1 as int, to.0 as int, to.1 as int),
            ok ==> !self@.check_after(
                self@.to_move(),
                from.0 as int,
                from.1 as int,
                to.0 as int,
                to.1 as int,
            ),
    {
        let piece = match tile(&self.tiles, from.0, from.1) {
            Some(piece) => piece,
            None => {
                return false;
            },
        };
        if piece.color != self.to_move() {
            return false;
        }
        let reaches = match piece.piece {
            PieceType::Pawn => {
                if tile(&self.tiles, to.0, to.1).is_some() {
                    self.is_attacking(from, to, None)
                } else {
                    let advance = from.1 == to.1 && match piece.color {
                        PieceColor::White => to.0 == from.0 + 1 || (from.0 == 1 && to.0 == 3
                            && tile(&self.tiles, 2, from.1).is_none()),
                        PieceColor::Black => to.0 + 1 == from.0 || (from.0 == 6 && to.0 == 4
                            && tile(&self.tiles, 5, from.1).is_none()),
                    };
                    advance || self.is_en_passant(from, to)
                }
            },
            PieceType::King => self.can_castle(from, to).cancastle || self.is_attacking(
                from,
                to,
                None,
            ),
            _ => self.is_attacking(from, to, None),
        };
        reaches && self.final_move_validation(from, to)
    }

    /// Whether the piece on `from` has a legal move.
    fn has_move_from(&self, from: (usize, usize)) -> (any: bool)
        requires
            self.wf(),
            on_board(from.0 as int, from.1 as int),
        ensures
            any == self@.movable(from.0 as int, from.1 as int),
    {
        let ghost p = self@;
        let ghost fr = from.0 as int;
        let ghost ff = from.1 as int;
        let mut x: usize = 0;
        while x < 8
            invariant
                x <= 8,
                p == self@,
                self.wf(),
                fr == from.0 as int,
                ff == from.1 as int,
                on_board(fr, ff),
                forall|r: int, f: int| 0 <= r < x && 0 <= f < 8 ==> !#[trigger] p.legal(fr, ff, r, f),
            decreases 8 - x,
        {
            let mut y: usize = 0;
            while y < 8
                invariant
                    x < 8,
                    y <= 8,
                    p == self@,
                    self.wf(),
                    fr == from.0 as int,
                    ff == from.1 as int,
                    on_board(fr, ff),
                    forall|r: int, f: int|
                        0 <= r < x && 0 <= f < 8 ==> !#[trigger] p.legal(fr, ff, r, f),
                    forall|f: int| 0 <= f < y ==> !#[trigger] p.legal(fr, ff, x as int, f),
                decreases 8 - y,
            {
                if self.is_legal_move(from, (x, y)) {
                    assert(on_board(x as int, y as int));
                    return true;
                }
                y += 1;
            }
            x += 1;
        }
        false
    }

    /// Whether the side to move has a legal move.
    pub fn any_legal_moves(&self) -> (any: bool)
        requires
            self.wf(),
        ensures
            any == self@.has_legal_move(),
    {
        let ghost p = self@;
        let mut x: usize = 0;
        while x < 8
            invariant
                x <= 8,
                p == self@,
                self.wf(),
                forall|r: int, f: int| 0 <= r < x && 0 <= f < 8 ==> !#[trigger] p.movable(r, f),
            decreases 8 - x,
        {
            let mut y: usize = 0;
            while y < 8
                invariant
                    x < 8,
                    y <= 8,
                    p == self@,
                    self.wf(),
                    forall|r: int, f: int| 0 <= r < x && 0 <= f < 8 ==> !#[trigger] p.movable(r, f),
                    forall|f: int| 0 <= f < y ==> !#[trigger] p.movable(x as int, f),
                decreases 8 - y,
            {
                if self.has_move_from((x, y)) {
                    assert(on_board(x as int, y as int));
                    return true;
                }
                y += 1;
            }
            x += 1;
        }
        false
    }

    /// How the game stands: ongoing, stalemate, or checkmate with the side
    /// that delivered it.
    pub fn is_gameover(&self) -> (state: GameOverState)
        requires
            self.wf(),
        ensures
            state == self@.outcome(),
    {
        if self.any_legal_moves() {
            return GameOverState::Ongoing;
        }
        let moving_color = self.to_move();
        if self.is_check(moving_color) {
            return GameOverState::Checkmate(moving_color.opposite());
        }
        GameOverState::Stalemate
    }

    /// Whether the move is a legal move of a pawn onto the last rank.
    pub fn can_promote(&self, from: (usize, usize), to: (usize, usize)) -> (ok: bool)
        requires
            self.wf(),
            on_board(from.0 as int, from.1 as int),
            on_board(to.0 as int, to.1 as int),
        ensures
            ok == self@.promotable(from.0 as int, from.1 as int, to.0 as int, to.1 as int),
    {
        if let Some(piece) = tile(&self.tiles, from.0, from.1) {
            if piece.piece != PieceType::Pawn {
                return false;
            }
            let promotion_rank: usize = match piece.color {
                PieceColor::White => 7,
                PieceColor::Black => 0,
            };
            if to.0 != promotion_rank {
                return false;
            }
            return self.is_legal_move(from, to);
        }
        false
    }

    /// Makes the move if it is legal and leaves the board as it is if not.
    /// A legal move takes away the pawn captured in passing, carries the
    /// rook of a castle, puts the promotion piece in the pawn's place where
    /// one is given and the move promotes, updates the counters and the
    /// castling rights, and is recorded. After a promotion with a piece
    /// given, that piece stands on the destination, the origin is empty
    /// and the record names the pawn.
    pub fn make_move(&mut self, from: (usize, usize), to: (usize, usize), promote: Option<Piece>)
        requires
            old(self).wf(),
            on_board(from.0 as int, from.1 as int),
            on_board(to.0 as int, to.1 as int),
            old(self).halfmoves < usize::MAX,
            old(self).fullmoves < usize::MAX,
        ensures
            final(self)@ == old(self)@.after_move(
                from.0 as int,
                from.1 as int,
                to.0 as int,
                to.1 as int,
                promote,
            ),
            final(self).wf(),
            promote is Some && old(self)@.promotable(
                from.0 as int,
                from.1 as int,
                to.0 as int,
                to.1 as int,
            ) ==> {
                &&& piece_at(final(self)@.layout, to.0 as int, to.1 as int) == promote
                &&& piece_at(final(self)@.layout, from.0 as int, from.1 as int) is None
                &&& final(self).lastmove is Some
                &&& final(self).lastmove.unwrap().piece.piece == PieceType::Pawn
            },
    {
        proof {
            lemma_grid_layout_wf(self.tiles);
        }
        if !self.is_legal_move(from, to) {
            return ;
        }
        let piece = match tile(&self.tiles, from.0, from.1) {
            Some(piece) => piece,
            None => {
                return ;
            },
        };
        let passing = self.is_en_passant(from, to);
        let ccheck = self.can_castle(from, to);
        let promotes = self.can_promote(from, to);
        let captured = tile(&self.tiles, to.0, to.1).is_some() || passing;
        if passing {
            if let Some(lastmove) = self.lastmove {
                set_tile(&mut self.tiles, lastmove.to.0, lastmove.to.1, None);
            }
        }
        if ccheck.cancastle {
            if let (Some(orig), Some(dest)) = (ccheck.rooksource, ccheck.rookdestination) {
                self.tiles = relocated(&self.tiles, orig, dest);
            }
        }
        let mut dest_piece = piece;
        if let Some(promote_to) = promote {
            if promotes {
                dest_piece = promote_to;
            }
        }
        if captured || piece.piece == PieceType::Pawn {
            self.halfmoves = 0;
        } else {
            self.halfmoves += 1;
        }
        if piece.color == PieceColor::Black {
            self.fullmoves += 1;
        }
        if self.castles.any_castle(piece.color) {
            let home: usize = match piece.color {
                PieceColor::White => 0,
                PieceColor::Black => 7,
            };
            match piece.piece {
                PieceType::King => {
                    self.castles.set_availability(piece.color, true, false);
                    self.castles.set_availability(piece.color, false, false);
                },
                PieceType::Rook => {
                    if from.0 == home && from.1 == 7 {
                        self.castles.set_availability(piece.color, true, false);
                    }
                    if from.0 == home && from.1 == 0 {
                        self.castles.set_availability(piece.color, false, false);
                    }
                },
                _ => {},
            }
        }
        set_tile(&mut self.tiles, to.0, to.1, Some(dest_piece));
        set_tile(&mut self.tiles, from.0, from.1, None);
        let thismove = Move { from, to, color: piece.color, piece, capture: captured };
        self.lastmove = Some(thismove);
        self.movelist.push(thismove);
        proof {
            lemma_grid_layout_wf(self.tiles);
        }
    }
}

} // verus!

//! The notation codec: squares and moves in algebraic text, and the
//! position string that chess engines read.

use vstd::prelude::*;
use crate::attack::{layout, on_board, Layout};
use crate::board::Board;
use crate::moves::{CastleAvailability, SimpleMove};
use crate::piece::{Piece, PieceType};
use crate::position::Position;

verus! {

/// The character of a decimal digit.
pub open spec fn digit_char(d: int) -> char {
    (48 + d) as u8 as char
}

/// The letter of a file: `a` for file 0 up to `h` for file 7.
pub open spec fn file_letter(f: int) -> char {
    (97 + f) as u8 as char
}

/// The decimal numeral of a number, without leading zeros.
pub open spec fn decimal(n: nat) -> Seq<char>
    decreases n,
{
    if n < 10 {
        seq![digit_char(n as int)]
    } else {
        decimal(n / 10).push(digit_char((n % 10) as int))
    }
}

/// A square in algebraic text: the file's letter, then the rank counted
/// from one.
pub open spec fn square_text(r: int, f: int) -> Seq<char> {
    seq![file_letter(f), digit_char(r + 1)]
}

/// The kind of piece that a promotion letter chooses: `q`, `n`, `b` or `r`
/// in either case; any other character chooses a queen.
pub open spec fn promotion_piece(c: char) -> PieceType {
    if c == 'n' || c == 'N' {
        PieceType::Knight
    } else if c == 'b' || c == 'B' {
        PieceType::Bishop
    } else if c == 'r' || c == 'R' {
        PieceType::Rook
    } else {
        PieceType::Queen
    }
}

/// The text of a promotion choice: the piece's letter, or nothing.
pub open spec fn promotion_text(promotion: Option<PieceType>) -> Seq<char> {
    match promotion {
        Some(kind) => seq![kind.letter()],
        None => Seq::empty(),
    }
}

/// A move in algebraic text: origin, destination and, for a promotion, the
/// letter of the piece chosen.
pub open spec fn move_text(m: SimpleMove) -> Seq<char> {
    square_text(m.from.0 as int, m.from.1 as int) + square_text(m.to.0 as int, m.to.1 as int)
        + promotion_text(m.promotion)
}

/// Whether a text starts with two squares of the board in algebraic text.
pub open spec fn names_move(s: Seq<char>) -> bool {
    &&& s.len() >= 4
    &&& 'a' <= s[0] <= 'h'
    &&& '1' <= s[1] <= '8'
    &&& 'a' <= s[2] <= 'h'
    &&& '1' <= s[3] <= '8'
}

/// The move that a text names: its first four characters give the two
/// squares, a fifth one the promotion.
pub open spec fn text_move(s: Seq<char>) -> SimpleMove {
    SimpleMove {
        from: ((s[1] as u32 - 49) as usize, (s[0] as u32 - 97) as usize),
        to: ((s[3] as u32 - 49) as usize, (s[2] as u32 - 97) as usize),
        promotion: if s.len() > 4 {
            Some(promotion_piece(s[4]))
        } else {
            None
        },
    }
}

/// The digit that counts a run of empty squares; nothing for no run.
pub open spec fn run_text(empty: nat) -> Seq<char> {
    if empty > 0 {
        seq![digit_char(empty as int)]
    } else {
        Seq::empty()
    }
}

/// The text of a rank from file `i` on, with `empty` empty squares counted
/// before it: a letter for each piece, a digit for each run of empty
/// squares.
pub open spec fn rank_text(row: Seq<Option<Piece>>, i: int, empty: nat) -> Seq<char>
    decreases row.len() - i,
{
    if i < 0 || i >= row.len() {
        run_text(empty)
    } else {
        match row[i] {
            Some(p) => run_text(empty).push(p.letter()) + rank_text(row, i + 1, 0),
            None => rank_text(row, i + 1, empty + 1),
        }
    }
}

/// The text of ranks `r` down to 0, separated by `/`.
pub open spec fn placement_text(l: Layout, r: int) -> Seq<char>
    decreases r,
{
    if r <= 0 {
        rank_text(l[0], 0, 0)
    } else {
        rank_text(l[r], 0, 0).push('/') + placement_text(l, r - 1)
    }
}

/// The letter of a castling right that is held; nothing for one that is
/// not.
pub open spec fn right_text(held: bool, c: char) -> Seq<char> {
    if held {
        seq![c]
    } else {
        Seq::empty()
    }
}

/// The castling field: the letters among `K Q k q` of the rights held, in
/// that order, or `-` where none is.
pub open spec fn castling_text(c: CastleAvailability) -> Seq<char> {
    if !c.white_kingside && !c.white_queenside && !c.black_kingside && !c.black_queenside {
        seq!['-']
    } else {
        right_text(c.white_kingside, 'K') + right_text(c.white_queenside, 'Q') + right_text(
            c.black_kingside,
            'k',
        ) + right_text(c.black_queenside, 'q')
    }
}

/// The en passant field: the square that the pawn skipped where the last
/// move was a pawn's advance of two ranks, else `-`.
pub open spec fn passing_text(p: Position) -> Seq<char> {
    if p.double_step() {
        square_text(
            (p.last.unwrap().from.0 + p.last.unwrap().to.0) / 2,
            p.last.unwrap().to.1 as int,
        )
    } else {
        seq!['-']
    }
}

/// The position string: piece placement from the eighth rank down, side to
/// move, castling rights, en passant square, halfmove clock and fullmove
/// number, separated by spaces.
pub open spec fn position_text(p: Position) -> Seq<char> {
    placement_text(p.layout, 7) + seq![' ', p.to_move().letter(), ' '] + castling_text(p.castles)
        + seq![' '] + passing_text(p) + seq![' '] + decimal(p.halfmoves) + seq![' '] + decimal(
        p.fullmoves,
    )
}

/// `String::push` of the standard library: the character is added at the
/// end of the string and nothing else changes.
#[verifier::external_body]
fn push_char(out: &mut String, c: char)
    ensures
        final(out)@ == old(out)@.push(c),
{
    out.push(c)
}

fn digit_of(d: usize) -> (c: char)
    requires
        d < 10,
    ensures
        c == digit_char(d as int),
{
    (48u8 + d as u8) as char
}

fn letter_of(f: usize) -> (c: char)
    requires
        f < 8,
    ensures
        c == file_letter(f as int),
{
    (97u8 + f as u8) as char
}

fn push_decimal(out: &mut String, n: usize)
    ensures
        final(out)@ == old(out)@ + decimal(n as nat),
    decreases n,
{
    if n >= 10 {
        push_decimal(out, n / 10);
    }
    push_char(out, digit_of(n % 10));
    assert(out@ =~= old(out)@ + decimal(n as nat));
}

fn push_square(out: &mut String, square: (usize, usize))
    requires
        on_board(square.0 as int, square.1 as int),
    ensures
        final(out)@ == old(out)@ + square_text(square.0 as int, square.1 as int),
{
    push_char(out, letter_of(square.1));
    push_char(out, digit_of(square.0 + 1));
    assert(out@ =~= old(out)@ + square_text(square.0 as int, square.1 as int));
}

/// A square in algebraic text, such as `e4`.
pub fn toalgebraicsquare(square: (usize, usize)) -> (out: String)
    requires
        on_board(square.0 as int, square.1 as int),
    ensures
        out@ == square_text(square.0 as int, square.1 as int),
{
    let mut out = String::new();
    push_square(&mut out, square);
    assert(out@ =~= square_text(square.0 as int, square.1 as int));
    out
}

impl SimpleMove {
    /// The move that an algebraic text names, such as `e2e4` or `e7e8q`.
    pub fn from_algebraic(algebraic: &str) -> (m: SimpleMove)
        requires
            names_move(algebraic@),
        ensures
            m == text_move(algebraic@),
            on_board(m.from.0 as int, m.from.1 as int),
            on_board(m.to.0 as int, m.to.1 as int),
    {
        let a = algebraic.get_char(0) as u32 - 97;
        let b = algebraic.get_char(1) as u32 - 49;
        let c = algebraic.get_char(2) as u32 - 97;
        let d = algebraic.get_char(3) as u32 - 49;
        let promotion = if algebraic.unicode_len() > 4 {
            let e = algebraic.get_char(4);
            let kind = if e == 'n' || e == 'N' {
                PieceType::Knight
            } else if e == 'b' || e == 'B' {
                PieceType::Bishop
            } else if e == 'r' || e == 'R' {
                PieceType::Rook
            } else {
                PieceType::Queen
            };
            Some(kind)
        } else {
            None
        };
        SimpleMove { from: (b as usize, a as usize), to: (d as usize, c as usize), promotion }
    }

    /// The move that an algebraic text names, where it starts with two
    /// squares of the board; `None` for any other text.
    pub fn parse(text: &str) -> (m: Option<SimpleMove>)
        ensures
            m == if names_move(text@) {
                Some(text_move(text@))
            } else {
                None
            },
    {
        if text.unicode_len() < 4 {
            return None;
        }
        let a = text.get_char(0);
        let b = text.get_char(1);
        let c = text.get_char(2);
        let d = text.get_char(3);
        if 'a' <= a && a <= 'h' && '1' <= b && b <= '8' && 'a' <= c && c <= 'h' && '1' <= d && d
            <= '8' {
            Some(SimpleMove::from_algebraic(text))
        } else {
            None
        }
    }

    /// The move in algebraic text.
    pub fn to_algebraic(&self) -> (out: String)
        requires
            on_board(self.from.0 as int, self.from.1 as int),
            on_board(self.to.0 as int, self.to.1 as int),
        ensures
            out@ == move_text(*self),
    {
        let mut out = String::new();
        push_square(&mut out, self.from);
        push_square(&mut out, self.to);
        if let Some(piece) = self.promotion {
            push_char(&mut out, piece.to_char());
        }
        assert(out@ =~= move_text(*self));
        out
    }
}

fn push_rank(out: &mut String, row: &[Option<Piece>; 8])
    ensures
        final(out)@ == old(out)@ + rank_text(row@, 0, 0),
{
    let mut empty: usize = 0;
    let mut i: usize = 0;
    while i < 8
        invariant
            i <= 8,
            empty <= i,
            out@ + rank_text(row@, i as int, empty as nat) == old(out)@ + rank_text(row@, 0, 0),
        decreases 8 - i,
    {
        let ghost before = out@;
        match row[i] {
            Some(piece) => {
                if empty > 0 {
                    push_char(out, digit_of(empty));
                }
                push_char(out, piece.to_char());
                assert(out@ =~= before + run_text(empty as nat).push(piece.letter()));
                assert(out@ + rank_text(row@, i + 1, 0) =~= before + (run_text(empty as nat).push(
                    piece.letter(),
                ) + rank_text(row@, i + 1, 0)));
                empty = 0;
            },
            None => {
                empty += 1;
            },
        }
        i += 1;
    }
    let ghost before = out@;
    if empty > 0 {
        push_char(out, digit_of(empty));
    }
    assert(out@ =~= before + run_text(empty as nat));
}

fn push_placement(out: &mut String, g: &[[Option<Piece>; 8]; 8])
    ensures
        final(out)@ == old(out)@ + placement_text(layout(*g), 7),
{
    let mut r: usize = 7;
    while r > 0
        invariant
            r <= 7,
            out@ + placement_text(layout(*g), r as int) == old(out)@ + placement_text(
                layout(*g),
                7,
            ),
        decreases r,
    {
        let ghost before = out@;
        push_rank(out, &g[r]);
        push_char(out, '/');
        assert(out@ + placement_text(layout(*g), r - 1) =~= before + (rank_text(
            layout(*g)[r as int],
            0,
            0,
        ).push('/') + placement_text(layout(*g), r - 1)));
        r -= 1;
    }
    push_rank(out, &g[0]);
}

fn push_castling(out: &mut String, c: &CastleAvailability)
    ensures
        final(out)@ == old(out)@ + castling_text(*c),
{
    if c.white_kingside {
        push_char(out, 'K');
    }
    if c.white_queenside {
        push_char(out, 'Q');
    }
    if c.black_kingside {
        push_char(out, 'k');
    }
    if c.black_queenside {
        push_char(out, 'q');
    }
    if !c.white_kingside && !c.white_queenside && !c.black_kingside && !c.black_queenside {
        push_char(out, '-');
    }
    assert(out@ =~= old(out)@ + castling_text(*c));
}

impl Board {
    /// The position string of the board.
    pub fn fen(&self) -> (out: String)
        requires
            self.wf(),
        ensures
            out@ == position_text(self@),
    {
        let mut out = String::new();
        push_placement(&mut out, &self.tiles);
        push_char(&mut out, ' ');
        push_char(&mut out, self.to_move().to_char());
        push_char(&mut out, ' ');
        let ghost placed = out@;
        assert(placed =~= placement_text(self@.layout, 7) + seq![' ', self@.to_move().letter(), ' ']);
        push_castling(&mut out, &self.castles);
        push_char(&mut out, ' ');
        let ghost before = out@;
        let mut passing = false;
        if let Some(lastmove) = self.lastmove {
            if lastmove.piece.piece == PieceType::Pawn && (lastmove.to.0 == lastmove.from.0 + 2
                || lastmove.from.0 == lastmove.to.0 + 2) {
                passing = true;
                push_square(&mut out, ((lastmove.from.0 + lastmove.to.0) / 2, lastmove.to.1));
            }
        }
        if !passing {
            push_char(&mut out, '-');
        }
        assert(out@ =~= before + passing_text(self@));
        push_char(&mut out, ' ');
        push_decimal(&mut out, self.halfmoves);
        push_char(&mut out, ' ');
        push_decimal(&mut out, self.fullmoves);
        assert(out@ =~= position_text(self@));
        out
    }
}

} // verus!

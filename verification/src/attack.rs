//! The grid of squares and the attack evaluator: which piece threatens
//! which square, whoever is to move.

use vstd::prelude::*;
use crate::piece::{Piece, PieceColor, PieceType};

verus! {

/// The squares of a board, indexed by rank and then by file.
pub type Grid = [[Option<Piece>; 8]; 8];

/// The mathematical model of a grid: eight ranks of eight squares each.
pub type Layout = Seq<Seq<Option<Piece>>>;

/// Whether rank `r` and file `f` name a square of the board.
pub open spec fn on_board(r: int, f: int) -> bool {
    0 <= r < 8 && 0 <= f < 8
}

/// Whether a layout has eight ranks of eight squares.
pub open spec fn layout_wf(l: Layout) -> bool {
    &&& l.len() == 8
    &&& forall|r: int| 0 <= r < 8 ==> (#[trigger] l[r]).len() == 8
}

/// The layout that a grid holds.
pub open spec fn layout(g: Grid) -> Layout {
    Seq::new(8, |r: int| g[r]@)
}

/// What stands on a square.
pub open spec fn piece_at(l: Layout, r: int, f: int) -> Option<Piece> {
    l[r][f]
}

/// The layout with one square replaced.
pub open spec fn put(l: Layout, r: int, f: int, p: Option<Piece>) -> Layout {
    l.update(r, l[r].update(f, p))
}

/// The layout after the piece on the first square has been carried to the
/// second and its origin cleared.
pub open spec fn relocate(l: Layout, fr: int, ff: int, tr: int, tf: int) -> Layout {
    put(put(l, tr, tf, piece_at(l, fr, ff)), fr, ff, None)
}

/// The distance between two coordinates.
pub open spec fn dist(a: int, b: int) -> int {
    if a >= b {
        a - b
    } else {
        b - a
    }
}

/// Whether `x` lies strictly between `a` and `b`.
pub open spec fn inside(a: int, b: int, x: int) -> bool {
    (a < x && x < b) || (b < x && x < a)
}

/// Whether square `(r, f)` lies strictly between source and target on the
/// rank, file or diagonal that joins them.
pub open spec fn strictly_between(sr: int, sf: int, tr: int, tf: int, r: int, f: int) -> bool {
    if sr == tr {
        r == sr && inside(sf, tf, f)
    } else if sf == tf {
        f == sf && inside(sr, tr, r)
    } else if tr - sr == tf - sf {
        inside(sr, tr, r) && r - sr == f - sf
    } else if tr - sr == sf - tf {
        inside(sr, tr, r) && r - sr == sf - f
    } else {
        false
    }
}

/// Whether every square strictly between source and target is empty.
pub open spec fn path_clear(l: Layout, sr: int, sf: int, tr: int, tf: int) -> bool {
    forall|r: int, f: int|
        strictly_between(sr, sf, tr, tf, r, f) ==> (#[trigger] piece_at(l, r, f)) is None
}

/// Whether a piece of the given kind and color on the source square reaches
/// the target square by its capturing geometry.
pub open spec fn in_range(l: Layout, p: Piece, sr: int, sf: int, tr: int, tf: int) -> bool {
    match p.piece {
        PieceType::King => dist(tr, sr) <= 1 && dist(tf, sf) <= 1,
        PieceType::Pawn => tr - sr == p.color.forward() && dist(tf, sf) == 1,
        PieceType::Knight => (dist(tf, sf) == 2 && dist(tr, sr) == 1) || (dist(tf, sf) == 1
            && dist(tr, sr) == 2),
        PieceType::Rook => (tr == sr || tf == sf) && path_clear(l, sr, sf, tr, tf),
        PieceType::Bishop => dist(tr, sr) == dist(tf, sf) && path_clear(l, sr, sf, tr, tf),
        PieceType::Queen => (tr == sr || tf == sf || dist(tr, sr) == dist(tf, sf)) && path_clear(
            l,
            sr,
            sf,
            tr,
            tf,
        ),
    }
}

/// Whether the piece on the source square threatens the target square.
/// No piece threatens its own square or a square held by its own side, and
/// pieces of the excluded color threaten nothing.
pub open spec fn attacks(
    l: Layout,
    sr: int,
    sf: int,
    tr: int,
    tf: int,
    excluded: Option<PieceColor>,
) -> bool {
    &&& !(sr == tr && sf == tf)
    &&& piece_at(l, sr, sf) matches Some(p)
    &&& !(piece_at(l, tr, tf) matches Some(q) && q.color == p.color)
    &&& excluded != Some(p.color)
    &&& in_range(l, p, sr, sf, tr, tf)
}

/// Whether any piece on the board threatens the target square.
pub open spec fn attacked(l: Layout, tr: int, tf: int, excluded: Option<PieceColor>) -> bool {
    exists|r: int, f: int| on_board(r, f) && #[trigger] attacks(l, r, f, tr, tf, excluded)
}

/// Whether a king of the given color stands on the square.
pub open spec fn king_at(l: Layout, color: PieceColor, r: int, f: int) -> bool {
    piece_at(l, r, f) == Some(Piece { piece: PieceType::King, color })
}

/// The first square at or after `(r, f)`, rank by rank and file by file,
/// that holds a king of the given color; `(0, 0)` where there is none.
pub open spec fn first_king(l: Layout, color: PieceColor, r: int, f: int) -> (int, int)
    decreases 8 - r, 8 - f,
{
    if r >= 8 || r < 0 || f < 0 {
        (0, 0)
    } else if f >= 8 {
        first_king(l, color, r + 1, 0)
    } else if king_at(l, color, r, f) {
        (r, f)
    } else {
        first_king(l, color, r, f + 1)
    }
}

/// The square of the king of the given color.
pub open spec fn king_square(l: Layout, color: PieceColor) -> (int, int) {
    first_king(l, color, 0, 0)
}

/// Whether the king of the given color is threatened.
pub open spec fn in_check(l: Layout, color: PieceColor) -> bool {
    attacked(l, king_square(l, color).0, king_square(l, color).1, None)
}

/// The coordinate `i` steps from `a` towards `b`.
pub open spec fn toward(a: int, b: int, i: int) -> int {
    if b > a {
        a + i
    } else if b < a {
        a - i
    } else {
        a
    }
}

fn abs_diff(a: usize, b: usize) -> (d: usize)
    ensures
        d == dist(a as int, b as int),
{
    if a >= b {
        a - b
    } else {
        b - a
    }
}

fn step_toward(a: usize, b: usize, i: usize) -> (x: usize)
    requires
        a < 8,
        b < 8,
        i <= dist(a as int, b as int) || a == b,
    ensures
        x == toward(a as int, b as int, i as int),
{
    if b > a {
        a + i
    } else if b < a {
        a - i
    } else {
        a
    }
}

/// What stands on a square of the grid.
pub fn tile(g: &Grid, r: usize, f: usize) -> (p: Option<Piece>)
    requires
        r < 8,
        f < 8,
    ensures
        p == piece_at(layout(*g), r as int, f as int),
{
    g[r][f]
}

/// Replaces what stands on a square of the grid.
pub fn set_tile(g: &mut Grid, r: usize, f: usize, p: Option<Piece>)
    requires
        r < 8,
        f < 8,
    ensures
        layout(*final(g)) == put(layout(*old(g)), r as int, f as int, p),
{
    let mut row = g[r];
    row[f] = p;
    g[r] = row;
    assert(layout(*g) =~~= put(layout(*old(g)), r as int, f as int, p));
}

/// Whether every square strictly between two aligned squares is empty.
fn path_is_clear(g: &Grid, source: (usize, usize), target: (usize, usize)) -> (clear: bool)
    requires
        on_board(source.0 as int, source.1 as int),
        on_board(target.0 as int, target.1 as int),
        source.0 == target.0 || source.1 == target.1 || dist(target.0 as int, source.0 as int)
            == dist(target.1 as int, source.1 as int),
    ensures
        clear == path_clear(
            layout(*g),
            source.0 as int,
            source.1 as int,
            target.0 as int,
            target.1 as int,
        ),
{
    let dr = abs_diff(source.0, target.0);
    let df = abs_diff(source.1, target.1);
    let n = if dr >= df {
        dr
    } else {
        df
    };
    let ghost l = layout(*g);
    let ghost sr = source.0 as int;
    let ghost sf = source.1 as int;
    let ghost tr = target.0 as int;
    let ghost tf = target.1 as int;
    let mut i: usize = 1;
    while i < n
        invariant
            1 <= i,
            n < 8,
            l == layout(*g),
            sr == source.0 as int,
            sf == source.1 as int,
            tr == target.0 as int,
            tf == target.1 as int,
            on_board(sr, sf),
            on_board(tr, tf),
            n == dist(tr, sr) || n == dist(tf, sf),
            dist(tr, sr) <= n,
            dist(tf, sf) <= n,
            sr == tr || sf == tf || dist(tr, sr) == dist(tf, sf),
            forall|r: int, f: int|
                strictly_between(sr, sf, tr, tf, r, f) && dist(r, sr) < i && dist(f, sf) < i ==> (
                #[trigger] piece_at(l, r, f)) is None,
        decreases n - i,
    {
        let r = step_toward(source.0, target.0, i);
        let f = step_toward(source.1, target.1, i);
        if tile(g, r, f).is_some() {
            assert(strictly_between(sr, sf, tr, tf, r as int, f as int));
            assert(piece_at(l, r as int, f as int) is Some);
            return false;
        }
        assert forall|r2: int, f2: int|
            strictly_between(sr, sf, tr, tf, r2, f2) && dist(r2, sr) < i + 1 && dist(f2, sf) < i
                + 1 implies (#[trigger] piece_at(l, r2, f2)) is None by {
            if !(dist(r2, sr) < i && dist(f2, sf) < i) {
                assert(r2 == r && f2 == f);
            }
        }
        i += 1;
    }
    true
}

/// Whether the piece on `source` threatens `target`; pieces of the excluded
/// color threaten nothing.
pub fn attacking(
    g: &Grid,
    source: (usize, usize),
    target: (usize, usize),
    excluded: Option<PieceColor>,
) -> (hit: bool)
    requires
        on_board(source.0 as int, source.1 as int),
        on_board(target.0 as int, target.1 as int),
    ensures
        hit == attacks(
            layout(*g),
            source.0 as int,
            source.1 as int,
            target.0 as int,
            target.1 as int,
            excluded,
        ),
{
    if source.0 == target.0 && source.1 == target.1 {
        return false;
    }
    let piece = match tile(g, source.0, source.1) {
        Some(piece) => piece,
        None => {
            return false;
        },
    };
    if let Some(target_piece) = tile(g, target.0, target.1) {
        if target_piece.color == piece.color {
            return false;
        }
    }
    if let Some(color) = excluded {
        if piece.color == color {
            return false;
        }
    }
    let vert = abs_diff(target.0, source.0);
    let hori = abs_diff(target.1, source.1);
    match piece.piece {
        PieceType::King => vert <= 1 && hori <= 1,
        PieceType::Pawn => {
            let ahead = match piece.color {
                PieceColor::White => target.0 == source.0 + 1,
                PieceColor::Black => source.0 == target.0 + 1,
            };
            ahead && hori == 1
        },
        PieceType::Knight => (hori == 2 && vert == 1) || (hori == 1 && vert == 2),
        PieceType::Rook => {
            if vert != 0 && hori != 0 {
                false
            } else {
                path_is_clear(g, source, target)
            }
        },
        PieceType::Bishop => {
            if hori != vert {
                false
            } else {
                path_is_clear(g, source, target)
            }
        },
        PieceType::Queen => {
            if hori == vert || hori == 0 || vert == 0 {
                path_is_clear(g, source, target)
            } else {
                false
            }
        },
    }
}

/// Whether any piece on the board threatens `target`; pieces of the
/// excluded color threaten nothing.
pub fn any_attacker(g: &Grid, target: (usize, usize), excluded: Option<PieceColor>) -> (hit: bool)
    requires
        on_board(target.0 as int, target.1 as int),
    ensures
        hit == attacked(layout(*g), target.0 as int, target.1 as int, excluded),
{
    let ghost l = layout(*g);
    let ghost tr = target.0 as int;
    let ghost tf = target.1 as int;
    let mut x: usize = 0;
    while x < 8
        invariant
            x <= 8,
            l == layout(*g),
            tr == target.0 as int,
            tf == target.1 as int,
            on_board(tr, tf),
            forall|r: int, f: int|
                0 <= r < x && 0 <= f < 8 ==> !#[trigger] attacks(l, r, f, tr, tf, excluded),
        decreases 8 - x,
    {
        let mut y: usize = 0;
        while y < 8
            invariant
                x < 8,
                y <= 8,
                l == layout(*g),
                tr == target.0 as int,
                tf == target.1 as int,
                on_board(tr, tf),
                forall|r: int, f: int|
                    0 <= r < x && 0 <= f < 8 ==> !#[trigger] attacks(l, r, f, tr, tf, excluded),
                forall|f: int| 0 <= f < y ==> !#[trigger] attacks(l, x as int, f, tr, tf, excluded),
            decreases 8 - y,
        {
            if attacking(g, (x, y), target, excluded) {
                assert(on_board(x as int, y as int));
                return true;
            }
            y += 1;
        }
        x += 1;
    }
    false
}

/// The square of the king of the given color: the first one found rank by
/// rank, or `(0, 0)` where the board holds none.
pub fn find_king(g: &Grid, color: PieceColor) -> (at: (usize, usize))
    ensures
        (at.0 as int, at.1 as int) == king_square(layout(*g), color),
        on_board(at.0 as int, at.1 as int),
{
    let ghost l = layout(*g);
    let mut x: usize = 0;
    while x < 8
        invariant
            x <= 8,
            l == layout(*g),
            king_square(l, color) == first_king(l, color, x as int, 0),
        decreases 8 - x,
    {
        let mut y: usize = 0;
        while y < 8
            invariant
                x < 8,
                y <= 8,
                l == layout(*g),
                king_square(l, color) == first_king(l, color, x as int, y as int),
            decreases 8 - y,
        {
            if let Some(piece) = tile(g, x, y) {
                if color == piece.color && piece.piece == PieceType::King {
                    return (x, y);
                }
            }
            y += 1;
        }
        x += 1;
    }
    (0, 0)
}

/// Whether the king of the given color is threatened.
pub fn checked(g: &Grid, color: PieceColor) -> (hit: bool)
    ensures
        hit == in_check(layout(*g), color),
{
    let king = find_king(g, color);
    any_attacker(g, king, None)
}

/// The grid after the piece on `from` has been carried to `to` and its
/// origin cleared.
pub fn relocated(g: &Grid, from: (usize, usize), to: (usize, usize)) -> (h: Grid)
    requires
        on_board(from.0 as int, from.1 as int),
        on_board(to.0 as int, to.1 as int),
    ensures
        layout(h) == relocate(
            layout(*g),
            from.0 as int,
            from.1 as int,
            to.0 as int,
            to.1 as int,
        ),
{
    let mut copy = *g;
    let moved = tile(g, from.0, from.1);
    set_tile(&mut copy, to.0, to.1, moved);
    set_tile(&mut copy, from.0, from.1, None);
    copy
}

} // verus!

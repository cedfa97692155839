//! Facts about the rules that hold of every position.

use vstd::prelude::*;
use crate::attack::{
    attacked, attacks, dist, first_king, in_check, king_at, king_square,
    layout_wf, on_board, path_clear, piece_at, put, relocate, strictly_between, Layout,
};
use crate::moves::{GameOverState, SimpleMove};
use crate::notation::{move_text, names_move, square_text, text_move};
use crate::piece::{Piece, PieceColor, PieceType};
use crate::position::{castle_path_empty, castle_path_safe, rook_file, rook_target_file, Position};

verus! {

/// No piece threatens the square it stands on, whatever color is
/// excluded.
pub proof fn lemma_no_self_attack(l: Layout, r: int, f: int, excluded: Option<PieceColor>)
    ensures
        !attacks(l, r, f, r, f, excluded),
{
}

/// A legal move never leaves the mover's king in check: once the piece
/// has been carried to its destination, the king of the side that moved is
/// not threatened.
pub proof fn lemma_legal_move_keeps_king_safe(p: Position, fr: int, ff: int, tr: int, tf: int)
    requires
        p.legal(fr, ff, tr, tf),
    ensures
        !in_check(relocate(p.layout, fr, ff, tr, tf), p.to_move()),
{
}

/// After a legal move that is neither a castle nor a capture in passing
/// nor a promotion, the king of the side that moved is not in check in the
/// position that results.
pub proof fn lemma_plain_move_leaves_king_safe(
    p: Position,
    fr: int,
    ff: int,
    tr: int,
    tf: int,
    promote: Option<Piece>,
)
    requires
        p.legal(fr, ff, tr, tf),
        !p.castle(fr, ff, tr, tf),
        !p.en_passant(fr, ff, tr, tf),
        promote is None || !p.promotable(fr, ff, tr, tf),
    ensures
        p.after_move(fr, ff, tr, tf, promote).layout == relocate(p.layout, fr, ff, tr, tf),
        !in_check(p.after_move(fr, ff, tr, tf, promote).layout, p.to_move()),
        p.after_move(fr, ff, tr, tf, promote).to_move() == p.to_move().opposite(),
{
}

/// A move that is not legal changes nothing.
pub proof fn lemma_illegal_move_changes_nothing(
    p: Position,
    fr: int,
    ff: int,
    tr: int,
    tf: int,
    promote: Option<Piece>,
)
    requires
        !p.legal(fr, ff, tr, tf),
    ensures
        p.after_move(fr, ff, tr, tf, promote) == p,
{
}

/// A well-formed position stays well formed under every move between
/// squares of the board.
pub proof fn lemma_move_keeps_wf(
    p: Position,
    fr: int,
    ff: int,
    tr: int,
    tf: int,
    promote: Option<Piece>,
)
    requires
        p.wf(),
        on_board(fr, ff),
        on_board(tr, tf),
    ensures
        p.after_move(fr, ff, tr, tf, promote).wf(),
{
}

/// A king that legally goes two files along its rank castles, so every
/// condition of castling holds: it stands on its home square, the right of
/// that side is held, the squares between king and rook are empty, no
/// enemy piece threatens the squares it crosses or lands on, and it is not
/// in check. Where any one of them fails, the move is not legal.
pub proof fn lemma_castle_needs_every_condition(p: Position, fr: int, ff: int, tr: int, tf: int)
    requires
        p.legal(fr, ff, tr, tf),
        piece_at(p.layout, fr, ff) matches Some(k) && k.piece == PieceType::King,
        dist(tf, ff) == 2,
    ensures
        p.castle(fr, ff, tr, tf),
        fr == p.to_move().home_rank() && ff == 4 && tr == fr,
        p.castles.available(p.to_move(), tf == 6),
        castle_path_empty(p.layout, tr, tf),
        castle_path_safe(p.layout, tr, tf, p.to_move()),
        !in_check(p.layout, p.to_move()),
{
}

/// A legal castle carries king and rook in one step: afterwards the king
/// stands on its destination, what stood on the rook's square stands
/// beside it, and both squares they left are empty.
pub proof fn lemma_castle_moves_king_and_rook(
    p: Position,
    fr: int,
    ff: int,
    tr: int,
    tf: int,
    promote: Option<Piece>,
)
    requires
        p.wf(),
        p.legal(fr, ff, tr, tf),
        p.castle(fr, ff, tr, tf),
    ensures
        ({
            let q = p.after_move(fr, ff, tr, tf, promote);
            &&& piece_at(q.layout, tr, tf) == piece_at(p.layout, fr, ff)
            &&& piece_at(q.layout, tr, rook_target_file(tf)) == piece_at(
                p.layout,
                tr,
                rook_file(tf),
            )
            &&& piece_at(q.layout, fr, ff) is None
            &&& piece_at(q.layout, tr, rook_file(tf)) is None
            &&& !q.castles.available(p.to_move(), true)
            &&& !q.castles.available(p.to_move(), false)
        }),
{
}

/// A capture in passing is possible only directly after a pawn's advance
/// of two ranks.
pub proof fn lemma_en_passant_needs_double_step(p: Position, fr: int, ff: int, tr: int, tf: int)
    requires
        p.en_passant(fr, ff, tr, tf),
    ensures
        p.double_step(),
        p.last matches Some(m) && m.piece.piece == PieceType::Pawn && tf == m.to.1 && fr == m.to.0,
{
}

/// Directly after a pawn's advance of two ranks, an enemy pawn that stands
/// beside it may capture it in passing, onto the empty square it skipped,
/// unless that would leave its own king in check.
pub proof fn lemma_en_passant_is_legal(p: Position, fr: int, ff: int, tr: int, tf: int)
    requires
        p.en_passant(fr, ff, tr, tf),
        piece_at(p.layout, fr, ff).unwrap().color == p.to_move(),
        piece_at(p.layout, tr, tf) is None,
        !p.check_after(p.to_move(), fr, ff, tr, tf),
    ensures
        p.legal(fr, ff, tr, tf),
{
}

/// After a legal move that is not a pawn's advance of two ranks, no
/// capture in passing is possible: the chance lasts for one move only.
pub proof fn lemma_en_passant_chance_expires(
    p: Position,
    fr: int,
    ff: int,
    tr: int,
    tf: int,
    promote: Option<Piece>,
    a: int,
    b: int,
    c: int,
    d: int,
)
    requires
        p.wf(),
        on_board(fr, ff),
        on_board(tr, tf),
        p.legal(fr, ff, tr, tf),
        !(piece_at(p.layout, fr, ff).unwrap().piece == PieceType::Pawn && dist(tr, fr) == 2),
    ensures
        !p.after_move(fr, ff, tr, tf, promote).en_passant(a, b, c, d),
{
}

/// A legal capture in passing takes the pawn that advanced off the square
/// where it landed, which is not the capturing pawn's destination; the
/// capturing pawn, or the piece it promotes to, stands on its destination
/// and its origin is empty; the move is recorded as a capture.
pub proof fn lemma_en_passant_removes_passed_pawn(
    p: Position,
    fr: int,
    ff: int,
    tr: int,
    tf: int,
    promote: Option<Piece>,
)
    requires
        p.wf(),
        on_board(fr, ff),
        on_board(tr, tf),
        p.legal(fr, ff, tr, tf),
        p.en_passant(fr, ff, tr, tf),
    ensures
        ({
            let q = p.after_move(fr, ff, tr, tf, promote);
            let passed = p.last.unwrap().to;
            &&& (passed.0 as int, passed.1 as int) == (fr, tf)
            &&& (passed.0 as int, passed.1 as int) != (tr, tf)
            &&& piece_at(q.layout, fr, tf) is None
            &&& piece_at(q.layout, tr, tf) == if promote is Some && p.promotable(fr, ff, tr, tf) {
                promote
            } else {
                piece_at(p.layout, fr, ff)
            }
            &&& piece_at(q.layout, fr, ff) is None
            &&& q.last is Some
            &&& q.last.unwrap().capture
        }),
{
}

/// A move is recorded as a capture exactly where its destination was
/// occupied or it was a capture in passing; a capture resets the halfmove
/// clock.
pub proof fn lemma_capture_is_recorded(
    p: Position,
    fr: int,
    ff: int,
    tr: int,
    tf: int,
    promote: Option<Piece>,
)
    requires
        p.legal(fr, ff, tr, tf),
    ensures
        ({
            let q = p.after_move(fr, ff, tr, tf, promote);
            &&& q.last is Some
            &&& q.last.unwrap().capture == (piece_at(p.layout, tr, tf) is Some || p.en_passant(
                fr,
                ff,
                tr,
                tf,
            ))
            &&& q.last.unwrap().capture ==> q.halfmoves == 0
        }),
{
}

/// A promotion puts the chosen piece on the destination square, never the
/// pawn that moved; the origin is left empty and the record names the
/// pawn.
pub proof fn lemma_promotion_places_chosen_piece(
    p: Position,
    fr: int,
    ff: int,
    tr: int,
    tf: int,
    chosen: Piece,
)
    requires
        p.wf(),
        on_board(fr, ff),
        on_board(tr, tf),
        p.promotable(fr, ff, tr, tf),
    ensures
        ({
            let q = p.after_move(fr, ff, tr, tf, Some(chosen));
            &&& piece_at(q.layout, tr, tf) == Some(chosen)
            &&& piece_at(q.layout, fr, ff) is None
            &&& q.last is Some
            &&& q.last.unwrap().piece.piece == PieceType::Pawn
            &&& Some(q.last.unwrap().piece) == piece_at(p.layout, fr, ff)
            &&& q.history.last() == q.last.unwrap()
        }),
{
}

/// Every legal move passes the turn to the other side.
pub proof fn lemma_turn_passes(
    p: Position,
    fr: int,
    ff: int,
    tr: int,
    tf: int,
    promote: Option<Piece>,
)
    requires
        p.legal(fr, ff, tr, tf),
    ensures
        p.after_move(fr, ff, tr, tf, promote).to_move() == p.to_move().opposite(),
{
}

/// A side to move that has no legal move and is in check is checkmated,
/// and the checkmate names the other side; without check the game is a
/// stalemate; with a legal move it goes on.
pub proof fn lemma_outcome_cases(p: Position)
    ensures
        p.has_legal_move() ==> p.outcome() == GameOverState::Ongoing,
        !p.has_legal_move() && in_check(p.layout, p.to_move()) ==> p.outcome()
            == GameOverState::Checkmate(p.to_move().opposite()),
        !p.has_legal_move() && !in_check(p.layout, p.to_move()) ==> p.outcome()
            == GameOverState::Stalemate,
        !(p.outcome() is AgreedDraw) && !(p.outcome() is Resignation),
{
}

/// A king that moves gives up both castling rights of its side, and a
/// rook that leaves a corner of its home rank gives up the right of that
/// corner's side.
pub proof fn lemma_moving_king_or_rook_gives_up_rights(
    p: Position,
    fr: int,
    ff: int,
    tr: int,
    tf: int,
    promote: Option<Piece>,
)
    requires
        p.legal(fr, ff, tr, tf),
    ensures
        ({
            let q = p.after_move(fr, ff, tr, tf, promote);
            let mover = piece_at(p.layout, fr, ff).unwrap();
            &&& mover.piece == PieceType::King ==> !q.castles.available(mover.color, true)
                && !q.castles.available(mover.color, false)
            &&& mover.piece == PieceType::Rook && fr == mover.color.home_rank() && ff == 7
                ==> !q.castles.available(mover.color, true)
            &&& mover.piece == PieceType::Rook && fr == mover.color.home_rank() && ff == 0
                ==> !q.castles.available(mover.color, false)
            &&& q.castles.available(mover.color.opposite(), true) == p.castles.available(
                mover.color.opposite(),
                true,
            )
            &&& q.castles.available(mover.color.opposite(), false) == p.castles.available(
                mover.color.opposite(),
                false,
            )
        }),
{
}

/// Castling rights are never won back: every right held after a move was
/// held before it.
pub proof fn lemma_castling_rights_never_return(
    p: Position,
    fr: int,
    ff: int,
    tr: int,
    tf: int,
    promote: Option<Piece>,
)
    ensures
        p.after_move(fr, ff, tr, tf, promote).castles.within(p.castles),
{
}

/// The history only grows: a legal move adds its record at the end, and
/// that record is the last move.
pub proof fn lemma_history_appends(
    p: Position,
    fr: int,
    ff: int,
    tr: int,
    tf: int,
    promote: Option<Piece>,
)
    requires
        p.legal(fr, ff, tr, tf),
    ensures
        ({
            let q = p.after_move(fr, ff, tr, tf, promote);
            &&& q.history.len() == p.history.len() + 1
            &&& q.history.subrange(0, p.history.len() as int) == p.history
            &&& q.last == Some(q.history.last())
            &&& q.last.unwrap().color == p.to_move()
        }),
{
    let q = p.after_move(fr, ff, tr, tf, promote);
    assert(q.history.subrange(0, p.history.len() as int) =~= p.history);
}

/// Whether the first square comes before the second, rank by rank and
/// file by file.
pub open spec fn before(r1: int, f1: int, r2: int, f2: int) -> bool {
    r1 < r2 || (r1 == r2 && f1 < f2)
}

/// Replacing one square changes that square and no other.
pub proof fn lemma_put_at(l: Layout, r: int, f: int, p: Option<Piece>, x: int, y: int)
    requires
        layout_wf(l),
        on_board(r, f),
        on_board(x, y),
    ensures
        layout_wf(put(l, r, f, p)),
        piece_at(put(l, r, f, p), x, y) == if x == r && y == f {
            p
        } else {
            piece_at(l, x, y)
        },
{
}

/// Carrying a piece changes its origin, which is left empty, and its
/// destination, which holds the piece; no other square changes.
pub proof fn lemma_relocate_at(l: Layout, fr: int, ff: int, tr: int, tf: int, x: int, y: int)
    requires
        layout_wf(l),
        on_board(fr, ff),
        on_board(tr, tf),
        on_board(x, y),
    ensures
        layout_wf(relocate(l, fr, ff, tr, tf)),
        piece_at(relocate(l, fr, ff, tr, tf), x, y) == if x == fr && y == ff {
            None
        } else if x == tr && y == tf {
            piece_at(l, fr, ff)
        } else {
            piece_at(l, x, y)
        },
{
    let mid = put(l, tr, tf, piece_at(l, fr, ff));
    lemma_put_at(l, tr, tf, piece_at(l, fr, ff), x, y);
    lemma_put_at(mid, fr, ff, None, x, y);
}

/// The king search from a square on finds the first king at or after that
/// square, and `(0, 0)` where no king stands there or later.
pub proof fn lemma_first_king(l: Layout, c: PieceColor, r0: int, f0: int)
    requires
        0 <= r0 <= 8,
        0 <= f0 <= 8,
    ensures
        ({
            let k = first_king(l, c, r0, f0);
            &&& on_board(k.0, k.1)
            &&& {
                ||| {
                    &&& king_at(l, c, k.0, k.1)
                    &&& !before(k.0, k.1, r0, f0)
                    &&& forall|x: int, y: int|
                        on_board(x, y) && !before(x, y, r0, f0) && before(x, y, k.0, k.1)
                            ==> !#[trigger] king_at(l, c, x, y)
                }
                ||| {
                    &&& k == (0int, 0int)
                    &&& forall|x: int, y: int|
                        on_board(x, y) && !before(x, y, r0, f0) ==> !#[trigger] king_at(
                            l,
                            c,
                            x,
                            y,
                        )
                }
            }
        }),
    decreases 8 - r0, 8 - f0,
{
    if r0 >= 8 {
    } else if f0 >= 8 {
        lemma_first_king(l, c, r0 + 1, 0);
    } else if king_at(l, c, r0, f0) {
    } else {
        lemma_first_king(l, c, r0, f0 + 1);
    }
}

/// A king of the given color with no king of that color before it is the
/// king that the search finds.
pub proof fn lemma_king_square_is(l: Layout, c: PieceColor, r: int, f: int)
    requires
        on_board(r, f),
        king_at(l, c, r, f),
        forall|x: int, y: int|
            on_board(x, y) && before(x, y, r, f) ==> !#[trigger] king_at(l, c, x, y),
    ensures
        king_square(l, c) == (r, f),
{
    lemma_first_king(l, c, 0, 0);
}

/// Where a path is clear once the king has castled, and the king's home
/// square does not lie on it, the path was clear before.
proof fn lemma_path_clear_before_castle(
    l: Layout,
    h: int,
    tf: int,
    sr: int,
    sf: int,
    tr: int,
    tc: int,
)
    requires
        layout_wf(l),
        h == 0 || h == 7,
        tf == 2 || tf == 6,
        piece_at(l, h, tf) is None,
        on_board(sr, sf),
        on_board(tr, tc),
        !strictly_between(sr, sf, tr, tc, h, 4),
        path_clear(relocate(l, h, 4, h, tf), sr, sf, tr, tc),
    ensures
        path_clear(l, sr, sf, tr, tc),
{
    let l2 = relocate(l, h, 4, h, tf);
    assert forall|x: int, y: int| strictly_between(sr, sf, tr, tc, x, y) implies (
    #[trigger] piece_at(l, x, y)) is None by {
        lemma_relocate_at(l, h, 4, h, tf, x, y);
        assert(piece_at(l2, x, y) is None);
    }
}

/// A castle that meets every condition is legal for the side to move: a
/// king of that side on its home square that holds the right, with empty
/// squares up to the rook, no enemy piece threatening the squares it
/// crosses or lands on, and not in check.
pub proof fn lemma_castle_is_legal(p: Position, fr: int, ff: int, tr: int, tf: int)
    requires
        p.wf(),
        p.castle(fr, ff, tr, tf),
        piece_at(p.layout, fr, ff).unwrap().color == p.to_move(),
    ensures
        p.legal(fr, ff, tr, tf),
{
    let l = p.layout;
    let c = p.to_move();
    let h = fr;
    let l2 = relocate(l, h, 4, h, tf);
    let king = Some(Piece { piece: PieceType::King, color: c });
    let ks = king_square(l, c);
    assert(piece_at(l, h, 4) == king);
    assert(king_at(l, c, h, 4));
    lemma_first_king(l, c, 0, 0);
    assert(king_at(l, c, ks.0, ks.1));
    assert(!before(h, 4, ks.0, ks.1));
    lemma_relocate_at(l, h, 4, h, tf, h, tf);
    lemma_relocate_at(l, h, 4, h, tf, ks.0, ks.1);
    let kt = if ks == (h, 4int) {
        (h, tf)
    } else {
        ks
    };
    assert(king_at(l2, c, kt.0, kt.1));
    assert forall|x: int, y: int| on_board(x, y) && before(x, y, kt.0, kt.1) implies !#[trigger] king_at(
        l2,
        c,
        x,
        y,
    ) by {
        lemma_relocate_at(l, h, 4, h, tf, x, y);
        if king_at(l2, c, x, y) {
            if x == h && y == tf {
                assert(piece_at(l, h, 3) is None);
            } else {
                assert(king_at(l, c, x, y));
                assert(piece_at(l, h, 5) is None || tf == 2);
            }
        }
    }
    lemma_king_square_is(l2, c, kt.0, kt.1);
    assert(king_square(l2, c) == kt);
    assert forall|r: int, f: int| on_board(r, f) implies !#[trigger] attacks(
        l2,
        r,
        f,
        kt.0,
        kt.1,
        None,
    ) by {
        lemma_relocate_at(l, h, 4, h, tf, r, f);
        if attacks(l2, r, f, kt.0, kt.1, None) {
            let a = piece_at(l2, r, f).unwrap();
            assert(piece_at(l2, r, f) == piece_at(l, r, f));
            assert(a.color != c);
            if strictly_between(r, f, kt.0, kt.1, h, 4) {
                assert(r == h && kt.0 == h);
                if ks == (h, 4int) {
                    assert(path_clear(l2, r, f, kt.0, kt.1));
                    assert forall|x: int, y: int| strictly_between(r, f, h, 4, x, y) implies (
                    #[trigger] piece_at(l, x, y)) is None by {
                        lemma_relocate_at(l, h, 4, h, tf, x, y);
                        assert(strictly_between(r, f, kt.0, kt.1, x, y));
                        assert(piece_at(l2, x, y) is None);
                    }
                    assert(path_clear(l, r, f, h, 4));
                    assert(attacks(l, r, f, h, 4, None));
                    assert(attacked(l, h, 4, None));
                } else {
                    lemma_relocate_at(l, h, 4, h, tf, h, 5);
                    lemma_relocate_at(l, h, 4, h, tf, h, 6);
                    lemma_relocate_at(l, h, 4, h, tf, h, 2);
                    assert(path_clear(l2, r, f, kt.0, kt.1));
                    assert(piece_at(l2, h, tf) is Some);
                    assert(piece_at(l2, h, 5) is None || tf == 2);
                    assert(false);
                }
            } else {
                if a.piece == PieceType::Rook || a.piece == PieceType::Bishop || a.piece
                    == PieceType::Queen {
                    lemma_path_clear_before_castle(l, h, tf, r, f, kt.0, kt.1);
                }
                if ks == (h, 4int) {
                    assert(attacks(l, r, f, h, tf, Some(c)));
                    assert(attacked(l, h, tf, Some(c)));
                } else {
                    assert(attacks(l, r, f, ks.0, ks.1, None));
                    assert(attacked(l, ks.0, ks.1, None));
                }
            }
        }
    }
    assert(!in_check(l2, c));
}

/// Algebraic text round trip: the text of a move between squares of the
/// board names that very move, where the move promotes to nothing or to a
/// queen, knight, bishop or rook.
pub proof fn lemma_move_text_round_trip(m: SimpleMove)
    requires
        on_board(m.from.0 as int, m.from.1 as int),
        on_board(m.to.0 as int, m.to.1 as int),
        m.promotion != Some(PieceType::King),
        m.promotion != Some(PieceType::Pawn),
    ensures
        names_move(move_text(m)),
        text_move(move_text(m)) == m,
{
    let s = move_text(m);
    let a = square_text(m.from.0 as int, m.from.1 as int);
    let b = square_text(m.to.0 as int, m.to.1 as int);
    assert(a.len() == 2 && b.len() == 2);
    assert(s[0] == a[0] && s[1] == a[1] && s[2] == b[0] && s[3] == b[1]);
    match m.promotion {
        Some(kind) => {
            assert(s.len() == 5);
            assert(s[4] == kind.letter());
        },
        None => {
            assert(s.len() == 4);
        },
    }
}

} // verus!

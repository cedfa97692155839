//! The engine bridge: reading the move out of an engine's reply and
//! making it on the board.

use vstd::prelude::*;
use crate::board::Board;
use crate::moves::SimpleMove;
use crate::notation::{names_move, text_move};
use crate::piece::Piece;
use crate::position::Position;

verus! {

/// The index of the first space at or after `i`; the length of the text
/// where there is none.
pub open spec fn token_end(s: Seq<char>, i: int) -> int
    decreases s.len() - i,
{
    if i < 0 || i >= s.len() {
        s.len() as int
    } else if s[i] == ' ' {
        i
    } else {
        token_end(s, i + 1)
    }
}

/// The second of the tokens that single spaces separate in a line, if the
/// line holds a space at all.
pub open spec fn second_token(line: Seq<char>) -> Option<Seq<char>> {
    let first = token_end(line, 0);
    if first >= line.len() {
        None
    } else {
        Some(line.subrange(first + 1, token_end(line, first + 1)))
    }
}

/// The move that an engine's reply names: its second token, read as
/// algebraic text.
pub open spec fn reply_move(line: Seq<char>) -> Option<SimpleMove> {
    match second_token(line) {
        Some(token) => if names_move(token) {
            Some(text_move(token))
        } else {
            None
        },
        None => None,
    }
}

/// The piece that a reply's move promotes to, of the color of the side to
/// move.
pub open spec fn reply_promotion(p: Position, m: SimpleMove) -> Option<Piece> {
    match m.promotion {
        Some(kind) => Some(Piece { piece: kind, color: p.to_move() }),
        None => None,
    }
}

/// Whether a line is the one that ends an engine's reply: it begins with
/// `bestmove`.
pub open spec fn closes_reply(line: Seq<char>) -> bool {
    "bestmove"@.is_prefix_of(line)
}

/// Whether a line ends an engine's reply, so that no further line need be
/// read.
pub fn ends_reply(line: &str) -> (done: bool)
    ensures
        done == closes_reply(line@),
{
    let word = "bestmove";
    proof {
        reveal_strlit("bestmove");
    }
    if line.unicode_len() < 8 {
        return false;
    }
    let mut i: usize = 0;
    while i < 8
        invariant
            i <= 8,
            word@ == "bestmove"@,
            word@.len() == 8,
            line@.len() >= 8,
            forall|j: int| 0 <= j < i ==> line@[j] == word@[j],
        decreases 8 - i,
    {
        if line.get_char(i) != word.get_char(i) {
            assert(line@.subrange(0, 8)[i as int] != word@[i as int]);
            return false;
        }
        i += 1;
    }
    assert(word@ =~= line@.subrange(0, 8));
    true
}

fn find_space(s: &str, from: usize) -> (end: usize)
    requires
        from <= s@.len(),
    ensures
        end == token_end(s@, from as int),
        from <= end <= s@.len(),
{
    let len = s.unicode_len();
    let mut i = from;
    while i < len
        invariant
            from <= i <= len,
            len == s@.len(),
            token_end(s@, from as int) == token_end(s@, i as int),
        decreases len - i,
    {
        if s.get_char(i) == ' ' {
            return i;
        }
        i += 1;
    }
    i
}

/// The move that an engine's reply names, or `None` where the reply has no
/// second token or the token names no move.
pub fn best_move(reply: &str) -> (m: Option<SimpleMove>)
    ensures
        m == reply_move(reply@),
{
    let len = reply.unicode_len();
    let first = find_space(reply, 0);
    if first >= len {
        return None;
    }
    let last = find_space(reply, first + 1);
    let token = reply.substring_char(first + 1, last);
    SimpleMove::parse(token)
}

impl Board {
    /// Makes the move that an engine's reply names, promoting to a piece
    /// of the side to move where the reply says so. Returns whether the
    /// reply named a move; where it did not, the board is left as it is.
    pub fn engine_move(&mut self, reply: &str) -> (understood: bool)
        requires
            old(self).wf(),
            old(self).halfmoves < usize::MAX,
            old(self).fullmoves < usize::MAX,
        ensures
            understood == (reply_move(reply@) is Some),
            final(self)@ == match reply_move(reply@) {
                Some(m) => old(self)@.after_move(
                    m.from.0 as int,
                    m.from.1 as int,
                    m.to.0 as int,
                    m.to.1 as int,
                    reply_promotion(old(self)@, m),
                ),
                None => old(self)@,
            },
            final(self).wf(),
    {
        match best_move(reply) {
            Some(bmove) => {
                let promote = match bmove.promotion {
                    Some(piece) => Some(Piece { piece, color: self.to_move() }),
                    None => None,
                };
                self.make_move(bmove.from, bmove.to, promote);
                true
            },
            None => false,
        }
    }
}

} // verus!

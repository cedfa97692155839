use chess_rules::board::Board;
use chess_rules::engine::{best_move, ends_reply};
use chess_rules::moves::SimpleMove;
use chess_rules::piece::{Piece, PieceColor, PieceType};

#[test]
fn reply_line_is_recognised_by_its_first_word() {
    assert!(ends_reply("bestmove e2e4 ponder e7e5\n"));
    assert!(ends_reply("bestmove"));
    assert!(!ends_reply("readyok\n"));
    assert!(!ends_reply("info depth 1 score cp 20\n"));
    assert!(!ends_reply(" bestmove e2e4"));
    assert!(!ends_reply("bestmov"));
    assert!(!ends_reply(""));
}

#[test]
fn reply_names_its_second_token() {
    assert_eq!(
        best_move("bestmove e2e4 ponder e7e5\n"),
        Some(SimpleMove { from: (1, 4), to: (3, 4), promotion: None })
    );
    assert_eq!(
        best_move("bestmove a7a8n ponder h7h6\n"),
        Some(SimpleMove { from: (6, 0), to: (7, 0), promotion: Some(PieceType::Knight) })
    );
    assert_eq!(
        best_move("bestmove g8f6"),
        Some(SimpleMove { from: (7, 6), to: (5, 5), promotion: None })
    );
}

#[test]
fn reply_token_runs_to_the_end_of_the_line() {
    assert_eq!(
        best_move("bestmove e2e4\n"),
        Some(SimpleMove { from: (1, 4), to: (3, 4), promotion: Some(PieceType::Queen) })
    );
}

#[test]
fn reply_without_a_move_is_refused() {
    assert_eq!(best_move("bestmove"), None);
    assert_eq!(best_move("bestmove "), None);
    assert_eq!(best_move("bestmove (none)\n"), None);
    assert_eq!(best_move("bestmove  e2e4"), None);
    assert_eq!(best_move(""), None);
}

#[test]
fn engine_move_is_made_on_the_board() {
    let mut board = Board::new();
    assert!(board.engine_move("bestmove e2e4 ponder e7e5\n"));
    assert_eq!(board.fen(), "rnbqkbnr/pppppppp/8/8/4P3/8/PPPP1PPP/RNBQKBNR b KQkq e3 0 1");
    assert!(board.engine_move("bestmove e7e5\n"));
    assert_eq!(board.fen(), "rnbqkbnr/pppp1ppp/8/4p3/4P3/8/PPPP1PPP/RNBQKBNR w KQkq e6 0 2");
}

#[test]
fn engine_move_promotes_in_the_movers_color() {
    let mut board = Board::new();
    board.tiles = [[None; 8]; 8];
    board.tiles[0][4] = Some(Piece { piece: PieceType::King, color: PieceColor::White });
    board.tiles[7][7] = Some(Piece { piece: PieceType::King, color: PieceColor::Black });
    board.tiles[6][0] = Some(Piece { piece: PieceType::Pawn, color: PieceColor::White });
    assert!(board.engine_move("bestmove a7a8r\n"));
    assert_eq!(
        board.tiles[7][0],
        Some(Piece { piece: PieceType::Rook, color: PieceColor::White })
    );
}

#[test]
fn engine_move_ignores_an_unreadable_reply() {
    let mut board = Board::new();
    assert!(!board.engine_move("bestmove (none)\n"));
    assert!(!board.engine_move("readyok"));
    assert_eq!(board.fen(), "rnbqkbnr/pppppppp/8/8/8/8/PPPPPPPP/RNBQKBNR w KQkq - 0 1");
}

#[test]
fn engine_move_that_is_illegal_changes_nothing() {
    let mut board = Board::new();
    assert!(board.engine_move("bestmove e2e5\n"));
    assert_eq!(board.fen(), "rnbqkbnr/pppppppp/8/8/8/8/PPPPPPPP/RNBQKBNR w KQkq - 0 1");
    assert!(board.movelist.is_empty());
}

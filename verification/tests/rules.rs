use chess_rules::board::Board;
use chess_rules::moves::{CastleAvailability, CastleCheck, GameOverState, Move, SimpleMove};
use chess_rules::piece::{Piece, PieceColor, PieceType};

const WHITE: PieceColor = PieceColor::White;
const BLACK: PieceColor = PieceColor::Black;

fn piece(piece: PieceType, color: PieceColor) -> Option<Piece> {
    Some(Piece { piece, color })
}

fn bare_board() -> Board {
    let mut board = Board::new();
    board.tiles = [[None; 8]; 8];
    board
}

fn black_to_move(board: &mut Board) {
    board.lastmove = Some(Move {
        from: (0, 0),
        to: (0, 0),
        color: WHITE,
        piece: Piece { piece: PieceType::Knight, color: WHITE },
        capture: false,
    });
}

fn white_to_move(board: &mut Board) {
    board.lastmove = Some(Move {
        from: (7, 7),
        to: (7, 7),
        color: BLACK,
        piece: Piece { piece: PieceType::Knight, color: BLACK },
        capture: false,
    });
}

fn play(board: &mut Board, moves: &[&str]) {
    for text in moves {
        let m = SimpleMove::from_algebraic(text);
        assert!(board.is_legal_move(m.from, m.to), "{} should be legal", text);
        let promote = m.promotion.map(|kind| Piece { piece: kind, color: board.to_move() });
        board.make_move(m.from, m.to, promote);
    }
}

fn legal_moves_of(board: &Board, kind: PieceType) -> usize {
    let mut count = 0;
    for r in 0..8 {
        for f in 0..8 {
            match board.tiles[r][f] {
                Some(p) if p.piece == kind => {
                    for tr in 0..8 {
                        for tf in 0..8 {
                            if board.is_legal_move((r, f), (tr, tf)) {
                                count += 1;
                            }
                        }
                    }
                }
                _ => {}
            }
        }
    }
    count
}

fn castle_ready() -> Board {
    let mut board = Board::new();
    board.tiles[0][5] = None;
    board.tiles[0][6] = None;
    board
}

#[test]
fn initial_position_has_twenty_legal_moves() {
    let board = Board::new();
    assert_eq!(legal_moves_of(&board, PieceType::Pawn), 16);
    assert_eq!(legal_moves_of(&board, PieceType::Knight), 4);
    assert_eq!(legal_moves_of(&board, PieceType::King), 0);
    assert_eq!(legal_moves_of(&board, PieceType::Queen), 0);
    assert_eq!(legal_moves_of(&board, PieceType::Bishop), 0);
    assert_eq!(legal_moves_of(&board, PieceType::Rook), 0);
    let mut total = 0;
    for r in 0..8 {
        for f in 0..8 {
            for tr in 0..8 {
                for tf in 0..8 {
                    if board.is_legal_move((r, f), (tr, tf)) {
                        total += 1;
                    }
                }
            }
        }
    }
    assert_eq!(total, 20);
}

#[test]
fn only_the_side_to_move_may_move() {
    let mut board = Board::new();
    assert_eq!(board.to_move(), WHITE);
    assert!(!board.is_legal_move((6, 4), (4, 4)));
    board.make_move((1, 4), (3, 4), None);
    assert_eq!(board.to_move(), BLACK);
    assert!(board.is_legal_move((6, 4), (4, 4)));
    assert!(!board.is_legal_move((1, 3), (3, 3)));
}

#[test]
fn empty_origin_is_never_legal() {
    let board = Board::new();
    assert!(!board.is_legal_move((3, 3), (4, 3)));
}

#[test]
fn pawn_moves_forward_and_captures_diagonally() {
    let mut board = Board::new();
    assert!(board.is_legal_move((1, 4), (2, 4)));
    assert!(board.is_legal_move((1, 4), (3, 4)));
    assert!(!board.is_legal_move((1, 4), (4, 4)));
    assert!(!board.is_legal_move((1, 4), (2, 3)));
    board.tiles[2][4] = piece(PieceType::Knight, BLACK);
    assert!(!board.is_legal_move((1, 4), (2, 4)));
    assert!(!board.is_legal_move((1, 4), (3, 4)));
    assert!(board.is_legal_move((1, 3), (2, 4)));
    assert!(board.is_legal_move((1, 5), (2, 4)));
}

#[test]
fn pawn_double_step_needs_both_squares_empty() {
    let mut board = Board::new();
    board.tiles[3][4] = piece(PieceType::Knight, BLACK);
    assert!(board.is_legal_move((1, 4), (2, 4)));
    assert!(!board.is_legal_move((1, 4), (3, 4)));
}

#[test]
fn pinned_piece_may_not_leave_the_line() {
    let mut board = bare_board();
    board.tiles[0][4] = piece(PieceType::King, WHITE);
    board.tiles[1][4] = piece(PieceType::Rook, WHITE);
    board.tiles[7][4] = piece(PieceType::Rook, BLACK);
    board.tiles[7][0] = piece(PieceType::King, BLACK);
    assert!(board.is_attacking((1, 4), (1, 0), None));
    assert!(!board.is_legal_move((1, 4), (1, 0)));
    assert!(!board.is_legal_move((1, 4), (1, 7)));
    assert!(board.is_legal_move((1, 4), (5, 4)));
    assert!(board.is_legal_move((1, 4), (7, 4)));
}

#[test]
fn king_may_not_step_into_check() {
    let mut board = bare_board();
    board.tiles[0][4] = piece(PieceType::King, WHITE);
    board.tiles[7][3] = piece(PieceType::Rook, BLACK);
    board.tiles[7][7] = piece(PieceType::King, BLACK);
    assert!(!board.is_legal_move((0, 4), (0, 3)));
    assert!(!board.is_legal_move((0, 4), (1, 3)));
    assert!(board.is_legal_move((0, 4), (0, 5)));
    assert!(board.is_legal_move((0, 4), (1, 4)));
    assert!(board.is_legal_move((0, 4), (1, 5)));
}

#[test]
fn check_must_be_answered() {
    let mut board = bare_board();
    board.tiles[0][4] = piece(PieceType::King, WHITE);
    board.tiles[0][6] = piece(PieceType::Knight, WHITE);
    board.tiles[7][4] = piece(PieceType::Rook, BLACK);
    board.tiles[7][7] = piece(PieceType::King, BLACK);
    assert!(board.is_check(WHITE));
    assert!(board.is_legal_move((0, 6), (1, 4)));
    assert!(!board.is_legal_move((0, 6), (2, 7)));
    assert!(!board.is_legal_move((0, 6), (2, 5)));
    assert!(!board.is_legal_move((0, 4), (1, 4)));
    assert!(board.is_legal_move((0, 4), (0, 3)));
}

#[test]
fn en_passant_capture_removes_the_passed_pawn() {
    let mut board = Board::new();
    play(&mut board, &["e2e4", "a7a6", "e4e5", "d7d5"]);
    assert!(board.is_en_passant((4, 4), (5, 3)));
    assert!(board.is_legal_move((4, 4), (5, 3)));
    assert!(!board.is_en_passant((4, 4), (5, 5)));
    assert!(!board.is_legal_move((4, 4), (5, 5)));
    board.make_move((4, 4), (5, 3), None);
    assert_eq!(board.tiles[4][3], None);
    assert_eq!(board.tiles[4][4], None);
    assert_eq!(board.tiles[5][3], piece(PieceType::Pawn, WHITE));
    assert_eq!(board.halfmoves, 0);
    assert!(board.lastmove.unwrap().capture);
    assert!(board.movelist[4].capture);
    assert!(!board.movelist[0].capture);
    assert!(!board.movelist[3].capture);
}

#[test]
fn en_passant_chance_lasts_one_move() {
    let mut board = Board::new();
    play(&mut board, &["e2e4", "a7a6", "e4e5", "d7d5", "h2h3", "h7h6"]);
    assert!(!board.is_en_passant((4, 4), (5, 3)));
    assert!(!board.is_legal_move((4, 4), (5, 3)));
}

#[test]
fn en_passant_for_black() {
    let mut board = Board::new();
    play(&mut board, &["a2a3", "d7d5", "a3a4", "d5d4", "e2e4"]);
    assert!(board.is_legal_move((3, 3), (2, 4)));
    assert!(!board.is_legal_move((3, 3), (2, 2)));
    board.make_move((3, 3), (2, 4), None);
    assert_eq!(board.tiles[3][4], None);
    assert_eq!(board.tiles[2][4], piece(PieceType::Pawn, BLACK));
    assert_eq!(board.tiles[3][3], None);
}

#[test]
fn en_passant_needs_a_pawn_beside_the_passed_pawn() {
    let mut board = Board::new();
    play(&mut board, &["a2a3", "e7e5"]);
    assert!(!board.is_en_passant((1, 3), (5, 4)));
    assert!(!board.is_legal_move((1, 3), (5, 4)));
    assert!(!board.is_legal_move((1, 5), (5, 4)));
}

#[test]
fn knight_landing_behind_a_passed_pawn_captures_nothing() {
    let mut board = Board::new();
    play(&mut board, &["g1f3", "a7a6", "f3d4", "e7e5"]);
    assert!(!board.is_en_passant((3, 3), (5, 4)));
    play(&mut board, &["d4e6"]);
    assert_eq!(board.tiles[4][4], piece(PieceType::Pawn, BLACK));
    assert_eq!(board.tiles[5][4], piece(PieceType::Knight, WHITE));
}

#[test]
fn kingside_castle_moves_king_and_rook() {
    let mut board = castle_ready();
    let check = board.can_castle((0, 4), (0, 6));
    assert_eq!(
        check,
        CastleCheck { cancastle: true, rooksource: Some((0, 7)), rookdestination: Some((0, 5)) }
    );
    assert!(board.is_legal_move((0, 4), (0, 6)));
    board.make_move((0, 4), (0, 6), None);
    assert_eq!(board.tiles[0][6], piece(PieceType::King, WHITE));
    assert_eq!(board.tiles[0][5], piece(PieceType::Rook, WHITE));
    assert_eq!(board.tiles[0][4], None);
    assert_eq!(board.tiles[0][7], None);
    assert!(!board.castles.white_kingside);
    assert!(!board.castles.white_queenside);
    assert!(board.castles.black_kingside);
    assert!(board.castles.black_queenside);
    assert_eq!(board.fen(), "rnbqkbnr/pppppppp/8/8/8/8/PPPPPPPP/RNBQ1RK1 b kq - 1 1");
}

#[test]
fn castle_needs_the_right() {
    let mut board = castle_ready();
    board.castles.white_kingside = false;
    assert_eq!(board.can_castle((0, 4), (0, 6)), CastleCheck::new(false));
    assert!(!board.is_legal_move((0, 4), (0, 6)));
}

#[test]
fn castle_needs_empty_squares() {
    let mut board = castle_ready();
    board.tiles[0][5] = piece(PieceType::Bishop, WHITE);
    assert!(!board.can_castle((0, 4), (0, 6)).cancastle);
    assert!(!board.is_legal_move((0, 4), (0, 6)));
    let mut board = castle_ready();
    board.tiles[0][6] = piece(PieceType::Knight, WHITE);
    assert!(!board.can_castle((0, 4), (0, 6)).cancastle);
    assert!(!board.is_legal_move((0, 4), (0, 6)));
}

#[test]
fn castle_may_not_cross_an_attacked_square() {
    let mut board = castle_ready();
    board.tiles[1][5] = None;
    board.tiles[5][5] = piece(PieceType::Rook, BLACK);
    assert!(!board.can_castle((0, 4), (0, 6)).cancastle);
    assert!(!board.is_legal_move((0, 4), (0, 6)));
}

#[test]
fn castle_may_not_land_on_an_attacked_square() {
    let mut board = castle_ready();
    board.tiles[1][6] = None;
    board.tiles[5][6] = piece(PieceType::Rook, BLACK);
    assert!(!board.can_castle((0, 4), (0, 6)).cancastle);
    assert!(!board.is_legal_move((0, 4), (0, 6)));
}

#[test]
fn castle_may_not_leave_check() {
    let mut board = castle_ready();
    board.tiles[1][4] = None;
    board.tiles[5][4] = piece(PieceType::Rook, BLACK);
    assert!(board.is_check(WHITE));
    assert!(!board.can_castle((0, 4), (0, 6)).cancastle);
    assert!(!board.is_legal_move((0, 4), (0, 6)));
}

#[test]
fn queenside_castle_needs_three_empty_squares() {
    let mut board = Board::new();
    board.tiles[0][2] = None;
    board.tiles[0][3] = None;
    assert!(!board.can_castle((0, 4), (0, 2)).cancastle);
    board.tiles[0][1] = None;
    assert_eq!(
        board.can_castle((0, 4), (0, 2)),
        CastleCheck { cancastle: true, rooksource: Some((0, 0)), rookdestination: Some((0, 3)) }
    );
    board.make_move((0, 4), (0, 2), None);
    assert_eq!(board.tiles[0][2], piece(PieceType::King, WHITE));
    assert_eq!(board.tiles[0][3], piece(PieceType::Rook, WHITE));
    assert_eq!(board.tiles[0][0], None);
    assert_eq!(board.tiles[0][4], None);
}

#[test]
fn queenside_castle_ignores_attack_on_the_knight_square() {
    let mut board = Board::new();
    board.tiles[0][1] = None;
    board.tiles[0][2] = None;
    board.tiles[0][3] = None;
    board.tiles[1][1] = None;
    board.tiles[5][1] = piece(PieceType::Rook, BLACK);
    assert!(board.is_attacking((5, 1), (0, 1), None));
    assert!(board.can_castle((0, 4), (0, 2)).cancastle);
}

#[test]
fn black_castles_on_its_own_rank() {
    let mut board = Board::new();
    board.tiles[7][5] = None;
    board.tiles[7][6] = None;
    assert!(!board.is_legal_move((7, 4), (7, 6)));
    black_to_move(&mut board);
    assert_eq!(
        board.can_castle((7, 4), (7, 6)),
        CastleCheck { cancastle: true, rooksource: Some((7, 7)), rookdestination: Some((7, 5)) }
    );
    board.make_move((7, 4), (7, 6), None);
    assert_eq!(board.tiles[7][6], piece(PieceType::King, BLACK));
    assert_eq!(board.tiles[7][5], piece(PieceType::Rook, BLACK));
    assert!(!board.castles.black_kingside);
    assert!(!board.castles.black_queenside);
    assert!(board.castles.white_kingside);
    assert_eq!(board.fullmoves, 2);
}

#[test]
fn castle_is_only_for_a_king_on_its_home_square() {
    let board = castle_ready();
    assert!(!board.can_castle((0, 7), (0, 5)).cancastle);
    assert!(!board.can_castle((0, 4), (0, 5)).cancastle);
    assert!(!board.can_castle((0, 4), (1, 6)).cancastle);
    assert!(!board.can_castle((3, 3), (0, 6)).cancastle);
    let mut board = bare_board();
    board.tiles[1][4] = piece(PieceType::King, WHITE);
    assert!(!board.can_castle((1, 4), (1, 6)).cancastle);
}

#[test]
fn rook_move_gives_up_one_right() {
    let mut board = castle_ready();
    play(&mut board, &["h1g1"]);
    assert!(!board.castles.white_kingside);
    assert!(board.castles.white_queenside);
    play(&mut board, &["a7a6", "g1h1", "a6a5"]);
    assert!(!board.is_legal_move((0, 4), (0, 6)));
}

#[test]
fn king_move_gives_up_both_rights() {
    let mut board = castle_ready();
    play(&mut board, &["e1f1", "a7a6", "f1e1", "a6a5"]);
    assert!(!board.castles.white_kingside);
    assert!(!board.castles.white_queenside);
    assert!(!board.castles.any_castle(WHITE));
    assert!(board.castles.any_castle(BLACK));
    assert!(!board.is_legal_move((0, 4), (0, 6)));
}

#[test]
fn promotion_places_the_chosen_piece() {
    let mut board = bare_board();
    board.tiles[0][4] = piece(PieceType::King, WHITE);
    board.tiles[7][7] = piece(PieceType::King, BLACK);
    board.tiles[6][0] = piece(PieceType::Pawn, WHITE);
    assert!(board.can_promote((6, 0), (7, 0)));
    board.make_move((6, 0), (7, 0), piece(PieceType::Queen, WHITE));
    assert_eq!(board.tiles[7][0], piece(PieceType::Queen, WHITE));
    assert_eq!(board.tiles[6][0], None);
    assert_eq!(board.lastmove.unwrap().piece, Piece { piece: PieceType::Pawn, color: WHITE });
    assert_eq!(board.movelist.len(), 1);
    assert_eq!(board.movelist[0].piece.piece, PieceType::Pawn);
    assert!(!board.movelist[0].capture);
}

#[test]
fn promotion_to_a_knight_by_capture() {
    let mut board = bare_board();
    board.tiles[0][4] = piece(PieceType::King, WHITE);
    board.tiles[7][7] = piece(PieceType::King, BLACK);
    board.tiles[1][2] = piece(PieceType::Pawn, BLACK);
    board.tiles[0][1] = piece(PieceType::Rook, WHITE);
    black_to_move(&mut board);
    assert!(board.can_promote((1, 2), (0, 1)));
    assert!(board.can_promote((1, 2), (0, 2)));
    assert!(!board.can_promote((1, 2), (0, 3)));
    board.make_move((1, 2), (0, 1), piece(PieceType::Knight, BLACK));
    assert_eq!(board.tiles[0][1], piece(PieceType::Knight, BLACK));
    assert!(board.lastmove.unwrap().capture);
}

#[test]
fn promotion_without_a_choice_keeps_the_pawn() {
    let mut board = bare_board();
    board.tiles[0][4] = piece(PieceType::King, WHITE);
    board.tiles[7][7] = piece(PieceType::King, BLACK);
    board.tiles[6][0] = piece(PieceType::Pawn, WHITE);
    board.make_move((6, 0), (7, 0), None);
    assert_eq!(board.tiles[7][0], piece(PieceType::Pawn, WHITE));
}

#[test]
fn promotion_piece_is_ignored_off_the_last_rank() {
    let mut board = Board::new();
    assert!(!board.can_promote((1, 4), (3, 4)));
    assert!(!board.can_promote((0, 1), (2, 2)));
    assert!(!board.can_promote((3, 3), (7, 3)));
    board.make_move((1, 4), (3, 4), piece(PieceType::Queen, WHITE));
    assert_eq!(board.tiles[3][4], piece(PieceType::Pawn, WHITE));
}

#[test]
fn illegal_move_leaves_the_board_unchanged() {
    let mut board = Board::new();
    board.make_move((0, 0), (4, 0), None);
    board.make_move((6, 4), (4, 4), None);
    board.make_move((3, 3), (4, 3), None);
    assert_eq!(board.fen(), "rnbqkbnr/pppppppp/8/8/8/8/PPPPPPPP/RNBQKBNR w KQkq - 0 1");
    assert!(board.movelist.is_empty());
    assert!(board.lastmove.is_none());
    assert_eq!(board.halfmoves, 0);
    assert_eq!(board.fullmoves, 1);
}

#[test]
fn moves_are_recorded_in_order() {
    let mut board = Board::new();
    play(&mut board, &["e2e4", "d7d5", "e4d5"]);
    assert_eq!(board.movelist.len(), 3);
    assert_eq!(
        board.movelist[0],
        Move {
            from: (1, 4),
            to: (3, 4),
            color: WHITE,
            piece: Piece { piece: PieceType::Pawn, color: WHITE },
            capture: false,
        }
    );
    assert_eq!(
        board.movelist[2],
        Move {
            from: (3, 4),
            to: (4, 3),
            color: WHITE,
            piece: Piece { piece: PieceType::Pawn, color: WHITE },
            capture: true,
        }
    );
    assert_eq!(board.lastmove, Some(board.movelist[2]));
    assert_eq!(board.tiles[4][3], piece(PieceType::Pawn, WHITE));
    assert_eq!(board.tiles[3][4], None);
}

#[test]
fn counters_follow_the_moves() {
    let mut board = Board::new();
    play(&mut board, &["g1f3"]);
    assert_eq!((board.halfmoves, board.fullmoves), (1, 1));
    play(&mut board, &["g8f6"]);
    assert_eq!((board.halfmoves, board.fullmoves), (2, 2));
    play(&mut board, &["f3e5"]);
    assert_eq!((board.halfmoves, board.fullmoves), (3, 2));
    play(&mut board, &["d7d6"]);
    assert_eq!((board.halfmoves, board.fullmoves), (0, 3));
    play(&mut board, &["e5f7"]);
    assert_eq!((board.halfmoves, board.fullmoves), (0, 3));
    play(&mut board, &["e8f7"]);
    assert_eq!((board.halfmoves, board.fullmoves), (0, 4));
}

#[test]
fn game_is_ongoing_at_the_start() {
    let board = Board::new();
    assert!(board.any_legal_moves());
    assert_eq!(board.is_gameover(), GameOverState::Ongoing);
}

#[test]
fn fools_mate_is_checkmate_by_black() {
    let mut board = Board::new();
    play(&mut board, &["f2f3", "e7e5", "g2g4", "d8h4"]);
    assert!(board.is_check(WHITE));
    assert!(!board.any_legal_moves());
    assert_eq!(board.is_gameover(), GameOverState::Checkmate(BLACK));
}

#[test]
fn back_rank_mate_is_checkmate() {
    let mut board = bare_board();
    board.tiles[0][6] = piece(PieceType::King, WHITE);
    board.tiles[1][5] = piece(PieceType::Pawn, WHITE);
    board.tiles[1][6] = piece(PieceType::Pawn, WHITE);
    board.tiles[1][7] = piece(PieceType::Pawn, WHITE);
    board.tiles[7][4] = piece(PieceType::King, BLACK);
    board.tiles[7][0] = piece(PieceType::Rook, BLACK);
    black_to_move(&mut board);
    assert_eq!(board.is_gameover(), GameOverState::Ongoing);
    play(&mut board, &["a8a1"]);
    assert_eq!(board.to_move(), WHITE);
    assert_eq!(board.is_gameover(), GameOverState::Checkmate(BLACK));
}

#[test]
fn checkmate_by_white_names_white() {
    let mut board = bare_board();
    board.tiles[7][6] = piece(PieceType::King, BLACK);
    board.tiles[6][5] = piece(PieceType::Pawn, BLACK);
    board.tiles[6][6] = piece(PieceType::Pawn, BLACK);
    board.tiles[6][7] = piece(PieceType::Pawn, BLACK);
    board.tiles[0][4] = piece(PieceType::King, WHITE);
    board.tiles[0][0] = piece(PieceType::Rook, WHITE);
    white_to_move(&mut board);
    play(&mut board, &["a1a8"]);
    assert_eq!(board.is_gameover(), GameOverState::Checkmate(WHITE));
}

#[test]
fn cornered_king_without_check_is_stalemate() {
    let mut board = bare_board();
    board.tiles[7][7] = piece(PieceType::King, BLACK);
    board.tiles[6][5] = piece(PieceType::King, WHITE);
    board.tiles[5][6] = piece(PieceType::Queen, WHITE);
    black_to_move(&mut board);
    assert!(!board.is_check(BLACK));
    assert!(!board.any_legal_moves());
    assert_eq!(board.is_gameover(), GameOverState::Stalemate);
}

#[test]
fn new_board_is_well_formed() {
    let mut board = Board::new();
    assert!(board.is_wf());
    play(&mut board, &["e2e4"]);
    assert!(board.is_wf());
    board.lastmove = Some(Move {
        from: (1, 4),
        to: (3, 8),
        color: WHITE,
        piece: Piece { piece: PieceType::Pawn, color: WHITE },
        capture: false,
    });
    assert!(!board.is_wf());
}

#[test]
fn castle_availability_accessors() {
    let mut rights = CastleAvailability::new();
    assert!(rights.check_availability(WHITE, true));
    assert!(rights.check_availability(WHITE, false));
    assert!(rights.check_availability(BLACK, true));
    assert!(rights.check_availability(BLACK, false));
    rights.set_availability(BLACK, false, false);
    assert!(!rights.check_availability(BLACK, false));
    assert!(rights.check_availability(BLACK, true));
    assert!(rights.any_castle(BLACK));
    rights.set_availability(BLACK, true, false);
    assert!(!rights.any_castle(BLACK));
    assert!(rights.any_castle(WHITE));
    rights.set_availability(BLACK, true, true);
    assert!(rights.black_kingside);
}

#[test]
fn castle_check_new_names_no_squares() {
    let check = CastleCheck::new(true);
    assert!(check.cancastle);
    assert_eq!(check.rooksource, None);
    assert_eq!(check.rookdestination, None);
}

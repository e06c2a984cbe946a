use chess_realm::board::{init_board, BoardState};
use chess_realm::piece::{Piece, PieceKind, PieceSide};
use chess_realm::rules::{is_checkmate, is_stalemate};
use chess_realm::state::{GameState, GameStatus, Move, MoveResult};

fn red(kind: PieceKind) -> Option<Piece> {
    Some(Piece { side: PieceSide::Red, kind })
}

fn black(kind: PieceKind) -> Option<Piece> {
    Some(Piece { side: PieceSide::Black, kind })
}

fn game_with(board: BoardState, turn: PieceSide) -> GameState {
    let mut g = GameState::new();
    g.board = board;
    g.current_turn = turn;
    g
}

#[test]
fn new_game_starts_with_red() {
    let g = GameState::default();
    assert_eq!(g.board, init_board());
    assert_eq!(g.current_turn, PieceSide::Red);
    assert_eq!(g.status, GameStatus::InProgress);
    assert!(g.move_history.is_empty());
    assert!(!g.is_ai_turn());
    assert_eq!(GameStatus::default(), GameStatus::InProgress);
}

#[test]
fn quiet_move_then_turn_passes() {
    let mut g = GameState::new();
    let r = g.make_move((7, 1), (7, 4));
    assert_eq!(r, MoveResult::Success);
    assert_eq!(g.current_turn, PieceSide::Black);
    assert!(g.is_ai_turn());
    assert_eq!(g.board[7][4], red(PieceKind::Pao));
    assert_eq!(g.board[7][1], None);
    assert_eq!(g.move_history, vec![Move { from: (7, 1), to: (7, 4) }]);
    assert_eq!(g.moves_to_uci(), "b2e2");
}

#[test]
fn illegal_move_changes_nothing() {
    let mut g = GameState::new();
    let before = g.clone();
    assert_eq!(g.make_move((0, 0), (1, 0)), MoveResult::Invalid);
    assert_eq!(g.make_move((9, 0), (9, 1)), MoveResult::Invalid);
    assert_eq!(g.make_move((9, 1), (8, 1)), MoveResult::Invalid);
    assert_eq!(g.board, before.board);
    assert_eq!(g.current_turn, before.current_turn);
    assert!(g.move_history.is_empty());
}

#[test]
fn cannon_capture_is_reported() {
    let mut g = GameState::new();
    let r = g.make_move((7, 1), (0, 1));
    assert_eq!(r, MoveResult::Capture(Piece { side: PieceSide::Black, kind: PieceKind::Ma }));
    assert_eq!(g.board[0][1], red(PieceKind::Pao));
    assert_eq!(g.captured, vec![black(PieceKind::Ma)]);
}

#[test]
fn check_and_capture_with_check_are_reported() {
    let mut b: BoardState = [[None; 9]; 10];
    b[9][3] = red(PieceKind::Jiang);
    b[0][4] = black(PieceKind::Jiang);
    b[0][5] = black(PieceKind::Shi);
    b[5][4] = red(PieceKind::Ju);
    b[4][4] = black(PieceKind::Zu);
    b[2][0] = black(PieceKind::Ju);
    let mut g = game_with(b, PieceSide::Red);
    let r = g.make_move((5, 4), (4, 4));
    assert_eq!(r, MoveResult::CaptureAndCheck(Piece { side: PieceSide::Black, kind: PieceKind::Zu }));
    assert_eq!(g.status, GameStatus::InProgress);

    let mut b: BoardState = [[None; 9]; 10];
    b[9][3] = red(PieceKind::Jiang);
    b[0][4] = black(PieceKind::Jiang);
    b[0][5] = black(PieceKind::Shi);
    b[5][0] = red(PieceKind::Ju);
    b[2][0] = black(PieceKind::Ju);
    b[6][8] = black(PieceKind::Ju);
    let mut g = game_with(b, PieceSide::Red);
    assert_eq!(g.make_move((5, 0), (5, 4)), MoveResult::Check);
}

#[test]
fn checkmate_move_ends_game_for_mover() {
    let mut b: BoardState = [[None; 9]; 10];
    b[9][3] = red(PieceKind::Jiang);
    b[0][4] = black(PieceKind::Jiang);
    b[5][0] = red(PieceKind::Ju);
    b[1][8] = red(PieceKind::Ju);
    let mut g = game_with(b, PieceSide::Red);
    let r = g.make_move((5, 0), (0, 0));
    assert_eq!(r, MoveResult::Checkmate(PieceSide::Red));
    assert!(is_checkmate(&g.board, PieceSide::Black));
    assert_eq!(g.status, GameStatus::RedWins);
    assert_eq!(g.current_turn, PieceSide::Black);
    assert_eq!(g.make_move((0, 4), (1, 4)), MoveResult::Invalid);
}

#[test]
fn stalemate_counts_as_win_for_mover() {
    let mut b: BoardState = [[None; 9]; 10];
    b[9][4] = red(PieceKind::Jiang);
    b[0][3] = black(PieceKind::Jiang);
    b[5][8] = red(PieceKind::Ju);
    let mut g = game_with(b, PieceSide::Red);
    let r = g.make_move((5, 8), (1, 8));
    assert_eq!(r, MoveResult::Stalemate(PieceSide::Red));
    assert!(is_stalemate(&g.board, PieceSide::Black));
    assert_eq!(g.status, GameStatus::RedWins);
    assert_ne!(g.status, GameStatus::Draw);
}

#[test]
fn undo_restores_captured_piece() {
    let mut g = GameState::new();
    let start = g.board;
    assert_eq!(g.make_move((7, 1), (0, 1)), MoveResult::Capture(Piece { side: PieceSide::Black, kind: PieceKind::Ma }));
    let undone = g.undo_last_move();
    assert_eq!(undone, Some(Move { from: (7, 1), to: (0, 1) }));
    assert_eq!(g.board, start);
    assert_eq!(g.current_turn, PieceSide::Red);
    assert!(g.move_history.is_empty());
    assert!(g.captured.is_empty());
    assert_eq!(g.undo_last_move(), None);
}

#[test]
fn undo_after_game_end_resumes_play() {
    let mut b: BoardState = [[None; 9]; 10];
    b[9][3] = red(PieceKind::Jiang);
    b[0][4] = black(PieceKind::Jiang);
    b[5][0] = red(PieceKind::Ju);
    b[1][8] = red(PieceKind::Ju);
    let mut g = game_with(b, PieceSide::Red);
    g.make_move((5, 0), (0, 0));
    assert_eq!(g.status, GameStatus::RedWins);
    g.undo_last_move();
    assert_eq!(g.status, GameStatus::InProgress);
    assert_eq!(g.board, b);
    assert_eq!(g.current_turn, PieceSide::Red);
}

#[test]
fn undo_two_moves_takes_back_a_pair() {
    let mut g = GameState::new();
    assert_eq!(g.undo_last_two_moves(), None);
    assert_eq!(g.make_move((7, 7), (7, 4)), MoveResult::Success);
    assert_eq!(g.undo_last_two_moves(), None);
    assert_eq!(g.move_history.len(), 1);
    assert_eq!(g.make_move((0, 7), (2, 6)), MoveResult::Success);
    assert_eq!(g.moves_to_uci(), "h2e2 h9g7");
    let r = g.undo_last_two_moves();
    assert_eq!(
        r,
        Some((Move { from: (7, 7), to: (7, 4) }, Move { from: (0, 7), to: (2, 6) }))
    );
    assert_eq!(g.board, init_board());
    assert_eq!(g.current_turn, PieceSide::Red);
    assert!(g.move_history.is_empty());
    assert_eq!(g.moves_to_uci(), "");
}

#[test]
fn piece_labels() {
    assert_eq!(Piece { side: PieceSide::Red, kind: PieceKind::Jiang }.label(), "帅");
    assert_eq!(Piece { side: PieceSide::Black, kind: PieceKind::Jiang }.label(), "将");
    assert_eq!(Piece { side: PieceSide::Red, kind: PieceKind::Zu }.label(), "兵");
    assert_eq!(Piece { side: PieceSide::Black, kind: PieceKind::Zu }.label(), "卒");
    assert_eq!(Piece { side: PieceSide::Black, kind: PieceKind::Xiang }.label(), "象");
    assert_eq!(Piece { side: PieceSide::Red, kind: PieceKind::Shi }.label(), "仕");
    assert_eq!(Piece { side: PieceSide::Red, kind: PieceKind::Ju }.label(), "车");
    assert_eq!(PieceSide::Red.other(), PieceSide::Black);
}

#[test]
fn clicks_select_and_play() {
    let mut g = GameState::new();
    assert_eq!(g.handle_board_click(4, 4), None);
    assert_eq!(g.selected_piece, None);
    assert_eq!(g.handle_board_click(0, 0), None);
    assert_eq!(g.selected_piece, None);
    assert_eq!(g.handle_board_click(7, 1), None);
    assert_eq!(g.selected_piece, Some((7, 1)));
    assert!(g.valid_moves.contains(&(7, 4)));
    assert!(g.valid_moves.contains(&(0, 1)));
    assert_eq!(g.handle_board_click(7, 4), Some(MoveResult::Success));
    assert_eq!(g.selected_piece, None);
    assert!(g.valid_moves.is_empty());
    assert_eq!(g.current_turn, PieceSide::Black);
    assert_eq!(g.board[7][4], red(PieceKind::Pao));
}

#[test]
fn clicks_change_or_clear_selection() {
    let mut g = GameState::new();
    g.handle_board_click(9, 0);
    assert_eq!(g.selected_piece, Some((9, 0)));
    assert_eq!(g.valid_moves, vec![(7, 0), (8, 0)]);
    g.handle_board_click(9, 0);
    assert_eq!(g.selected_piece, None);
    assert!(g.valid_moves.is_empty());
    g.handle_board_click(9, 0);
    g.handle_board_click(9, 1);
    assert_eq!(g.selected_piece, Some((9, 1)));
    assert_eq!(g.valid_moves, vec![(7, 0), (7, 2)]);
    assert_eq!(g.handle_board_click(5, 5), None);
    assert_eq!(g.selected_piece, None);
    assert_eq!(g.board, init_board());
    assert!(g.move_history.is_empty());
}

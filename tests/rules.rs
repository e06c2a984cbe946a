use chess_realm::board::{init_board, BoardState};
use chess_realm::piece::{Piece, PieceKind, PieceSide};
use chess_realm::rules::{
    are_generals_facing, count_pieces_between, find_general, get_all_valid_moves,
    get_valid_moves, has_crossed_river, is_checkmate, is_in_check, is_own_side, is_stalemate,
    is_under_attack, is_valid_move, is_within_board, is_within_palace,
};

fn piece(side: PieceSide, kind: PieceKind) -> Option<Piece> {
    Some(Piece { side, kind })
}

fn empty() -> BoardState {
    [[None; 9]; 10]
}

fn red(kind: PieceKind) -> Option<Piece> {
    piece(PieceSide::Red, kind)
}

fn black(kind: PieceKind) -> Option<Piece> {
    piece(PieceSide::Black, kind)
}

#[test]
fn initial_board_sixteen_pieces_per_side() {
    let b = init_board();
    let mut red_count = 0;
    let mut black_count = 0;
    for r in 0..10 {
        for c in 0..9 {
            match b[r][c] {
                Some(p) if p.side == PieceSide::Red => red_count += 1,
                Some(_) => black_count += 1,
                None => {}
            }
        }
    }
    assert_eq!(red_count, 16);
    assert_eq!(black_count, 16);
}

#[test]
fn initial_board_one_general_per_side_in_palace() {
    let b = init_board();
    let mut generals = Vec::new();
    for r in 0..10 {
        for c in 0..9 {
            if let Some(p) = b[r][c] {
                if p.kind == PieceKind::Jiang {
                    generals.push(((r, c), p.side));
                }
            }
        }
    }
    assert_eq!(generals, vec![((0, 4), PieceSide::Black), ((9, 4), PieceSide::Red)]);
    assert!(is_within_palace((9, 4), PieceSide::Red));
    assert!(is_within_palace((0, 4), PieceSide::Black));
    assert_eq!(find_general(&b, PieceSide::Red), Some((9, 4)));
    assert_eq!(find_general(&b, PieceSide::Black), Some((0, 4)));
}

#[test]
fn initial_board_mirrors_between_sides() {
    let b = init_board();
    for r in 0..10 {
        for c in 0..9 {
            let mirrored = b[9 - r][c];
            match b[r][c] {
                Some(p) => {
                    let q = mirrored.expect("mirror square is empty");
                    assert_eq!(q.kind, p.kind);
                    assert_ne!(q.side, p.side);
                }
                None => assert!(mirrored.is_none()),
            }
        }
    }
    assert_eq!(b[7][1], red(PieceKind::Pao));
    assert_eq!(b[2][7], black(PieceKind::Pao));
    assert_eq!(b[6][8], red(PieceKind::Zu));
    assert_eq!(b[3][1], None);
    assert_eq!(b[0][0], black(PieceKind::Ju));
    assert_eq!(b[9][1], red(PieceKind::Ma));
    assert_eq!(b[9][2], red(PieceKind::Xiang));
    assert_eq!(b[9][3], red(PieceKind::Shi));
}

#[test]
fn is_valid_move_repeats_and_leaves_board() {
    let b = init_board();
    let copy = b;
    let first = is_valid_move(&b, (7, 1), (7, 4), PieceSide::Red);
    let second = is_valid_move(&b, (7, 1), (7, 4), PieceSide::Red);
    assert!(first);
    assert_eq!(first, second);
    assert_eq!(b, copy);
    let first = is_valid_move(&b, (9, 0), (7, 0), PieceSide::Red);
    let second = is_valid_move(&b, (9, 0), (7, 0), PieceSide::Red);
    assert_eq!(first, second);
    assert!(first);
    assert_eq!(b, copy);
}

#[test]
fn moving_the_only_screen_between_generals_is_rejected() {
    let mut b = empty();
    b[9][4] = red(PieceKind::Jiang);
    b[0][4] = black(PieceKind::Jiang);
    b[5][4] = red(PieceKind::Ju);
    assert!(!are_generals_facing(&b));
    // The chariot may slide along its row by its own rule...
    assert_eq!(count_pieces_between(&b, (5, 4), (5, 0)), Some(0));
    // ...but doing so would leave the Generals facing.
    assert!(!is_valid_move(&b, (5, 4), (5, 0), PieceSide::Red));
    assert!(is_valid_move(&b, (5, 4), (3, 4), PieceSide::Red));
}

#[test]
fn general_stepping_into_open_file_is_rejected() {
    let mut b = empty();
    b[9][3] = red(PieceKind::Jiang);
    b[0][4] = black(PieceKind::Jiang);
    assert!(!are_generals_facing(&b));
    assert!(!is_valid_move(&b, (9, 3), (9, 4), PieceSide::Red));
    assert!(is_valid_move(&b, (9, 3), (8, 3), PieceSide::Red));
    b[9][4] = red(PieceKind::Jiang);
    b[9][3] = None;
    assert!(are_generals_facing(&b));
    b[4][4] = black(PieceKind::Zu);
    assert!(!are_generals_facing(&b));
}

#[test]
fn exposing_own_general_is_rejected() {
    let mut b = empty();
    b[9][4] = red(PieceKind::Jiang);
    b[0][5] = black(PieceKind::Jiang);
    b[2][4] = black(PieceKind::Ju);
    b[8][4] = red(PieceKind::Ju);
    assert!(!is_in_check(&b, PieceSide::Red));
    assert!(!is_valid_move(&b, (8, 4), (8, 0), PieceSide::Red));
    // Capturing the attacker along the same file stays legal.
    assert!(is_valid_move(&b, (8, 4), (2, 4), PieceSide::Red));
    b[8][4] = None;
    assert!(is_in_check(&b, PieceSide::Red));
    assert!(is_under_attack(&b, (9, 4), PieceSide::Red));
    assert!(is_valid_move(&b, (9, 4), (9, 3), PieceSide::Red));
    assert!(!is_valid_move(&b, (9, 4), (8, 4), PieceSide::Red));
}

#[test]
fn side_without_general_counts_as_in_check() {
    let mut b = empty();
    b[9][4] = red(PieceKind::Jiang);
    b[5][0] = black(PieceKind::Ju);
    assert_eq!(find_general(&b, PieceSide::Black), None);
    assert!(is_in_check(&b, PieceSide::Black));
    assert!(!is_valid_move(&b, (5, 0), (5, 1), PieceSide::Black));
    assert!(is_checkmate(&b, PieceSide::Black));
    assert!(!is_stalemate(&b, PieceSide::Black));
}

fn cannon_board() -> BoardState {
    let mut b = empty();
    b[9][4] = red(PieceKind::Jiang);
    b[0][3] = black(PieceKind::Jiang);
    b[7][1] = red(PieceKind::Pao);
    b
}

#[test]
fn cannon_captures_over_exactly_one_piece() {
    let mut b = cannon_board();
    b[5][1] = black(PieceKind::Zu);
    b[3][1] = black(PieceKind::Ma);
    assert_eq!(count_pieces_between(&b, (7, 1), (3, 1)), Some(1));
    assert!(is_valid_move(&b, (7, 1), (3, 1), PieceSide::Red));
}

#[test]
fn cannon_moves_quietly_along_clear_line() {
    let b = cannon_board();
    assert_eq!(count_pieces_between(&b, (7, 1), (3, 1)), Some(0));
    assert!(is_valid_move(&b, (7, 1), (3, 1), PieceSide::Red));
}

#[test]
fn cannon_cannot_capture_without_screen() {
    let mut b = cannon_board();
    b[3][1] = black(PieceKind::Ma);
    assert_eq!(count_pieces_between(&b, (7, 1), (3, 1)), Some(0));
    assert!(!is_valid_move(&b, (7, 1), (3, 1), PieceSide::Red));
}

#[test]
fn cannon_cannot_jump_onto_empty_square() {
    let mut b = cannon_board();
    b[5][1] = black(PieceKind::Zu);
    assert_eq!(count_pieces_between(&b, (7, 1), (3, 1)), Some(1));
    assert!(!is_valid_move(&b, (7, 1), (3, 1), PieceSide::Red));
}

#[test]
fn horse_leg_blocking() {
    let mut b = empty();
    b[9][3] = red(PieceKind::Jiang);
    b[0][4] = black(PieceKind::Jiang);
    b[6][4] = red(PieceKind::Ma);
    b[5][4] = red(PieceKind::Zu);
    assert!(!is_valid_move(&b, (6, 4), (4, 3), PieceSide::Red));
    assert!(!is_valid_move(&b, (6, 4), (4, 5), PieceSide::Red));
    assert!(is_valid_move(&b, (6, 4), (5, 2), PieceSide::Red));
    assert!(is_valid_move(&b, (6, 4), (5, 6), PieceSide::Red));
    b[6][3] = red(PieceKind::Zu);
    assert!(!is_valid_move(&b, (6, 4), (5, 2), PieceSide::Red));
    assert!(is_valid_move(&b, (6, 4), (5, 6), PieceSide::Red));
    let moves = get_valid_moves(&b, (6, 4), PieceSide::Red);
    assert_eq!(moves, vec![(5, 6), (7, 6), (8, 3), (8, 5)]);
}

/// Black General at home, a Red chariot sweeping its back row and another
/// guarding the row in front.
fn mate_setup() -> BoardState {
    let mut b = empty();
    b[9][3] = red(PieceKind::Jiang);
    b[0][4] = black(PieceKind::Jiang);
    b[5][0] = red(PieceKind::Ju);
    b[1][8] = red(PieceKind::Ju);
    b
}

#[test]
fn checkmate_position_is_detected() {
    let mut b = mate_setup();
    assert!(!is_checkmate(&b, PieceSide::Black));
    b[0][0] = b[5][0];
    b[5][0] = None;
    assert!(is_in_check(&b, PieceSide::Black));
    assert!(get_all_valid_moves(&b, PieceSide::Black).is_empty());
    assert!(is_checkmate(&b, PieceSide::Black));
    assert!(!is_stalemate(&b, PieceSide::Black));
}

/// Black General on (0, 3): the facing Red General closes (0, 4) and a
/// chariot on row 1 closes (1, 3).
fn stalemate_setup() -> BoardState {
    let mut b = empty();
    b[9][4] = red(PieceKind::Jiang);
    b[0][3] = black(PieceKind::Jiang);
    b[5][8] = red(PieceKind::Ju);
    b
}

#[test]
fn stalemate_position_is_detected() {
    let mut b = stalemate_setup();
    assert!(!is_stalemate(&b, PieceSide::Black));
    b[1][8] = b[5][8];
    b[5][8] = None;
    assert!(!is_in_check(&b, PieceSide::Black));
    assert!(get_all_valid_moves(&b, PieceSide::Black).is_empty());
    assert!(is_stalemate(&b, PieceSide::Black));
    assert!(!is_checkmate(&b, PieceSide::Black));
}

#[test]
fn opening_has_forty_four_moves_per_side() {
    let b = init_board();
    let red_moves = get_all_valid_moves(&b, PieceSide::Red);
    let black_moves = get_all_valid_moves(&b, PieceSide::Black);
    assert_eq!(red_moves.len(), 44);
    assert_eq!(black_moves.len(), 44);
    assert_eq!(red_moves[0], ((6, 0), (5, 0)));
    assert!(!is_checkmate(&b, PieceSide::Red));
    assert!(!is_stalemate(&b, PieceSide::Red));
    assert!(!is_in_check(&b, PieceSide::Red));
}

#[test]
fn valid_moves_of_opponent_piece_are_empty() {
    let b = init_board();
    assert!(get_valid_moves(&b, (0, 0), PieceSide::Red).is_empty());
    assert!(get_valid_moves(&b, (4, 4), PieceSide::Red).is_empty());
    assert!(get_valid_moves(&b, (12, 4), PieceSide::Red).is_empty());
    assert_eq!(get_valid_moves(&b, (9, 0), PieceSide::Red), vec![(7, 0), (8, 0)]);
}

#[test]
fn pieces_between_counts() {
    let b = init_board();
    assert_eq!(count_pieces_between(&b, (9, 0), (0, 0)), Some(2));
    assert_eq!(count_pieces_between(&b, (0, 0), (9, 0)), Some(2));
    assert_eq!(count_pieces_between(&b, (9, 0), (9, 8)), Some(7));
    assert_eq!(count_pieces_between(&b, (9, 0), (9, 1)), Some(0));
    assert_eq!(count_pieces_between(&b, (9, 0), (8, 1)), None);
    assert_eq!(count_pieces_between(&b, (4, 4), (4, 4)), Some(0));
}

#[test]
fn zones_of_the_board() {
    assert!(is_within_board((9, 8)));
    assert!(!is_within_board((10, 0)));
    assert!(!is_within_board((0, 9)));
    assert!(is_within_palace((7, 3), PieceSide::Red));
    assert!(!is_within_palace((6, 4), PieceSide::Red));
    assert!(!is_within_palace((8, 6), PieceSide::Red));
    assert!(is_within_palace((2, 5), PieceSide::Black));
    assert!(!is_within_palace((3, 5), PieceSide::Black));
    assert!(is_own_side((5, 0), PieceSide::Red));
    assert!(!is_own_side((4, 0), PieceSide::Red));
    assert!(is_own_side((4, 0), PieceSide::Black));
    assert!(!is_own_side((5, 0), PieceSide::Black));
    assert!(has_crossed_river((4, 0), PieceSide::Red));
    assert!(!has_crossed_river((5, 0), PieceSide::Red));
    assert!(has_crossed_river((5, 0), PieceSide::Black));
    assert!(!has_crossed_river((4, 0), PieceSide::Black));
}

#[test]
fn soldier_steps() {
    let mut b = empty();
    b[9][3] = red(PieceKind::Jiang);
    b[0][5] = black(PieceKind::Jiang);
    b[6][0] = red(PieceKind::Zu);
    b[4][6] = red(PieceKind::Zu);
    assert!(is_valid_move(&b, (6, 0), (5, 0), PieceSide::Red));
    assert!(!is_valid_move(&b, (6, 0), (6, 1), PieceSide::Red));
    assert!(!is_valid_move(&b, (6, 0), (7, 0), PieceSide::Red));
    assert!(!is_valid_move(&b, (6, 0), (5, 1), PieceSide::Red));
    assert!(!is_valid_move(&b, (6, 0), (6, 0), PieceSide::Red));
    assert!(is_valid_move(&b, (4, 6), (3, 6), PieceSide::Red));
    assert!(is_valid_move(&b, (4, 6), (4, 5), PieceSide::Red));
    assert!(is_valid_move(&b, (4, 6), (4, 7), PieceSide::Red));
    assert!(!is_valid_move(&b, (4, 6), (5, 6), PieceSide::Red));
    assert!(!is_valid_move(&b, (4, 6), (3, 7), PieceSide::Red));
    b[3][2] = black(PieceKind::Zu);
    assert!(is_valid_move(&b, (3, 2), (4, 2), PieceSide::Black));
    assert!(!is_valid_move(&b, (3, 2), (2, 2), PieceSide::Black));
}

#[test]
fn elephant_and_advisor_limits() {
    let mut b = empty();
    b[9][4] = red(PieceKind::Jiang);
    b[0][3] = black(PieceKind::Jiang);
    b[5][2] = red(PieceKind::Xiang);
    b[9][5] = red(PieceKind::Shi);
    assert!(is_valid_move(&b, (5, 2), (7, 4), PieceSide::Red));
    assert!(!is_valid_move(&b, (5, 2), (3, 4), PieceSide::Red));
    b[6][3] = red(PieceKind::Zu);
    assert!(!is_valid_move(&b, (5, 2), (7, 4), PieceSide::Red));
    assert!(is_valid_move(&b, (9, 5), (8, 4), PieceSide::Red));
    assert!(!is_valid_move(&b, (9, 5), (8, 6), PieceSide::Red));
    assert!(!is_valid_move(&b, (9, 5), (8, 5), PieceSide::Red));
}

#[test]
fn moves_onto_own_piece_or_from_empty_square_are_rejected() {
    let b = init_board();
    assert!(!is_valid_move(&b, (9, 0), (9, 1), PieceSide::Red));
    assert!(!is_valid_move(&b, (5, 0), (4, 0), PieceSide::Red));
    assert!(!is_valid_move(&b, (9, 0), (8, 0), PieceSide::Black));
    assert!(!is_valid_move(&b, (9, 0), (10, 0), PieceSide::Red));
    assert!(!is_valid_move(&b, (10, 0), (9, 0), PieceSide::Red));
}

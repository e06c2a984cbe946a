//! Move legality, check, checkmate and stalemate over a board snapshot.
use vstd::prelude::*;
use crate::board::{at, on_board, set_square, with_square, BoardState, Position};
use crate::piece::{opponent, Piece, PieceKind, PieceSide};

verus! {

/// The 3 x 3 palace of `side`: columns 3..=5 of its three home rows.
pub open spec fn in_palace(p: Position, side: PieceSide) -> bool {
    3 <= p.1 <= 5 && match side {
        PieceSide::Red => 7 <= p.0 <= 9,
        PieceSide::Black => p.0 <= 2,
    }
}

/// The half of the board on the near side of the river for `side`.
pub open spec fn own_half(p: Position, side: PieceSide) -> bool {
    match side {
        PieceSide::Red => p.0 >= 5,
        PieceSide::Black => p.0 <= 4,
    }
}

/// The half of the board beyond the river for `side`.
pub open spec fn crossed_river(p: Position, side: PieceSide) -> bool {
    match side {
        PieceSide::Red => p.0 < 5,
        PieceSide::Black => p.0 > 4,
    }
}

/// The distance between two coordinates.
pub open spec fn dist(a: usize, b: usize) -> int {
    if a >= b {
        a - b
    } else {
        b - a
    }
}

/// Number of occupied squares of row `r` with column in `lo..hi`.
pub open spec fn occupied_in_row(b: BoardState, r: int, lo: int, hi: int) -> nat
    decreases hi - lo,
{
    if hi <= lo {
        0
    } else {
        occupied_in_row(b, r, lo, hi - 1) + if b[r][hi - 1] is Some {
            1nat
        } else {
            0nat
        }
    }
}

/// Number of occupied squares of column `c` with row in `lo..hi`.
pub open spec fn occupied_in_col(b: BoardState, c: int, lo: int, hi: int) -> nat
    decreases hi - lo,
{
    if hi <= lo {
        0
    } else {
        occupied_in_col(b, c, lo, hi - 1) + if b[hi - 1][c] is Some {
            1nat
        } else {
            0nat
        }
    }
}

/// Occupied squares strictly between two squares of one row or one column;
/// `None` when they share neither.
pub open spec fn pieces_between(b: BoardState, from: Position, to: Position) -> Option<nat> {
    if from.0 == to.0 {
        if from.1 < to.1 {
            Some(occupied_in_row(b, from.0 as int, from.1 + 1, to.1 as int))
        } else {
            Some(occupied_in_row(b, from.0 as int, to.1 + 1, from.1 as int))
        }
    } else if from.1 == to.1 {
        if from.0 < to.0 {
            Some(occupied_in_col(b, from.1 as int, from.0 + 1, to.0 as int))
        } else {
            Some(occupied_in_col(b, from.1 as int, to.0 + 1, from.0 as int))
        }
    } else {
        None
    }
}

/// One orthogonal step that stays inside the palace.
pub open spec fn general_step_ok(from: Position, to: Position, side: PieceSide) -> bool {
    in_palace(to, side) && ((dist(from.0, to.0) == 1 && dist(from.1, to.1) == 0) || (dist(
        from.0,
        to.0,
    ) == 0 && dist(from.1, to.1) == 1))
}

/// One diagonal step that stays inside the palace.
pub open spec fn advisor_step_ok(from: Position, to: Position, side: PieceSide) -> bool {
    in_palace(to, side) && dist(from.0, to.0) == 1 && dist(from.1, to.1) == 1
}

/// The square halfway between `from` and `to`.
pub open spec fn midpoint(from: Position, to: Position) -> Position {
    (((from.0 + to.0) / 2) as usize, ((from.1 + to.1) / 2) as usize)
}

/// Two diagonal steps on its own half, with the square between them empty.
pub open spec fn elephant_step_ok(
    b: BoardState,
    from: Position,
    to: Position,
    side: PieceSide,
) -> bool {
    own_half(to, side) && dist(from.0, to.0) == 2 && dist(from.1, to.1) == 2 && at(
        b,
        midpoint(from, to),
    ) is None
}

/// The square next to `from` along the longer side of a horse jump.
pub open spec fn horse_leg(from: Position, to: Position) -> Position {
    if dist(from.0, to.0) == 2 {
        (if to.0 > from.0 {
            (from.0 + 1) as usize
        } else {
            (from.0 - 1) as usize
        }, from.1)
    } else {
        (from.0, if to.1 > from.1 {
            (from.1 + 1) as usize
        } else {
            (from.1 - 1) as usize
        })
    }
}

/// A jump of two squares one way and one the other, with its leg empty.
pub open spec fn horse_jump_ok(b: BoardState, from: Position, to: Position) -> bool {
    ((dist(from.0, to.0) == 2 && dist(from.1, to.1) == 1) || (dist(from.0, to.0) == 1 && dist(
        from.1,
        to.1,
    ) == 2)) && at(b, horse_leg(from, to)) is None
}

/// Along a row or a column with nothing in between.
pub open spec fn chariot_line_ok(b: BoardState, from: Position, to: Position) -> bool {
    pieces_between(b, from, to) == Some(0nat)
}

/// A quiet move along a clear line, or a capture over exactly one piece.
pub open spec fn cannon_line_ok(b: BoardState, from: Position, to: Position) -> bool {
    if at(b, to) is Some {
        pieces_between(b, from, to) == Some(1nat)
    } else {
        pieces_between(b, from, to) == Some(0nat)
    }
}

/// The row step that counts as forward for `side`.
pub open spec fn forward(side: PieceSide) -> int {
    match side {
        PieceSide::Red => -1,
        PieceSide::Black => 1,
    }
}

/// One step forward, or one step sideways once across the river.
pub open spec fn soldier_step_ok(from: Position, to: Position, side: PieceSide) -> bool {
    (to.0 - from.0 == forward(side) && to.1 == from.1) || (crossed_river(from, side) && to.0
        == from.0 && dist(from.1, to.1) == 1)
}

/// Whether `piece` standing on `from` may go to `to` by the geometry of its
/// kind, without regard to what stands on `to` or to the safety of its General.
pub open spec fn piece_move_ok(b: BoardState, from: Position, to: Position, piece: Piece) -> bool {
    match piece.kind {
        PieceKind::Jiang => general_step_ok(from, to, piece.side),
        PieceKind::Shi => advisor_step_ok(from, to, piece.side),
        PieceKind::Xiang => elephant_step_ok(b, from, to, piece.side),
        PieceKind::Ma => horse_jump_ok(b, from, to),
        PieceKind::Ju => chariot_line_ok(b, from, to),
        PieceKind::Pao => cannon_line_ok(b, from, to),
        PieceKind::Zu => soldier_step_ok(from, to, piece.side),
    }
}

/// Whether `pos` is on the board.
pub fn is_within_board(pos: Position) -> (r: bool)
    ensures
        r == on_board(pos),
{
    pos.0 < 10 && pos.1 < 9
}

/// Whether `pos` lies in the palace of `side`.
pub fn is_within_palace(pos: Position, side: PieceSide) -> (r: bool)
    ensures
        r == in_palace(pos, side),
{
    let (row, col) = pos;
    let in_cols = 3 <= col && col <= 5;
    match side {
        PieceSide::Red => 7 <= row && row <= 9 && in_cols,
        PieceSide::Black => row <= 2 && in_cols,
    }
}

/// Whether `pos` lies on the near side of the river for `side`.
pub fn is_own_side(pos: Position, side: PieceSide) -> (r: bool)
    ensures
        r == own_half(pos, side),
{
    match side {
        PieceSide::Red => pos.0 >= 5,
        PieceSide::Black => pos.0 <= 4,
    }
}

/// Whether `pos` lies beyond the river for `side`.
pub fn has_crossed_river(pos: Position, side: PieceSide) -> (r: bool)
    ensures
        r == crossed_river(pos, side),
{
    match side {
        PieceSide::Red => pos.0 < 5,
        PieceSide::Black => pos.0 > 4,
    }
}

fn abs_diff(a: usize, b: usize) -> (r: usize)
    ensures
        r == dist(a, b),
{
    if a >= b {
        a - b
    } else {
        b - a
    }
}

/// Occupied squares of row `r` with column in `lo..hi`.
fn count_in_row(board: &BoardState, r: usize, lo: usize, hi: usize) -> (n: usize)
    requires
        r < 10,
        hi <= 9,
    ensures
        n == occupied_in_row(*board, r as int, lo as int, hi as int),
{
    let mut n: usize = 0;
    if lo >= hi {
        return 0;
    }
    let mut c: usize = lo;
    while c < hi
        invariant
            lo <= c <= hi <= 9,
            r < 10,
            n == occupied_in_row(*board, r as int, lo as int, c as int),
            n <= c - lo,
        decreases hi - c,
    {
        if board[r][c].is_some() {
            n += 1;
        }
        c += 1;
    }
    n
}

/// Occupied squares of column `c` with row in `lo..hi`.
fn count_in_col(board: &BoardState, c: usize, lo: usize, hi: usize) -> (n: usize)
    requires
        c < 9,
        hi <= 10,
    ensures
        n == occupied_in_col(*board, c as int, lo as int, hi as int),
{
    let mut n: usize = 0;
    if lo >= hi {
        return 0;
    }
    let mut r: usize = lo;
    while r < hi
        invariant
            lo <= r <= hi <= 10,
            c < 9,
            n == occupied_in_col(*board, c as int, lo as int, r as int),
            n <= r - lo,
        decreases hi - r,
    {
        if board[r][c].is_some() {
            n += 1;
        }
        r += 1;
    }
    n
}

/// Occupied squares strictly between `from` and `to` when they share a row or
/// a column, else `None`.
pub fn count_pieces_between(board: &BoardState, from: Position, to: Position) -> (r: Option<
    usize,
>)
    requires
        on_board(from),
        on_board(to),
    ensures
        r is Some <==> pieces_between(*board, from, to) is Some,
        r is Some ==> pieces_between(*board, from, to) == Some(r->0 as nat),
{
    let (r1, c1) = from;
    let (r2, c2) = to;
    if r1 == r2 {
        let (min_c, max_c) = if c1 < c2 {
            (c1, c2)
        } else {
            (c2, c1)
        };
        Some(count_in_row(board, r1, min_c + 1, max_c))
    } else if c1 == c2 {
        let (min_r, max_r) = if r1 < r2 {
            (r1, r2)
        } else {
            (r2, r1)
        };
        Some(count_in_col(board, c1, min_r + 1, max_r))
    } else {
        None
    }
}

/// The General's rule.
fn is_valid_jiang_move(_board: &BoardState, from: Position, to: Position, side: PieceSide) -> (r:
    bool)
    ensures
        r == general_step_ok(from, to, side),
{
    if !is_within_palace(to, side) {
        return false;
    }
    let row_diff = abs_diff(from.0, to.0);
    let col_diff = abs_diff(from.1, to.1);
    (row_diff == 1 && col_diff == 0) || (row_diff == 0 && col_diff == 1)
}

/// The Advisor's rule.
fn is_valid_shi_move(_board: &BoardState, from: Position, to: Position, side: PieceSide) -> (r:
    bool)
    ensures
        r == advisor_step_ok(from, to, side),
{
    if !is_within_palace(to, side) {
        return false;
    }
    let row_diff = abs_diff(from.0, to.0);
    let col_diff = abs_diff(from.1, to.1);
    row_diff == 1 && col_diff == 1
}

/// The Elephant's rule.
fn is_valid_xiang_move(board: &BoardState, from: Position, to: Position, side: PieceSide) -> (r:
    bool)
    requires
        on_board(from),
        on_board(to),
    ensures
        r == elephant_step_ok(*board, from, to, side),
{
    let (r1, c1) = from;
    let (r2, c2) = to;
    if !is_own_side(to, side) {
        return false;
    }
    let row_diff = abs_diff(r1, r2);
    let col_diff = abs_diff(c1, c2);
    if row_diff != 2 || col_diff != 2 {
        return false;
    }
    let eye_row = (r1 + r2) / 2;
    let eye_col = (c1 + c2) / 2;
    board[eye_row][eye_col].is_none()
}

/// The Horse's rule.
fn is_valid_ma_move(board: &BoardState, from: Position, to: Position) -> (r: bool)
    requires
        on_board(from),
        on_board(to),
    ensures
        r == horse_jump_ok(*board, from, to),
{
    let (r1, c1) = from;
    let (r2, c2) = to;
    let row_diff = abs_diff(r1, r2);
    let col_diff = abs_diff(c1, c2);
    if !((row_diff == 2 && col_diff == 1) || (row_diff == 1 && col_diff == 2)) {
        return false;
    }
    let (leg_row, leg_col) = if row_diff == 2 {
        let leg_r = if r2 > r1 {
            r1 + 1
        } else {
            r1 - 1
        };
        (leg_r, c1)
    } else {
        let leg_c = if c2 > c1 {
            c1 + 1
        } else {
            c1 - 1
        };
        (r1, leg_c)
    };
    board[leg_row][leg_col].is_none()
}

/// The Chariot's rule.
fn is_valid_ju_move(board: &BoardState, from: Position, to: Position) -> (r: bool)
    requires
        on_board(from),
        on_board(to),
    ensures
        r == chariot_line_ok(*board, from, to),
{
    if from.0 != to.0 && from.1 != to.1 {
        return false;
    }
    match count_pieces_between(board, from, to) {
        Some(n) => n == 0,
        None => false,
    }
}

/// The Cannon's rule.
fn is_valid_pao_move(board: &BoardState, from: Position, to: Position) -> (r: bool)
    requires
        on_board(from),
        on_board(to),
    ensures
        r == cannon_line_ok(*board, from, to),
{
    if from.0 != to.0 && from.1 != to.1 {
        return false;
    }
    let pieces_between = match count_pieces_between(board, from, to) {
        Some(count) => count,
        None => return false,
    };
    let is_capture = board[to.0][to.1].is_some();
    if is_capture {
        pieces_between == 1
    } else {
        pieces_between == 0
    }
}

/// The Soldier's rule.
fn is_valid_zu_move(_board: &BoardState, from: Position, to: Position, side: PieceSide) -> (r:
    bool)
    requires
        on_board(from),
        on_board(to),
    ensures
        r == soldier_step_ok(from, to, side),
{
    let (r1, c1) = from;
    let (r2, c2) = to;
    let col_diff = abs_diff(c1, c2);
    let forward_step = match side {
        PieceSide::Red => r2 + 1 == r1,
        PieceSide::Black => r1 + 1 == r2,
    };
    if forward_step && col_diff == 0 {
        return true;
    }
    has_crossed_river(from, side) && r1 == r2 && col_diff == 1
}

/// The rule of the kind of `piece`.
fn is_valid_piece_move(board: &BoardState, from: Position, to: Position, piece: Piece) -> (r: bool)
    requires
        on_board(from),
        on_board(to),
    ensures
        r == piece_move_ok(*board, from, to, piece),
{
    match piece.kind {
        PieceKind::Jiang => is_valid_jiang_move(board, from, to, piece.side),
        PieceKind::Shi => is_valid_shi_move(board, from, to, piece.side),
        PieceKind::Xiang => is_valid_xiang_move(board, from, to, piece.side),
        PieceKind::Ma => is_valid_ma_move(board, from, to),
        PieceKind::Ju => is_valid_ju_move(board, from, to),
        PieceKind::Pao => is_valid_pao_move(board, from, to),
        PieceKind::Zu => is_valid_zu_move(board, from, to, piece.side),
    }
}

/// First row of the palace of `side`.
pub open spec fn palace_top(side: PieceSide) -> int {
    match side {
        PieceSide::Red => 7,
        PieceSide::Black => 0,
    }
}

/// The `k`-th palace square of `side`, row by row.
pub open spec fn palace_square(side: PieceSide, k: int) -> Position {
    ((palace_top(side) + k / 3) as usize, (3 + k % 3) as usize)
}

/// The General of `side`.
pub open spec fn general_of(side: PieceSide) -> Piece {
    Piece { side, kind: PieceKind::Jiang }
}

/// The first General of `side` among the palace squares from the `k`-th on.
pub open spec fn general_search(b: BoardState, side: PieceSide, k: int) -> Option<Position>
    decreases 9 - k,
{
    if k < 0 || k >= 9 {
        None
    } else if at(b, palace_square(side, k)) == Some(general_of(side)) {
        Some(palace_square(side, k))
    } else {
        general_search(b, side, k + 1)
    }
}

/// Where the General of `side` stands, searched inside its palace.
pub open spec fn general_square(b: BoardState, side: PieceSide) -> Option<Position> {
    general_search(b, side, 0)
}

/// Both Generals stand on one column with nothing between them.
pub open spec fn generals_facing(b: BoardState) -> bool {
    match (general_square(b, PieceSide::Red), general_square(b, PieceSide::Black)) {
        (Some(red), Some(black)) => red.1 == black.1 && pieces_between(b, black, red) == Some(
            0nat,
        ),
        _ => false,
    }
}

/// A piece of the side opposing `defender` stands on `from` and may move onto `target`.
pub open spec fn attacks(b: BoardState, from: Position, target: Position, defender: PieceSide) -> bool {
    match at(b, from) {
        Some(p) => p.side == opponent(defender) && piece_move_ok(b, from, target, p),
        None => false,
    }
}

/// Some piece of the side opposing `defender` may move onto `target`.
pub open spec fn square_attacked(b: BoardState, target: Position, defender: PieceSide) -> bool {
    exists|from: Position| on_board(from) && #[trigger] attacks(b, from, target, defender)
}

/// The General of `side` is attacked, or `side` has no General left.
pub open spec fn in_check(b: BoardState, side: PieceSide) -> bool {
    match general_square(b, side) {
        Some(g) => square_attacked(b, g, side),
        None => true,
    }
}

/// The board once the piece on `from` has gone to `to`, taking whatever stood there.
pub open spec fn after_move(b: BoardState, from: Position, to: Position) -> BoardState {
    with_square(with_square(b, to, at(b, from)), from, None)
}

/// A piece of `side` stands on `p`.
pub open spec fn friendly_at(b: BoardState, p: Position, side: PieceSide) -> bool {
    match at(b, p) {
        Some(q) => q.side == side,
        None => false,
    }
}

/// The move from `from` to `to` is legal for `side`: it moves a piece of its
/// own, onto a square without a piece of its own, by the rule of the piece's
/// kind, and leaves neither the Generals facing nor its own General in check.
pub open spec fn valid_move(b: BoardState, from: Position, to: Position, side: PieceSide) -> bool {
    &&& on_board(from)
    &&& on_board(to)
    &&& friendly_at(b, from, side)
    &&& !friendly_at(b, to, side)
    &&& piece_move_ok(b, from, to, at(b, from)->0)
    &&& !generals_facing(after_move(b, from, to))
    &&& !in_check(after_move(b, from, to), side)
}

proof fn lemma_general_search(b: BoardState, side: PieceSide, k: int)
    ensures
        general_search(b, side, k) matches Some(p) ==> on_board(p) && in_palace(p, side) && at(b, p)
            == Some(general_of(side)),
    decreases 9 - k,
{
    if 0 <= k < 9 && at(b, palace_square(side, k)) != Some(general_of(side)) {
        lemma_general_search(b, side, k + 1);
    }
}

/// Where the General of `side` stands inside its palace, if anywhere.
pub fn find_general(board: &BoardState, side: PieceSide) -> (r: Option<Position>)
    ensures
        r == general_square(*board, side),
        r matches Some(p) ==> on_board(p) && in_palace(p, side) && at(*board, p) == Some(
            general_of(side),
        ),
{
    proof {
        lemma_general_search(*board, side, 0);
    }
    let top: usize = match side {
        PieceSide::Red => 7,
        PieceSide::Black => 0,
    };
    let mut k: usize = 0;
    while k < 9
        invariant
            k <= 9,
            top == palace_top(side),
            general_search(*board, side, 0) == general_search(*board, side, k as int),
        decreases 9 - k,
    {
        let row = top + k / 3;
        let col = 3 + k % 3;
        assert((row, col) == palace_square(side, k as int));
        if let Some(piece) = board[row][col] {
            if piece.kind == PieceKind::Jiang && piece.side == side {
                return Some((row, col));
            }
        }
        k += 1;
    }
    None
}

/// Whether both Generals stand on one column with nothing between them.
pub fn are_generals_facing(board: &BoardState) -> (r: bool)
    ensures
        r == generals_facing(*board),
{
    let red = find_general(board, PieceSide::Red);
    let black = find_general(board, PieceSide::Black);
    match (red, black) {
        (Some(red_pos), Some(black_pos)) => {
            if red_pos.1 != black_pos.1 {
                return false;
            }
            match count_pieces_between(board, black_pos, red_pos) {
                Some(n) => n == 0,
                None => false,
            }
        },
        _ => false,
    }
}

/// Whether a piece of the side opposing `defender_side` may move onto `pos`.
pub fn is_under_attack(board: &BoardState, pos: Position, defender_side: PieceSide) -> (r: bool)
    requires
        on_board(pos),
    ensures
        r == square_attacked(*board, pos, defender_side),
{
    let attacker_side = defender_side.other();
    let mut row: usize = 0;
    while row < 10
        invariant
            row <= 10,
            on_board(pos),
            attacker_side == opponent(defender_side),
            forall|from: Position|
                on_board(from) && from.0 < row ==> !#[trigger] attacks(
                    *board,
                    from,
                    pos,
                    defender_side,
                ),
        decreases 10 - row,
    {
        let mut col: usize = 0;
        while col < 9
            invariant
                row < 10,
                col <= 9,
                on_board(pos),
                attacker_side == opponent(defender_side),
                forall|from: Position|
                    on_board(from) && (from.0 < row || (from.0 == row && from.1 < col))
                        ==> !#[trigger] attacks(*board, from, pos, defender_side),
            decreases 9 - col,
        {
            if let Some(piece) = board[row][col] {
                if piece.side == attacker_side {
                    if is_valid_piece_move(board, (row, col), pos, piece) {
                        assert(attacks(*board, (row, col), pos, defender_side));
                        return true;
                    }
                }
            }
            col += 1;
        }
        row += 1;
    }
    false
}

/// Whether the General of `side` is attacked, or `side` has no General.
pub fn is_in_check(board: &BoardState, side: PieceSide) -> (r: bool)
    ensures
        r == in_check(*board, side),
{
    match find_general(board, side) {
        Some(general_pos) => is_under_attack(board, general_pos, side),
        None => true,
    }
}

/// Moves the piece on `from` to `to`, removing whatever stood there.
pub(crate) fn apply_move(board: &mut BoardState, from: Position, to: Position)
    requires
        on_board(from),
        on_board(to),
    ensures
        *final(board) == after_move(*old(board), from, to),
{
    let piece = board[from.0][from.1];
    set_square(board, to, piece);
    set_square(board, from, None);
}

/// Whether `side` may move the piece on `from` to `to`.
pub fn is_valid_move(board: &BoardState, from: Position, to: Position, side: PieceSide) -> (r:
    bool)
    ensures
        r == valid_move(*board, from, to, side),
{
    if !is_within_board(from) || !is_within_board(to) {
        return false;
    }
    let piece = match board[from.0][from.1] {
        Some(p) => p,
        None => return false,
    };
    if piece.side != side {
        return false;
    }
    if let Some(target_piece) = board[to.0][to.1] {
        if target_piece.side == side {
            return false;
        }
    }
    if !is_valid_piece_move(board, from, to, piece) {
        return false;
    }
    let mut test_board = *board;
    apply_move(&mut test_board, from, to);
    if are_generals_facing(&test_board) {
        return false;
    }
    if is_in_check(&test_board, side) {
        return false;
    }
    true
}

/// The `k`-th square of the board, row by row.
pub open spec fn square_at_index(k: int) -> Position {
    ((k / 9) as usize, (k % 9) as usize)
}

/// The squares among the first `k` to which `side` may move the piece on `from`, in board order.
pub open spec fn dests_upto(b: BoardState, from: Position, side: PieceSide, k: int) -> Seq<Position>
    decreases k,
{
    if k <= 0 {
        Seq::empty()
    } else if valid_move(b, from, square_at_index(k - 1), side) {
        dests_upto(b, from, side, k - 1).push(square_at_index(k - 1))
    } else {
        dests_upto(b, from, side, k - 1)
    }
}

/// Every square to which `side` may move the piece on `from`, in board order.
pub open spec fn legal_destinations(b: BoardState, from: Position, side: PieceSide) -> Seq<Position> {
    dests_upto(b, from, side, 90)
}

/// The legal moves of `side` that start on one of the first `k` squares, in board order.
pub open spec fn moves_upto(b: BoardState, side: PieceSide, k: int) -> Seq<(Position, Position)>
    decreases k,
{
    if k <= 0 {
        Seq::empty()
    } else {
        moves_upto(b, side, k - 1) + legal_destinations(b, square_at_index(k - 1), side).map_values(
            |to: Position| (square_at_index(k - 1), to),
        )
    }
}

/// Every legal move of `side`, ordered by start square, then by end square.
pub open spec fn legal_moves(b: BoardState, side: PieceSide) -> Seq<(Position, Position)> {
    moves_upto(b, side, 90)
}

/// `side` has at least one legal move.
pub open spec fn has_legal_move(b: BoardState, side: PieceSide) -> bool {
    exists|from: Position, to: Position| #[trigger] valid_move(b, from, to, side)
}

/// `side` is in check and has no legal move.
pub open spec fn checkmated(b: BoardState, side: PieceSide) -> bool {
    in_check(b, side) && !has_legal_move(b, side)
}

/// `side` is not in check and has no legal move.
pub open spec fn stalemated(b: BoardState, side: PieceSide) -> bool {
    !in_check(b, side) && !has_legal_move(b, side)
}

proof fn lemma_square_index(p: Position)
    requires
        on_board(p),
    ensures
        square_at_index(p.0 * 9 + p.1) == p,
        0 <= p.0 * 9 + p.1 < 90,
{
}

proof fn lemma_dests_empty(b: BoardState, from: Position, side: PieceSide, k: int)
    requires
        0 <= k <= 90,
    ensures
        dests_upto(b, from, side, k).len() == 0 <==> forall|j: int|
            0 <= j < k ==> !valid_move(b, from, #[trigger] square_at_index(j), side),
    decreases k,
{
    if k > 0 {
        lemma_dests_empty(b, from, side, k - 1);
    }
}

proof fn lemma_dests_of_empty_square(b: BoardState, from: Position, side: PieceSide, k: int)
    requires
        !on_board(from) || !friendly_at(b, from, side),
    ensures
        dests_upto(b, from, side, k) == Seq::<Position>::empty(),
    decreases k,
{
    if k > 0 {
        lemma_dests_of_empty_square(b, from, side, k - 1);
    }
}

proof fn lemma_moves_empty(b: BoardState, side: PieceSide, k: int)
    requires
        0 <= k <= 90,
    ensures
        moves_upto(b, side, k).len() == 0 <==> forall|j: int|
            0 <= j < k ==> (#[trigger] legal_destinations(b, square_at_index(j), side)).len() == 0,
    decreases k,
{
    if k > 0 {
        lemma_moves_empty(b, side, k - 1);
    }
}

/// No legal move is listed exactly when `side` has no legal move.
proof fn lemma_no_moves(b: BoardState, side: PieceSide)
    ensures
        legal_moves(b, side).len() == 0 <==> !has_legal_move(b, side),
{
    lemma_moves_empty(b, side, 90);
    if has_legal_move(b, side) {
        let (from, to) = choose|from: Position, to: Position| #[trigger] valid_move(b, from, to, side);
        lemma_square_index(from);
        lemma_square_index(to);
        lemma_dests_empty(b, from, side, 90);
        let j = to.0 * 9 + to.1;
        assert(valid_move(b, from, square_at_index(j), side));
        assert(legal_destinations(b, square_at_index(from.0 * 9 + from.1), side).len() != 0);
    } else {
        assert forall|j: int| 0 <= j < 90 implies (#[trigger] legal_destinations(
            b,
            square_at_index(j),
            side,
        )).len() == 0 by {
            lemma_dests_empty(b, square_at_index(j), side, 90);
            assert forall|i: int| 0 <= i < 90 implies !valid_move(
                b,
                square_at_index(j),
                #[trigger] square_at_index(i),
                side,
            ) by {
                if valid_move(b, square_at_index(j), square_at_index(i), side) {
                    assert(has_legal_move(b, side));
                }
            }
        }
    }
}

/// Every square to which `side` may move the piece on `from`, in board order.
pub fn get_valid_moves(board: &BoardState, from: Position, side: PieceSide) -> (r: Vec<Position>)
    ensures
        r@ == legal_destinations(*board, from, side),
{
    let mut valid_moves: Vec<Position> = Vec::new();
    if !is_within_board(from) {
        proof {
            lemma_dests_of_empty_square(*board, from, side, 90);
        }
        return valid_moves;
    }
    match board[from.0][from.1] {
        Some(piece) => {
            if piece.side != side {
                proof {
                    lemma_dests_of_empty_square(*board, from, side, 90);
                }
                return valid_moves;
            }
        },
        None => {
            proof {
                lemma_dests_of_empty_square(*board, from, side, 90);
            }
            return valid_moves;
        },
    }
    let mut k: usize = 0;
    while k < 90
        invariant
            k <= 90,
            valid_moves@ == dests_upto(*board, from, side, k as int),
        decreases 90 - k,
    {
        let to = (k / 9, k % 9);
        assert(to == square_at_index(k as int));
        if is_valid_move(board, from, to, side) {
            valid_moves.push(to);
        }
        k += 1;
    }
    valid_moves
}

/// Every legal move of `side`, ordered by start square, then by end square.
pub fn get_all_valid_moves(board: &BoardState, side: PieceSide) -> (r: Vec<(Position, Position)>)
    ensures
        r@ == legal_moves(*board, side),
{
    let mut all_moves: Vec<(Position, Position)> = Vec::new();
    let mut k: usize = 0;
    while k < 90
        invariant
            k <= 90,
            all_moves@ == moves_upto(*board, side, k as int),
        decreases 90 - k,
    {
        let from = (k / 9, k % 9);
        assert(from == square_at_index(k as int));
        let ghost before = all_moves@;
        let ghost added = legal_destinations(*board, from, side).map_values(
            |to: Position| (from, to),
        );
        let own = match board[from.0][from.1] {
            Some(piece) => piece.side == side,
            None => false,
        };
        if own {
            let dests = get_valid_moves(board, from, side);
            let mut j: usize = 0;
            while j < dests.len()
                invariant
                    j <= dests@.len(),
                    dests@ == legal_destinations(*board, from, side),
                    added == dests@.map_values(|to: Position| (from, to)),
                    all_moves@ == before + added.take(j as int),
                decreases dests@.len() - j,
            {
                all_moves.push((from, dests[j]));
                assert(added.take(j + 1) == added.take(j as int).push(added[j as int]));
                j += 1;
            }
            assert(added.take(dests@.len() as int) == added);
        } else {
            proof {
                lemma_dests_of_empty_square(*board, from, side, 90);
                assert(added =~= Seq::<(Position, Position)>::empty());
                assert(before + added =~= before);
            }
        }
        k += 1;
    }
    all_moves
}

/// Whether `side` is in check and has no legal move.
pub fn is_checkmate(board: &BoardState, side: PieceSide) -> (r: bool)
    ensures
        r == checkmated(*board, side),
{
    proof {
        lemma_no_moves(*board, side);
    }
    is_in_check(board, side) && get_all_valid_moves(board, side).len() == 0
}

/// Whether `side` is not in check and has no legal move.
pub fn is_stalemate(board: &BoardState, side: PieceSide) -> (r: bool)
    ensures
        r == stalemated(*board, side),
{
    proof {
        lemma_no_moves(*board, side);
    }
    !is_in_check(board, side) && get_all_valid_moves(board, side).len() == 0
}

} // verus!

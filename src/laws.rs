//! Properties of the rules, stated over the same spec functions as the
//! contracts of the executable functions, and proved.
use vstd::prelude::*;
use crate::board::{at, back_row_kind, is_start_board, lemma_with_square, on_board, start_cell, BoardState, Position};
use crate::codec::{move_notation, parse_move, parse_square, square_notation};
use crate::piece::{opponent, Piece, PieceKind, PieceSide};
use crate::rules::{
    after_move, general_of, general_square, generals_facing, horse_leg, in_check, in_palace,
    piece_move_ok, pieces_between, valid_move, palace_square, general_search,
};
use crate::rules::{checkmated, stalemated};
use crate::state::{before_move, status_after, win_for, GameStatus, Move};

verus! {

/// Squares of row `r` with column below `n` that hold a piece of `side`.
pub open spec fn row_count(b: BoardState, side: PieceSide, r: int, n: int) -> nat
    decreases n,
{
    if n <= 0 {
        0
    } else {
        row_count(b, side, r, n - 1) + if b[r][n - 1] matches Some(p) && p.side == side {
            1nat
        } else {
            0nat
        }
    }
}

/// Squares of the rows below `m` that hold a piece of `side`.
pub open spec fn rows_count(b: BoardState, side: PieceSide, m: int) -> nat
    decreases m,
{
    if m <= 0 {
        0
    } else {
        rows_count(b, side, m - 1) + row_count(b, side, m - 1, 9)
    }
}

/// Number of pieces of `side` on the board.
pub open spec fn piece_count(b: BoardState, side: PieceSide) -> nat {
    rows_count(b, side, 10)
}

/// The same piece for the other side.
pub open spec fn flipped(o: Option<Piece>) -> Option<Piece> {
    match o {
        Some(p) => Some(Piece { side: opponent(p.side), kind: p.kind }),
        None => None,
    }
}

proof fn lemma_start_rows(b: BoardState, side: PieceSide)
    requires
        is_start_board(b),
    ensures
        row_count(b, side, 0, 9) == if side == PieceSide::Black { 9nat } else { 0nat },
        row_count(b, side, 1, 9) == 0,
        row_count(b, side, 2, 9) == if side == PieceSide::Black { 2nat } else { 0nat },
        row_count(b, side, 3, 9) == if side == PieceSide::Black { 5nat } else { 0nat },
        row_count(b, side, 4, 9) == 0,
        row_count(b, side, 5, 9) == 0,
        row_count(b, side, 6, 9) == if side == PieceSide::Red { 5nat } else { 0nat },
        row_count(b, side, 7, 9) == if side == PieceSide::Red { 2nat } else { 0nat },
        row_count(b, side, 8, 9) == 0,
        row_count(b, side, 9, 9) == if side == PieceSide::Red { 9nat } else { 0nat },
{
    reveal_with_fuel(row_count, 10);
    assert forall|r: int, c: int| 0 <= r < 10 && 0 <= c < 9 implies b[r][c] == start_cell(r, c) by {
    }
}

/// The starting position holds sixteen pieces of each side; each side has
/// exactly one General, inside its own palace; and each square holds the
/// same kind as the square of the same column at the same distance from the
/// other edge, for the other side.
pub proof fn start_position_laws(b: BoardState)
    requires
        is_start_board(b),
    ensures
        piece_count(b, PieceSide::Red) == 16,
        piece_count(b, PieceSide::Black) == 16,
        general_square(b, PieceSide::Red) == Some((9usize, 4usize)),
        general_square(b, PieceSide::Black) == Some((0usize, 4usize)),
        in_palace((9usize, 4usize), PieceSide::Red),
        in_palace((0usize, 4usize), PieceSide::Black),
        forall|p: Position|
            on_board(p) && #[trigger] at(b, p) == Some(general_of(PieceSide::Red)) ==> p == (
                9usize,
                4usize,
            ),
        forall|p: Position|
            on_board(p) && #[trigger] at(b, p) == Some(general_of(PieceSide::Black)) ==> p == (
                0usize,
                4usize,
            ),
        forall|r: int, c: int|
            0 <= r < 10 && 0 <= c < 9 ==> #[trigger] b[9 - r][c] == flipped(b[r][c]),
{
    lemma_start_rows(b, PieceSide::Red);
    lemma_start_rows(b, PieceSide::Black);
    reveal_with_fuel(rows_count, 11);
    reveal_with_fuel(general_search, 6);
    assert(at(b, palace_square(PieceSide::Red, 0)) == start_cell(7, 3));
    assert(at(b, palace_square(PieceSide::Red, 1)) == start_cell(7, 4));
    assert(at(b, palace_square(PieceSide::Red, 2)) == start_cell(7, 5));
    assert(at(b, palace_square(PieceSide::Red, 3)) == start_cell(8, 3));
    assert(at(b, palace_square(PieceSide::Red, 4)) == start_cell(8, 4));
    assert(at(b, palace_square(PieceSide::Red, 5)) == start_cell(8, 5));
    assert(at(b, palace_square(PieceSide::Red, 6)) == start_cell(9, 3));
    assert(at(b, palace_square(PieceSide::Red, 7)) == start_cell(9, 4));
    assert(at(b, palace_square(PieceSide::Black, 0)) == start_cell(0, 3));
    assert(at(b, palace_square(PieceSide::Black, 1)) == start_cell(0, 4));
    reveal_with_fuel(general_search, 9);
    assert(general_square(b, PieceSide::Red) == Some((9usize, 4usize)));
    assert forall|p: Position| on_board(p) && #[trigger] at(b, p) == Some(general_of(PieceSide::Red))
        implies p == (9usize, 4usize) by {
        assert(b[p.0 as int][p.1 as int] == start_cell(p.0 as int, p.1 as int));
    }
    assert forall|p: Position| on_board(p) && #[trigger] at(b, p) == Some(general_of(PieceSide::Black))
        implies p == (0usize, 4usize) by {
        assert(b[p.0 as int][p.1 as int] == start_cell(p.0 as int, p.1 as int));
    }
    assert forall|r: int, c: int| 0 <= r < 10 && 0 <= c < 9 implies #[trigger] b[9 - r][c]
        == flipped(b[r][c]) by {
        assert(b[9 - r][c] == start_cell(9 - r, c));
        assert(b[r][c] == start_cell(r, c));
    }
}

/// A move after which the two Generals face each other is never legal,
/// whatever the rule of the moving piece allows.
pub proof fn facing_generals_rejected(b: BoardState, from: Position, to: Position, side: PieceSide)
    requires
        generals_facing(after_move(b, from, to)),
    ensures
        !valid_move(b, from, to, side),
{
}

/// A move after which the mover's own General is in check is never legal,
/// whatever the rule of the moving piece allows.
pub proof fn self_check_rejected(b: BoardState, from: Position, to: Position, side: PieceSide)
    requires
        in_check(after_move(b, from, to), side),
    ensures
        !valid_move(b, from, to, side),
{
}

/// Reading back the code of a move on the board gives the move.
pub proof fn notation_round_trip(m: Move)
    requires
        on_board(m.from),
        on_board(m.to),
    ensures
        parse_move(move_notation(m)) == Some(m),
{
    let s = move_notation(m);
    assert(s.subrange(0, 2) =~= square_notation(m.from));
    assert(s.subrange(2, 4) =~= square_notation(m.to));
    square_round_trip(m.from);
    square_round_trip(m.to);
}

proof fn square_round_trip(p: Position)
    requires
        on_board(p),
    ensures
        parse_square(square_notation(p)) == Some(p),
{
}

/// A Cannon moves onto an occupied square only over exactly one piece, and
/// onto an empty square only along a clear line.
pub proof fn cannon_rule(b: BoardState, from: Position, to: Position, side: PieceSide)
    ensures
        ({
            let cannon = Piece { side, kind: PieceKind::Pao };
            &&& at(b, to) is Some && pieces_between(b, from, to) == Some(1nat) ==> piece_move_ok(
                b,
                from,
                to,
                cannon,
            )
            &&& at(b, to) is Some && pieces_between(b, from, to) == Some(0nat) ==> !piece_move_ok(
                b,
                from,
                to,
                cannon,
            )
            &&& at(b, to) is None && pieces_between(b, from, to) == Some(0nat) ==> piece_move_ok(
                b,
                from,
                to,
                cannon,
            )
            &&& at(b, to) is None && pieces_between(b, from, to) == Some(1nat) ==> !piece_move_ok(
                b,
                from,
                to,
                cannon,
            )
        }),
{
}

/// A Horse cannot jump when the square next to it along the longer side of
/// the jump is occupied.
pub proof fn horse_leg_blocks(b: BoardState, from: Position, to: Position, side: PieceSide)
    requires
        at(b, horse_leg(from, to)) is Some,
    ensures
        !piece_move_ok(b, from, to, Piece { side, kind: PieceKind::Ma }),
{
}

/// A move that leaves the opponent checkmated or stalemated wins the game for
/// the mover; no move ever makes the game a draw.
pub proof fn terminal_positions_are_wins(b: BoardState, mover: PieceSide)
    ensures
        checkmated(b, opponent(mover)) ==> status_after(b, mover) == win_for(mover),
        stalemated(b, opponent(mover)) ==> status_after(b, mover) == win_for(mover),
        status_after(b, mover) != GameStatus::Draw,
{
}

/// Taking back a legal move with what it took restores the board.
pub proof fn undo_restores_board(b: BoardState, from: Position, to: Position, side: PieceSide)
    requires
        valid_move(b, from, to, side),
    ensures
        before_move(after_move(b, from, to), Move { from, to }, at(b, to)) == b,
{
    let a1 = crate::board::with_square(b, to, at(b, from));
    let a = after_move(b, from, to);
    let m = Move { from, to };
    let u1 = crate::board::with_square(a, from, at(a, to));
    let u = before_move(a, m, at(b, to));
    lemma_with_square(b, to, at(b, from));
    lemma_with_square(a1, from, None);
    lemma_with_square(a, from, at(a, to));
    lemma_with_square(u1, to, at(b, to));
    assert(from != to);
    assert forall|r: int| 0 <= r < 10 implies u[r] =~= b[r] by {
        assert forall|c: int| 0 <= c < 9 implies u[r][c] == b[r][c] by {
            assert(u[r][c] == u1[r][c] || (r == to.0 && c == to.1));
        }
        broadcast use vstd::array::group_array_axioms;
    }
    broadcast use vstd::array::group_array_axioms;
    assert(u =~= b);
}

} // verus!

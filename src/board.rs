//! The 10 x 9 board and the starting position.
use vstd::prelude::*;
use crate::piece::{Piece, PieceKind, PieceSide};

verus! {

/// A board square as (row, column); on the board when row < 10 and column < 9.
pub type Position = (usize, usize);

/// The grid of squares, indexed by row then column.
pub type BoardState = [[Option<Piece>; 9]; 10];

pub open spec fn on_board(p: Position) -> bool {
    p.0 < 10 && p.1 < 9
}

/// What stands on square `p` of `b`.
pub open spec fn at(b: BoardState, p: Position) -> Option<Piece> {
    b[p.0 as int][p.1 as int]
}

/// The kind standing on column `c` of a back row at the start.
pub open spec fn back_row_kind(c: int) -> PieceKind {
    if c == 0 || c == 8 {
        PieceKind::Ju
    } else if c == 1 || c == 7 {
        PieceKind::Ma
    } else if c == 2 || c == 6 {
        PieceKind::Xiang
    } else if c == 3 || c == 5 {
        PieceKind::Shi
    } else {
        PieceKind::Jiang
    }
}

/// What stands on square (r, c) in the starting position.
pub open spec fn start_cell(r: int, c: int) -> Option<Piece> {
    if r == 0 {
        Some(Piece { side: PieceSide::Black, kind: back_row_kind(c) })
    } else if r == 9 {
        Some(Piece { side: PieceSide::Red, kind: back_row_kind(c) })
    } else if r == 2 && (c == 1 || c == 7) {
        Some(Piece { side: PieceSide::Black, kind: PieceKind::Pao })
    } else if r == 7 && (c == 1 || c == 7) {
        Some(Piece { side: PieceSide::Red, kind: PieceKind::Pao })
    } else if r == 3 && c % 2 == 0 {
        Some(Piece { side: PieceSide::Black, kind: PieceKind::Zu })
    } else if r == 6 && c % 2 == 0 {
        Some(Piece { side: PieceSide::Red, kind: PieceKind::Zu })
    } else {
        None
    }
}

/// `b` with square `p` holding `v`.
pub open spec fn with_square(b: BoardState, p: Position, v: Option<Piece>) -> BoardState {
    vstd::array::spec_array_update(
        b,
        p.0 as int,
        vstd::array::spec_array_update(b[p.0 as int], p.1 as int, v),
    )
}

pub proof fn lemma_with_square(b: BoardState, p: Position, v: Option<Piece>)
    requires
        on_board(p),
    ensures
        forall|r: int, c: int|
            0 <= r < 10 && 0 <= c < 9 ==> #[trigger] with_square(b, p, v)[r][c] == if r == p.0
                && c == p.1 {
                v
            } else {
                b[r][c]
            },
{
    broadcast use vstd::array::group_array_axioms;

}

/// Puts `v` on square `p`.
pub fn set_square(board: &mut BoardState, p: Position, v: Option<Piece>)
    requires
        on_board(p),
    ensures
        *final(board) == with_square(*old(board), p, v),
{
    board[p.0][p.1] = v;
    proof {
        let after = with_square(*old(board), p, v);
        lemma_with_square(*old(board), p, v);
        assert forall|r: int| 0 <= r < 10 implies board[r] =~= after[r] by {
            assert forall|c: int| 0 <= c < 9 implies board[r][c] == after[r][c] by {
                assert(after[r][c] == (if r == p.0 && c == p.1 {
                    v
                } else {
                    old(board)[r][c]
                }));
            }
            broadcast use vstd::array::group_array_axioms;
        }
        broadcast use vstd::array::group_array_axioms;
        assert(*board =~= after);
    }
}

pub open spec fn is_start_board(b: BoardState) -> bool {
    forall|r: int, c: int| 0 <= r < 10 && 0 <= c < 9 ==> #[trigger] b[r][c] == start_cell(r, c)
}

fn set_back_row(board: &mut BoardState, row: usize, side: PieceSide)
    requires
        row < 10,
    ensures
        forall|r: int, c: int|
            0 <= r < 10 && 0 <= c < 9 ==> #[trigger] final(board)[r][c] == if r == row {
                Some(Piece { side, kind: back_row_kind(c) })
            } else {
                old(board)[r][c]
            },
{
    let pieces: [PieceKind; 9] = [
        PieceKind::Ju,
        PieceKind::Ma,
        PieceKind::Xiang,
        PieceKind::Shi,
        PieceKind::Jiang,
        PieceKind::Shi,
        PieceKind::Xiang,
        PieceKind::Ma,
        PieceKind::Ju,
    ];
    assert(forall|c: int| 0 <= c < 9 ==> #[trigger] pieces[c] == back_row_kind(c));
    let mut col: usize = 0;
    while col < 9
        invariant
            col <= 9,
            row < 10,
            forall|c: int| 0 <= c < 9 ==> #[trigger] pieces[c] == back_row_kind(c),
            forall|r: int, c: int|
                0 <= r < 10 && 0 <= c < 9 ==> #[trigger] board[r][c] == if r == row && c
                    < col {
                    Some(Piece { side, kind: back_row_kind(c) })
                } else {
                    old(board)[r][c]
                },
        decreases 9 - col,
    {
        board[row][col] = Some(Piece { side, kind: pieces[col] });
        col += 1;
    }
}

/// The starting position.
pub fn init_board() -> (b: BoardState)
    ensures
        is_start_board(b),
{
    let mut board: BoardState = [[None; 9]; 10];
    set_back_row(&mut board, 0, PieceSide::Black);
    board[2][1] = Some(Piece { side: PieceSide::Black, kind: PieceKind::Pao });
    board[2][7] = Some(Piece { side: PieceSide::Black, kind: PieceKind::Pao });
    set_back_row(&mut board, 9, PieceSide::Red);
    board[7][1] = Some(Piece { side: PieceSide::Red, kind: PieceKind::Pao });
    board[7][7] = Some(Piece { side: PieceSide::Red, kind: PieceKind::Pao });
    let mut i: usize = 0;
    while i < 5
        invariant
            i <= 5,
            forall|r: int, c: int|
                0 <= r < 10 && 0 <= c < 9 ==> #[trigger] board[r][c] == if (r == 3 || r == 6)
                    && c % 2 == 0 && c < 2 * i {
                    start_cell(r, c)
                } else if r == 3 || r == 6 {
                    None
                } else {
                    start_cell(r, c)
                },
        decreases 5 - i,
    {
        board[3][i * 2] = Some(Piece { side: PieceSide::Black, kind: PieceKind::Zu });
        board[6][i * 2] = Some(Piece { side: PieceSide::Red, kind: PieceKind::Zu });
        i += 1;
    }
    board
}

} // verus!

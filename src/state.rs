//! The game: board, side to move, status and history, and the moves that change them.
use vstd::prelude::*;
use crate::board::{at, init_board, is_start_board, on_board, set_square, with_square, BoardState, Position};
use crate::piece::{opponent, Piece, PieceSide};
use crate::rules::{
    after_move, apply_move, checkmated, friendly_at, get_valid_moves, in_check, is_checkmate,
    is_in_check, is_stalemate, is_valid_move, legal_destinations, stalemated, valid_move,
};

verus! {

/// How an attempted move turned out.
#[derive(Clone, Copy, Debug, PartialEq, Eq, Structural)]
pub enum MoveResult {
    Invalid,
    Success,
    Capture(Piece),
    Check,
    CaptureAndCheck(Piece),
    /// The side that delivered mate.
    Checkmate(PieceSide),
    /// The side that left its opponent without a move.
    Stalemate(PieceSide),
}

/// A move of the history.
#[derive(Clone, Copy, Debug, PartialEq, Eq)]
pub struct Move {
    pub from: Position,
    pub to: Position,
}

#[derive(Clone, Copy, Debug, PartialEq, Eq, Structural)]
pub enum GameStatus {
    InProgress,
    RedWins,
    BlackWins,
    Draw,
}

impl Default for GameStatus {
    fn default() -> (r: GameStatus)
        ensures
            r == GameStatus::InProgress,
    {
        GameStatus::InProgress
    }
}

/// The state of one game. `captured` holds, for each move of `move_history`,
/// what that move took, so that undoing it can put the piece back.
/// `selected_piece` and `valid_moves` are the player's current selection and
/// play no part in the rules.
#[derive(Clone)]
pub struct GameState {
    pub board: BoardState,
    pub current_turn: PieceSide,
    pub status: GameStatus,
    pub move_history: Vec<Move>,
    pub captured: Vec<Option<Piece>>,
    pub selected_piece: Option<Position>,
    pub valid_moves: Vec<Position>,
}

/// The status in which `side` has won.
pub open spec fn win_for(side: PieceSide) -> GameStatus {
    match side {
        PieceSide::Red => GameStatus::RedWins,
        PieceSide::Black => GameStatus::BlackWins,
    }
}

/// The status once `mover` has moved and left `board` to its opponent:
/// a checkmated or stalemated opponent has lost.
pub open spec fn status_after(board: BoardState, mover: PieceSide) -> GameStatus {
    if checkmated(board, opponent(mover)) || stalemated(board, opponent(mover)) {
        win_for(mover)
    } else {
        GameStatus::InProgress
    }
}

/// The result reported for a legal move of `mover` from `from` to `to` on `b`.
pub open spec fn move_outcome(b: BoardState, from: Position, to: Position, mover: PieceSide) -> MoveResult {
    let next = after_move(b, from, to);
    let opp = opponent(mover);
    if checkmated(next, opp) {
        MoveResult::Checkmate(mover)
    } else if stalemated(next, opp) {
        MoveResult::Stalemate(mover)
    } else {
        match at(b, to) {
            Some(taken) => if in_check(next, opp) {
                MoveResult::CaptureAndCheck(taken)
            } else {
                MoveResult::Capture(taken)
            },
            None => if in_check(next, opp) {
                MoveResult::Check
            } else {
                MoveResult::Success
            },
        }
    }
}

/// The board with move `m` taken back: its piece returns to `m.from` and
/// `taken` returns to `m.to`.
pub open spec fn before_move(b: BoardState, m: Move, taken: Option<Piece>) -> BoardState {
    with_square(with_square(b, m.from, at(b, m.to)), m.to, taken)
}

/// The side to move may play from `from` to `to` now.
pub open spec fn may_play(g: GameState, from: Position, to: Position) -> bool {
    g.status == GameStatus::InProgress && valid_move(g.board, from, to, g.current_turn)
}

/// `new` is the game `old` after the side to move played from `from` to `to`,
/// which was reported as `r`.
pub open spec fn plays(old: GameState, new: GameState, from: Position, to: Position, r: MoveResult) -> bool {
    &&& r == move_outcome(old.board, from, to, old.current_turn)
    &&& new.board == after_move(old.board, from, to)
    &&& new.current_turn == opponent(old.current_turn)
    &&& new.status == status_after(new.board, old.current_turn)
    &&& new.move_history@ == old.move_history@.push(Move { from, to })
    &&& new.captured@ == old.captured@.push(at(old.board, to))
}

/// `a` and `b` hold the same game, whatever their selections.
pub open spec fn same_game(a: GameState, b: GameState) -> bool {
    &&& a.board == b.board
    &&& a.current_turn == b.current_turn
    &&& a.status == b.status
    &&& a.move_history == b.move_history
    &&& a.captured == b.captured
}

impl GameState {
    /// Every recorded move is on the board, and each has its record of what it took.
    pub open spec fn wf(&self) -> bool {
        &&& self.captured@.len() == self.move_history@.len()
        &&& forall|i: int|
            0 <= i < self.move_history@.len() ==> on_board(#[trigger] self.move_history@[i].from)
                && on_board(self.move_history@[i].to)
    }

    /// A new game: the starting position with Red to move.
    pub fn new() -> (r: GameState)
        ensures
            is_start_board(r.board),
            r.current_turn == PieceSide::Red,
            r.status == GameStatus::InProgress,
            r.move_history@.len() == 0,
            r.captured@.len() == 0,
            r.selected_piece is None,
            r.valid_moves@.len() == 0,
            r.wf(),
    {
        GameState {
            board: init_board(),
            current_turn: PieceSide::Red,
            status: GameStatus::InProgress,
            move_history: Vec::new(),
            captured: Vec::new(),
            selected_piece: None,
            valid_moves: Vec::new(),
        }
    }

    /// Whether Black is to move: the side that an engine plays.
    pub fn is_ai_turn(&self) -> (r: bool)
        ensures
            r == (self.current_turn == PieceSide::Black),
    {
        self.current_turn == PieceSide::Black
    }

    /// Sets the status for the side now to move, which lost if it is
    /// checkmated or stalemated. Returns true exactly when it was stalemated.
    fn update_game_status(&mut self) -> (stale: bool)
        ensures
            final(self).board == old(self).board,
            final(self).current_turn == old(self).current_turn,
            final(self).move_history == old(self).move_history,
            final(self).captured == old(self).captured,
            final(self).selected_piece == old(self).selected_piece,
            final(self).valid_moves == old(self).valid_moves,
            final(self).status == if checkmated(old(self).board, old(self).current_turn)
                || stalemated(old(self).board, old(self).current_turn) {
                win_for(opponent(old(self).current_turn))
            } else {
                old(self).status
            },
            stale == (!checkmated(old(self).board, old(self).current_turn) && stalemated(
                old(self).board,
                old(self).current_turn,
            )),
    {
        if is_checkmate(&self.board, self.current_turn) {
            self.status = match self.current_turn {
                PieceSide::Red => GameStatus::BlackWins,
                PieceSide::Black => GameStatus::RedWins,
            };
            false
        } else if is_stalemate(&self.board, self.current_turn) {
            self.status = match self.current_turn {
                PieceSide::Red => GameStatus::BlackWins,
                PieceSide::Black => GameStatus::RedWins,
            };
            true
        } else {
            false
        }
    }

    /// Plays the move from `from` to `to` for the side to move, if the game
    /// is in progress and the move is legal; otherwise changes nothing and
    /// returns `Invalid`.
    pub fn make_move(&mut self, from: Position, to: Position) -> (r: MoveResult)
        ensures
            !may_play(*old(self), from, to) ==> r == MoveResult::Invalid && *final(self) == *old(
                self,
            ),
            may_play(*old(self), from, to) ==> plays(*old(self), *final(self), from, to, r),
            final(self).selected_piece == old(self).selected_piece,
            final(self).valid_moves == old(self).valid_moves,
            old(self).wf() ==> final(self).wf(),
    {
        if self.status != GameStatus::InProgress {
            return MoveResult::Invalid;
        }
        if !is_valid_move(&self.board, from, to, self.current_turn) {
            return MoveResult::Invalid;
        }
        self.move_history.push(Move { from, to });
        let captured = self.board[to.0][to.1];
        self.captured.push(captured);
        apply_move(&mut self.board, from, to);
        proof {
            assert(self.move_history@.last() == Move { from, to });
        }
        let moving_side = self.current_turn;
        self.current_turn = moving_side.other();
        let was_stalemate = self.update_game_status();
        let opponent_in_check = is_in_check(&self.board, self.current_turn);
        if self.status == GameStatus::RedWins || self.status == GameStatus::BlackWins {
            if was_stalemate {
                MoveResult::Stalemate(moving_side)
            } else {
                MoveResult::Checkmate(moving_side)
            }
        } else if let Some(captured_piece) = captured {
            if opponent_in_check {
                MoveResult::CaptureAndCheck(captured_piece)
            } else {
                MoveResult::Capture(captured_piece)
            }
        } else if opponent_in_check {
            MoveResult::Check
        } else {
            MoveResult::Success
        }
    }
}

impl GameState {
    /// Takes back the last move of the history: its piece returns to where it
    /// came from, what it took returns to the board, the other side is to
    /// move again and the game is in progress. Returns the move, or `None`
    /// with nothing changed when the history is empty.
    pub fn undo_last_move(&mut self) -> (r: Option<Move>)
        requires
            old(self).wf(),
        ensures
            final(self).wf(),
            old(self).move_history@.len() == 0 ==> r is None && *final(self) == *old(self),
            old(self).move_history@.len() > 0 ==> {
                let m = old(self).move_history@.last();
                &&& r == Some(m)
                &&& final(self).move_history@ == old(self).move_history@.drop_last()
                &&& final(self).captured@ == old(self).captured@.drop_last()
                &&& final(self).board == before_move(old(self).board, m, old(self).captured@.last())
                &&& final(self).current_turn == opponent(old(self).current_turn)
                &&& final(self).status == GameStatus::InProgress
                &&& final(self).selected_piece == old(self).selected_piece
                &&& final(self).valid_moves == old(self).valid_moves
            },
    {
        if self.move_history.len() == 0 {
            return None;
        }
        let m = match self.move_history.pop() {
            Some(m) => m,
            None => return None,
        };
        let taken = match self.captured.pop() {
            Some(t) => t,
            None => None,
        };
        proof {
            assert(on_board(old(self).move_history@[old(self).move_history@.len() - 1].from));
        }
        let piece = self.board[m.to.0][m.to.1];
        set_square(&mut self.board, m.from, piece);
        set_square(&mut self.board, m.to, taken);
        self.current_turn = self.current_turn.other();
        self.status = GameStatus::InProgress;
        proof {
            assert forall|i: int| 0 <= i < self.move_history@.len() implies on_board(
                #[trigger] self.move_history@[i].from,
            ) && on_board(self.move_history@[i].to) by {
                assert(self.move_history@[i] == old(self).move_history@[i]);
                assert(on_board(old(self).move_history@[i].from));
            }
        }
        Some(m)
    }

    /// Takes back the last two moves, the later one first. Returns them as
    /// (earlier, later), or `None` with nothing changed when fewer than two
    /// moves were played.
    pub fn undo_last_two_moves(&mut self) -> (r: Option<(Move, Move)>)
        requires
            old(self).wf(),
        ensures
            final(self).wf(),
            old(self).move_history@.len() < 2 ==> r is None && *final(self) == *old(self),
            old(self).move_history@.len() >= 2 ==> {
                let n = old(self).move_history@.len();
                let later = old(self).move_history@[n - 1];
                let earlier = old(self).move_history@[n - 2];
                let mid = before_move(old(self).board, later, old(self).captured@[n - 1]);
                &&& r == Some((earlier, later))
                &&& final(self).move_history@ == old(self).move_history@.subrange(0, n - 2)
                &&& final(self).captured@ == old(self).captured@.subrange(0, n - 2)
                &&& final(self).board == before_move(mid, earlier, old(self).captured@[n - 2])
                &&& final(self).current_turn == old(self).current_turn
                &&& final(self).status == GameStatus::InProgress
                &&& final(self).selected_piece == old(self).selected_piece
                &&& final(self).valid_moves == old(self).valid_moves
            },
    {
        if self.move_history.len() < 2 {
            return None;
        }
        let later = match self.undo_last_move() {
            Some(m) => m,
            None => return None,
        };
        let earlier = match self.undo_last_move() {
            Some(m) => m,
            None => return None,
        };
        proof {
            let n = old(self).move_history@.len();
            assert(old(self).move_history@.drop_last().drop_last() =~= old(self).move_history@.subrange(0, n - 2));
            assert(old(self).captured@.drop_last().drop_last() =~= old(self).captured@.subrange(0, n - 2));
        }
        Some((earlier, later))
    }
}

/// Whether `moves` holds `pos`.
fn holds_square(moves: &Vec<Position>, pos: Position) -> (r: bool)
    ensures
        r == moves@.contains(pos),
{
    let mut i: usize = 0;
    while i < moves.len()
        invariant
            i <= moves@.len(),
            forall|j: int| 0 <= j < i ==> moves@[j] != pos,
        decreases moves@.len() - i,
    {
        let m = moves[i];
        if m.0 == pos.0 && m.1 == pos.1 {
            assert(moves@[i as int] == pos);
            return true;
        }
        i += 1;
    }
    false
}

impl GameState {
    /// Selects the piece on `pos` for the side to move, with its legal destinations.
    fn select(&mut self, pos: Position)
        ensures
            same_game(*old(self), *final(self)),
            old(self).wf() ==> final(self).wf(),
            final(self).selected_piece == Some(pos),
            final(self).valid_moves@ == legal_destinations(old(self).board, pos, old(self).current_turn),
    {
        self.selected_piece = Some(pos);
        self.valid_moves = get_valid_moves(&self.board, pos, self.current_turn);
    }

    /// Clears the selection.
    fn deselect(&mut self)
        ensures
            same_game(*old(self), *final(self)),
            old(self).wf() ==> final(self).wf(),
            final(self).selected_piece is None,
            final(self).valid_moves@.len() == 0,
    {
        self.selected_piece = None;
        self.valid_moves = Vec::new();
    }

    /// A click on square (`row`, `col`). With a piece selected, a click on one
    /// of its listed destinations plays that move and returns its result, and
    /// any other click clears the selection, except that a click on another
    /// piece of the side to move selects that piece instead. With nothing
    /// selected, a click on a piece of the side to move selects it.
    pub fn handle_board_click(&mut self, row: usize, col: usize) -> (r: Option<MoveResult>)
        requires
            on_board((row, col)),
        ensures
            old(self).wf() ==> final(self).wf(),
            ({
                let pos = (row, col);
                let own = friendly_at(old(self).board, pos, old(self).current_turn);
                match old(self).selected_piece {
                    Some(sel) => if old(self).valid_moves@.contains(pos) {
                        &&& r is Some
                        &&& may_play(*old(self), sel, pos) ==> plays(
                            *old(self),
                            *final(self),
                            sel,
                            pos,
                            r->0,
                        )
                        &&& !may_play(*old(self), sel, pos) ==> r == Some(MoveResult::Invalid)
                            && same_game(*old(self), *final(self))
                        &&& final(self).selected_piece is None
                        &&& final(self).valid_moves@.len() == 0
                    } else if own && sel != pos {
                        &&& r is None
                        &&& same_game(*old(self), *final(self))
                        &&& final(self).selected_piece == Some(pos)
                        &&& final(self).valid_moves@ == legal_destinations(
                            old(self).board,
                            pos,
                            old(self).current_turn,
                        )
                    } else {
                        &&& r is None
                        &&& same_game(*old(self), *final(self))
                        &&& final(self).selected_piece is None
                        &&& final(self).valid_moves@.len() == 0
                    },
                    None => if own {
                        &&& r is None
                        &&& same_game(*old(self), *final(self))
                        &&& final(self).selected_piece == Some(pos)
                        &&& final(self).valid_moves@ == legal_destinations(
                            old(self).board,
                            pos,
                            old(self).current_turn,
                        )
                    } else {
                        r is None && *final(self) == *old(self)
                    },
                }
            }),
    {
        let pos = (row, col);
        let own = match self.board[row][col] {
            Some(piece) => piece.side == self.current_turn,
            None => false,
        };
        match self.selected_piece {
            Some(sel) => {
                if holds_square(&self.valid_moves, pos) {
                    let result = self.make_move(sel, pos);
                    self.deselect();
                    return Some(result);
                }
                if sel.0 == pos.0 && sel.1 == pos.1 {
                    self.deselect();
                    return None;
                }
                if own {
                    self.select(pos);
                    return None;
                }
                self.deselect();
                None
            },
            None => {
                if own {
                    self.select(pos);
                }
                None
            },
        }
    }
}

impl Default for GameState {
    /// A new game.
    fn default() -> (r: GameState)
        ensures
            is_start_board(r.board),
            r.current_turn == PieceSide::Red,
            r.status == GameStatus::InProgress,
            r.move_history@.len() == 0,
            r.captured@.len() == 0,
            r.selected_piece is None,
            r.valid_moves@.len() == 0,
            r.wf(),
    {
        GameState::new()
    }
}

} // verus!

//! Square and move notation of the engine protocol: a column letter `a`..`i`
//! then a row digit counted from the Red edge, `0` for row 9 up to `9` for row 0.
use vstd::prelude::*;
use crate::board::{on_board, Position};
use crate::state::{GameState, Move};

verus! {

pub open spec fn column_letters() -> Seq<char> {
    seq!['a', 'b', 'c', 'd', 'e', 'f', 'g', 'h', 'i']
}

pub open spec fn digits() -> Seq<char> {
    seq!['0', '1', '2', '3', '4', '5', '6', '7', '8', '9']
}

pub open spec fn square_notation(p: Position) -> Seq<char> {
    seq![column_letters()[p.1 as int], digits()[9 - p.0]]
}

pub open spec fn move_notation(m: Move) -> Seq<char> {
    square_notation(m.from) + square_notation(m.to)
}

/// The square that a two-character code names, if it names one.
pub open spec fn parse_square(s: Seq<char>) -> Option<Position> {
    if s.len() == 2 && 'a' <= s[0] <= 'i' && '0' <= s[1] <= '9' {
        Some(((9 - (s[1] as int - '0' as int)) as usize, (s[0] as int - 'a' as int) as usize))
    } else {
        None
    }
}

/// The move that a four-character code names, if it names one.
pub open spec fn parse_move(s: Seq<char>) -> Option<Move> {
    if s.len() == 4 {
        match (parse_square(s.subrange(0, 2)), parse_square(s.subrange(2, 4))) {
            (Some(from), Some(to)) => Some(Move { from, to }),
            _ => None,
        }
    } else {
        None
    }
}

/// The codes of `moves`, in order, separated by single spaces.
pub open spec fn history_notation(moves: Seq<Move>) -> Seq<char>
    decreases moves.len(),
{
    if moves.len() == 0 {
        Seq::empty()
    } else if moves.len() == 1 {
        move_notation(moves[0])
    } else {
        history_notation(moves.drop_last()) + seq![' '] + move_notation(moves.last())
    }
}

impl GameState {
    /// The code of square `pos`, such as "a0" for (9, 0).
    pub fn pos_to_uci(pos: Position) -> (r: String)
        requires
            on_board(pos),
        ensures
            r@ == square_notation(pos),
    {
        let letters = "abcdefghi";
        let numbers = "0123456789";
        proof {
            reveal_strlit("abcdefghi");
            reveal_strlit("0123456789");
        }
        assert(letters@ == column_letters());
        assert(numbers@ == digits());
        let mut r = String::from_str(letters.substring_char(pos.1, pos.1 + 1));
        let d = 9 - pos.0;
        r.append(numbers.substring_char(d, d + 1));
        assert(r@ =~= square_notation(pos));
        r
    }

    /// The square that a two-character code names, if it names one.
    pub fn uci_to_pos(uci: &str) -> (r: Option<Position>)
        ensures
            r == parse_square(uci@),
            r matches Some(p) ==> on_board(p),
    {
        if uci.unicode_len() != 2 {
            return None;
        }
        let col_char = uci.get_char(0);
        let row_char = uci.get_char(1);
        if !('a' <= col_char && col_char <= 'i') || !('0' <= row_char && row_char <= '9') {
            return None;
        }
        let col = ((col_char as u32) - ('a' as u32)) as usize;
        let row = 9 - ((row_char as u32) - ('0' as u32)) as usize;
        Some((row, col))
    }

    /// The code of move `m`, such as "a0a1".
    pub fn move_to_uci(m: &Move) -> (r: String)
        requires
            on_board(m.from),
            on_board(m.to),
        ensures
            r@ == move_notation(*m),
    {
        let mut r = Self::pos_to_uci(m.from);
        let to = Self::pos_to_uci(m.to);
        r.append(to.as_str());
        r
    }

    /// The move that a four-character code names, if it names one.
    pub fn uci_to_move(uci: &str) -> (r: Option<Move>)
        ensures
            r == parse_move(uci@),
            r matches Some(m) ==> on_board(m.from) && on_board(m.to),
    {
        if uci.unicode_len() != 4 {
            return None;
        }
        let from = match Self::uci_to_pos(uci.substring_char(0, 2)) {
            Some(p) => p,
            None => return None,
        };
        let to = match Self::uci_to_pos(uci.substring_char(2, 4)) {
            Some(p) => p,
            None => return None,
        };
        Some(Move { from, to })
    }

    /// The codes of the history, in order, separated by single spaces.
    pub fn moves_to_uci(&self) -> (r: String)
        requires
            self.wf(),
        ensures
            r@ == history_notation(self.move_history@),
    {
        let mut r = String::new();
        let mut i: usize = 0;
        while i < self.move_history.len()
            invariant
                self.wf(),
                i <= self.move_history@.len(),
                r@ == history_notation(self.move_history@.take(i as int)),
            decreases self.move_history@.len() - i,
        {
            let m = &self.move_history[i];
            assert(on_board(self.move_history@[i as int].from));
            let code = Self::move_to_uci(m);
            assert(self.move_history@.take(i + 1).drop_last() =~= self.move_history@.take(
                i as int,
            ));
            if i > 0 {
                r.append(" ");
            }
            r.append(code.as_str());
            proof {
                reveal_strlit(" ");
                if i == 0 {
                    assert(r@ =~= history_notation(self.move_history@.take(1)));
                }
            }
            i += 1;
        }
        assert(self.move_history@.take(self.move_history@.len() as int) =~= self.move_history@);
        r
    }
}

} // verus!

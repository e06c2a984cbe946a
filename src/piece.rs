//! Sides, piece kinds and pieces.
use vstd::prelude::*;

verus! {

/// The two sides. Red starts on rows 7..=9 and moves toward row 0;
/// Black starts on rows 0..=2 and moves toward row 9.
#[derive(Clone, Copy, PartialEq, Eq, Debug, Structural)]
pub enum PieceSide {
    Red,
    Black,
}

/// The seven kinds of pieces: General, Advisor, Elephant, Horse, Chariot,
/// Cannon and Soldier.
#[derive(Clone, Copy, PartialEq, Eq, Debug, Structural)]
pub enum PieceKind {
    Jiang,
    Shi,
    Xiang,
    Ma,
    Ju,
    Pao,
    Zu,
}

#[derive(Clone, Copy, PartialEq, Eq, Debug, Structural)]
pub struct Piece {
    pub side: PieceSide,
    pub kind: PieceKind,
}

/// The side that plays against `side`.
pub open spec fn opponent(side: PieceSide) -> PieceSide {
    match side {
        PieceSide::Red => PieceSide::Black,
        PieceSide::Black => PieceSide::Red,
    }
}

impl PieceSide {
    /// The side that plays against this one.
    pub fn other(self) -> (r: PieceSide)
        ensures
            r == opponent(self),
    {
        match self {
            PieceSide::Red => PieceSide::Black,
            PieceSide::Black => PieceSide::Red,
        }
    }
}

/// The character printed on a piece.
pub open spec fn label_char(p: Piece) -> char {
    match p.side {
        PieceSide::Red => match p.kind {
            PieceKind::Jiang => '帅',
            PieceKind::Shi => '仕',
            PieceKind::Xiang => '相',
            PieceKind::Ma => '马',
            PieceKind::Ju => '车',
            PieceKind::Pao => '炮',
            PieceKind::Zu => '兵',
        },
        PieceSide::Black => match p.kind {
            PieceKind::Jiang => '将',
            PieceKind::Shi => '士',
            PieceKind::Xiang => '象',
            PieceKind::Ma => '马',
            PieceKind::Ju => '车',
            PieceKind::Pao => '炮',
            PieceKind::Zu => '卒',
        },
    }
}

impl Piece {
    /// The Chinese character label of this piece.
    pub fn label(&self) -> (r: &'static str)
        ensures
            r@ == seq![label_char(*self)],
    {
        match self.side {
            PieceSide::Red => match self.kind {
                PieceKind::Jiang => {
                    proof { reveal_strlit("帅"); }
                    "帅"
                },
                PieceKind::Shi => {
                    proof { reveal_strlit("仕"); }
                    "仕"
                },
                PieceKind::Xiang => {
                    proof { reveal_strlit("相"); }
                    "相"
                },
                PieceKind::Ma => {
                    proof { reveal_strlit("马"); }
                    "马"
                },
                PieceKind::Ju => {
                    proof { reveal_strlit("车"); }
                    "车"
                },
                PieceKind::Pao => {
                    proof { reveal_strlit("炮"); }
                    "炮"
                },
                PieceKind::Zu => {
                    proof { reveal_strlit("兵"); }
                    "兵"
                },
            },
            PieceSide::Black => match self.kind {
                PieceKind::Jiang => {
                    proof { reveal_strlit("将"); }
                    "将"
                },
                PieceKind::Shi => {
                    proof { reveal_strlit("士"); }
                    "士"
                },
                PieceKind::Xiang => {
                    proof { reveal_strlit("象"); }
                    "象"
                },
                PieceKind::Ma => {
                    proof { reveal_strlit("马"); }
                    "马"
                },
                PieceKind::Ju => {
                    proof { reveal_strlit("车"); }
                    "车"
                },
                PieceKind::Pao => {
                    proof { reveal_strlit("炮"); }
                    "炮"
                },
                PieceKind::Zu => {
                    proof { reveal_strlit("卒"); }
                    "卒"
                },
            },
        }
    }
}

} // verus!

//! Piece colors and colored piece codes: the indices that select a
//! piece's bitboard slot, its table row, and its phase increment.

use vstd::prelude::*;

use crate::tables::MG_WEIGHT;
use crate::tables::EG_WEIGHT;

verus! {

/// The side a piece belongs to, and the side to move.
#[derive(Debug, PartialEq, Eq, Clone, Copy, Structural)]
pub enum Color {
    White,
    Black,
}

pub const WHITE: Color = Color::White;

pub const BLACK: Color = Color::Black;

impl Color {
    /// Index used for per-color occupancy boards and accumulators.
    pub open spec fn spec_idx(self) -> int {
        match self {
            Color::White => 0,
            Color::Black => 1,
        }
    }

    /// Index used for per-color occupancy boards and accumulators.
    pub fn idx(&self) -> (r: usize)
        ensures
            r == self.spec_idx(),
    {
        match self {
            Color::White => 0,
            Color::Black => 1,
        }
    }

    /// Negamax sign: +1 for White, -1 for Black.
    pub open spec fn spec_sign(self) -> int {
        match self {
            Color::White => 1,
            Color::Black => -1,
        }
    }

    /// Negamax sign: +1 for White, -1 for Black.
    pub fn sign(&self) -> (r: isize)
        ensures
            r == self.spec_sign(),
    {
        match self {
            Color::White => 1,
            Color::Black => -1,
        }
    }
}

/// A colored piece, packed into the code that indexes its bitboard
/// slot. Kind pairs occupy codes 2..14 — pawn 2/3, knight 4/5, king
/// 6/7, bishop 8/9, rook 10/11, queen 12/13 — and the low bit is the
/// color (even white, odd black). Codes 0 and 1 are reserved.
#[derive(Debug, PartialEq, Eq, Clone, Copy, Structural)]
pub struct Piece {
    pub code: u8,
}

impl Piece {
    /// The code denotes one of the twelve live kind-color pairs.
    pub open spec fn wf(self) -> bool {
        2 <= self.code < 14
    }

    /// Table row of the piece's kind: 0 pawn, 1 knight, 2 king,
    /// 3 bishop, 4 rook, 5 queen.
    pub open spec fn spec_kind_row(self) -> int {
        self.code as int / 2 - 1
    }

    /// Builds the piece with the given kind row and color.
    pub fn new(kind_row: u8, color: Color) -> (r: Piece)
        requires
            kind_row < 6,
        ensures
            r.wf(),
            r.spec_kind_row() == kind_row,
            r.spec_color() == color,
    {
        let code = (kind_row + 1) * 2 + if matches!(color, Color::Black) {
            1
        } else {
            0
        };
        Piece { code }
    }

    /// Index of the piece's bitboard slot and phase-increment entry.
    pub fn idx(&self) -> (r: usize)
        requires
            self.wf(),
        ensures
            r == self.code,
    {
        self.code as usize
    }

    /// Kind code with the color bit cleared: twice the table row plus two.
    pub fn kind(&self) -> (r: u8)
        requires
            self.wf(),
        ensures
            r == 2 * (self.spec_kind_row() + 1),
            r / 2 - 1 == self.spec_kind_row(),
    {
        self.code - self.code % 2
    }

    /// The piece's color, from the low bit of its code.
    pub open spec fn spec_color(self) -> Color {
        if self.code % 2 == 0 {
            Color::White
        } else {
            Color::Black
        }
    }

    /// The piece's color, from the low bit of its code.
    pub fn color(&self) -> (r: Color)
        requires
            self.wf(),
        ensures
            r == self.spec_color(),
    {
        if self.code % 2 == 0 {
            Color::White
        } else {
            Color::Black
        }
    }

    /// Phase-dependent material weight of the piece's kind
    /// (phase 0 middlegame, phase 1 endgame).
    pub fn weight(&self, phase: usize) -> (r: isize)
        requires
            self.wf(),
            phase < 2,
        ensures
            phase == 0 ==> r == MG_WEIGHT[self.spec_kind_row()],
            phase == 1 ==> r == EG_WEIGHT[self.spec_kind_row()],
    {
        let row = (self.code / 2 - 1) as usize;
        if phase == 0 {
            MG_WEIGHT[row]
        } else {
            EG_WEIGHT[row]
        }
    }
}

} // verus!

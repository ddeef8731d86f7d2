//! The position aggregate: per-piece bitboards, per-color occupancy, a
//! square mirror for O(1) lookup, side to move, castling rights,
//! en-passant target, move counters, position key, the two history
//! stacks, and the search-support tables.

use vstd::prelude::*;

use crate::bitboard::Bitboard;
use crate::bits::bit_set;
use crate::bits::lemma_and_zero;
use crate::bits::lemma_zero_bit;
use crate::bits::lemma_or_zero;
use crate::castling::CastlingRights;
use crate::piece::Color;
use crate::piece::Piece;

verus! {

broadcast use vstd::array::group_array_axioms;

/// Transposition-table handle owned by a position. Replacement policy
/// and entry layout belong to the search component; the position only
/// owns the handle so that one search worker carries its own table.
#[derive(Debug, PartialEq, Eq, Clone)]
pub struct TTTable {
    pub entries: Vec<u64>,
}

impl TTTable {
    /// A fresh, empty table.
    pub fn init() -> (r: TTTable)
        ensures
            r.entries@.len() == 0,
    {
        TTTable { entries: Vec::new() }
    }
}

/// History entry for state that simple undo restores: the move itself.
#[derive(Debug, PartialEq, Eq, Clone, Copy)]
pub struct PositionRev {
    pub from: u8,
    pub to: u8,
    pub piece: Piece,
    pub captured: Option<Piece>,
}

/// History entry for state that undo cannot recompute and must restore
/// explicitly.
#[derive(Debug, PartialEq, Eq, Clone, Copy)]
pub struct PositionIrr {
    pub castling: CastlingRights,
    pub ep: Option<u8>,
    pub half_move: u8,
    pub full_move: u16,
    pub key: u64,
}

/// One board state: the aggregate that move application (external to
/// this core) mutates in place and that the evaluator reads.
#[derive(Debug, PartialEq, Eq, Clone)]
pub struct Game {
    pub squares: [Option<Piece>; 64],
    pub occupancy: [Bitboard; 2],
    pub bitboard: [Bitboard; 14],
    pub key: u64,
    pub color: Color,
    pub castling: CastlingRights,
    pub ep: Option<u8>,
    pub half_move: u8,
    pub full_move: u16,
    pub pos_rev: Vec<PositionRev>,
    pub pos_irr: Vec<PositionIrr>,
    pub tt: TTTable,
    pub s_history: [[u64; 64]; 14],
    pub s_killers: [[u64; 2]; 64],
    pub ply: usize,
}

/// The piece that the standard starting configuration places on `sq`.
pub open spec fn start_square(sq: int) -> Option<Piece> {
    if sq == 0 || sq == 7 {
        Some(Piece { code: 10 })
    } else if sq == 1 || sq == 6 {
        Some(Piece { code: 4 })
    } else if sq == 2 || sq == 5 {
        Some(Piece { code: 8 })
    } else if sq == 3 {
        Some(Piece { code: 12 })
    } else if sq == 4 {
        Some(Piece { code: 6 })
    } else if 8 <= sq < 16 {
        Some(Piece { code: 2 })
    } else if 48 <= sq < 56 {
        Some(Piece { code: 3 })
    } else if sq == 56 || sq == 63 {
        Some(Piece { code: 11 })
    } else if sq == 57 || sq == 62 {
        Some(Piece { code: 5 })
    } else if sq == 58 || sq == 61 {
        Some(Piece { code: 9 })
    } else if sq == 59 {
        Some(Piece { code: 13 })
    } else if sq == 60 {
        Some(Piece { code: 7 })
    } else {
        None
    }
}

impl Game {
    /// The square mirror agrees with the bitboards at `sq`: the square
    /// holds a piece exactly when that piece's board has the bit set,
    /// and holds nothing when no board does.
    pub open spec fn square_consistent_at(self, sq: u64) -> bool {
        match self.squares[sq as int] {
            Some(pc) => pc.wf() && bit_set(self.bitboard[pc.code as int], sq),
            None => forall|p: int| 2 <= p < 14 ==> !bit_set(self.bitboard[p], sq),
        }
    }

    /// Structural validity of a position's piece placement: the reserved
    /// board slots are empty, the twelve piece boards are pairwise
    /// disjoint, each color's occupancy board is the union of its six
    /// piece boards, and the square mirror agrees with the boards.
    pub open spec fn wf(self) -> bool {
        &&& self.bitboard[0] == 0
        &&& self.bitboard[1] == 0
        &&& forall|p: int, q: int|
            2 <= p < 14 && 2 <= q < 14 && p != q ==> #[trigger] (self.bitboard[p]
                & self.bitboard[q]) == 0
        &&& self.occupancy[0] == self.bitboard[2] | self.bitboard[4] | self.bitboard[6]
            | self.bitboard[8] | self.bitboard[10] | self.bitboard[12]
        &&& self.occupancy[1] == self.bitboard[3] | self.bitboard[5] | self.bitboard[7]
            | self.bitboard[9] | self.bitboard[11] | self.bitboard[13]
        &&& forall|sq: u64| sq < 64 ==> self.square_consistent_at(sq)
    }

    /// The standard starting configuration: all sixteen pieces per side
    /// on their home squares, White to move, full castling rights.
    pub fn initialize() -> (g: Game)
        ensures
            g.wf(),
            g.bitboard[0] == 0 && g.bitboard[1] == 0,
            g.bitboard[2] == 0xFF00u64,
            g.bitboard[3] == 0x00FF_0000_0000_0000u64,
            g.bitboard[4] == 0x42u64,
            g.bitboard[5] == 0x4200_0000_0000_0000u64,
            g.bitboard[6] == 0x10u64,
            g.bitboard[7] == 0x1000_0000_0000_0000u64,
            g.bitboard[8] == 0x24u64,
            g.bitboard[9] == 0x2400_0000_0000_0000u64,
            g.bitboard[10] == 0x81u64,
            g.bitboard[11] == 0x8100_0000_0000_0000u64,
            g.bitboard[12] == 0x08u64,
            g.bitboard[13] == 0x0800_0000_0000_0000u64,
            g.occupancy[0] == 0xFFFFu64,
            g.occupancy[1] == 0xFFFF_0000_0000_0000u64,
            forall|sq: int| 0 <= sq < 64 ==> g.squares[sq] == start_square(sq),
            g.color == Color::White,
            g.castling.bits == 15,
            g.ep is None,
            g.half_move == 0,
            g.full_move == 1,
            g.key == 0,
            g.pos_rev@.len() == 0,
            g.pos_irr@.len() == 0,
            g.tt.entries@.len() == 0,
            g.ply == 0,
    {
        let mut g = Game::create_board();
        g.castling = CastlingRights::all();
        g.bitboard[2] = 0xFF00;
        g.bitboard[3] = 0x00FF_0000_0000_0000;
        g.bitboard[4] = 0x42;
        g.bitboard[5] = 0x4200_0000_0000_0000;
        g.bitboard[6] = 0x10;
        g.bitboard[7] = 0x1000_0000_0000_0000;
        g.bitboard[8] = 0x24;
        g.bitboard[9] = 0x2400_0000_0000_0000;
        g.bitboard[10] = 0x81;
        g.bitboard[11] = 0x8100_0000_0000_0000;
        g.bitboard[12] = 0x08;
        g.bitboard[13] = 0x0800_0000_0000_0000;
        g.occupancy[0] = 0xFFFF;
        g.occupancy[1] = 0xFFFF_0000_0000_0000;
        g.squares[0] = Some(Piece { code: 10 });
        g.squares[1] = Some(Piece { code: 4 });
        g.squares[2] = Some(Piece { code: 8 });
        g.squares[3] = Some(Piece { code: 12 });
        g.squares[4] = Some(Piece { code: 6 });
        g.squares[5] = Some(Piece { code: 8 });
        g.squares[6] = Some(Piece { code: 4 });
        g.squares[7] = Some(Piece { code: 10 });
        g.squares[8] = Some(Piece { code: 2 });
        g.squares[9] = Some(Piece { code: 2 });
        g.squares[10] = Some(Piece { code: 2 });
        g.squares[11] = Some(Piece { code: 2 });
        g.squares[12] = Some(Piece { code: 2 });
        g.squares[13] = Some(Piece { code: 2 });
        g.squares[14] = Some(Piece { code: 2 });
        g.squares[15] = Some(Piece { code: 2 });
        g.squares[48] = Some(Piece { code: 3 });
        g.squares[49] = Some(Piece { code: 3 });
        g.squares[50] = Some(Piece { code: 3 });
        g.squares[51] = Some(Piece { code: 3 });
        g.squares[52] = Some(Piece { code: 3 });
        g.squares[53] = Some(Piece { code: 3 });
        g.squares[54] = Some(Piece { code: 3 });
        g.squares[55] = Some(Piece { code: 3 });
        g.squares[56] = Some(Piece { code: 11 });
        g.squares[57] = Some(Piece { code: 5 });
        g.squares[58] = Some(Piece { code: 9 });
        g.squares[59] = Some(Piece { code: 13 });
        g.squares[60] = Some(Piece { code: 7 });
        g.squares[61] = Some(Piece { code: 9 });
        g.squares[62] = Some(Piece { code: 5 });
        g.squares[63] = Some(Piece { code: 11 });
        proof {
            lemma_start_bits();
            assert forall|sq: u64| sq < 64 implies g.square_consistent_at(sq) by {
                assert(g.squares[sq as int] == start_square(sq as int));
            }
        }
        g
    }

    /// An empty board: no pieces, White to move, no castling rights,
    /// counters at their defaults, fresh history stacks and
    /// transposition table.
    pub fn create_board() -> (g: Game)
        ensures
            g.wf(),
            forall|sq: int| 0 <= sq < 64 ==> g.squares[sq] is None,
            forall|p: int| 0 <= p < 14 ==> g.bitboard[p] == 0,
            g.occupancy[0] == 0 && g.occupancy[1] == 0,
            g.color == Color::White,
            g.castling.bits == 0,
            g.ep is None,
            g.half_move == 0,
            g.full_move == 1,
            g.key == 0,
            g.pos_rev@.len() == 0,
            g.pos_irr@.len() == 0,
            g.tt.entries@.len() == 0,
            forall|p: int, s: int| 0 <= p < 14 && 0 <= s < 64 ==> #[trigger] g.s_history[p][s] == 0,
            forall|s: int, k: int| 0 <= s < 64 && 0 <= k < 2 ==> #[trigger] g.s_killers[s][k] == 0,
            g.ply == 0,
    {
        let g = Game {
            squares: [None; 64],
            occupancy: [0 as Bitboard; 2],
            bitboard: [0 as Bitboard; 14],
            color: Color::White,
            castling: CastlingRights::none(),
            ep: None,
            half_move: 0,
            full_move: 1,
            key: 0,
            pos_rev: Vec::with_capacity(1024),
            pos_irr: Vec::with_capacity(1024),
            tt: TTTable::init(),
            s_history: [[0u64; 64]; 14],
            s_killers: [[0u64; 2]; 64],
            ply: 0,
        };
        proof {
            lemma_empty_boards_consistent(g);
        }
        g
    }

    /// Resets the position in place to the same state as a freshly
    /// constructed empty board.
    pub fn reset_board(&mut self)
        ensures
            final(self).wf(),
            forall|sq: int| 0 <= sq < 64 ==> final(self).squares[sq] is None,
            forall|p: int| 0 <= p < 14 ==> final(self).bitboard[p] == 0,
            final(self).occupancy[0] == 0 && final(self).occupancy[1] == 0,
            final(self).color == Color::White,
            final(self).castling.bits == 0,
            final(self).ep is None,
            final(self).half_move == 0,
            final(self).full_move == 1,
            final(self).key == 0,
            final(self).pos_rev@.len() == 0,
            final(self).pos_irr@.len() == 0,
            final(self).tt.entries@.len() == 0,
            forall|p: int, s: int|
                0 <= p < 14 && 0 <= s < 64 ==> #[trigger] final(self).s_history[p][s] == 0,
            forall|s: int, k: int|
                0 <= s < 64 && 0 <= k < 2 ==> #[trigger] final(self).s_killers[s][k] == 0,
            final(self).ply == 0,
    {
        self.squares = [None; 64];
        self.occupancy = [0 as Bitboard; 2];
        self.bitboard = [0 as Bitboard; 14];
        self.color = Color::White;
        self.castling = CastlingRights::none();
        self.ep = None;
        self.half_move = 0;
        self.full_move = 1;
        self.key = 0;
        self.pos_rev = Vec::with_capacity(1024);
        self.pos_irr = Vec::with_capacity(1024);
        self.tt = TTTable::init();
        self.s_history = [[0u64; 64]; 14];
        self.s_killers = [[0u64; 2]; 64];
        self.ply = 0;
        proof {
            lemma_empty_boards_consistent(*self);
        }
    }
}

/// Bit-level facts about the twelve starting bitboards: which squares
/// each holds, their pairwise disjointness, and the two occupancy
/// unions.
proof fn lemma_start_bits()
    by (bit_vector)
    ensures
        forall|j: u64| j < 64 ==> (bit_set(0xFF00u64, j) == (8 <= j < 16)),
        forall|j: u64| j < 64 ==> (bit_set(0x00FF_0000_0000_0000u64, j) == (48 <= j < 56)),
        forall|j: u64| j < 64 ==> (bit_set(0x42u64, j) == (j == 1 || j == 6)),
        forall|j: u64| j < 64 ==> (bit_set(0x4200_0000_0000_0000u64, j) == (j == 57 || j == 62)),
        forall|j: u64| j < 64 ==> (bit_set(0x10u64, j) == (j == 4)),
        forall|j: u64| j < 64 ==> (bit_set(0x1000_0000_0000_0000u64, j) == (j == 60)),
        forall|j: u64| j < 64 ==> (bit_set(0x24u64, j) == (j == 2 || j == 5)),
        forall|j: u64| j < 64 ==> (bit_set(0x2400_0000_0000_0000u64, j) == (j == 58 || j == 61)),
        forall|j: u64| j < 64 ==> (bit_set(0x81u64, j) == (j == 0 || j == 7)),
        forall|j: u64| j < 64 ==> (bit_set(0x8100_0000_0000_0000u64, j) == (j == 56 || j == 63)),
        forall|j: u64| j < 64 ==> (bit_set(0x08u64, j) == (j == 3)),
        forall|j: u64| j < 64 ==> (bit_set(0x0800_0000_0000_0000u64, j) == (j == 59)),
        0xFF00u64 & 0x00FF_0000_0000_0000u64 == 0,
        0xFF00u64 & 0x42u64 == 0,
        0xFF00u64 & 0x4200_0000_0000_0000u64 == 0,
        0xFF00u64 & 0x10u64 == 0,
        0xFF00u64 & 0x1000_0000_0000_0000u64 == 0,
        0xFF00u64 & 0x24u64 == 0,
        0xFF00u64 & 0x2400_0000_0000_0000u64 == 0,
        0xFF00u64 & 0x81u64 == 0,
        0xFF00u64 & 0x8100_0000_0000_0000u64 == 0,
        0xFF00u64 & 0x08u64 == 0,
        0xFF00u64 & 0x0800_0000_0000_0000u64 == 0,
        0x00FF_0000_0000_0000u64 & 0xFF00u64 == 0,
        0x00FF_0000_0000_0000u64 & 0x42u64 == 0,
        0x00FF_0000_0000_0000u64 & 0x4200_0000_0000_0000u64 == 0,
        0x00FF_0000_0000_0000u64 & 0x10u64 == 0,
        0x00FF_0000_0000_0000u64 & 0x1000_0000_0000_0000u64 == 0,
        0x00FF_0000_0000_0000u64 & 0x24u64 == 0,
        0x00FF_0000_0000_0000u64 & 0x2400_0000_0000_0000u64 == 0,
        0x00FF_0000_0000_0000u64 & 0x81u64 == 0,
        0x00FF_0000_0000_0000u64 & 0x8100_0000_0000_0000u64 == 0,
        0x00FF_0000_0000_0000u64 & 0x08u64 == 0,
        0x00FF_0000_0000_0000u64 & 0x0800_0000_0000_0000u64 == 0,
        0x42u64 & 0xFF00u64 == 0,
        0x42u64 & 0x00FF_0000_0000_0000u64 == 0,
        0x42u64 & 0x4200_0000_0000_0000u64 == 0,
        0x42u64 & 0x10u64 == 0,
        0x42u64 & 0x1000_0000_0000_0000u64 == 0,
        0x42u64 & 0x24u64 == 0,
        0x42u64 & 0x2400_0000_0000_0000u64 == 0,
        0x42u64 & 0x81u64 == 0,
        0x42u64 & 0x8100_0000_0000_0000u64 == 0,
        0x42u64 & 0x08u64 == 0,
        0x42u64 & 0x0800_0000_0000_0000u64 == 0,
        0x4200_0000_0000_0000u64 & 0xFF00u64 == 0,
        0x4200_0000_0000_0000u64 & 0x00FF_0000_0000_0000u64 == 0,
        0x4200_0000_0000_0000u64 & 0x42u64 == 0,
        0x4200_0000_0000_0000u64 & 0x10u64 == 0,
        0x4200_0000_0000_0000u64 & 0x1000_0000_0000_0000u64 == 0,
        0x4200_0000_0000_0000u64 & 0x24u64 == 0,
        0x4200_0000_0000_0000u64 & 0x2400_0000_0000_0000u64 == 0,
        0x4200_0000_0000_0000u64 & 0x81u64 == 0,
        0x4200_0000_0000_0000u64 & 0x8100_0000_0000_0000u64 == 0,
        0x4200_0000_0000_0000u64 & 0x08u64 == 0,
        0x4200_0000_0000_0000u64 & 0x0800_0000_0000_0000u64 == 0,
        0x10u64 & 0xFF00u64 == 0,
        0x10u64 & 0x00FF_0000_0000_0000u64 == 0,
        0x10u64 & 0x42u64 == 0,
        0x10u64 & 0x4200_0000_0000_0000u64 == 0,
        0x10u64 & 0x1000_0000_0000_0000u64 == 0,
        0x10u64 & 0x24u64 == 0,
        0x10u64 & 0x2400_0000_0000_0000u64 == 0,
        0x10u64 & 0x81u64 == 0,
        0x10u64 & 0x8100_0000_0000_0000u64 == 0,
        0x10u64 & 0x08u64 == 0,
        0x10u64 & 0x0800_0000_0000_0000u64 == 0,
        0x1000_0000_0000_0000u64 & 0xFF00u64 == 0,
        0x1000_0000_0000_0000u64 & 0x00FF_0000_0000_0000u64 == 0,
        0x1000_0000_0000_0000u64 & 0x42u64 == 0,
        0x1000_0000_0000_0000u64 & 0x4200_0000_0000_0000u64 == 0,
        0x1000_0000_0000_0000u64 & 0x10u64 == 0,
        0x1000_0000_0000_0000u64 & 0x24u64 == 0,
        0x1000_0000_0000_0000u64 & 0x2400_0000_0000_0000u64 == 0,
        0x1000_0000_0000_0000u64 & 0x81u64 == 0,
        0x1000_0000_0000_0000u64 & 0x8100_0000_0000_0000u64 == 0,
        0x1000_0000_0000_0000u64 & 0x08u64 == 0,
        0x1000_0000_0000_0000u64 & 0x0800_0000_0000_0000u64 == 0,
        0x24u64 & 0xFF00u64 == 0,
        0x24u64 & 0x00FF_0000_0000_0000u64 == 0,
        0x24u64 & 0x42u64 == 0,
        0x24u64 & 0x4200_0000_0000_0000u64 == 0,
        0x24u64 & 0x10u64 == 0,
        0x24u64 & 0x1000_0000_0000_0000u64 == 0,
        0x24u64 & 0x2400_0000_0000_0000u64 == 0,
        0x24u64 & 0x81u64 == 0,
        0x24u64 & 0x8100_0000_0000_0000u64 == 0,
        0x24u64 & 0x08u64 == 0,
        0x24u64 & 0x0800_0000_0000_0000u64 == 0,
        0x2400_0000_0000_0000u64 & 0xFF00u64 == 0,
        0x2400_0000_0000_0000u64 & 0x00FF_0000_0000_0000u64 == 0,
        0x2400_0000_0000_0000u64 & 0x42u64 == 0,
        0x2400_0000_0000_0000u64 & 0x4200_0000_0000_0000u64 == 0,
        0x2400_0000_0000_0000u64 & 0x10u64 == 0,
        0x2400_0000_0000_0000u64 & 0x1000_0000_0000_0000u64 == 0,
        0x2400_0000_0000_0000u64 & 0x24u64 == 0,
        0x2400_0000_0000_0000u64 & 0x81u64 == 0,
        0x2400_0000_0000_0000u64 & 0x8100_0000_0000_0000u64 == 0,
        0x2400_0000_0000_0000u64 & 0x08u64 == 0,
        0x2400_0000_0000_0000u64 & 0x0800_0000_0000_0000u64 == 0,
        0x81u64 & 0xFF00u64 == 0,
        0x81u64 & 0x00FF_0000_0000_0000u64 == 0,
        0x81u64 & 0x42u64 == 0,
        0x81u64 & 0x4200_0000_0000_0000u64 == 0,
        0x81u64 & 0x10u64 == 0,
        0x81u64 & 0x1000_0000_0000_0000u64 == 0,
        0x81u64 & 0x24u64 == 0,
        0x81u64 & 0x2400_0000_0000_0000u64 == 0,
        0x81u64 & 0x8100_0000_0000_0000u64 == 0,
        0x81u64 & 0x08u64 == 0,
        0x81u64 & 0x0800_0000_0000_0000u64 == 0,
        0x8100_0000_0000_0000u64 & 0xFF00u64 == 0,
        0x8100_0000_0000_0000u64 & 0x00FF_0000_0000_0000u64 == 0,
        0x8100_0000_0000_0000u64 & 0x42u64 == 0,
        0x8100_0000_0000_0000u64 & 0x4200_0000_0000_0000u64 == 0,
        0x8100_0000_0000_0000u64 & 0x10u64 == 0,
        0x8100_0000_0000_0000u64 & 0x1000_0000_0000_0000u64 == 0,
        0x8100_0000_0000_0000u64 & 0x24u64 == 0,
        0x8100_0000_0000_0000u64 & 0x2400_0000_0000_0000u64 == 0,
        0x8100_0000_0000_0000u64 & 0x81u64 == 0,
        0x8100_0000_0000_0000u64 & 0x08u64 == 0,
        0x8100_0000_0000_0000u64 & 0x0800_0000_0000_0000u64 == 0,
        0x08u64 & 0xFF00u64 == 0,
        0x08u64 & 0x00FF_0000_0000_0000u64 == 0,
        0x08u64 & 0x42u64 == 0,
        0x08u64 & 0x4200_0000_0000_0000u64 == 0,
        0x08u64 & 0x10u64 == 0,
        0x08u64 & 0x1000_0000_0000_0000u64 == 0,
        0x08u64 & 0x24u64 == 0,
        0x08u64 & 0x2400_0000_0000_0000u64 == 0,
        0x08u64 & 0x81u64 == 0,
        0x08u64 & 0x8100_0000_0000_0000u64 == 0,
        0x08u64 & 0x0800_0000_0000_0000u64 == 0,
        0x0800_0000_0000_0000u64 & 0xFF00u64 == 0,
        0x0800_0000_0000_0000u64 & 0x00FF_0000_0000_0000u64 == 0,
        0x0800_0000_0000_0000u64 & 0x42u64 == 0,
        0x0800_0000_0000_0000u64 & 0x4200_0000_0000_0000u64 == 0,
        0x0800_0000_0000_0000u64 & 0x10u64 == 0,
        0x0800_0000_0000_0000u64 & 0x1000_0000_0000_0000u64 == 0,
        0x0800_0000_0000_0000u64 & 0x24u64 == 0,
        0x0800_0000_0000_0000u64 & 0x2400_0000_0000_0000u64 == 0,
        0x0800_0000_0000_0000u64 & 0x81u64 == 0,
        0x0800_0000_0000_0000u64 & 0x8100_0000_0000_0000u64 == 0,
        0x0800_0000_0000_0000u64 & 0x08u64 == 0,
        0xFF00u64 | 0x42u64 | 0x10u64 | 0x24u64 | 0x81u64 | 0x08u64 == 0xFFFFu64,
        0x00FF_0000_0000_0000u64 | 0x4200_0000_0000_0000u64 | 0x1000_0000_0000_0000u64 | 0x2400_0000_0000_0000u64 | 0x8100_0000_0000_0000u64 | 0x0800_0000_0000_0000u64 == 0xFFFF_0000_0000_0000u64,
{
}

/// A position whose boards are all zero and whose squares are all empty
/// is well formed.
proof fn lemma_empty_boards_consistent(g: Game)
    requires
        forall|p: int| 0 <= p < 14 ==> g.bitboard[p] == 0,
        forall|sq: int| 0 <= sq < 64 ==> g.squares[sq] is None,
        g.occupancy[0] == 0,
        g.occupancy[1] == 0,
    ensures
        g.wf(),
{
    lemma_and_zero(0);
    lemma_or_zero(0);
    assert forall|sq: u64| sq < 64 implies g.square_consistent_at(sq) by {
        lemma_zero_bit(sq);
    }
}

} // verus!

//! Tapered static evaluation: material and piece-square placement are
//! summed per color for both game phases, and the two sums are blended
//! by the clamped game phase into one signed score relative to the side
//! to move (negamax convention). Deterministic and side-effect free: two
//! calls on equal positions return equal scores.

use vstd::prelude::*;
use vstd::arithmetic::mul::lemma_mul_nonnegative;

use crate::bitboard::bit_scan_lsb;
use crate::bits::bit_set;
use crate::bits::popcount;
use crate::bits::lemma_xor_bit;
use crate::bits::lemma_zero_bit;
use crate::bits::lemma_xor_clear_decreases;
use crate::bits::lemma_popcount_clear;
use crate::bits::lemma_popcount_below_zero;
use crate::bits::lemma_popcount_below_bound;
use crate::game::Game;
use crate::piece::Color;
use crate::tables::EVAL_TABLE;
use crate::tables::MG_WEIGHT;
use crate::tables::EG_WEIGHT;
use crate::tables::GAME_PHASE_INCREMENT;
use crate::tables::lemma_table_bounds;

verus! {

/// Value the piece with code `p` contributes from square `sq` in phase
/// `ph` (0 middlegame, 1 endgame): its table entry plus its kind's
/// material weight.
pub open spec fn piece_square_term(p: int, ph: int, sq: int) -> int
    recommends
        2 <= p < 14,
        0 <= ph < 2,
        0 <= sq < 64,
{
    EVAL_TABLE[p / 2 - 1][ph][sq] + if ph == 0 {
        MG_WEIGHT[p / 2 - 1]
    } else {
        EG_WEIGHT[p / 2 - 1]
    }
}

/// Sum of the piece-square terms of board `b` (piece code `p`, phase
/// `ph`) over the squares strictly below `n`.
pub open spec fn board_score_below(b: u64, p: int, ph: int, n: nat) -> int
    decreases n,
{
    if n == 0 {
        0
    } else {
        board_score_below(b, p, ph, (n - 1) as nat) + if bit_set(b, (n - 1) as u64) {
            piece_square_term(p, ph, n - 1)
        } else {
            0
        }
    }
}

/// Sum of the piece-square terms over every occupied square of `b`.
pub open spec fn board_score(b: u64, p: int, ph: int) -> int {
    board_score_below(b, p, ph, 64)
}

/// White's accumulated score in phase `ph`: its six piece boards.
pub open spec fn white_score(g: Game, ph: int) -> int {
    board_score(g.bitboard[2], 2, ph) + board_score(g.bitboard[4], 4, ph) + board_score(
        g.bitboard[6],
        6,
        ph,
    ) + board_score(g.bitboard[8], 8, ph) + board_score(g.bitboard[10], 10, ph) + board_score(
        g.bitboard[12],
        12,
        ph,
    )
}

/// Black's accumulated score in phase `ph`: its six piece boards.
pub open spec fn black_score(g: Game, ph: int) -> int {
    board_score(g.bitboard[3], 3, ph) + board_score(g.bitboard[5], 5, ph) + board_score(
        g.bitboard[7],
        7,
        ph,
    ) + board_score(g.bitboard[9], 9, ph) + board_score(g.bitboard[11], 11, ph) + board_score(
        g.bitboard[13],
        13,
        ph,
    )
}

/// Total game phase of a position: every piece on the board contributes
/// its kind's increment.
pub open spec fn game_phase_total(g: Game) -> int {
    popcount(g.bitboard[2]) * GAME_PHASE_INCREMENT[2] + popcount(g.bitboard[3])
        * GAME_PHASE_INCREMENT[3] + popcount(g.bitboard[4]) * GAME_PHASE_INCREMENT[4] + popcount(
        g.bitboard[5],
    ) * GAME_PHASE_INCREMENT[5] + popcount(g.bitboard[6]) * GAME_PHASE_INCREMENT[6] + popcount(
        g.bitboard[7],
    ) * GAME_PHASE_INCREMENT[7] + popcount(g.bitboard[8]) * GAME_PHASE_INCREMENT[8] + popcount(
        g.bitboard[9],
    ) * GAME_PHASE_INCREMENT[9] + popcount(g.bitboard[10]) * GAME_PHASE_INCREMENT[10] + popcount(
        g.bitboard[11],
    ) * GAME_PHASE_INCREMENT[11] + popcount(g.bitboard[12]) * GAME_PHASE_INCREMENT[12] + popcount(
        g.bitboard[13],
    ) * GAME_PHASE_INCREMENT[13]
}

/// Middlegame phase weight: the total phase clamped at 24.
pub open spec fn mg_phase(g: Game) -> int {
    if game_phase_total(g) < 24 {
        game_phase_total(g)
    } else {
        24
    }
}

/// Endgame phase weight: the complement of the middlegame weight.
pub open spec fn eg_phase(g: Game) -> int {
    24 - mg_phase(g)
}

/// Integer division by 24 truncating toward zero, as the final blend
/// performs it.
pub open spec fn trunc_div_24(x: int) -> int {
    if x >= 0 {
        x / 24
    } else {
        -((-x) / 24)
    }
}

/// The score of a position, relative to the side to move: middlegame
/// and endgame score differences, signed for the mover, blended by the
/// clamped game phase and divided by 24 toward zero.
pub open spec fn spec_evaluate(g: Game) -> int {
    let mg_score = (white_score(g, 0) - black_score(g, 0)) * g.color.spec_sign();
    let eg_score = (white_score(g, 1) - black_score(g, 1)) * g.color.spec_sign();
    trunc_div_24(mg_score * mg_phase(g) + eg_score * eg_phase(g))
}

/// Static evaluation attached to the position type.
pub trait Evaluation {
    /// Mathematical score of this position, relative to the side to
    /// move.
    spec fn spec_score(&self) -> int;

    /// Signed score of the position: positive favors the side to move.
    fn evaluate_pos(&self) -> (r: isize)
        ensures
            r == self.spec_score(),
    ;
}

proof fn lemma_term_bounds(p: int, ph: int, sq: int)
    requires
        2 <= p < 14,
        0 <= ph < 2,
        0 <= sq < 64,
    ensures
        -1225 <= piece_square_term(p, ph, sq) <= 1225,
{
    lemma_table_bounds();
}

proof fn lemma_board_score_below_bound(b: u64, p: int, ph: int, n: nat)
    requires
        2 <= p < 14,
        0 <= ph < 2,
        n <= 64,
    ensures
        -1225 * n <= board_score_below(b, p, ph, n) <= 1225 * n,
    decreases n,
{
    if n > 0 {
        lemma_board_score_below_bound(b, p, ph, (n - 1) as nat);
        lemma_term_bounds(p, ph, n - 1);
    }
}

proof fn lemma_board_score_bound(b: u64, p: int, ph: int)
    requires
        2 <= p < 14,
        0 <= ph < 2,
    ensures
        -78400 <= board_score(b, p, ph) <= 78400,
{
    lemma_board_score_below_bound(b, p, ph, 64);
}

proof fn lemma_board_score_below_clear(b: u64, p: int, ph: int, s: u64, n: nat)
    requires
        s < 64,
        n <= 64,
        bit_set(b, s),
    ensures
        board_score_below(b, p, ph, n) == board_score_below(b ^ (1u64 << s), p, ph, n) + if s < n {
            piece_square_term(p, ph, s as int)
        } else {
            0
        },
    decreases n,
{
    if n > 0 {
        lemma_board_score_below_clear(b, p, ph, s, (n - 1) as nat);
        lemma_xor_bit(b, s, (n - 1) as u64);
    }
}

proof fn lemma_board_score_below_zero(p: int, ph: int, n: nat)
    requires
        n <= 64,
    ensures
        board_score_below(0u64, p, ph, n) == 0,
    decreases n,
{
    if n > 0 {
        lemma_board_score_below_zero(p, ph, (n - 1) as nat);
        lemma_zero_bit((n - 1) as u64);
    }
}

/// Middlegame score, endgame score, and phase contribution of one piece
/// board: the tally the evaluator accumulates board by board.
fn score_board(bb: u64, p: usize) -> (r: (isize, isize, isize))
    requires
        2 <= p < 14,
    ensures
        r.0 == board_score(bb, p as int, 0),
        r.1 == board_score(bb, p as int, 1),
        r.2 == popcount(bb) * GAME_PHASE_INCREMENT[p as int],
        -78400 <= r.0 <= 78400,
        -78400 <= r.1 <= 78400,
        0 <= r.2 <= 256,
{
    let mut bb_cur = bb;
    let mut mg: isize = 0;
    let mut eg: isize = 0;
    let mut count: isize = 0;
    proof {
        lemma_board_score_bound(bb, p as int, 0);
        lemma_board_score_bound(bb, p as int, 1);
        lemma_popcount_below_bound(bb, 64);
    }
    while bb_cur != 0
        invariant
            2 <= p < 14,
            mg + board_score(bb_cur, p as int, 0) == board_score(bb, p as int, 0),
            eg + board_score(bb_cur, p as int, 1) == board_score(bb, p as int, 1),
            count + popcount(bb_cur) == popcount(bb),
            popcount(bb) <= 64,
            -78400 <= board_score(bb, p as int, 0) <= 78400,
            -78400 <= board_score(bb, p as int, 1) <= 78400,
        decreases bb_cur,
    {
        let sq = bit_scan_lsb(bb_cur);
        let kind = p / 2 - 1;
        proof {
            lemma_table_bounds();
            lemma_term_bounds(p as int, 0, sq as int);
            lemma_term_bounds(p as int, 1, sq as int);
            lemma_board_score_below_clear(bb_cur, p as int, 0, sq as u64, 64);
            lemma_board_score_below_clear(bb_cur, p as int, 1, sq as u64, 64);
            lemma_popcount_clear(bb_cur, sq as u64);
            lemma_xor_clear_decreases(bb_cur, sq as u64);
            lemma_board_score_bound(bb_cur ^ (1u64 << (sq as u64)), p as int, 0);
            lemma_board_score_bound(bb_cur ^ (1u64 << (sq as u64)), p as int, 1);
            lemma_popcount_below_bound(bb_cur, 64);
        }
        mg = mg + EVAL_TABLE[kind][0][sq] + MG_WEIGHT[kind];
        eg = eg + EVAL_TABLE[kind][1][sq] + EG_WEIGHT[kind];
        count = count + 1;
        bb_cur = bb_cur ^ (1u64 << (sq as u64));
    }
    proof {
        lemma_board_score_below_zero(p as int, 0, 64);
        lemma_board_score_below_zero(p as int, 1, 64);
        lemma_popcount_below_zero(64);
        lemma_table_bounds();
    }
    let incr = GAME_PHASE_INCREMENT[p];
    proof {
        assert(0 <= count * incr <= 256) by (nonlinear_arith)
            requires
                0 <= count <= 64,
                0 <= incr <= 4,
        ;
    }
    let phase = count * incr;
    (mg, eg, phase)
}

impl Evaluation for Game {
    open spec fn spec_score(&self) -> int {
        spec_evaluate(*self)
    }

    fn evaluate_pos(&self) -> (r: isize) {
        let (mg2, eg2, ph2) = score_board(self.bitboard[2], 2);
        let (mg3, eg3, ph3) = score_board(self.bitboard[3], 3);
        let (mg4, eg4, ph4) = score_board(self.bitboard[4], 4);
        let (mg5, eg5, ph5) = score_board(self.bitboard[5], 5);
        let (mg6, eg6, ph6) = score_board(self.bitboard[6], 6);
        let (mg7, eg7, ph7) = score_board(self.bitboard[7], 7);
        let (mg8, eg8, ph8) = score_board(self.bitboard[8], 8);
        let (mg9, eg9, ph9) = score_board(self.bitboard[9], 9);
        let (mg10, eg10, ph10) = score_board(self.bitboard[10], 10);
        let (mg11, eg11, ph11) = score_board(self.bitboard[11], 11);
        let (mg12, eg12, ph12) = score_board(self.bitboard[12], 12);
        let (mg13, eg13, ph13) = score_board(self.bitboard[13], 13);
        let mg_white = mg2 + mg4 + mg6 + mg8 + mg10 + mg12;
        let mg_black = mg3 + mg5 + mg7 + mg9 + mg11 + mg13;
        let eg_white = eg2 + eg4 + eg6 + eg8 + eg10 + eg12;
        let eg_black = eg3 + eg5 + eg7 + eg9 + eg11 + eg13;
        let game_phase = ph2 + ph3 + ph4 + ph5 + ph6 + ph7 + ph8 + ph9 + ph10 + ph11 + ph12 + ph13;
        let mg_phase_w = if game_phase < 24 {
            game_phase
        } else {
            24
        };
        let eg_phase_w = 24 - mg_phase_w;
        let mg_score = match self.color {
            Color::White => mg_white - mg_black,
            Color::Black => mg_black - mg_white,
        };
        let eg_score = match self.color {
            Color::White => eg_white - eg_black,
            Color::Black => eg_black - eg_white,
        };
        proof {
            assert(-22579200 <= mg_score * mg_phase_w <= 22579200) by (nonlinear_arith)
                requires
                    -940800 <= mg_score <= 940800,
                    0 <= mg_phase_w <= 24,
            ;
            assert(-22579200 <= eg_score * eg_phase_w <= 22579200) by (nonlinear_arith)
                requires
                    -940800 <= eg_score <= 940800,
                    0 <= eg_phase_w <= 24,
            ;
        }
        let total = mg_score * mg_phase_w + eg_score * eg_phase_w;
        proof {
            // pin the sign to a literal so the products below stay linear
            match self.color {
                Color::White => {
                    assert(self.color.spec_sign() == 1);
                },
                Color::Black => {
                    assert(self.color.spec_sign() == -1);
                },
            }
            assert(mg_score == (white_score(*self, 0) - black_score(*self, 0))
                * self.color.spec_sign());
            assert(eg_score == (white_score(*self, 1) - black_score(*self, 1))
                * self.color.spec_sign());
        }
        if total >= 0 {
            total / 24
        } else {
            -((-total) / 24)
        }
    }
}

/// The game phase is never negative, so the middlegame weight is always
/// clamped into [0, 24] and the two tapering weights always sum to 24.
pub proof fn lemma_phase_clamped(g: Game)
    ensures
        0 <= mg_phase(g) <= 24,
        0 <= eg_phase(g) <= 24,
        mg_phase(g) + eg_phase(g) == 24,
{
    lemma_table_bounds();
    lemma_mul_nonnegative(popcount(g.bitboard[2]) as int, GAME_PHASE_INCREMENT[2] as int);
    lemma_mul_nonnegative(popcount(g.bitboard[3]) as int, GAME_PHASE_INCREMENT[3] as int);
    lemma_mul_nonnegative(popcount(g.bitboard[4]) as int, GAME_PHASE_INCREMENT[4] as int);
    lemma_mul_nonnegative(popcount(g.bitboard[5]) as int, GAME_PHASE_INCREMENT[5] as int);
    lemma_mul_nonnegative(popcount(g.bitboard[6]) as int, GAME_PHASE_INCREMENT[6] as int);
    lemma_mul_nonnegative(popcount(g.bitboard[7]) as int, GAME_PHASE_INCREMENT[7] as int);
    lemma_mul_nonnegative(popcount(g.bitboard[8]) as int, GAME_PHASE_INCREMENT[8] as int);
    lemma_mul_nonnegative(popcount(g.bitboard[9]) as int, GAME_PHASE_INCREMENT[9] as int);
    lemma_mul_nonnegative(popcount(g.bitboard[10]) as int, GAME_PHASE_INCREMENT[10] as int);
    lemma_mul_nonnegative(popcount(g.bitboard[11]) as int, GAME_PHASE_INCREMENT[11] as int);
    lemma_mul_nonnegative(popcount(g.bitboard[12]) as int, GAME_PHASE_INCREMENT[12] as int);
    lemma_mul_nonnegative(popcount(g.bitboard[13]) as int, GAME_PHASE_INCREMENT[13] as int);
}

} // verus!

//! Executable bitboard operations: bit set/clear, least- and
//! most-significant-bit scans, full bit extraction, and bounds-checked
//! square/coordinate conversions.

use vstd::prelude::*;

use crate::bits::bit_set;
use crate::bits::low_mask;
use crate::bits::lowest_set_bit;
use crate::bits::highest_set_bit;
use crate::bits::highest_set_bit_from;
use crate::bits::popcount;
use crate::bits::or_all;
use crate::bits::lemma_zero_bit;
use crate::bits::lemma_xor_bit;
use crate::bits::lemma_xor_clear_decreases;
use crate::bits::lemma_or_pull;
use crate::bits::lemma_or_zero;
use crate::bits::lemma_shift_reads_bit;
use crate::bits::lemma_mask_clear_iff;
use crate::bits::lemma_all_clear_is_zero;
use crate::bits::lemma_lowest_from_found;
use crate::bits::lemma_popcount_clear;
use crate::bits::lemma_popcount_below_zero;

verus! {

/// A 64-bit set of squares: bit `i` set means square `i` is occupied by
/// the entity the board stands for.
pub type Bitboard = u64;

/// Perfect-hash table for the least-significant-bit scan: entry `r` is the
/// index `i` with `2^i % 67 == r` (67 is prime and 2 generates every residue
/// that a power of two below 2^64 can take). Residues no power of two
/// reaches hold the out-of-range marker 64.
const MOD67TABLE: [usize; 67] = [
    64, 0, 1, 39, 2, 15, 40, 23, 3, 12, 16, 59, 41, 19, 24, 54, 4, 64, 13, 10, 17, 62,
    60, 28, 42, 30, 20, 51, 25, 44, 55, 47, 5, 32, 64, 38, 14, 22, 11, 58, 18, 53, 63, 9,
    61, 27, 29, 50, 43, 46, 31, 37, 21, 57, 52, 8, 26, 49, 45, 36, 56, 7, 48, 35, 6, 34,
    33,
];

/// Isolating the lowest set bit of a nonzero board: the result is a
/// nonzero power of two dividing the board, with nothing of the board
/// below it.
proof fn lemma_isolate_lowest(b: u64, t: u64)
    by (bit_vector)
    requires
        b != 0,
        t == b ^ ((b - 1) as u64) ^ (!b & ((b - 1) as u64)),
    ensures
        t != 0,
        t & ((t - 1) as u64) == 0,
        b & t == t,
        b & ((t - 1) as u64) == 0,
{
}

/// Every nonzero power of two below 2^64, with its residue modulo 67.
proof fn lemma_power_residue(t: u64)
    by (bit_vector)
    requires
        t != 0,
        t & ((t - 1) as u64) == 0,
    ensures
        (t == 1u64 << 0 && t % 67 == 1)
            || (t == 1u64 << 1 && t % 67 == 2)
            || (t == 1u64 << 2 && t % 67 == 4)
            || (t == 1u64 << 3 && t % 67 == 8)
            || (t == 1u64 << 4 && t % 67 == 16)
            || (t == 1u64 << 5 && t % 67 == 32)
            || (t == 1u64 << 6 && t % 67 == 64)
            || (t == 1u64 << 7 && t % 67 == 61)
            || (t == 1u64 << 8 && t % 67 == 55)
            || (t == 1u64 << 9 && t % 67 == 43)
            || (t == 1u64 << 10 && t % 67 == 19)
            || (t == 1u64 << 11 && t % 67 == 38)
            || (t == 1u64 << 12 && t % 67 == 9)
            || (t == 1u64 << 13 && t % 67 == 18)
            || (t == 1u64 << 14 && t % 67 == 36)
            || (t == 1u64 << 15 && t % 67 == 5)
            || (t == 1u64 << 16 && t % 67 == 10)
            || (t == 1u64 << 17 && t % 67 == 20)
            || (t == 1u64 << 18 && t % 67 == 40)
            || (t == 1u64 << 19 && t % 67 == 13)
            || (t == 1u64 << 20 && t % 67 == 26)
            || (t == 1u64 << 21 && t % 67 == 52)
            || (t == 1u64 << 22 && t % 67 == 37)
            || (t == 1u64 << 23 && t % 67 == 7)
            || (t == 1u64 << 24 && t % 67 == 14)
            || (t == 1u64 << 25 && t % 67 == 28)
            || (t == 1u64 << 26 && t % 67 == 56)
            || (t == 1u64 << 27 && t % 67 == 45)
            || (t == 1u64 << 28 && t % 67 == 23)
            || (t == 1u64 << 29 && t % 67 == 46)
            || (t == 1u64 << 30 && t % 67 == 25)
            || (t == 1u64 << 31 && t % 67 == 50)
            || (t == 1u64 << 32 && t % 67 == 33)
            || (t == 1u64 << 33 && t % 67 == 66)
            || (t == 1u64 << 34 && t % 67 == 65)
            || (t == 1u64 << 35 && t % 67 == 63)
            || (t == 1u64 << 36 && t % 67 == 59)
            || (t == 1u64 << 37 && t % 67 == 51)
            || (t == 1u64 << 38 && t % 67 == 35)
            || (t == 1u64 << 39 && t % 67 == 3)
            || (t == 1u64 << 40 && t % 67 == 6)
            || (t == 1u64 << 41 && t % 67 == 12)
            || (t == 1u64 << 42 && t % 67 == 24)
            || (t == 1u64 << 43 && t % 67 == 48)
            || (t == 1u64 << 44 && t % 67 == 29)
            || (t == 1u64 << 45 && t % 67 == 58)
            || (t == 1u64 << 46 && t % 67 == 49)
            || (t == 1u64 << 47 && t % 67 == 31)
            || (t == 1u64 << 48 && t % 67 == 62)
            || (t == 1u64 << 49 && t % 67 == 57)
            || (t == 1u64 << 50 && t % 67 == 47)
            || (t == 1u64 << 51 && t % 67 == 27)
            || (t == 1u64 << 52 && t % 67 == 54)
            || (t == 1u64 << 53 && t % 67 == 41)
            || (t == 1u64 << 54 && t % 67 == 15)
            || (t == 1u64 << 55 && t % 67 == 30)
            || (t == 1u64 << 56 && t % 67 == 60)
            || (t == 1u64 << 57 && t % 67 == 53)
            || (t == 1u64 << 58 && t % 67 == 39)
            || (t == 1u64 << 59 && t % 67 == 11)
            || (t == 1u64 << 60 && t % 67 == 22)
            || (t == 1u64 << 61 && t % 67 == 44)
            || (t == 1u64 << 62 && t % 67 == 21)
            || (t == 1u64 << 63 && t % 67 == 42),
{
}

/// Sets bit `square`; idempotent.
pub fn set_bit(bitboard: u64, square: usize) -> (r: u64)
    requires
        square < 64,
    ensures
        r == bitboard | (1u64 << square as u64),
        forall|j: u64| j < 64 ==> bit_set(r, j) == (j == square as u64 || bit_set(bitboard, j)),
{
    let r = bitboard | (1u64 << (square as u64));
    proof {
        assert forall|j: u64| j < 64 implies bit_set(r, j) == (j == square as u64 || bit_set(
            bitboard,
            j,
        )) by {
            crate::bits::lemma_or_bit(bitboard, square as u64, j);
        }
    }
    r
}

/// Clears bit `square`; idempotent, and a no-op when the bit is already
/// clear.
pub fn clear_bit(bitboard: u64, square: usize) -> (r: u64)
    requires
        square < 64,
    ensures
        r == bitboard & !(1u64 << square as u64),
        forall|j: u64| j < 64 ==> bit_set(r, j) == (j != square as u64 && bit_set(bitboard, j)),
{
    let r = bitboard & !(1u64 << (square as u64));
    proof {
        assert forall|j: u64| j < 64 implies bit_set(r, j) == (j != square as u64 && bit_set(
            bitboard,
            j,
        )) by {
            crate::bits::lemma_and_not_bit(bitboard, square as u64, j);
        }
    }
    r
}

/// Index of the lowest set bit of a nonzero board, by the mod-67
/// perfect-hash scan: the lowest bit is isolated with
/// `b ^ (b - 1) ^ (!b & (b - 1))` and reduced modulo 67 into a lookup
/// table. A board with no set bits is excluded: the isolation arithmetic
/// is meaningless on it.
pub fn bit_scan_lsb(bitboard: u64) -> (r: usize)
    requires
        bitboard != 0,
    ensures
        r < 64,
        r as u64 == lowest_set_bit(bitboard),
        bit_set(bitboard, r as u64),
        forall|j: u64| j < r ==> !bit_set(bitboard, j),
{
    let bit: u64 = bitboard ^ (bitboard - 1) ^ (!bitboard & (bitboard - 1));
    let idx = MOD67TABLE[(bit % 67) as usize];
    proof {
        lemma_isolate_lowest(bitboard, bit);
        lemma_power_residue(bit);
        assert(idx < 64 && bit == 1u64 << (idx as u64));
        assert(bit_set(bitboard, idx as u64));
        assert(bitboard & low_mask(idx as u64) == 0);
        lemma_mask_clear_iff(bitboard, idx as u64);
        lemma_lowest_from_found(bitboard, 0, idx as u64);
    }
    idx
}

/// Lowest set square of a nonzero board, read without mutating the
/// caller's copy.
pub fn pop_lsb(bitboard: u64) -> (r: usize)
    requires
        bitboard != 0,
    ensures
        r < 64,
        r as u64 == lowest_set_bit(bitboard),
        bit_set(bitboard, r as u64),
        forall|j: u64| j < r ==> !bit_set(bitboard, j),
{
    bit_scan_lsb(bitboard)
}

/// Index of the highest set bit of a nonzero board, by an exact integer
/// downward scan.
pub fn bit_scan_msb(bitboard: u64) -> (r: usize)
    requires
        bitboard != 0,
    ensures
        r < 64,
        r as u64 == highest_set_bit(bitboard),
        bit_set(bitboard, r as u64),
        forall|j: u64| r < j < 64 ==> !bit_set(bitboard, j),
{
    let mut i: u64 = 63;
    while i > 0 && (bitboard >> i) & 1 == 0
        invariant
            i < 64,
            highest_set_bit(bitboard) == highest_set_bit_from(bitboard, i),
            forall|j: u64| i < j < 64 ==> !bit_set(bitboard, j),
        decreases i,
    {
        proof {
            lemma_shift_reads_bit(bitboard, i);
        }
        i = i - 1;
    }
    proof {
        lemma_shift_reads_bit(bitboard, i);
        if i == 0 && !bit_set(bitboard, 0) {
            lemma_mask_clear_iff(bitboard, 63);
            lemma_all_clear_is_zero(bitboard);
        }
        assert(bit_set(bitboard, i));
    }
    i as usize
}

/// All set-bit indices of a board, in strictly ascending order: exactly
/// the members of the square set, as many as the population count, and
/// re-ORing them rebuilds the board.
pub fn extract_all_bits(bitboard: u64) -> (r: Vec<usize>)
    ensures
        forall|k: int| 0 <= k < r@.len() ==> r@[k] < 64,
        forall|k1: int, k2: int| 0 <= k1 < k2 < r@.len() ==> r@[k1] < r@[k2],
        forall|j: u64| j < 64 ==> (bit_set(bitboard, j) <==> r@.contains(j as usize)),
        r@.len() == popcount(bitboard),
        or_all(r@) == bitboard,
{
    let mut bb = bitboard;
    let mut result: Vec<usize> = Vec::new();
    proof {
        assert(or_all(result@) == 0);
        lemma_or_zero(bitboard);
    }
    while bb != 0
        invariant
            forall|k: int| 0 <= k < result@.len() ==> result@[k] < 64,
            forall|k1: int, k2: int| 0 <= k1 < k2 < result@.len() ==> result@[k1] < result@[k2],
            forall|j: u64|
                j < 64 ==> (bit_set(bitboard, j) <==> (bit_set(bb, j) || result@.contains(
                    j as usize,
                ))),
            forall|k: int, j: u64|
                0 <= k < result@.len() && j < 64 && bit_set(bb, j) ==> result@[k] < j,
            result@.len() + popcount(bb) == popcount(bitboard),
            or_all(result@) | bb == bitboard,
        decreases bb,
    {
        let ghost prev = result@;
        let ghost bb_prev = bb;
        let next_bit = bit_scan_lsb(bb);
        result.push(next_bit);
        bb = bb ^ (1u64 << (next_bit as u64));
        proof {
            let s = next_bit as u64;
            assert(result@.drop_last() =~= prev);
            assert forall|j: u64| j < 64 implies bit_set(bb, j) == (j != s && bit_set(
                bb_prev,
                j,
            )) by {
                lemma_xor_bit(bb_prev, s, j);
            }
            lemma_popcount_clear(bb_prev, s);
            lemma_or_pull(or_all(prev), bb_prev, s);
            lemma_xor_clear_decreases(bb_prev, s);
            assert forall|j: u64|
                j < 64 implies (bit_set(bitboard, j) <==> (bit_set(bb, j) || result@.contains(
                j as usize,
            ))) by {
                if result@.contains(j as usize) {
                    let k = choose|k: int| 0 <= k < result@.len() && result@[k] == j as usize;
                    if k < prev.len() {
                        assert(prev.contains(j as usize));
                    }
                }
                if prev.contains(j as usize) {
                    assert(result@.contains(j as usize));
                }
                if j == s {
                    assert(result@[result@.len() - 1] == j as usize);
                    assert(result@.contains(j as usize));
                }
            }
        }
    }
    proof {
        assert forall|j: u64| j < 64 implies !bit_set(0u64, j) by {
            lemma_zero_bit(j);
        }
        lemma_popcount_below_zero(64);
        lemma_or_zero(or_all(result@));
    }
    result
}

/// Converts a linear square index to its (row, column) pair; the index
/// must lie on the board.
pub fn idx_to_position(index: i8, check_bounds: Option<bool>) -> (r: (i8, i8))
    requires
        0 <= index < 64,
    ensures
        r.0 == index as int / 8,
        r.1 == index as int % 8,
        0 <= r.0 < 8,
        0 <= r.1 < 8,
{
    let check_bounds = match check_bounds {
        Some(b) => b,
        None => true,
    };
    if check_bounds && !is_inside_board_bounds_idx(index) {
        unreached()
    } else {
        ((index - (index % 8)) / 8, index % 8)
    }
}

/// Converts a (row, column) pair to its linear square index; the pair
/// must lie on the board.
pub fn position_to_idx(row: i8, col: i8, check_bounds: Option<bool>) -> (r: i8)
    requires
        0 <= row < 8,
        0 <= col < 8,
    ensures
        r == row * 8 + col,
        0 <= r < 64,
{
    let check_bounds = match check_bounds {
        Some(b) => b,
        None => true,
    };
    if check_bounds && !is_inside_board_bounds_row_col(row, col) {
        unreached()
    } else {
        row * 8 + col
    }
}

/// The row and column both lie within the 8x8 board.
pub fn is_inside_board_bounds_row_col(row: i8, col: i8) -> (r: bool)
    ensures
        r == (0 <= row <= 7 && 0 <= col <= 7),
{
    0 <= row && row <= 7 && 0 <= col && col <= 7
}

/// The linear index lies within the 8x8 board.
pub fn is_inside_board_bounds_idx(idx: i8) -> (r: bool)
    ensures
        r == (0 <= idx <= 63),
{
    0 <= idx && idx <= 63
}

/// Setting a square and then clearing it leaves the same board as
/// clearing it directly, and both operations are idempotent; the
/// round trip `set_bit(clear_bit(b, s), s)` need not restore `b`.
pub proof fn lemma_set_clear_laws(b: u64, s: u64)
    by (bit_vector)
    requires
        s < 64,
    ensures
        (b | (1u64 << s)) & !(1u64 << s) == b & !(1u64 << s),
        (b | (1u64 << s)) | (1u64 << s) == b | (1u64 << s),
        (b & !(1u64 << s)) & !(1u64 << s) == b & !(1u64 << s),
{
}

/// Round trip between a square index and its (row, column) pair.
pub proof fn lemma_coordinate_round_trip(row: i8, col: i8)
    requires
        0 <= row < 8,
        0 <= col < 8,
    ensures
        (row * 8 + col) as int / 8 == row,
        (row * 8 + col) as int % 8 == col,
{
}

} // verus!

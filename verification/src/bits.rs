//! Spec-level model of 64-bit square sets: bit membership, lowest and
//! highest set bits, population count, and the bit-level lemmas that the
//! executable bitboard operations are proved against.

use vstd::prelude::*;

verus! {

/// Square `i` is a member of the set of squares that `b` represents.
pub open spec fn bit_set(b: u64, i: u64) -> bool
    recommends
        i < 64,
{
    b & (1u64 << i) != 0
}

/// Mask of all squares strictly below `r`.
pub open spec fn low_mask(r: u64) -> u64
    recommends
        r < 64,
{
    ((1u64 << r) - 1) as u64
}

/// Index of the lowest set bit of `b` at or above position `i`
/// (63 when no such bit exists).
pub open spec fn lowest_set_bit_from(b: u64, i: u64) -> u64
    decreases 64 - i,
{
    if i >= 63 {
        63
    } else if bit_set(b, i) {
        i
    } else {
        lowest_set_bit_from(b, (i + 1) as u64)
    }
}

/// Index of the lowest set bit of `b`; meaningful only when `b != 0`.
pub open spec fn lowest_set_bit(b: u64) -> u64 {
    lowest_set_bit_from(b, 0)
}

/// Index of the highest set bit of `b` at or below position `i`
/// (0 when no such bit exists).
pub open spec fn highest_set_bit_from(b: u64, i: u64) -> u64
    decreases i,
{
    if i == 0 {
        0
    } else if bit_set(b, i) {
        i
    } else {
        highest_set_bit_from(b, (i - 1) as u64)
    }
}

/// Index of the highest set bit of `b`; meaningful only when `b != 0`.
pub open spec fn highest_set_bit(b: u64) -> u64 {
    highest_set_bit_from(b, 63)
}

/// Number of set bits of `b` at positions strictly below `n`.
pub open spec fn popcount_below(b: u64, n: nat) -> nat
    decreases n,
{
    if n == 0 {
        0
    } else {
        popcount_below(b, (n - 1) as nat) + if bit_set(b, (n - 1) as u64) {
            1nat
        } else {
            0nat
        }
    }
}

/// Number of set bits of `b` (its population count).
pub open spec fn popcount(b: u64) -> nat {
    popcount_below(b, 64)
}

/// Bitwise OR of `1 << s` over all squares `s` in the sequence.
pub open spec fn or_all(s: Seq<usize>) -> u64
    decreases s.len(),
{
    if s.len() == 0 {
        0u64
    } else {
        or_all(s.drop_last()) | (1u64 << (s.last() as u64))
    }
}

pub proof fn lemma_or_bit(b: u64, s: u64, j: u64)
    by (bit_vector)
    requires
        s < 64,
        j < 64,
    ensures
        bit_set(b | (1u64 << s), j) == (j == s || bit_set(b, j)),
{
}

pub proof fn lemma_and_not_bit(b: u64, s: u64, j: u64)
    by (bit_vector)
    requires
        s < 64,
        j < 64,
    ensures
        bit_set(b & !(1u64 << s), j) == (j != s && bit_set(b, j)),
{
}

pub proof fn lemma_xor_bit(b: u64, s: u64, j: u64)
    by (bit_vector)
    requires
        s < 64,
        j < 64,
        bit_set(b, s),
    ensures
        bit_set(b ^ (1u64 << s), j) == (j != s && bit_set(b, j)),
{
}

pub proof fn lemma_single_bit(i: u64, j: u64)
    by (bit_vector)
    requires
        i < 64,
        j < 64,
    ensures
        bit_set(1u64 << i, j) == (i == j),
{
}

pub proof fn lemma_zero_bit(j: u64)
    by (bit_vector)
    requires
        j < 64,
    ensures
        !bit_set(0u64, j),
{
}

pub proof fn lemma_shift_reads_bit(b: u64, i: u64)
    by (bit_vector)
    requires
        i < 64,
    ensures
        ((b >> i) & 1 != 0) == bit_set(b, i),
{
}

pub proof fn lemma_xor_clear_decreases(b: u64, s: u64)
    by (bit_vector)
    requires
        s < 64,
        bit_set(b, s),
    ensures
        (b ^ (1u64 << s)) < b,
{
}

/// Re-ORing a cleared bit back restores the board: pulled through an
/// accumulated OR on the left.
pub proof fn lemma_or_pull(a: u64, b: u64, s: u64)
    by (bit_vector)
    requires
        s < 64,
        bit_set(b, s),
    ensures
        (a | (1u64 << s)) | (b ^ (1u64 << s)) == a | b,
{
}

pub proof fn lemma_or_zero(b: u64)
    by (bit_vector)
    ensures
        b | 0u64 == b,
        0u64 | b == b,
{
}

pub proof fn lemma_and_zero(b: u64)
    by (bit_vector)
    ensures
        b & 0u64 == 0,
        0u64 & b == 0,
{
}

pub proof fn lemma_low_mask_zero(b: u64)
    by (bit_vector)
    ensures
        b & low_mask(0) == 0,
{
}

pub proof fn lemma_low_mask_step(b: u64, r: u64)
    by (bit_vector)
    requires
        0 < r < 64,
    ensures
        (b & low_mask(r) == 0) == (b & low_mask((r - 1) as u64) == 0 && !bit_set(
            b,
            (r - 1) as u64,
        )),
{
}

pub proof fn lemma_top_bit_of_nonzero(b: u64)
    by (bit_vector)
    requires
        b != 0,
        b & low_mask(63) == 0,
    ensures
        bit_set(b, 63),
{
}

pub proof fn lemma_all_clear_is_zero(b: u64)
    by (bit_vector)
    requires
        b & low_mask(63) == 0,
        !bit_set(b, 63),
    ensures
        b == 0,
{
}

/// The low bits of `b` are all clear exactly when `b` masked by
/// `low_mask(r)` vanishes.
pub proof fn lemma_mask_clear_iff(b: u64, r: u64)
    requires
        r < 64,
    ensures
        (b & low_mask(r) == 0) <==> (forall|j: u64| j < r ==> !bit_set(b, j)),
    decreases r,
{
    if r == 0 {
        lemma_low_mask_zero(b);
    } else {
        lemma_mask_clear_iff(b, (r - 1) as u64);
        lemma_low_mask_step(b, r);
        if b & low_mask(r) == 0 {
            assert forall|j: u64| j < r implies !bit_set(b, j) by {
                if j < (r - 1) as u64 {
                } else {
                    assert(j == (r - 1) as u64);
                }
            }
        }
    }
}

/// If bit `r` is set and everything from `i` up to `r` is clear, the
/// upward search from `i` finds exactly `r`.
pub proof fn lemma_lowest_from_found(b: u64, i: u64, r: u64)
    requires
        i <= r < 64,
        bit_set(b, r),
        forall|j: u64| i <= j < r ==> !bit_set(b, j),
    ensures
        lowest_set_bit_from(b, i) == r,
    decreases r - i,
{
    if i < r {
        lemma_lowest_from_found(b, (i + 1) as u64, r);
    }
}

/// A nonzero board has a lowest set bit, and nothing is set below it.
pub proof fn lemma_lowest_from_char(b: u64, i: u64)
    requires
        i < 64,
        b != 0,
        forall|j: u64| j < i ==> !bit_set(b, j),
    ensures
        i <= lowest_set_bit_from(b, i) < 64,
        bit_set(b, lowest_set_bit_from(b, i)),
        forall|j: u64| j < lowest_set_bit_from(b, i) ==> !bit_set(b, j),
    decreases 64 - i,
{
    if i >= 63 {
        lemma_mask_clear_iff(b, 63);
        lemma_top_bit_of_nonzero(b);
    } else if bit_set(b, i) {
    } else {
        lemma_lowest_from_char(b, (i + 1) as u64);
    }
}

/// On a nonzero board, `lowest_set_bit` names a set bit below which
/// every bit is clear: the smallest index among the set bits.
pub proof fn lemma_lowest_set_bit_smallest(b: u64)
    requires
        b != 0,
    ensures
        lowest_set_bit(b) < 64,
        bit_set(b, lowest_set_bit(b)),
        forall|j: u64| j < lowest_set_bit(b) ==> !bit_set(b, j),
{
    lemma_lowest_from_char(b, 0);
}

/// A board holding the single bit `i` has `i` as its lowest set bit.
pub proof fn lemma_lowest_set_bit_single(i: u64)
    requires
        i < 64,
    ensures
        lowest_set_bit(1u64 << i) == i,
{
    lemma_single_bit(i, i);
    assert forall|j: u64| 0 <= j < i implies !bit_set(1u64 << i, j) by {
        lemma_single_bit(i, j);
    }
    lemma_lowest_from_found(1u64 << i, 0, i);
}

/// Clearing a set bit lowers the population count by one.
pub proof fn lemma_popcount_below_clear(b: u64, s: u64, n: nat)
    requires
        s < 64,
        n <= 64,
        bit_set(b, s),
    ensures
        s < n ==> popcount_below(b ^ (1u64 << s), n) + 1 == popcount_below(b, n),
        s >= n ==> popcount_below(b ^ (1u64 << s), n) == popcount_below(b, n),
    decreases n,
{
    if n > 0 {
        lemma_popcount_below_clear(b, s, (n - 1) as nat);
        lemma_xor_bit(b, s, (n - 1) as u64);
    }
}

pub proof fn lemma_popcount_clear(b: u64, s: u64)
    requires
        s < 64,
        bit_set(b, s),
    ensures
        popcount(b ^ (1u64 << s)) + 1 == popcount(b),
{
    lemma_popcount_below_clear(b, s, 64);
}

pub proof fn lemma_popcount_below_zero(n: nat)
    requires
        n <= 64,
    ensures
        popcount_below(0u64, n) == 0,
    decreases n,
{
    if n > 0 {
        lemma_popcount_below_zero((n - 1) as nat);
        lemma_zero_bit((n - 1) as u64);
    }
}

pub proof fn lemma_popcount_below_bound(b: u64, n: nat)
    ensures
        popcount_below(b, n) <= n,
    decreases n,
{
    if n > 0 {
        lemma_popcount_below_bound(b, (n - 1) as nat);
    }
}

} // verus!

use chess_core::bitboard::bit_scan_lsb;
use chess_core::bitboard::bit_scan_msb;
use chess_core::bitboard::clear_bit;
use chess_core::bitboard::extract_all_bits;
use chess_core::bitboard::idx_to_position;
use chess_core::bitboard::is_inside_board_bounds_idx;
use chess_core::bitboard::is_inside_board_bounds_row_col;
use chess_core::bitboard::pop_lsb;
use chess_core::bitboard::position_to_idx;
use chess_core::bitboard::set_bit;

#[test]
fn bit_scan_works() {
    for i in 0..64 {
        let bit = (1 as u64) << i;
        let index = bit_scan_lsb(bit);
        assert_eq!(i, index);
    }
}

#[test]
fn bit_scan_with_multiple_bits() {
    for lowest_bit in 0..64 {
        let mut bit: u64 = 1 << lowest_bit;

        for other_bit in lowest_bit + 1..64 {
            if (other_bit + 37) % 3 != 0 {
                bit |= 1 << other_bit;
            }
        }
        let bit_scan_result = bit_scan_lsb(bit);
        assert_eq!(lowest_bit, bit_scan_result);
    }
}

#[test]
fn test_get_bits() {
    let bits = (1 << 2) | (1 << 5) | (1 << 55);
    let resp = extract_all_bits(bits);

    assert_eq!(vec![2, 5, 55], resp)
}

#[test]
fn bit_scan_against_reference_scan() {
    // A reference population scan: the smallest set index must be what
    // the perfect-hash scan returns.
    let boards: [u64; 6] = [
        0x8000_0000_0000_0001,
        0xFFFF_FFFF_FFFF_FFFF,
        0x0040_2010_0804_0200,
        0x8000_0000_0000_0000,
        0x0000_0001_0000_0000,
        0x0123_4567_89AB_CDEF,
    ];
    for &b in boards.iter() {
        let mut smallest = 64;
        for i in (0..64).rev() {
            if b & (1u64 << i) != 0 {
                smallest = i;
            }
        }
        assert_eq!(bit_scan_lsb(b), smallest);
        assert_eq!(pop_lsb(b), smallest);
    }
}

#[test]
fn bit_scan_msb_works() {
    assert_eq!(bit_scan_msb(0b111), 2);
    assert_eq!(bit_scan_msb(1), 0);
    assert_eq!(bit_scan_msb(1u64 << 63), 63);
    assert_eq!(bit_scan_msb(u64::MAX), 63);
    for i in 0..64 {
        assert_eq!(bit_scan_msb(1u64 << i), i);
    }
}

#[test]
fn extract_all_bits_is_ascending_and_complete() {
    assert_eq!(extract_all_bits(0), Vec::<usize>::new());

    let full = extract_all_bits(u64::MAX);
    assert_eq!(full.len(), 64);
    for (i, &sq) in full.iter().enumerate() {
        assert_eq!(sq, i);
    }

    let b: u64 = 0x8000_0400_0001_0011;
    let squares = extract_all_bits(b);
    // strictly ascending
    for w in squares.windows(2) {
        assert!(w[0] < w[1]);
    }
    // length is the population count
    assert_eq!(squares.len(), b.count_ones() as usize);
    // re-ORing the squares rebuilds the board
    let mut rebuilt = 0u64;
    for &sq in squares.iter() {
        rebuilt |= 1u64 << sq;
    }
    assert_eq!(rebuilt, b);
}

#[test]
fn set_and_clear_are_idempotent() {
    let b: u64 = 0x0F0F_0000_1234_8001;
    for s in 0..64 {
        assert_eq!(clear_bit(set_bit(b, s), s), clear_bit(b, s));
        assert_eq!(set_bit(set_bit(b, s), s), set_bit(b, s));
        assert_eq!(clear_bit(clear_bit(b, s), s), clear_bit(b, s));
    }
}

#[test]
fn set_after_clear_loses_information() {
    // Square 3 is clear here: clearing it is a no-op, and setting it
    // afterwards yields a different board, so the round trip does not
    // restore the original.
    let b: u64 = 0b1_0001;
    assert_ne!(set_bit(clear_bit(b, 3), 3), b);
    // Whereas on a board where the square was set, the round trip is exact.
    let c: u64 = 0b1_1001;
    assert_eq!(set_bit(clear_bit(c, 3), 3), c);
}

#[test]
fn coordinate_conversions() {
    assert_eq!(idx_to_position(50, Some(true)), (6, 2));
    assert_eq!(position_to_idx(6, 2, None), 50);
    assert_eq!(idx_to_position(0, None), (0, 0));
    assert_eq!(idx_to_position(63, None), (7, 7));
}

#[test]
fn coordinate_round_trip() {
    for row in 0..8 {
        for col in 0..8 {
            let idx = position_to_idx(row, col, Some(true));
            assert_eq!(idx_to_position(idx, Some(true)), (row, col));
        }
    }
}

#[test]
fn board_bounds_checks() {
    assert!(is_inside_board_bounds_row_col(0, 0));
    assert!(is_inside_board_bounds_row_col(7, 7));
    assert!(!is_inside_board_bounds_row_col(8, 4));
    assert!(!is_inside_board_bounds_row_col(4, -1));
    assert!(is_inside_board_bounds_idx(0));
    assert!(is_inside_board_bounds_idx(63));
    assert!(!is_inside_board_bounds_idx(64));
    assert!(!is_inside_board_bounds_idx(-1));
}

use chess_core::evaluation::Evaluation;
use chess_core::game::Game;
use chess_core::piece::BLACK;

// The scoring path indexes the piece-square tables by absolute square
// for both colors, without mirroring for Black, so even the symmetric
// starting position does not score 0: White's home ranks read different
// table rows than Black's. These expected values pin that behavior down
// bit for bit.

#[test]
fn starting_position_score() {
    let game = Game::initialize();
    assert_eq!(game.evaluate_pos(), 555);

    let mut black_to_move = Game::initialize();
    black_to_move.color = BLACK;
    assert_eq!(black_to_move.evaluate_pos(), -555);
}

#[test]
fn evaluation_is_deterministic() {
    let game = Game::initialize();
    assert_eq!(game.evaluate_pos(), game.evaluate_pos());
}

#[test]
fn two_kings_is_pure_endgame() {
    // Kings contribute no phase, so the position sits at phase 0 and is
    // scored by the endgame tables alone.
    let mut game = Game::create_board();
    game.bitboard[6] = 0x10; // white king e1
    game.bitboard[7] = 1u64 << 60; // black king e8
    game.occupancy[0] = 0x10;
    game.occupancy[1] = 1u64 << 60;
    // endgame king table: e1 scores -11, e8 scores -28
    assert_eq!(game.evaluate_pos(), 17);

    game.color = BLACK;
    assert_eq!(game.evaluate_pos(), -17);
}

#[test]
fn lone_knight_blends_phases() {
    // One knight gives phase 1: the blend weighs the middlegame sums
    // once and the endgame sums 23 times, divided by 24 toward zero.
    let mut game = Game::create_board();
    game.bitboard[6] = 0x10;
    game.bitboard[7] = 1u64 << 60;
    game.bitboard[4] = 1u64 << 1; // white knight b1
    assert_eq!(game.evaluate_pos(), 256);
}

#[test]
fn phase_is_clamped_at_twenty_four() {
    // Nine white queens push the raw phase to 36; the clamp at 24 zeroes
    // the endgame weight, so the score is the pure middlegame sum.
    let mut game = Game::create_board();
    game.bitboard[6] = 0x10;
    game.bitboard[7] = 1u64 << 60;
    let mut queens = 0u64;
    for sq in 24..33 {
        queens |= 1u64 << sq;
    }
    game.bitboard[12] = queens;
    assert_eq!(game.evaluate_pos(), 9081);
    game.color = BLACK;
    assert_eq!(game.evaluate_pos(), -9081);
}

#[test]
fn removing_white_queen_drops_roughly_her_blended_weight() {
    let start = Game::initialize();
    let start_score = start.evaluate_pos();

    let mut no_queen = Game::initialize();
    no_queen.bitboard[12] = 0; // white queen off the board
    let no_queen_score = no_queen.evaluate_pos();
    assert_eq!(no_queen_score, -332);

    // Signed negative from White's perspective: the score drops by 887,
    // in the region of the queen's mg/eg-blended material weight
    // (1025 and 936 blended at phase 20 is 1010; table terms and the
    // phase shift account for the rest).
    let drop = start_score - no_queen_score;
    assert_eq!(drop, 887);
    assert!(no_queen_score < start_score);
    assert!((drop - 1010).abs() < 200);

    // And positive from Black's perspective under the side-to-move sign.
    let mut black_view = Game::initialize();
    black_view.bitboard[12] = 0;
    black_view.color = BLACK;
    assert_eq!(black_view.evaluate_pos(), 332);
    assert!(black_view.evaluate_pos() > 0);
}

#[test]
fn empty_board_scores_zero() {
    let game = Game::create_board();
    assert_eq!(game.evaluate_pos(), 0);
}

use chess_core::castling::CastlingRights;
use chess_core::game::Game;
use chess_core::piece::Color;
use chess_core::piece::Piece;
use chess_core::piece::BLACK;
use chess_core::piece::WHITE;

#[test]
fn test_reset_board() {
    let mut game = Game::initialize();
    game.reset_board();

    assert_eq!(game.squares, [None; 64]);
    assert_eq!(game.bitboard, [0; 14]);
    assert_eq!(game.occupancy, [0; 2]);
    assert_eq!(game.color, WHITE);
    assert_eq!(game.castling, CastlingRights::none());
    assert_eq!(game.ep, None);
    assert_eq!(game.half_move, 0);
    assert_eq!(game.full_move, 1);
    assert_eq!(game.pos_rev.len(), 0);
    assert_eq!(game.pos_irr.len(), 0);
}

#[test]
fn create_board_is_empty() {
    let game = Game::create_board();
    assert_eq!(game.squares, [None; 64]);
    assert_eq!(game.bitboard, [0; 14]);
    assert_eq!(game.occupancy, [0; 2]);
    assert_eq!(game.color, WHITE);
    assert_eq!(game.castling, CastlingRights::none());
    assert_eq!(game.ep, None);
    assert_eq!(game.half_move, 0);
    assert_eq!(game.full_move, 1);
    assert_eq!(game.key, 0);
    assert_eq!(game.ply, 0);
}

#[test]
fn initialize_builds_starting_position() {
    let game = Game::initialize();
    // pawns
    assert_eq!(game.bitboard[2], 0xFF00);
    assert_eq!(game.bitboard[3], 0x00FF_0000_0000_0000);
    // knights, kings, bishops, rooks, queens
    assert_eq!(game.bitboard[4], 0x42);
    assert_eq!(game.bitboard[5], 0x4200_0000_0000_0000);
    assert_eq!(game.bitboard[6], 0x10);
    assert_eq!(game.bitboard[7], 0x1000_0000_0000_0000);
    assert_eq!(game.bitboard[8], 0x24);
    assert_eq!(game.bitboard[9], 0x2400_0000_0000_0000);
    assert_eq!(game.bitboard[10], 0x81);
    assert_eq!(game.bitboard[11], 0x8100_0000_0000_0000);
    assert_eq!(game.bitboard[12], 0x08);
    assert_eq!(game.bitboard[13], 0x0800_0000_0000_0000);
    // occupancy unions
    assert_eq!(game.occupancy[0], 0xFFFF);
    assert_eq!(game.occupancy[1], 0xFFFF_0000_0000_0000);
    // square mirror: white rook on a1, king on e1, pawn on a2, empty middle
    assert_eq!(game.squares[0], Some(Piece { code: 10 }));
    assert_eq!(game.squares[4], Some(Piece { code: 6 }));
    assert_eq!(game.squares[8], Some(Piece { code: 2 }));
    assert_eq!(game.squares[30], None);
    assert_eq!(game.squares[59], Some(Piece { code: 13 }));
    // state
    assert_eq!(game.color, WHITE);
    assert_eq!(game.castling, CastlingRights::all());
    assert_eq!(game.ep, None);
    assert_eq!(game.half_move, 0);
    assert_eq!(game.full_move, 1);
}

#[test]
fn castling_rights_narrow_and_widen() {
    let mut rights = CastlingRights::none();
    assert_eq!(rights.as_u8(), 0);
    assert_eq!(rights.as_usize(), 0);

    rights.add(CastlingRights::wkingside());
    rights.add(CastlingRights::wqueenside());
    assert_eq!(rights.as_u8(), 3);

    rights.add(CastlingRights::bkingside());
    rights.add(CastlingRights::bqueenside());
    assert_eq!(rights, CastlingRights::all());
    assert_eq!(rights.as_u8(), 15);

    rights.clear(CastlingRights::wkingside());
    assert_eq!(rights.as_u8(), 14);
    // clearing an absent permission is a no-op
    rights.clear(CastlingRights::wkingside());
    assert_eq!(rights.as_u8(), 14);
    rights.clear(CastlingRights::all());
    assert_eq!(rights.as_u8(), 0);
}

#[test]
fn piece_codes_and_weights() {
    let white_queen = Piece::new(5, WHITE);
    assert_eq!(white_queen.idx(), 12);
    assert_eq!(white_queen.kind(), 12);
    assert_eq!(white_queen.color(), WHITE);
    assert_eq!(white_queen.weight(0), 1025);
    assert_eq!(white_queen.weight(1), 936);

    let black_pawn = Piece::new(0, BLACK);
    assert_eq!(black_pawn.idx(), 3);
    assert_eq!(black_pawn.kind(), 2);
    assert_eq!(black_pawn.color(), BLACK);
    assert_eq!(black_pawn.weight(0), 82);
    assert_eq!(black_pawn.weight(1), 94);

    let black_king = Piece::new(2, BLACK);
    assert_eq!(black_king.idx(), 7);
    assert_eq!(black_king.weight(0), 0);
    assert_eq!(black_king.weight(1), 0);
}

#[test]
fn color_index_and_sign() {
    assert_eq!(WHITE.idx(), 0);
    assert_eq!(BLACK.idx(), 1);
    assert_eq!(WHITE.sign(), 1);
    assert_eq!(BLACK.sign(), -1);
    assert_eq!(WHITE, Color::White);
    assert_eq!(BLACK, Color::Black);
}

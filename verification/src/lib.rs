//! Core state representation and static evaluation for a chess engine:
//! bitboard primitives, castling rights, the position aggregate, and a
//! tapered (middlegame/endgame-interpolated) evaluation function.

pub mod bitboard;
pub mod bits;
pub mod castling;
pub mod evaluation;
pub mod game;
pub mod notation;
pub mod piece;
pub mod tables;

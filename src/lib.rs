//! A two-player chess board: piece placement, turn order, and a move-legality
//! engine with simplified movement rules (no check, castling, en passant or
//! promotion).

pub mod board;
pub mod display;
pub mod game;
pub mod laws;
pub mod legality;
pub mod piece;

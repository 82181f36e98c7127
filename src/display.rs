use vstd::prelude::*;

use crate::piece::{ChessPiece, PieceType, Player};

verus! {

/// The column of the sprite sheet that holds the glyph of `kind`.
pub open spec fn sprite_column(kind: PieceType) -> int {
    match kind {
        PieceType::King => 0,
        PieceType::Queen => 1,
        PieceType::Bishop => 2,
        PieceType::Knight => 3,
        PieceType::Rook => 4,
        PieceType::Pawn => 5,
    }
}

/// The row of the sprite sheet that holds the glyphs of `color`.
pub open spec fn sprite_row(color: Player) -> int {
    match color {
        Player::White => 0,
        Player::Black => 1,
    }
}

/// The cell `(column, row)` of the sprite sheet that holds the glyph of `p`.
pub fn sprite_cell(p: ChessPiece) -> (r: (u8, u8))
    ensures
        r.0 == sprite_column(p.piece),
        r.1 == sprite_row(p.color),
{
    let column: u8 = match p.piece {
        PieceType::King => 0,
        PieceType::Queen => 1,
        PieceType::Bishop => 2,
        PieceType::Knight => 3,
        PieceType::Rook => 4,
        PieceType::Pawn => 5,
    };
    let row: u8 = match p.color {
        Player::White => 0,
        Player::Black => 1,
    };
    (column, row)
}

/// Whether square `(x, y)` is painted in the dark tile colour; `(0, 0)` is light.
pub fn is_dark_tile(x: usize, y: usize) -> (r: bool)
    requires
        x < 8,
        y < 8,
    ensures
        r == ((x + y) % 2 == 1),
{
    (x + y + 1) % 2 == 0
}

} // verus!

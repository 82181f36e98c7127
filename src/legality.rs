use vstd::prelude::*;

use crate::board::{in_board, Board};
use crate::piece::{ChessPiece, PieceType, Player};

verus! {

/// Absolute value.
pub open spec fn abs(v: int) -> int {
    if v < 0 {
        -v
    } else {
        v
    }
}

/// -1, 0 or 1, after the sign of `v`.
pub open spec fn sign(v: int) -> int {
    if v > 0 {
        1
    } else if v < 0 {
        -1
    } else {
        0
    }
}

/// Whether an offset `(dx, dy)` runs along a file, a rank or a diagonal.
pub open spec fn on_line(dx: int, dy: int) -> bool {
    dx == 0 || dy == 0 || abs(dx) == abs(dy)
}

/// The coordinate reached from `s` after `k` unit steps in direction `u`.
pub open spec fn step_to(s: int, u: int, k: int) -> int {
    if u > 0 {
        s + k
    } else if u < 0 {
        s - k
    } else {
        s
    }
}

/// The first number of unit steps in direction `u` after which the coordinate
/// `s` has left the board (for `u != 0`).
pub open spec fn exit_steps(s: int, u: int) -> int {
    if u > 0 {
        8 - s
    } else {
        s + 1
    }
}

/// The number of unit steps after which the clearance walk from `(sx, sy)`
/// towards `(tx, ty)` stops: on reaching the destination along a line, else on
/// leaving the board. The squares at steps `1 .. walk_len` are the ones examined.
pub open spec fn walk_len(sx: int, sy: int, tx: int, ty: int) -> int {
    let dx = tx - sx;
    let dy = ty - sy;
    if on_line(dx, dy) {
        if abs(dx) > abs(dy) {
            abs(dx)
        } else {
            abs(dy)
        }
    } else {
        let ex = exit_steps(sx, sign(dx));
        let ey = exit_steps(sy, sign(dy));
        if ex < ey {
            ex
        } else {
            ey
        }
    }
}

/// The rank a pawn of `color` advances towards: -1 for White, +1 for Black.
pub open spec fn pawn_direction(color: Player) -> int {
    match color {
        Player::White => -1,
        Player::Black => 1,
    }
}

/// The rank on which the pawns of `color` start.
pub open spec fn pawn_start_rank(color: Player) -> int {
    match color {
        Player::White => 6,
        Player::Black => 1,
    }
}

/// The movement rule of each piece kind, for an offset `(dx, dy)` from rank `sy`,
/// given whether the destination is occupied and whether the path is clear.
pub open spec fn piece_rule(
    p: ChessPiece,
    sy: int,
    dx: int,
    dy: int,
    capture: bool,
    clear: bool,
) -> bool {
    match p.piece {
        PieceType::Pawn => {
            sign(dy) == pawn_direction(p.color) && ((!capture && clear && dx == 0 && abs(dy) <= (
            if sy == pawn_start_rank(p.color) {
                2int
            } else {
                1int
            })) || (capture && abs(dx) == 1 && abs(dy) == 1))
        },
        PieceType::Knight => (abs(dx) == 2 && abs(dy) == 1) || (abs(dx) == 1 && abs(dy) == 2),
        PieceType::Bishop => clear && abs(dx) == abs(dy),
        PieceType::Rook => clear && (dx == 0 || dy == 0),
        PieceType::Queen => clear && (abs(dx) == abs(dy) || dx == 0 || dy == 0),
        PieceType::King => abs(dx) <= 1 && abs(dy) <= 1,
    }
}

impl Board {
    /// Whether every square the clearance walk from `(sx, sy)` towards `(tx, ty)`
    /// examines is empty.
    pub open spec fn path_clear(&self, sx: int, sy: int, tx: int, ty: int) -> bool {
        forall|k: int|
            1 <= k < walk_len(sx, sy, tx, ty) ==> (#[trigger] self.piece_at(
                step_to(sx, sign(tx - sx), k),
                step_to(sy, sign(ty - sy), k),
            )) is None
    }

    /// Whether moving from `(sx, sy)` to `(tx, ty)` is legal on this board.
    pub open spec fn legal_move(&self, sx: int, sy: int, tx: int, ty: int) -> bool {
        &&& in_board(sx, sy)
        &&& in_board(tx, ty)
        &&& !(sx == tx && sy == ty)
        &&& match self.piece_at(sx, sy) {
            None => false,
            Some(p) => {
                &&& p.color == self.side()
                &&& match self.piece_at(tx, ty) {
                    Some(q) => q.color != p.color,
                    None => true,
                }
                &&& piece_rule(
                    p,
                    sy,
                    tx - sx,
                    ty - sy,
                    self.piece_at(tx, ty) is Some,
                    self.path_clear(sx, sy, tx, ty),
                )
            },
        }
    }

    /// Walks unit steps from `(sx, sy)` towards `(tx, ty)`, stopping at the
    /// destination or at the edge of the board, and tells whether every square
    /// passed over is empty.
    pub fn is_path_clear(&self, sx: usize, sy: usize, tx: usize, ty: usize) -> (r: bool)
        requires
            sx < 8,
            sy < 8,
            tx < 8,
            ty < 8,
        ensures
            r == self.path_clear(sx as int, sy as int, tx as int, ty as int),
    {
        let ux: isize = if tx > sx {
            1
        } else if tx < sx {
            -1
        } else {
            0
        };
        let uy: isize = if ty > sy {
            1
        } else if ty < sy {
            -1
        } else {
            0
        };
        let ghost len = walk_len(sx as int, sy as int, tx as int, ty as int);
        let ghost mut k: int = 1;
        let mut x: isize = sx as isize + ux;
        let mut y: isize = sy as isize + uy;
        while (x != tx as isize || y != ty as isize) && 0 <= x && x < 8 && 0 <= y && y < 8
            invariant
                ux == sign(tx - sx),
                uy == sign(ty - sy),
                len == walk_len(sx as int, sy as int, tx as int, ty as int),
                1 <= k,
                k <= len || (len == 0 && k == 1),
                x == step_to(sx as int, ux as int, k),
                y == step_to(sy as int, uy as int, k),
                forall|j: int|
                    1 <= j < k ==> (#[trigger] self.piece_at(
                        step_to(sx as int, ux as int, j),
                        step_to(sy as int, uy as int, j),
                    )) is None,
            decreases len - k,
        {
            if self.occupant_at(x as usize, y as usize).is_some() {
                return false;
            }
            proof {
                k = k + 1;
            }
            x = x + ux;
            y = y + uy;
        }
        true
    }

    /// Whether moving from `(sx, sy)` to `(tx, ty)` is legal: the squares differ,
    /// the origin holds a piece of the side to move, the destination holds no piece
    /// of that side, and the piece's movement rule allows the offset.
    pub fn is_legal(&self, sx: usize, sy: usize, tx: usize, ty: usize) -> (r: bool)
        requires
            sx < 8,
            sy < 8,
            tx < 8,
            ty < 8,
        ensures
            r == self.legal_move(sx as int, sy as int, tx as int, ty as int),
    {
        if sx == tx && sy == ty {
            return false;
        }
        let start = match self.occupant_at(sx, sy) {
            Some(p) => p,
            None => {
                return false;
            },
        };
        if start.color != self.side_to_move() {
            return false;
        }
        let capture = match self.occupant_at(tx, ty) {
            Some(dest) => {
                if dest.color == start.color {
                    return false;
                }
                true
            },
            None => false,
        };
        let dx: isize = tx as isize - sx as isize;
        let dy: isize = ty as isize - sy as isize;
        let abs_dx: isize = if dx < 0 {
            -dx
        } else {
            dx
        };
        let abs_dy: isize = if dy < 0 {
            -dy
        } else {
            dy
        };
        let dy_sign: isize = if dy > 0 {
            1
        } else if dy < 0 {
            -1
        } else {
            0
        };
        let is_clear = self.is_path_clear(sx, sy, tx, ty);
        match start.piece {
            PieceType::Pawn => {
                let dir: isize = match start.color {
                    Player::White => -1,
                    Player::Black => 1,
                };
                let start_rank: usize = match start.color {
                    Player::White => 6,
                    Player::Black => 1,
                };
                let reach: isize = if sy == start_rank {
                    2
                } else {
                    1
                };
                dy_sign == dir && ((!capture && is_clear && dx == 0 && abs_dy <= reach) || (capture
                    && abs_dx == 1 && abs_dy == 1))
            },
            PieceType::Knight => (abs_dx == 2 && abs_dy == 1) || (abs_dx == 1 && abs_dy == 2),
            PieceType::Bishop => is_clear && abs_dx == abs_dy,
            PieceType::Rook => is_clear && (abs_dx == 0 || abs_dy == 0),
            PieceType::Queen => is_clear && (abs_dx == abs_dy || abs_dx == 0 || abs_dy == 0),
            PieceType::King => abs_dx <= 1 && abs_dy <= 1,
        }
    }
}

} // verus!

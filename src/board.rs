use vstd::prelude::*;

use crate::piece::{ChessPiece, PieceType, Player};

verus! {

/// Number of files, and of ranks, on the board.
pub const BOARD_SIZE: usize = 8;

/// Whether `(x, y)` names one of the 64 squares.
pub open spec fn in_board(x: int, y: int) -> bool {
    0 <= x < 8 && 0 <= y < 8
}

/// The piece kind that starts on file `x` of a back rank.
pub open spec fn back_rank_kind(x: int) -> PieceType {
    if x == 0 || x == 7 {
        PieceType::Rook
    } else if x == 1 || x == 6 {
        PieceType::Knight
    } else if x == 2 || x == 5 {
        PieceType::Bishop
    } else if x == 3 {
        PieceType::Queen
    } else {
        PieceType::King
    }
}

/// What stands on `(x, y)` in the standard starting position.
pub open spec fn initial_occupant(x: int, y: int) -> Option<ChessPiece> {
    if y == 0 {
        Some(ChessPiece { piece: back_rank_kind(x), color: Player::Black })
    } else if y == 1 {
        Some(ChessPiece { piece: PieceType::Pawn, color: Player::Black })
    } else if y == 6 {
        Some(ChessPiece { piece: PieceType::Pawn, color: Player::White })
    } else if y == 7 {
        Some(ChessPiece { piece: back_rank_kind(x), color: Player::White })
    } else {
        None
    }
}

/// The 8x8 grid of squares and the side to move.
///
/// Squares are addressed by `(file, rank)`; the grid is stored flat, file-major.
/// Pieces are placed only when the board is built and moved only by `apply_move`.
pub struct Board {
    squares: [Option<ChessPiece>; 64],
    current_player: Player,
}

impl Board {
    /// The occupant of square `(x, y)`.
    pub closed spec fn piece_at(&self, x: int, y: int) -> Option<ChessPiece> {
        self.squares@[8 * x + y]
    }

    /// The side whose turn it is.
    pub closed spec fn side(&self) -> Player {
        self.current_player
    }

    /// 1 when `(x, y)` is occupied, else 0.
    pub open spec fn occupied(&self, x: int, y: int) -> int {
        if self.piece_at(x, y) is Some {
            1
        } else {
            0
        }
    }

    /// Number of occupied squares among ranks `0 .. m` of file `x`.
    pub open spec fn file_count(&self, x: int, m: int) -> int
        decreases m,
    {
        if m <= 0 {
            0
        } else {
            self.file_count(x, m - 1) + self.occupied(x, m - 1)
        }
    }

    /// Number of occupied squares among files `0 .. n`.
    pub open spec fn files_count(&self, n: int) -> int
        decreases n,
    {
        if n <= 0 {
            0
        } else {
            self.files_count(n - 1) + self.file_count(n - 1, 8)
        }
    }

    /// Number of pieces on the board.
    pub open spec fn piece_count(&self) -> int {
        self.files_count(8)
    }

    /// `next` is this board after the occupant of `(sx, sy)` went to `(tx, ty)`:
    /// the origin is emptied, whatever stood on the destination is gone, every other
    /// square is kept, and the turn has passed to the other side.
    pub open spec fn is_move_result(&self, next: Board, sx: int, sy: int, tx: int, ty: int) -> bool {
        &&& next.side() == self.side().spec_opponent()
        &&& next.piece_at(tx, ty) == self.piece_at(sx, sy)
        &&& next.piece_at(sx, sy) is None
        &&& forall|x: int, y: int|
            in_board(x, y) && !(x == sx && y == sy) && !(x == tx && y == ty) ==> #[trigger] next.piece_at(
                x,
                y,
            ) == self.piece_at(x, y)
    }

    /// The standard starting position, White to move.
    pub fn new() -> (b: Board)
        ensures
            b.side() == Player::White,
            forall|x: int, y: int| in_board(x, y) ==> #[trigger] b.piece_at(x, y) == initial_occupant(x, y),
    {
        let mut squares: [Option<ChessPiece>; 64] = [None; 64];
        let mut x: usize = 0;
        while x < BOARD_SIZE
            invariant
                x <= 8,
                forall|i: int, j: int|
                    in_board(i, j) ==> #[trigger] squares@[8 * i + j] == if i < x {
                        initial_occupant(i, j)
                    } else {
                        None
                    },
            decreases 8 - x,
        {
            let kind = if x == 0 || x == 7 {
                PieceType::Rook
            } else if x == 1 || x == 6 {
                PieceType::Knight
            } else if x == 2 || x == 5 {
                PieceType::Bishop
            } else if x == 3 {
                PieceType::Queen
            } else {
                PieceType::King
            };
            squares[8 * x] = Some(ChessPiece { piece: kind, color: Player::Black });
            squares[8 * x + 1] = Some(ChessPiece { piece: PieceType::Pawn, color: Player::Black });
            squares[8 * x + 6] = Some(ChessPiece { piece: PieceType::Pawn, color: Player::White });
            squares[8 * x + 7] = Some(ChessPiece { piece: kind, color: Player::White });
            assert forall|i: int, j: int| in_board(i, j) implies #[trigger] squares@[8 * i + j] == if i < x + 1 {
                initial_occupant(i, j)
            } else {
                None
            } by {
                if i == x {
                    assert(j == 0 || j == 1 || j == 6 || j == 7 || squares@[8 * i + j] is None);
                }
            }
            x = x + 1;
        }
        Board { squares, current_player: Player::White }
    }

    /// A board holding `grid[x][y]` on each square `(x, y)`, with `side_to_move` to move.
    pub fn from_squares(grid: [[Option<ChessPiece>; 8]; 8], side_to_move: Player) -> (b: Board)
        ensures
            b.side() == side_to_move,
            forall|x: int, y: int| in_board(x, y) ==> #[trigger] b.piece_at(x, y) == grid@[x]@[y],
    {
        let mut squares: [Option<ChessPiece>; 64] = [None; 64];
        let mut x: usize = 0;
        while x < BOARD_SIZE
            invariant
                x <= 8,
                forall|i: int, j: int|
                    0 <= i < x && 0 <= j < 8 ==> #[trigger] squares@[8 * i + j] == grid@[i]@[j],
            decreases 8 - x,
        {
            let row = grid[x];
            let mut y: usize = 0;
            while y < BOARD_SIZE
                invariant
                    x < 8,
                    y <= 8,
                    row == grid@[x as int],
                    forall|i: int, j: int|
                        ((0 <= i < x && 0 <= j < 8) || (i == x && 0 <= j < y)) ==> #[trigger] squares@[8 * i
                            + j] == grid@[i]@[j],
                decreases 8 - y,
            {
                squares[8 * x + y] = row[y];
                y = y + 1;
            }
            x = x + 1;
        }
        Board { squares, current_player: side_to_move }
    }

    /// The occupant of square `(x, y)`, if any.
    pub fn occupant_at(&self, x: usize, y: usize) -> (r: Option<ChessPiece>)
        requires
            x < 8,
            y < 8,
        ensures
            r == self.piece_at(x as int, y as int),
    {
        self.squares[8 * x + y]
    }

    /// The side whose turn it is.
    pub fn side_to_move(&self) -> (r: Player)
        ensures
            r == self.side(),
    {
        self.current_player
    }

    /// Passes the turn to the other side.
    fn switch_player(&mut self)
        ensures
            final(self).side() == old(self).side().spec_opponent(),
            final(self).squares == old(self).squares,
    {
        self.current_player = self.current_player.opponent();
    }

    /// Moves the occupant of `(sx, sy)` to `(tx, ty)`, capturing whatever stood
    /// there, and passes the turn. The caller has checked the move with `is_legal`.
    pub fn apply_move(&mut self, sx: usize, sy: usize, tx: usize, ty: usize)
        requires
            old(self).legal_move(sx as int, sy as int, tx as int, ty as int),
        ensures
            old(self).is_move_result(*final(self), sx as int, sy as int, tx as int, ty as int),
            final(self).piece_count() == old(self).piece_count() - old(self).occupied(
                tx as int,
                ty as int,
            ),
    {
        let ghost before = *self;
        let moving = self.squares[8 * sx + sy];
        self.squares[8 * tx + ty] = moving;
        self.squares[8 * sx + sy] = None;
        self.switch_player();
        assert forall|x: int, y: int|
            in_board(x, y) && !(x == sx && y == sy) && !(x == tx && y == ty) implies #[trigger] self.piece_at(
                x,
                y,
            ) == before.piece_at(x, y) by {}
        proof {
            lemma_count_two_changes(before, *self, sx as int, sy as int, tx as int, ty as int);
        }
    }

    /// Applies the move from `(sx, sy)` to `(tx, ty)` when it is legal and tells
    /// whether it did; an illegal move leaves the board, and the turn, as they were.
    pub fn try_move(&mut self, sx: usize, sy: usize, tx: usize, ty: usize) -> (r: bool)
        requires
            sx < 8,
            sy < 8,
            tx < 8,
            ty < 8,
        ensures
            r == old(self).legal_move(sx as int, sy as int, tx as int, ty as int),
            r ==> old(self).is_move_result(*final(self), sx as int, sy as int, tx as int, ty as int),
            r ==> final(self).side() == old(self).side().spec_opponent(),
            !r ==> *final(self) == *old(self),
    {
        if self.is_legal(sx, sy, tx, ty) {
            self.apply_move(sx, sy, tx, ty);
            true
        } else {
            false
        }
    }

    /// Number of pieces on the board.
    pub fn count_pieces(&self) -> (r: usize)
        ensures
            r == self.piece_count(),
    {
        let mut total: usize = 0;
        let mut x: usize = 0;
        while x < BOARD_SIZE
            invariant
                x <= 8,
                total == self.files_count(x as int),
                total <= 8 * x,
            decreases 8 - x,
        {
            let mut y: usize = 0;
            let mut in_file: usize = 0;
            while y < BOARD_SIZE
                invariant
                    x < 8,
                    y <= 8,
                    in_file == self.file_count(x as int, y as int),
                    in_file <= y,
                decreases 8 - y,
            {
                if self.occupant_at(x, y).is_some() {
                    in_file = in_file + 1;
                }
                y = y + 1;
            }
            total = total + in_file;
            x = x + 1;
        }
        total
    }
}

/// How much square `(x, y)` adds to the count of `b2` over that of `b1`.
pub open spec fn count_delta(b1: Board, b2: Board, x: int, y: int) -> int {
    b2.occupied(x, y) - b1.occupied(x, y)
}

/// Whether `b1` and `b2` hold the same occupant on every square but `p` and `q`.
pub open spec fn agree_except(b1: Board, b2: Board, px: int, py: int, qx: int, qy: int) -> bool {
    forall|x: int, y: int|
        in_board(x, y) && !(x == px && y == py) && !(x == qx && y == qy) ==> #[trigger] b2.piece_at(x, y)
            == b1.piece_at(x, y)
}

proof fn lemma_file_count_two_changes(
    b1: Board,
    b2: Board,
    px: int,
    py: int,
    qx: int,
    qy: int,
    x: int,
    m: int,
)
    requires
        agree_except(b1, b2, px, py, qx, qy),
        in_board(px, py),
        in_board(qx, qy),
        !(px == qx && py == qy),
        0 <= x < 8,
        0 <= m <= 8,
    ensures
        b2.file_count(x, m) == b1.file_count(x, m) + (if x == px && py < m {
            count_delta(b1, b2, px, py)
        } else {
            0
        }) + (if x == qx && qy < m {
            count_delta(b1, b2, qx, qy)
        } else {
            0
        }),
    decreases m,
{
    if m > 0 {
        lemma_file_count_two_changes(b1, b2, px, py, qx, qy, x, m - 1);
        if !(x == px && m - 1 == py) && !(x == qx && m - 1 == qy) {
            assert(b2.piece_at(x, m - 1) == b1.piece_at(x, m - 1));
        }
    }
}

proof fn lemma_files_count_two_changes(
    b1: Board,
    b2: Board,
    px: int,
    py: int,
    qx: int,
    qy: int,
    n: int,
)
    requires
        agree_except(b1, b2, px, py, qx, qy),
        in_board(px, py),
        in_board(qx, qy),
        !(px == qx && py == qy),
        0 <= n <= 8,
    ensures
        b2.files_count(n) == b1.files_count(n) + (if px < n {
            count_delta(b1, b2, px, py)
        } else {
            0
        }) + (if qx < n {
            count_delta(b1, b2, qx, qy)
        } else {
            0
        }),
    decreases n,
{
    if n > 0 {
        lemma_files_count_two_changes(b1, b2, px, py, qx, qy, n - 1);
        lemma_file_count_two_changes(b1, b2, px, py, qx, qy, n - 1, 8);
    }
}

/// Two boards that differ on at most the squares `p` and `q` differ in piece count
/// by what those two squares contribute.
pub proof fn lemma_count_two_changes(b1: Board, b2: Board, px: int, py: int, qx: int, qy: int)
    requires
        agree_except(b1, b2, px, py, qx, qy),
        in_board(px, py),
        in_board(qx, qy),
        !(px == qx && py == qy),
    ensures
        b2.piece_count() == b1.piece_count() + count_delta(b1, b2, px, py) + count_delta(
            b1,
            b2,
            qx,
            qy,
        ),
{
    lemma_files_count_two_changes(b1, b2, px, py, qx, qy, 8);
}

} // verus!

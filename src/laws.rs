use vstd::prelude::*;

use crate::board::{lemma_count_two_changes, Board};

verus! {

/// A move never leaves its piece where it stands: no square is a legal
/// destination from itself.
pub proof fn lemma_no_self_move(b: Board, x: int, y: int)
    ensures
        !b.legal_move(x, y, x, y),
{
}

/// A piece that does not belong to the side to move cannot be moved, whatever
/// its destination.
pub proof fn lemma_turn_enforced(b: Board, sx: int, sy: int, tx: int, ty: int)
    requires
        b.piece_at(sx, sy) is Some,
        b.piece_at(sx, sy)->0.color != b.side(),
    ensures
        !b.legal_move(sx, sy, tx, ty),
{
}

/// No move ends on a square held by a piece of the side to move.
pub proof fn lemma_no_self_capture(b: Board, sx: int, sy: int, tx: int, ty: int)
    requires
        b.piece_at(tx, ty) is Some,
        b.piece_at(tx, ty)->0.color == b.side(),
    ensures
        !b.legal_move(sx, sy, tx, ty),
{
}

/// A legal move changes the piece count by the capture it makes: one piece
/// fewer when the destination was occupied, the same count otherwise.
pub proof fn lemma_move_conserves_pieces(b: Board, next: Board, sx: int, sy: int, tx: int, ty: int)
    requires
        b.legal_move(sx, sy, tx, ty),
        b.is_move_result(next, sx, sy, tx, ty),
    ensures
        next.piece_count() == b.piece_count() - b.occupied(tx, ty),
        next.piece_count() <= b.piece_count(),
{
    lemma_count_two_changes(b, next, sx, sy, tx, ty);
}

/// `boards` is a game played by `moves`: each move `(sx, sy, tx, ty)` is legal on
/// the board before it and leads to the board after it.
pub open spec fn is_game(boards: Seq<Board>, moves: Seq<(int, int, int, int)>) -> bool {
    &&& boards.len() == moves.len() + 1
    &&& forall|i: int|
        0 <= i < moves.len() ==> {
            let (sx, sy, tx, ty) = #[trigger] moves[i];
            &&& boards[i].legal_move(sx, sy, tx, ty)
            &&& boards[i].is_move_result(boards[i + 1], sx, sy, tx, ty)
        }
}

/// Number of the first `n` moves that capture a piece.
pub open spec fn captures(boards: Seq<Board>, moves: Seq<(int, int, int, int)>, n: int) -> int
    decreases n,
{
    if n <= 0 {
        0
    } else {
        captures(boards, moves, n - 1) + boards[n - 1].occupied(moves[n - 1].2, moves[n - 1].3)
    }
}

/// Over a game of legal moves the piece count never rises, and after `n` moves it
/// has fallen by exactly the number of capturing moves among them.
pub proof fn lemma_game_conserves_pieces(boards: Seq<Board>, moves: Seq<(int, int, int, int)>, n: int)
    requires
        is_game(boards, moves),
        0 <= n <= moves.len(),
    ensures
        boards[n].piece_count() == boards[0].piece_count() - captures(boards, moves, n),
        boards[n].piece_count() <= boards[0].piece_count(),
    decreases n,
{
    if n > 0 {
        lemma_game_conserves_pieces(boards, moves, n - 1);
        let (sx, sy, tx, ty) = moves[n - 1];
        lemma_move_conserves_pieces(boards[n - 1], boards[n], sx, sy, tx, ty);
    }
}

} // verus!

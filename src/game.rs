use vstd::prelude::*;

use crate::board::{in_board, initial_occupant, Board};
use crate::piece::Player;

verus! {

/// A board together with the two-click selection protocol: a first click picks an
/// origin square holding a piece, the next click proposes a destination.
pub struct Game {
    board: Board,
    selected: Option<(usize, usize)>,
}

impl Game {
    /// The board being played on.
    pub closed spec fn spec_board(&self) -> Board {
        self.board
    }

    /// The origin square picked by the last click, if a move is pending.
    pub closed spec fn spec_selected(&self) -> Option<(usize, usize)> {
        self.selected
    }

    /// A pending origin lies on the board.
    pub open spec fn wf(&self) -> bool {
        match self.spec_selected() {
            Some((x, y)) => in_board(x as int, y as int),
            None => true,
        }
    }

    /// A game from the standard starting position with nothing selected.
    pub fn new() -> (g: Game)
        ensures
            g.wf(),
            g.spec_selected() is None,
            g.spec_board().side() == Player::White,
            forall|x: int, y: int|
                in_board(x, y) ==> #[trigger] g.spec_board().piece_at(x, y)
                    == initial_occupant(x, y),
    {
        Game { board: Board::new(), selected: None }
    }

    /// A game on `board` with nothing selected.
    pub fn from_board(board: Board) -> (g: Game)
        ensures
            g.wf(),
            g.spec_selected() is None,
            g.spec_board() == board,
    {
        Game { board, selected: None }
    }

    /// The board being played on.
    pub fn board(&self) -> (r: &Board)
        ensures
            *r == self.spec_board(),
    {
        &self.board
    }

    /// The origin square picked by the last click, if a move is pending.
    pub fn selected(&self) -> (r: Option<(usize, usize)>)
        ensures
            r == self.spec_selected(),
    {
        self.selected
    }

    /// Handles a click on square `(x, y)` and tells whether a move was made.
    ///
    /// With nothing selected, the square becomes the pending origin if it holds a
    /// piece, and the board is untouched. With an origin pending, the move from it to
    /// `(x, y)` is made if it is legal, and the selection is cleared either way.
    pub fn click(&mut self, x: usize, y: usize) -> (moved: bool)
        requires
            old(self).wf(),
            x < 8,
            y < 8,
        ensures
            final(self).wf(),
            match old(self).spec_selected() {
                None => {
                    &&& !moved
                    &&& final(self).spec_board() == old(self).spec_board()
                    &&& final(self).spec_selected() == if old(self).spec_board().piece_at(
                        x as int,
                        y as int,
                    ) is Some {
                        Some((x, y))
                    } else {
                        None
                    }
                },
                Some((sx, sy)) => {
                    &&& moved == old(self).spec_board().legal_move(
                        sx as int,
                        sy as int,
                        x as int,
                        y as int,
                    )
                    &&& moved ==> old(self).spec_board().is_move_result(
                        final(self).spec_board(),
                        sx as int,
                        sy as int,
                        x as int,
                        y as int,
                    )
                    &&& !moved ==> final(self).spec_board() == old(self).spec_board()
                    &&& final(self).spec_selected() is None
                },
            },
    {
        match self.selected {
            None => {
                if self.board.occupant_at(x, y).is_some() {
                    self.selected = Some((x, y));
                }
                false
            },
            Some((sx, sy)) => {
                let moved = self.board.try_move(sx, sy, x, y);
                self.selected = None;
                moved
            },
        }
    }
}

} // verus!

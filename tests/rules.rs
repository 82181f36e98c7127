use chess::board::Board;
use chess::display::{is_dark_tile, sprite_cell};
use chess::game::Game;
use chess::piece::{ChessPiece, PieceType, Player};

fn piece(piece: PieceType, color: Player) -> Option<ChessPiece> {
    Some(ChessPiece { piece, color })
}

fn empty_grid() -> [[Option<ChessPiece>; 8]; 8] {
    [[None; 8]; 8]
}

#[test]
fn no_self_move_anywhere() {
    let b = Board::new();
    for x in 0..8 {
        for y in 0..8 {
            assert!(!b.is_legal(x, y, x, y));
        }
    }
}

#[test]
fn empty_origin_is_rejected() {
    let b = Board::new();
    assert!(!b.is_legal(3, 4, 3, 3));
}

#[test]
fn opponent_piece_cannot_be_moved() {
    let b = Board::new();
    // Black pawn, a geometrically fine move, but White is to move.
    assert!(!b.is_legal(0, 1, 0, 2));
    let mut grid = empty_grid();
    grid[4][4] = piece(PieceType::Queen, Player::White);
    let b = Board::from_squares(grid, Player::Black);
    assert!(!b.is_legal(4, 4, 4, 0));
    assert!(!b.is_legal(4, 4, 5, 5));
}

#[test]
fn own_piece_cannot_be_captured() {
    let mut grid = empty_grid();
    grid[4][4] = piece(PieceType::Knight, Player::White);
    grid[6][5] = piece(PieceType::Pawn, Player::White);
    grid[2][5] = piece(PieceType::Pawn, Player::Black);
    let b = Board::from_squares(grid, Player::White);
    assert!(!b.is_legal(4, 4, 6, 5));
    assert!(b.is_legal(4, 4, 2, 5));
}

#[test]
fn turn_alternates_only_on_accepted_moves() {
    let mut b = Board::new();
    assert_eq!(b.side_to_move(), Player::White);
    assert!(!b.try_move(0, 7, 0, 5));
    assert_eq!(b.side_to_move(), Player::White);
    assert!(b.try_move(0, 6, 0, 4));
    assert_eq!(b.side_to_move(), Player::Black);
    assert!(!b.try_move(0, 4, 0, 3));
    assert_eq!(b.side_to_move(), Player::Black);
    assert!(b.try_move(1, 1, 1, 3));
    assert_eq!(b.side_to_move(), Player::White);
}

#[test]
fn pieces_are_conserved_and_captures_remove_one() {
    let mut b = Board::new();
    assert_eq!(b.count_pieces(), 32);
    assert!(b.try_move(4, 6, 4, 4));
    assert_eq!(b.count_pieces(), 32);
    assert!(b.try_move(3, 1, 3, 3));
    assert_eq!(b.count_pieces(), 32);
    // White pawn takes the Black pawn diagonally.
    assert!(b.try_move(4, 4, 3, 3));
    assert_eq!(b.count_pieces(), 31);
    assert_eq!(b.occupant_at(3, 3), piece(PieceType::Pawn, Player::White));
    assert_eq!(b.occupant_at(4, 4), None);
    // Black queen takes it back.
    assert!(b.try_move(3, 0, 3, 3));
    assert_eq!(b.count_pieces(), 30);
    assert_eq!(b.occupant_at(3, 3), piece(PieceType::Queen, Player::Black));
}

#[test]
fn knight_geometry() {
    let targets = [(6, 5), (6, 3), (2, 5), (2, 3), (5, 6), (3, 6), (5, 2), (3, 2)];
    let mut grid = empty_grid();
    grid[4][4] = piece(PieceType::Knight, Player::White);
    let b = Board::from_squares(grid, Player::White);
    for (x, y) in targets {
        assert!(b.is_legal(4, 4, x, y), "({}, {})", x, y);
    }
    assert!(!b.is_legal(4, 4, 4, 6));
    assert!(!b.is_legal(4, 4, 5, 5));
}

#[test]
fn knight_jumps_near_the_edge() {
    let mut grid = empty_grid();
    grid[1][0] = piece(PieceType::Knight, Player::Black);
    let b = Board::from_squares(grid, Player::Black);
    assert!(b.is_legal(1, 0, 0, 2));
    assert!(b.is_legal(1, 0, 2, 2));
    assert!(b.is_legal(1, 0, 3, 1));
}

#[test]
fn rook_obstruction() {
    let mut grid = empty_grid();
    grid[4][7] = piece(PieceType::Rook, Player::White);
    grid[4][5] = piece(PieceType::Pawn, Player::Black);
    let blocked = Board::from_squares(grid, Player::White);
    assert!(!blocked.is_legal(4, 7, 4, 3));
    grid[4][5] = None;
    let open = Board::from_squares(grid, Player::White);
    assert!(open.is_legal(4, 7, 4, 3));
}

#[test]
fn rook_moves_only_along_lines() {
    let mut grid = empty_grid();
    grid[4][7] = piece(PieceType::Rook, Player::White);
    let b = Board::from_squares(grid, Player::White);
    assert!(b.is_legal(4, 7, 0, 7));
    assert!(b.is_legal(4, 7, 4, 0));
    assert!(!b.is_legal(4, 7, 3, 6));
    assert!(!b.is_legal(4, 7, 5, 5));
}

#[test]
fn bishop_and_queen_lines() {
    let mut grid = empty_grid();
    grid[2][7] = piece(PieceType::Bishop, Player::White);
    grid[3][3] = piece(PieceType::Queen, Player::White);
    grid[5][5] = piece(PieceType::Pawn, Player::Black);
    let b = Board::from_squares(grid, Player::White);
    assert!(b.is_legal(2, 7, 7, 2));
    assert!(!b.is_legal(2, 7, 2, 5));
    assert!(b.is_legal(3, 3, 5, 5));
    assert!(!b.is_legal(3, 3, 6, 6));
    assert!(b.is_legal(3, 3, 3, 0));
    assert!(b.is_legal(3, 3, 0, 0));
    assert!(!b.is_legal(3, 3, 4, 5));
}

#[test]
fn king_moves_one_square() {
    let mut grid = empty_grid();
    grid[4][4] = piece(PieceType::King, Player::Black);
    grid[5][5] = piece(PieceType::Rook, Player::White);
    let b = Board::from_squares(grid, Player::Black);
    assert!(b.is_legal(4, 4, 3, 3));
    assert!(b.is_legal(4, 4, 4, 5));
    assert!(b.is_legal(4, 4, 5, 5));
    assert!(!b.is_legal(4, 4, 4, 6));
    assert!(!b.is_legal(4, 4, 6, 4));
}

#[test]
fn pawn_double_step_only_from_start_rank() {
    let x = 3;
    let mut grid = empty_grid();
    grid[x][6] = piece(PieceType::Pawn, Player::White);
    grid[7][0] = piece(PieceType::King, Player::Black);
    let mut b = Board::from_squares(grid, Player::White);
    assert!(b.is_legal(x, 6, x, 4));
    assert!(b.try_move(x, 6, x, 5));
    assert!(b.try_move(7, 0, 7, 1));
    assert_eq!(b.side_to_move(), Player::White);
    assert!(!b.is_legal(x, 5, x, 3));
    assert!(b.is_legal(x, 5, x, 4));
}

#[test]
fn pawn_double_step_needs_both_squares_empty() {
    let mut grid = empty_grid();
    grid[2][6] = piece(PieceType::Pawn, Player::White);
    grid[2][5] = piece(PieceType::Knight, Player::Black);
    let b = Board::from_squares(grid, Player::White);
    assert!(!b.is_legal(2, 6, 2, 4));
    let mut grid = empty_grid();
    grid[2][6] = piece(PieceType::Pawn, Player::White);
    grid[2][4] = piece(PieceType::Knight, Player::Black);
    let b = Board::from_squares(grid, Player::White);
    assert!(!b.is_legal(2, 6, 2, 4));
    assert!(b.is_legal(2, 6, 2, 5));
}

#[test]
fn pawn_never_slides_sideways_or_back() {
    let mut grid = empty_grid();
    grid[3][4] = piece(PieceType::Pawn, Player::Black);
    grid[4][5] = piece(PieceType::Rook, Player::White);
    grid[2][5] = piece(PieceType::Rook, Player::Black);
    let b = Board::from_squares(grid, Player::Black);
    assert!(!b.is_legal(3, 4, 4, 4));
    assert!(!b.is_legal(3, 4, 3, 3));
    assert!(b.is_legal(3, 4, 3, 5));
    // Diagonal only as a capture.
    assert!(b.is_legal(3, 4, 4, 5));
    assert!(!b.is_legal(3, 4, 2, 5));
    // Straight ahead never captures.
    let mut grid = empty_grid();
    grid[3][4] = piece(PieceType::Pawn, Player::Black);
    grid[3][5] = piece(PieceType::Rook, Player::White);
    let b = Board::from_squares(grid, Player::Black);
    assert!(!b.is_legal(3, 4, 3, 5));
}

#[test]
fn standard_opening() {
    let mut b = Board::new();
    assert!(!b.is_legal(0, 7, 0, 5));
    assert!(b.is_legal(1, 7, 0, 5));
    assert!(b.is_legal(1, 7, 2, 5));
    assert!(b.try_move(0, 6, 0, 4));
    assert!(b.try_move(0, 1, 0, 3));
    assert!(b.is_legal(1, 7, 0, 5));
    assert!(b.is_legal(1, 7, 2, 5));
    // With the pawn gone from (0, 6) the rook's path is open.
    assert!(b.is_legal(0, 7, 0, 5));
    assert!(b.is_legal(0, 7, 0, 6));
}

#[test]
fn initial_layout() {
    let b = Board::new();
    let back = [
        PieceType::Rook,
        PieceType::Knight,
        PieceType::Bishop,
        PieceType::Queen,
        PieceType::King,
        PieceType::Bishop,
        PieceType::Knight,
        PieceType::Rook,
    ];
    for x in 0..8 {
        assert_eq!(b.occupant_at(x, 0), piece(back[x], Player::Black));
        assert_eq!(b.occupant_at(x, 1), piece(PieceType::Pawn, Player::Black));
        assert_eq!(b.occupant_at(x, 6), piece(PieceType::Pawn, Player::White));
        assert_eq!(b.occupant_at(x, 7), piece(back[x], Player::White));
        for y in 2..6 {
            assert_eq!(b.occupant_at(x, y), None);
        }
    }
    assert_eq!(b.side_to_move(), Player::White);
    assert_eq!(b.count_pieces(), 32);
}

#[test]
fn path_clear_walks_between_squares() {
    let mut grid = empty_grid();
    grid[2][2] = piece(PieceType::Pawn, Player::White);
    let b = Board::from_squares(grid, Player::White);
    assert!(!b.is_path_clear(0, 0, 4, 4));
    assert!(b.is_path_clear(0, 0, 2, 2));
    assert!(b.is_path_clear(0, 0, 1, 1));
    assert!(b.is_path_clear(2, 0, 2, 1));
    assert!(!b.is_path_clear(2, 4, 2, 0));
    assert!(b.is_path_clear(3, 3, 3, 3));
}

#[test]
fn apply_move_relocates_and_captures() {
    let mut grid = empty_grid();
    grid[0][0] = piece(PieceType::Rook, Player::White);
    grid[0][5] = piece(PieceType::Bishop, Player::Black);
    let mut b = Board::from_squares(grid, Player::White);
    assert!(b.is_legal(0, 0, 0, 5));
    b.apply_move(0, 0, 0, 5);
    assert_eq!(b.occupant_at(0, 0), None);
    assert_eq!(b.occupant_at(0, 5), piece(PieceType::Rook, Player::White));
    assert_eq!(b.side_to_move(), Player::Black);
    assert_eq!(b.count_pieces(), 1);
}

#[test]
fn opponent_switches_sides() {
    assert_eq!(Player::White.opponent(), Player::Black);
    assert_eq!(Player::Black.opponent(), Player::White);
}

#[test]
fn clicks_select_then_move() {
    let mut g = Game::new();
    // An empty square selects nothing.
    assert!(!g.click(4, 4));
    assert_eq!(g.selected(), None);
    assert!(!g.click(4, 6));
    assert_eq!(g.selected(), Some((4, 6)));
    assert!(g.click(4, 4));
    assert_eq!(g.selected(), None);
    assert_eq!(g.board().occupant_at(4, 4), piece(PieceType::Pawn, Player::White));
    assert_eq!(g.board().side_to_move(), Player::Black);
    // An illegal destination drops the selection and keeps the board.
    assert!(!g.click(0, 1));
    assert!(!g.click(0, 4));
    assert_eq!(g.selected(), None);
    assert_eq!(g.board().occupant_at(0, 1), piece(PieceType::Pawn, Player::Black));
    assert_eq!(g.board().side_to_move(), Player::Black);
}

#[test]
fn game_from_board_starts_unselected() {
    let mut grid = empty_grid();
    grid[4][4] = piece(PieceType::Knight, Player::Black);
    let mut g = Game::from_board(Board::from_squares(grid, Player::Black));
    assert_eq!(g.selected(), None);
    assert!(!g.click(4, 4));
    assert!(g.click(2, 3));
    assert_eq!(g.board().occupant_at(2, 3), piece(PieceType::Knight, Player::Black));
}

#[test]
fn sprite_cells() {
    let k = ChessPiece { piece: PieceType::King, color: Player::White };
    assert_eq!(sprite_cell(k), (0, 0));
    let p = ChessPiece { piece: PieceType::Pawn, color: Player::Black };
    assert_eq!(sprite_cell(p), (5, 1));
    let n = ChessPiece { piece: PieceType::Knight, color: Player::Black };
    assert_eq!(sprite_cell(n), (3, 1));
    let r = ChessPiece { piece: PieceType::Rook, color: Player::White };
    assert_eq!(sprite_cell(r), (4, 0));
}

#[test]
fn tile_colours_alternate() {
    assert!(!is_dark_tile(0, 0));
    assert!(is_dark_tile(1, 0));
    assert!(is_dark_tile(0, 1));
    assert!(!is_dark_tile(7, 7));
}

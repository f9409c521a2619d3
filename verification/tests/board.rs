use chess_rules::board::{Board, Shade};
use chess_rules::color::Color;
use chess_rules::piece::Piece;
use chess_rules::square::parse;
use chess_rules::square_set::SquareSet;

fn named(names: &[&str]) -> SquareSet {
    let mut squares = SquareSet::new();
    for name in names {
        squares.insert(parse(name).unwrap());
    }
    squares
}

fn row_text(row: &[char]) -> String {
    row.iter().collect()
}

#[test]
fn black_pawn_must_block_queen() {
    let mut board = Board::new();
    board.do_move("f7", "f5");
    board.do_move("d1", "h5");
    let legal_moves = named(&["g6"]);
    assert_eq!(board.get_legal_squares(&parse("g7").unwrap()), legal_moves)
}

#[test]
fn black_pawn_is_pinned() {
    let mut board = Board::new();
    board.do_move("f7", "f5");
    board.do_move("d1", "h5");
    board.do_move("g7", "g6");
    let legal_moves = named(&["h5"]);
    assert_eq!(board.get_legal_squares(&parse("g6").unwrap()), legal_moves)
}

#[test]
fn pawn_has_two_opening_moves() {
    let board = Board::new();
    let legal_moves = named(&["e3", "e4"]);
    assert_eq!(board.get_legal_squares(&parse("e2").unwrap()), legal_moves)
}

#[test]
fn white_rook_has_valid_moves() {
    let mut board = Board::new();
    board.do_move("a1", "d4");
    let legal_squares =
        named(&["d3", "d5", "d6", "d7", "a4", "b4", "c4", "e4", "f4", "g4", "h4"]);
    assert_eq!(board.get_legal_squares(&parse("d4").unwrap()), legal_squares)
}

#[test]
fn new_board_has_the_starting_position() {
    let board = Board::new();
    let rows = board.create_board();
    assert_eq!(rows.len(), 8);
    assert_eq!(row_text(&rows[0]), "♖♘♝♛♔♝♘♖");
    assert_eq!(row_text(&rows[1]), "♙♙♙♙♙♙♙♙");
    for rank in 2..6 {
        assert_eq!(row_text(&rows[rank]), "________");
    }
    assert_eq!(row_text(&rows[6]), "♟♟♟♟♟♟♟♟");
    assert_eq!(row_text(&rows[7]), "♜♞♗♕♚♗♞♜");
}

#[test]
fn new_board_names_its_pieces() {
    let board = Board::new();
    let names: Vec<String> =
        (0..8).map(|file| board.get_piece_name(&(0, file))).collect();
    assert_eq!(
        names,
        vec!["tårn", "springar", "laupar", "dronning", "konge", "laupar", "springar", "tårn"]
    );
    assert_eq!(board.get_piece_name(&(6, 3)), "bonde");
}

#[test]
fn square_color_is_that_of_the_piece() {
    let board = Board::new();
    for file in 0..8 {
        assert_eq!(board.get_square_color(&(0, file)), Some(Color::White));
        assert_eq!(board.get_square_color(&(1, file)), Some(Color::White));
        assert_eq!(board.get_square_color(&(6, file)), Some(Color::Black));
        assert_eq!(board.get_square_color(&(7, file)), Some(Color::Black));
        for rank in 2..6 {
            assert_eq!(board.get_square_color(&(rank, file)), None);
        }
    }
}

#[test]
fn square_color_off_the_board_is_none() {
    let board = Board::new();
    assert_eq!(board.get_square_color(&(8, 0)), None);
    assert_eq!(board.get_square_color(&(0, 8)), None);
    assert_eq!(board.get_square_color(&(255, 255)), None);
}

#[test]
fn move_piece_relocates_and_updates_the_piece() {
    let mut board = Board::new();
    board.move_piece(&(1, 4), (3, 4));
    assert_eq!(board.get_square_color(&(1, 4)), None);
    assert_eq!(board.get_square_color(&(3, 4)), Some(Color::White));
    assert_eq!(board.get_piece_name(&(3, 4)), "bonde");
    let whites = board.get_pieces_iter(Color::White);
    assert_eq!(whites.len(), 16);
    assert!(whites.iter().any(|piece| *piece.get_position() == (3, 4)));
    assert!(whites.iter().all(|piece| *piece.get_position() != (1, 4)));
}

#[test]
fn move_piece_discards_what_stood_on_the_target() {
    let mut board = Board::new();
    board.move_piece(&(0, 3), (6, 3));
    assert_eq!(board.get_square_color(&(6, 3)), Some(Color::White));
    assert_eq!(board.get_piece_name(&(6, 3)), "dronning");
    assert_eq!(board.get_pieces_iter(Color::Black).len(), 15);
    assert_eq!(board.get_pieces_iter(Color::White).len(), 16);
}

#[test]
fn move_piece_to_its_own_square_changes_nothing() {
    let mut board = Board::new();
    board.move_piece(&(0, 0), (0, 0));
    assert_eq!(board.create_board(), Board::new().create_board());
    assert_eq!(board.get_pieces_iter(Color::White), Board::new().get_pieces_iter(Color::White));
}

#[test]
fn move_piece_asks_nothing_of_the_move() {
    let mut board = Board::new();
    board.move_piece(&(0, 0), (4, 4));
    assert_eq!(board.get_piece_name(&(4, 4)), "tårn");
    board.move_piece(&(4, 4), (7, 4));
    assert_eq!(board.get_piece_name(&(7, 4)), "tårn");
    assert_eq!(board.get_square_color(&(7, 4)), Some(Color::White));
}

#[test]
fn capture_changes_the_board_as_move_piece_does() {
    let mut captured = Board::new();
    let mut moved = Board::new();
    let notice = captured.capture(&(0, 3), (6, 3));
    moved.move_piece(&(0, 3), (6, 3));
    assert_eq!(notice, "dronning fra d1 fangar bonde på d7");
    assert_eq!(captured.create_board(), moved.create_board());
    assert_eq!(captured.get_pieces_iter(Color::White), moved.get_pieces_iter(Color::White));
    assert_eq!(captured.get_pieces_iter(Color::Black), moved.get_pieces_iter(Color::Black));
}

#[test]
fn do_move_reads_either_case() {
    let mut board = Board::new();
    board.do_move("E2", "e4");
    assert_eq!(board.get_square_color(&(3, 4)), Some(Color::White));
    assert_eq!(board.get_square_color(&(1, 4)), None);
}

#[test]
fn nobody_is_in_check_at_the_start() {
    let board = Board::new();
    assert!(!board.is_check(Color::White));
    assert!(!board.is_check(Color::Black));
    assert!(board.get_checked_kings().is_empty());
}

#[test]
fn queen_on_the_open_diagonal_gives_check() {
    let mut board = Board::new();
    board.do_move("f7", "f5");
    board.do_move("d1", "h5");
    assert!(board.is_check(Color::Black));
    assert!(!board.is_check(Color::White));
    assert_eq!(board.get_checked_kings(), vec![&(7, 4)]);
    board.do_move("g7", "g6");
    assert!(!board.is_check(Color::Black));
    assert!(board.get_checked_kings().is_empty());
}

#[test]
fn both_kings_can_be_in_check() {
    let mut board = Board::new();
    board.do_move("f7", "f5");
    board.do_move("d1", "h5");
    board.do_move("f2", "f4");
    board.do_move("d8", "h4");
    assert_eq!(board.get_checked_kings(), vec![&(0, 4), &(7, 4)]);
}

#[test]
fn a_pawn_straight_ahead_of_the_king_gives_no_check() {
    let mut board = Board::new();
    board.do_move("e2", "e7");
    board.do_move("e7", "e6");
    board.do_move("d7", "e7");
    board.do_move("e6", "e7");
    assert!(!board.is_check(Color::Black));
    board.do_move("e7", "d7");
    assert!(board.is_check(Color::Black));
}

#[test]
fn king_position_follows_the_king() {
    let mut board = Board::new();
    assert_eq!(*board.get_king_position(Color::White), (0, 4));
    assert_eq!(*board.get_king_position(Color::Black), (7, 4));
    board.do_move("e1", "e3");
    assert_eq!(*board.get_king_position(Color::White), (2, 4));
}

#[test]
fn positions_are_the_squares_of_one_side() {
    let board = Board::new();
    let whites = board.get_positions(Color::White);
    let blacks = board.get_positions(Color::Black);
    assert_eq!(whites.len(), 16);
    assert_eq!(blacks.len(), 16);
    for file in 0..8 {
        assert!(whites.contains(&(0, file)) && whites.contains(&(1, file)));
        assert!(blacks.contains(&(6, file)) && blacks.contains(&(7, file)));
    }
    assert!(whites.intersection(&blacks).is_empty());
}

#[test]
fn pieces_are_listed_in_the_order_of_their_squares() {
    let board = Board::new();
    let blacks = board.get_pieces_iter(Color::Black);
    let positions: Vec<(u8, u8)> = blacks.iter().map(|piece| *piece.get_position()).collect();
    let mut expected: Vec<(u8, u8)> = Vec::new();
    for rank in 6..8 {
        for file in 0..8 {
            expected.push((rank, file));
        }
    }
    assert_eq!(positions, expected);
    assert!(blacks.iter().all(|piece| piece.get_color() == Color::Black));
    assert!(matches!(blacks[0], Piece::Pawn(_)));
    assert!(matches!(blacks[12], Piece::King(_)));
}

#[test]
fn every_starting_pawn_has_two_legal_moves() {
    let board = Board::new();
    for file in 0..8u8 {
        let mut white = SquareSet::new();
        white.insert((2, file));
        white.insert((3, file));
        let legal = board.get_legal_squares(&(1, file));
        assert_eq!(legal, white);
        assert_eq!(legal.len(), 2);
        let mut black = SquareSet::new();
        black.insert((5, file));
        black.insert((4, file));
        let legal = board.get_legal_squares(&(6, file));
        assert_eq!(legal, black);
        assert_eq!(legal.len(), 2);
    }
}

#[test]
fn hemmed_in_officers_have_no_legal_moves() {
    let board = Board::new();
    for file in [0u8, 2, 3, 4, 5, 7] {
        assert!(board.get_legal_squares(&(0, file)).is_empty());
        assert!(board.get_legal_squares(&(7, file)).is_empty());
    }
    assert_eq!(board.get_legal_squares(&(0, 1)), named(&["a3", "c3"]));
    assert_eq!(board.get_legal_squares(&(7, 6)), named(&["f6", "h6"]));
}

#[test]
fn legal_squares_are_among_the_moves_of_the_piece() {
    let mut board = Board::new();
    board.do_move("f7", "f5");
    board.do_move("d1", "h5");
    board.do_move("e2", "e4");
    board.do_move("b8", "c6");
    for color in [Color::White, Color::Black] {
        let team = board.get_positions(color);
        let rival_team = board.get_positions(color.opposite());
        for piece in board.get_pieces_iter(color) {
            let moves = piece.get_moves(&team, &rival_team);
            let legal = board.get_legal_squares(piece.get_position());
            assert_eq!(legal.intersection(&moves), legal);
        }
    }
}

#[test]
fn a_move_is_legal_unless_it_leaves_the_king_in_check() {
    let mut board = Board::new();
    board.do_move("f7", "f5");
    board.do_move("d1", "h5");
    board.do_move("e2", "e4");
    for color in [Color::White, Color::Black] {
        let team = board.get_positions(color);
        let rival_team = board.get_positions(color.opposite());
        for piece in board.get_pieces_iter(color) {
            let moves = piece.get_moves(&team, &rival_team);
            let legal = board.get_legal_squares(piece.get_position());
            for rank in 0..8 {
                for file in 0..8 {
                    let target = (rank, file);
                    if moves.contains(&target) {
                        let mut tried = board.clone();
                        tried.move_piece(piece.get_position(), target);
                        assert_eq!(legal.contains(&target), !tried.is_check(color));
                    } else {
                        assert!(!legal.contains(&target));
                    }
                }
            }
        }
    }
}

#[test]
fn legal_squares_leave_the_board_as_it_was() {
    let mut board = Board::new();
    board.do_move("f7", "f5");
    board.do_move("d1", "h5");
    let before = board.create_board();
    board.get_legal_squares(&(6, 6));
    assert_eq!(board.create_board(), before);
}

#[test]
fn the_king_may_not_step_into_check() {
    let mut board = Board::new();
    board.do_move("e1", "e4");
    board.do_move("d8", "d6");
    assert_eq!(board.get_legal_squares(&(3, 4)), named(&["e3", "f3", "f5"]));
}

#[test]
fn a_clone_is_a_board_of_its_own() {
    let board = Board::new();
    let mut copy = board.clone();
    copy.do_move("e2", "e4");
    assert_eq!(board.get_square_color(&(1, 4)), Some(Color::White));
    assert_eq!(board.get_square_color(&(3, 4)), None);
    assert_eq!(copy.get_square_color(&(3, 4)), Some(Color::White));
}

#[test]
fn find_king_tells_when_the_king_is_gone() {
    let mut board = Board::new();
    assert_eq!(board.find_king(Color::White), Some(&(0, 4)));
    assert_eq!(board.find_king(Color::Black), Some(&(7, 4)));
    board.move_piece(&(0, 3), (7, 4));
    assert_eq!(board.find_king(Color::Black), None);
    assert_eq!(board.find_king(Color::White), Some(&(0, 4)));
}

#[test]
fn shades_mark_legal_squares_and_checked_kings() {
    let mut board = Board::new();
    board.do_move("f7", "f5");
    board.do_move("d1", "h5");
    let plain = board.shades(None);
    assert_eq!(plain.len(), 8);
    assert!(plain.iter().all(|row| row.len() == 8));
    assert_eq!(plain[7][4], Shade::CheckedKing('♚'));
    assert_eq!(plain[0][4], Shade::Occupied('♔'));
    assert_eq!(plain[4][7], Shade::Occupied('♛'));
    assert_eq!(plain[0][3], Shade::Empty);
    assert_eq!(plain[5][6], Shade::Empty);

    let legal = board.get_legal_squares(&(6, 6));
    let marked = board.shades(Some(&legal));
    assert_eq!(marked[5][6], Shade::LegalEmpty);
    assert_eq!(marked[4][6], Shade::Empty);
    assert_eq!(marked[7][4], Shade::CheckedKing('♚'));

    board.do_move("g7", "g6");
    let legal = board.get_legal_squares(&(5, 6));
    let marked = board.shades(Some(&legal));
    assert_eq!(marked[4][7], Shade::LegalTarget('♛'));
    assert_eq!(marked[7][4], Shade::Occupied('♚'));
    assert_eq!(marked[5][6], Shade::Occupied('♟'));
}

#[test]
fn a_checked_king_shows_as_checked_even_where_he_may_be_taken() {
    let mut board = Board::new();
    board.do_move("f7", "f5");
    board.do_move("d1", "h5");
    let mut every = SquareSet::new();
    for rank in 0..8 {
        for file in 0..8 {
            every.insert((rank, file));
        }
    }
    let marked = board.shades(Some(&every));
    assert_eq!(marked[7][4], Shade::CheckedKing('♚'));
    assert_eq!(marked[7][3], Shade::LegalTarget('♕'));
    assert_eq!(marked[3][3], Shade::LegalEmpty);
}

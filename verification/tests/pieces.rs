use chess_rules::color::Color;
use chess_rules::piece::bishop::Bishop;
use chess_rules::piece::king::King;
use chess_rules::piece::knight::Knight;
use chess_rules::piece::pawn::Pawn;
use chess_rules::piece::queen::Queen;
use chess_rules::piece::rook::Rook;
use chess_rules::piece::Piece;
use chess_rules::square::parse;
use chess_rules::square_set::SquareSet;

fn set_of(names: &[&str]) -> SquareSet {
    let mut squares = SquareSet::new();
    for name in names {
        squares.insert(parse(name).unwrap());
    }
    squares
}

#[test]
fn two_moves_for_e2_opening_move() {
    let pawn = Pawn::new(Color::White, parse("e2").unwrap());
    let legal_moves = set_of(&["e3", "e4"]);
    assert_eq!(pawn.get_pawn_moves(), legal_moves)
}

#[test]
fn two_capture_moves_for_e2_opening_move() {
    let pawn = Pawn::new(Color::White, parse("e2").unwrap());
    let legal_moves = set_of(&["d3", "f3"]);
    assert_eq!(pawn.get_pawn_capture_moves(), legal_moves)
}

#[test]
fn test_queen_moves_1() {
    let queen = Queen::new(Color::White, parse("a1").unwrap());
    let legal_moves = set_of(&[
        "a2", "a3", "a4", "a5", "a6", "a7", "a8",
        "b1", "c1", "d1", "e1", "f1", "g1", "h1",
        "b2", "c3", "d4", "e5", "f6", "g7", "h8",
    ]);
    assert_eq!(queen.get_moves(&SquareSet::new(), &SquareSet::new()), legal_moves);
}

#[test]
fn test_queen_moves_2() {
    let queen = Queen::new(Color::White, parse("d4").unwrap());
    let legal_moves = set_of(&[
        "c4", "b4", "a4",
        "c5", "b6", "a7",
        "d5", "d6", "d7", "d8",
        "e5", "f6", "g7", "h8",
        "e4", "f4", "g4", "h4",
        "e3", "f2", "g1",
        "d3", "d2", "d1",
        "c3", "b2", "a1",
    ]);
    assert_eq!(queen.get_moves(&SquareSet::new(), &SquareSet::new()), legal_moves)
}

#[test]
fn pawns_advance_by_color() {
    let white = Pawn::new(Color::White, parse("c4").unwrap());
    assert_eq!(white.get_pawn_moves(), set_of(&["c5"]));
    let black = Pawn::new(Color::Black, parse("c4").unwrap());
    assert_eq!(black.get_pawn_moves(), set_of(&["c3"]));
    let black_home = Pawn::new(Color::Black, parse("c7").unwrap());
    assert_eq!(black_home.get_pawn_moves(), set_of(&["c6", "c5"]));
    assert_eq!(black_home.get_pawn_capture_moves(), set_of(&["b6", "d6"]));
}

#[test]
fn every_home_pawn_has_two_advances() {
    for file in 0..8u8 {
        let white = Pawn::new(Color::White, (1, file));
        let mut expected = SquareSet::new();
        expected.insert((2, file));
        expected.insert((3, file));
        assert_eq!(white.get_pawn_moves(), expected);
        assert_eq!(white.get_pawn_moves().len(), 2);
        let black = Pawn::new(Color::Black, (6, file));
        let mut expected = SquareSet::new();
        expected.insert((5, file));
        expected.insert((4, file));
        assert_eq!(black.get_pawn_moves(), expected);
        assert_eq!(black.get_pawn_moves().len(), 2);
    }
}

#[test]
fn edge_pawns_have_one_capture_square() {
    assert_eq!(Pawn::new(Color::White, (1, 0)).get_pawn_capture_moves(), set_of(&["b3"]));
    assert_eq!(Pawn::new(Color::White, (1, 7)).get_pawn_capture_moves(), set_of(&["g3"]));
    assert_eq!(Pawn::new(Color::Black, (6, 0)).get_pawn_capture_moves(), set_of(&["b6"]));
    assert_eq!(Pawn::new(Color::Black, (6, 7)).get_pawn_capture_moves(), set_of(&["g6"]));
    for file in 1..7u8 {
        assert_eq!(Pawn::new(Color::White, (1, file)).get_pawn_capture_moves().len(), 2);
    }
}

#[test]
fn a_capture_square_needs_a_rival() {
    let pawn = Pawn::new(Color::White, parse("a2").unwrap());
    let team = set_of(&["a2"]);
    assert_eq!(pawn.get_moves(&team, &SquareSet::new()), set_of(&["a3", "a4"]));
    assert_eq!(pawn.get_moves(&team, &set_of(&["b3"])), set_of(&["a3", "a4", "b3"]));
    assert_eq!(pawn.get_moves(&set_of(&["a2", "b3"]), &SquareSet::new()), set_of(&["a3", "a4"]));
}

#[test]
fn a_pawn_does_not_capture_straight_ahead() {
    let pawn = Pawn::new(Color::White, parse("e4").unwrap());
    let team = set_of(&["e4"]);
    assert!(pawn.get_moves(&team, &set_of(&["e5"])).is_empty());
    assert!(pawn.get_moves(&set_of(&["e4", "e5"]), &SquareSet::new()).is_empty());
}

#[test]
fn the_double_step_jumps_over_a_blocker() {
    let pawn = Pawn::new(Color::White, parse("e2").unwrap());
    let team = set_of(&["e2"]);
    assert_eq!(pawn.get_moves(&team, &set_of(&["e3"])), set_of(&["e4"]));
    assert_eq!(pawn.get_moves(&set_of(&["e2", "e3"]), &SquareSet::new()), set_of(&["e4"]));
    assert_eq!(pawn.get_moves(&team, &set_of(&["e4"])), set_of(&["e3"]));
    let black = Pawn::new(Color::Black, parse("e7").unwrap());
    assert_eq!(black.get_moves(&set_of(&["e7"]), &set_of(&["e6"])), set_of(&["e5"]));
}

#[test]
fn a_pawn_on_the_last_rank_has_no_moves() {
    let white = Pawn::new(Color::White, parse("e8").unwrap());
    assert!(white.get_pawn_moves().is_empty());
    assert!(white.get_pawn_capture_moves().is_empty());
    let black = Pawn::new(Color::Black, parse("e1").unwrap());
    assert!(black.get_pawn_moves().is_empty());
    assert!(black.get_moves(&set_of(&["e1"]), &set_of(&["d1", "f1"])).is_empty());
}

#[test]
fn rook_sweeps_rank_and_file_of_an_empty_board() {
    let rook = Rook::new(Color::White, parse("d4").unwrap());
    let expected = set_of(&[
        "d1", "d2", "d3", "d5", "d6", "d7", "d8",
        "a4", "b4", "c4", "e4", "f4", "g4", "h4",
    ]);
    assert_eq!(rook.get_moves(&set_of(&["d4"]), &SquareSet::new()), expected);
    assert_eq!(rook.get_moves(&SquareSet::new(), &SquareSet::new()), expected);
}

#[test]
fn rook_ray_ends_on_a_rival() {
    let rook = Rook::new(Color::White, parse("d4").unwrap());
    let expected = set_of(&[
        "d1", "d2", "d3", "d5", "d6",
        "a4", "b4", "c4", "e4", "f4", "g4", "h4",
    ]);
    assert_eq!(rook.get_moves(&set_of(&["d4"]), &set_of(&["d6"])), expected);
}

#[test]
fn rook_ray_ends_before_a_friend() {
    let rook = Rook::new(Color::White, parse("d4").unwrap());
    let expected = set_of(&[
        "d1", "d2", "d3", "d5",
        "a4", "b4", "c4", "e4", "f4", "g4", "h4",
    ]);
    assert_eq!(rook.get_moves(&set_of(&["d4", "d6"]), &SquareSet::new()), expected);
}

#[test]
fn rook_is_not_hindered_off_its_lines() {
    let rook = Rook::new(Color::Black, parse("a1").unwrap());
    let free = rook.get_moves(&set_of(&["a1"]), &SquareSet::new());
    assert_eq!(rook.get_moves(&set_of(&["a1", "b2"]), &set_of(&["c3", "h8"])), free);
    assert_eq!(free.len(), 14);
}

#[test]
fn bishop_sweeps_the_diagonals_of_an_empty_board() {
    let bishop = Bishop::new(Color::White, parse("c1").unwrap());
    let expected = set_of(&["b2", "a3", "d2", "e3", "f4", "g5", "h6"]);
    assert_eq!(bishop.get_moves(&set_of(&["c1"]), &SquareSet::new()), expected);
}

#[test]
fn bishop_rays_end_at_blockers() {
    let bishop = Bishop::new(Color::White, parse("d4").unwrap());
    let team = set_of(&["d4", "f6"]);
    let rival_team = set_of(&["b2", "c5"]);
    let expected = set_of(&["e5", "c3", "b2", "c5", "e3", "f2", "g1"]);
    assert_eq!(bishop.get_moves(&team, &rival_team), expected);
}

#[test]
fn queen_moves_as_rook_and_bishop() {
    let position = parse("e5").unwrap();
    let team = set_of(&["e5", "e7", "g3"]);
    let rival_team = set_of(&["b5", "c7", "h8"]);
    let queen = Queen::new(Color::Black, position).get_moves(&team, &rival_team);
    let rook = Rook::new(Color::Black, position).get_moves(&team, &rival_team);
    let bishop = Bishop::new(Color::Black, position).get_moves(&team, &rival_team);
    assert_eq!(queen, rook.union(&bishop));
    assert!(queen.contains(&(4, 1)) && !queen.contains(&(4, 0)));
    assert!(queen.contains(&(5, 4)) && !queen.contains(&(6, 4)));
    assert!(queen.contains(&(6, 2)) && !queen.contains(&(7, 1)));
    assert!(queen.contains(&(3, 5)) && !queen.contains(&(2, 6)));
    assert!(queen.contains(&(7, 7)));
}

#[test]
fn queen_ray_truncated_by_one_blocker() {
    let queen = Queen::new(Color::White, parse("a1").unwrap());
    let rival = queen.get_moves(&set_of(&["a1"]), &set_of(&["d4"]));
    assert!(rival.contains(&(1, 1)) && rival.contains(&(2, 2)) && rival.contains(&(3, 3)));
    assert!(!rival.contains(&(4, 4)) && !rival.contains(&(7, 7)));
    assert_eq!(rival.len(), 17);
    let friend = queen.get_moves(&set_of(&["a1", "d4"]), &SquareSet::new());
    assert!(friend.contains(&(2, 2)) && !friend.contains(&(3, 3)) && !friend.contains(&(4, 4)));
    assert_eq!(friend.len(), 16);
}

#[test]
fn knight_jumps_from_the_middle() {
    let knight = Knight::new(Color::White, parse("d4").unwrap());
    let expected = set_of(&["b3", "b5", "c2", "c6", "e2", "e6", "f3", "f5"]);
    assert_eq!(knight.get_moves(&set_of(&["d4"]), &SquareSet::new()), expected);
}

#[test]
fn knight_jumps_from_the_corner() {
    let knight = Knight::new(Color::Black, parse("h8").unwrap());
    assert_eq!(knight.get_moves(&set_of(&["h8"]), &SquareSet::new()), set_of(&["f7", "g6"]));
    let knight = Knight::new(Color::Black, parse("a1").unwrap());
    assert_eq!(knight.get_moves(&set_of(&["a1"]), &SquareSet::new()), set_of(&["b3", "c2"]));
}

#[test]
fn knight_leaps_over_pieces_and_takes_rivals_only() {
    let knight = Knight::new(Color::White, parse("b1").unwrap());
    let team = set_of(&["b1", "a1", "c1", "a2", "b2", "c2", "d2"]);
    let rival_team = set_of(&["a3", "b3"]);
    assert_eq!(knight.get_moves(&team, &rival_team), set_of(&["a3", "c3"]));
}

#[test]
fn king_steps_to_his_neighbours() {
    let king = King::new(Color::White, parse("e4").unwrap());
    let expected = set_of(&["d3", "e3", "f3", "d4", "f4", "d5", "e5", "f5"]);
    assert_eq!(king.get_moves(&set_of(&["e4"]), &SquareSet::new()), expected);
    let team = set_of(&["e4", "e5", "d3"]);
    let rival_team = set_of(&["f5", "e6"]);
    assert_eq!(king.get_moves(&team, &rival_team), set_of(&["e3", "f3", "d4", "f4", "d5", "f5"]));
}

#[test]
fn king_in_the_corner() {
    let king = King::new(Color::Black, parse("a8").unwrap());
    assert_eq!(king.get_moves(&set_of(&["a8"]), &SquareSet::new()), set_of(&["a7", "b7", "b8"]));
}

#[test]
fn moves_never_end_on_the_own_side() {
    let team = set_of(&["d4", "d5", "e5", "c3", "f6", "b5", "d2", "e4"]);
    let rival_team = set_of(&["c5", "e3", "d7", "a4", "f2"]);
    let position = parse("d4").unwrap();
    let pieces = [
        Piece::Pawn(Pawn::new(Color::White, position)),
        Piece::Rook(Rook::new(Color::White, position)),
        Piece::Knight(Knight::new(Color::White, position)),
        Piece::Bishop(Bishop::new(Color::White, position)),
        Piece::Queen(Queen::new(Color::White, position)),
        Piece::King(King::new(Color::White, position)),
    ];
    for piece in pieces {
        assert!(piece.get_moves(&team, &rival_team).intersection(&team).is_empty());
    }
}

#[test]
fn glyphs_and_names() {
    let square = (0, 0);
    let shown: Vec<(char, char, String)> = [
        (Piece::Pawn(Pawn::new(Color::White, square)), Piece::Pawn(Pawn::new(Color::Black, square))),
        (Piece::Rook(Rook::new(Color::White, square)), Piece::Rook(Rook::new(Color::Black, square))),
        (
            Piece::Knight(Knight::new(Color::White, square)),
            Piece::Knight(Knight::new(Color::Black, square)),
        ),
        (
            Piece::Bishop(Bishop::new(Color::White, square)),
            Piece::Bishop(Bishop::new(Color::Black, square)),
        ),
        (
            Piece::Queen(Queen::new(Color::White, square)),
            Piece::Queen(Queen::new(Color::Black, square)),
        ),
        (Piece::King(King::new(Color::White, square)), Piece::King(King::new(Color::Black, square))),
    ]
    .iter()
    .map(|(white, black)| (white.print(), black.print(), white.get_name()))
    .collect();
    assert_eq!(
        shown,
        vec![
            ('♙', '♟', String::from("bonde")),
            ('♖', '♜', String::from("tårn")),
            ('♘', '♞', String::from("springar")),
            ('♝', '♗', String::from("laupar")),
            ('♛', '♕', String::from("dronning")),
            ('♔', '♚', String::from("konge")),
        ]
    );
    assert_eq!(Pawn::new(Color::Black, square).get_name(), "bonde");
    assert_eq!(Bishop::new(Color::Black, square).print(), '♗');
    assert_eq!(Queen::new(Color::White, square).print(), '♛');
}

#[test]
fn move_piece_overwrites_the_position_only() {
    let mut pawn = Pawn::new(Color::Black, (6, 2));
    pawn.move_piece((0, 7));
    assert_eq!(*pawn.get_position(), (0, 7));
    assert_eq!(pawn.get_color(), Color::Black);
    let mut piece = Piece::Queen(Queen::new(Color::White, (0, 3)));
    piece.move_piece((4, 7));
    assert_eq!(piece, Piece::Queen(Queen::new(Color::White, (4, 7))));
    assert_eq!(*piece.get_position(), (4, 7));
    assert_eq!(piece.get_color(), Color::White);
}

#[test]
fn south_east_diagonals() {
    assert_eq!(Bishop::get_south_east_diagonal(&(0, 0)), vec![(0, 0)]);
    assert_eq!(Bishop::get_south_east_diagonal(&(1, 0)), vec![(0, 1), (1, 0)]);
    assert_eq!(
        Bishop::get_south_east_diagonal(&(3, 1)),
        vec![(0, 4), (1, 3), (2, 2), (3, 1), (4, 0)]
    );
    assert_eq!(
        Bishop::get_south_east_diagonal(&(0, 7)),
        vec![(0, 7), (1, 6), (2, 5), (3, 4), (4, 3), (5, 2), (6, 1), (7, 0)]
    );
    assert_eq!(
        Bishop::get_south_east_diagonal(&(4, 4)),
        vec![(1, 7), (2, 6), (3, 5), (4, 4), (5, 3), (6, 2), (7, 1)]
    );
    assert_eq!(Bishop::get_south_east_diagonal(&(6, 6)), vec![(5, 7), (6, 6), (7, 5)]);
    assert_eq!(Bishop::get_south_east_diagonal(&(7, 6)), vec![(6, 7), (7, 6)]);
    assert_eq!(Bishop::get_south_east_diagonal(&(7, 7)), vec![(7, 7)]);
}

#[test]
fn north_east_diagonals() {
    assert_eq!(Bishop::get_north_east_diagonal(&(0, 7)), vec![(0, 7)]);
    assert_eq!(Bishop::get_north_east_diagonal(&(1, 7)), vec![(0, 6), (1, 7)]);
    assert_eq!(
        Bishop::get_north_east_diagonal(&(2, 5)),
        vec![(0, 3), (1, 4), (2, 5), (3, 6), (4, 7)]
    );
    assert_eq!(
        Bishop::get_north_east_diagonal(&(5, 5)),
        vec![(0, 0), (1, 1), (2, 2), (3, 3), (4, 4), (5, 5), (6, 6), (7, 7)]
    );
    assert_eq!(
        Bishop::get_north_east_diagonal(&(1, 0)),
        vec![(1, 0), (2, 1), (3, 2), (4, 3), (5, 4), (6, 5), (7, 6)]
    );
    assert_eq!(Bishop::get_north_east_diagonal(&(6, 2)), vec![(4, 0), (5, 1), (6, 2), (7, 3)]);
    assert_eq!(Bishop::get_north_east_diagonal(&(7, 1)), vec![(6, 0), (7, 1)]);
    assert_eq!(Bishop::get_north_east_diagonal(&(7, 0)), vec![(7, 0)]);
}

#[test]
fn every_square_lies_on_its_own_diagonals() {
    for rank in 0..8u8 {
        for file in 0..8u8 {
            let falling = Bishop::get_south_east_diagonal(&(rank, file));
            let rising = Bishop::get_north_east_diagonal(&(rank, file));
            assert!(falling.contains(&(rank, file)));
            assert!(rising.contains(&(rank, file)));
            assert!(falling.iter().all(|square| square.0 + square.1 == rank + file));
            assert!(rising.iter().all(|square| square.1 + rank == square.0 + file));
            let bishop = Bishop::new(Color::White, (rank, file));
            let moves = bishop.get_moves(&SquareSet::new(), &SquareSet::new());
            assert_eq!(moves.len(), falling.len() + rising.len() - 2);
            for square in falling.iter().chain(rising.iter()) {
                assert_eq!(moves.contains(square), *square != (rank, file));
            }
        }
    }
}

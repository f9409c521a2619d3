use vstd::prelude::*;
use crate::color::Color;
use crate::piece::bishop::Bishop;
use crate::piece::king::King;
use crate::piece::knight::Knight;
use crate::piece::pawn::{forward, home_rank, Pawn};
use crate::piece::queen::Queen;
use crate::piece::rook::Rook;
use crate::piece::Piece;
use crate::square::on_board;

verus! {


/// The squares that hold a piece of the given side.
pub open spec fn squares_of(pieces: Map<(u8, u8), Piece>, color: Color) -> Set<(u8, u8)> {
    Set::new(|square: (u8, u8)| pieces.dom().contains(square) && pieces[square].color() == color)
}

/// The squares that the piece on `from` may move to by the way its kind
/// moves, among the pieces that stand on the board, not asking whether the
/// move would leave its own king attacked.
pub open spec fn pseudo_moves(pieces: Map<(u8, u8), Piece>, from: (u8, u8)) -> Set<(u8, u8)> {
    pieces[from].moves(
        squares_of(pieces, pieces[from].color()),
        squares_of(pieces, pieces[from].color().opposite()),
    )
}

/// Whether a piece of side `by` stands on `from` and may move to `target`.
pub open spec fn attacks(
    pieces: Map<(u8, u8), Piece>,
    from: (u8, u8),
    target: (u8, u8),
    by: Color,
) -> bool {
    pieces.dom().contains(from) && pieces[from].color() == by && pseudo_moves(
        pieces,
        from,
    ).contains(target)
}

/// Whether some piece of side `by` may move to `target`.
pub open spec fn attacked(pieces: Map<(u8, u8), Piece>, target: (u8, u8), by: Color) -> bool {
    exists|from: (u8, u8)| attacks(pieces, from, target, by)
}

/// Whether the king of the given side stands on `square`.
pub open spec fn is_king_at(pieces: Map<(u8, u8), Piece>, square: (u8, u8), color: Color) -> bool {
    pieces.dom().contains(square) && pieces[square] is King && pieces[square].color() == color
}

/// Whether the given side has a king on the board.
pub open spec fn has_king(pieces: Map<(u8, u8), Piece>, color: Color) -> bool {
    exists|square: (u8, u8)| is_king_at(pieces, square, color)
}

/// The square of the given side's king.
pub open spec fn king_square(pieces: Map<(u8, u8), Piece>, color: Color) -> (u8, u8) {
    choose|square: (u8, u8)| is_king_at(pieces, square, color)
}

/// Whether the king of the given side is attacked by a piece of the other.
pub open spec fn in_check(pieces: Map<(u8, u8), Piece>, color: Color) -> bool {
    exists|king: (u8, u8)|
        is_king_at(pieces, king, color) && attacked(pieces, king, color.opposite())
}

/// The board after the piece on `from` has gone to `to`: whatever stood on
/// `to` is gone, and the piece records `to` as its square.
pub open spec fn after_move(pieces: Map<(u8, u8), Piece>, from: (u8, u8), to: (u8, u8)) -> Map<
    (u8, u8),
    Piece,
> {
    pieces.remove(from).insert(to, pieces[from].moved_to(to))
}

/// The squares that the piece on `from` may move to without leaving its
/// own king attacked.
pub open spec fn legal_moves(pieces: Map<(u8, u8), Piece>, from: (u8, u8)) -> Set<(u8, u8)> {
    Set::new(
        |to: (u8, u8)|
            pseudo_moves(pieces, from).contains(to) && !in_check(
                after_move(pieces, from, to),
                pieces[from].color(),
            ),
    )
}

/// What holds of the pieces of every board: each stands on a square of the
/// board and records that square as its own, and no side has two kings.
pub open spec fn well_placed(pieces: Map<(u8, u8), Piece>) -> bool {
    &&& forall|square: (u8, u8)| #[trigger]
        pieces.dom().contains(square) ==> on_board(square) && pieces[square].position() == square
    &&& forall|first: (u8, u8), second: (u8, u8), color: Color|
        #[trigger] is_king_at(pieces, first, color) && #[trigger] is_king_at(
            pieces,
            second,
            color,
        ) ==> first == second
}

/// The officer that a side starts with on the given file of its back rank.
pub open spec fn starting_officer(color: Color, square: (u8, u8)) -> Piece {
    if square.1 == 0 || square.1 == 7 {
        Piece::Rook(Rook { color, position: square })
    } else if square.1 == 1 || square.1 == 6 {
        Piece::Knight(Knight { color, position: square })
    } else if square.1 == 2 || square.1 == 5 {
        Piece::Bishop(Bishop { color, position: square })
    } else if square.1 == 3 {
        Piece::Queen(Queen { color, position: square })
    } else {
        Piece::King(King { color, position: square })
    }
}

/// The piece that stands on a square when a game begins, if any.
pub open spec fn starting_piece(square: (u8, u8)) -> Option<Piece> {
    if square.0 == 0 {
        Some(starting_officer(Color::White, square))
    } else if square.0 == 1 {
        Some(Piece::Pawn(Pawn { color: Color::White, position: square }))
    } else if square.0 == 6 {
        Some(Piece::Pawn(Pawn { color: Color::Black, position: square }))
    } else if square.0 == 7 {
        Some(starting_officer(Color::Black, square))
    } else {
        None
    }
}

/// The pieces as they stand when a game begins.
pub open spec fn starting_position() -> Map<(u8, u8), Piece> {
    Map::new(
        |square: (u8, u8)| on_board(square) && starting_piece(square) is Some,
        |square: (u8, u8)| starting_piece(square).unwrap(),
    )
}

/// The squares of the two sides have no square in common, and together
/// they are the squares that hold a piece.
pub proof fn lemma_sides_part_the_pieces(pieces: Map<(u8, u8), Piece>, color: Color)
    ensures
        squares_of(pieces, color).disjoint(squares_of(pieces, color.opposite())),
        squares_of(pieces, color).union(squares_of(pieces, color.opposite())) == pieces.dom(),
{
    assert(squares_of(pieces, color).union(squares_of(pieces, color.opposite()))
        =~= pieces.dom());
}

/// Every legal move is a move that the piece's kind allows.
pub proof fn lemma_legal_moves_are_pseudo_moves(pieces: Map<(u8, u8), Piece>, from: (u8, u8))
    ensures
        legal_moves(pieces, from).subset_of(pseudo_moves(pieces, from)),
{
}

/// A move that the piece's kind allows is left out of the legal moves if
/// and only if, once it is made, the mover's own king is attacked by a
/// piece of the other side.
pub proof fn lemma_illegal_iff_king_exposed(
    pieces: Map<(u8, u8), Piece>,
    from: (u8, u8),
    to: (u8, u8),
)
    requires
        pseudo_moves(pieces, from).contains(to),
    ensures
        !legal_moves(pieces, from).contains(to) <==> in_check(
            after_move(pieces, from, to),
            pieces[from].color(),
        ),
{
}

/// When a game begins, each pawn may move to the two squares ahead of it
/// and to no other.
pub proof fn lemma_starting_pawn_moves(color: Color, file: u8)
    requires
        file < 8,
    ensures
        ({
            let from = (home_rank(color), file);
            let rank = home_rank(color) as int;
            &&& starting_position().dom().contains(from)
            &&& starting_position()[from] == Piece::Pawn(Pawn { color, position: from })
            &&& pseudo_moves(starting_position(), from) == set![
                ((rank + forward(color)) as u8, file),
                ((rank + 2 * forward(color)) as u8, file),
            ]
            &&& pseudo_moves(starting_position(), from).len() == 2
        }),
{
    let from = (home_rank(color), file);
    let rank = home_rank(color) as int;
    assert(pseudo_moves(starting_position(), from) =~= set![
        ((rank + forward(color)) as u8, file),
        ((rank + 2 * forward(color)) as u8, file),
    ]);
}

/// The starting position is well placed, and both sides have their king.
pub proof fn lemma_starting_position_sound()
    ensures
        well_placed(starting_position()),
        is_king_at(starting_position(), (0, 4), Color::White),
        is_king_at(starting_position(), (7, 4), Color::Black),
        has_king(starting_position(), Color::White),
        has_king(starting_position(), Color::Black),
{
    assert(is_king_at(starting_position(), (0, 4), Color::White));
    assert(is_king_at(starting_position(), (7, 4), Color::Black));
}

/// A move keeps the pieces well placed.
pub proof fn lemma_move_keeps_well_placed(
    pieces: Map<(u8, u8), Piece>,
    from: (u8, u8),
    to: (u8, u8),
)
    requires
        well_placed(pieces),
        pieces.dom().contains(from),
        on_board(to),
    ensures
        well_placed(after_move(pieces, from, to)),
{
    let moved = after_move(pieces, from, to);
    assert forall|first: (u8, u8), second: (u8, u8), color: Color|
        #[trigger] is_king_at(moved, first, color) && #[trigger] is_king_at(
            moved,
            second,
            color,
        ) implies first == second by {
        let before = |square: (u8, u8)|
            if square == to {
                from
            } else {
                square
            };
        assert(is_king_at(pieces, before(first), color));
        assert(is_king_at(pieces, before(second), color));
    }
}

/// A move keeps the king of each side, unless it takes him.
pub proof fn lemma_move_keeps_king(
    pieces: Map<(u8, u8), Piece>,
    from: (u8, u8),
    to: (u8, u8),
    color: Color,
)
    requires
        pieces.dom().contains(from),
        has_king(pieces, color),
        !is_king_at(pieces, to, color),
    ensures
        has_king(after_move(pieces, from, to), color),
{
    let king = choose|king: (u8, u8)| is_king_at(pieces, king, color);
    if king == from {
        assert(is_king_at(after_move(pieces, from, to), to, color));
    } else {
        assert(is_king_at(after_move(pieces, from, to), king, color));
    }
}

/// A move that the mover's kind allows never takes a piece of the mover's
/// own side, so the mover's side keeps its king.
pub proof fn lemma_pseudo_move_keeps_own_king(
    pieces: Map<(u8, u8), Piece>,
    from: (u8, u8),
    to: (u8, u8),
)
    requires
        pieces.dom().contains(from),
        pseudo_moves(pieces, from).contains(to),
        has_king(pieces, pieces[from].color()),
    ensures
        !squares_of(pieces, pieces[from].color()).contains(to),
        has_king(after_move(pieces, from, to), pieces[from].color()),
{
    let color = pieces[from].color();
    let team = squares_of(pieces, color);
    let rival_team = squares_of(pieces, color.opposite());
    pieces[from].lemma_moves_avoid_team(team, rival_team);
    let king = choose|king: (u8, u8)| is_king_at(pieces, king, color);
    if king == from {
        assert(is_king_at(after_move(pieces, from, to), to, color));
    } else {
        assert(team.contains(king));
        assert(is_king_at(after_move(pieces, from, to), king, color));
    }
}

} // verus!

use vstd::prelude::*;
use vstd::string::StringExecFns;
use crate::color::Color;
use crate::piece::bishop::{
    bishop_moves, lemma_bishop_on_empty_board, lemma_bishop_with_one_blocker, on_bishop_line,
    Bishop,
};
use crate::piece::rays::bars;
use crate::piece::rook::{
    lemma_rook_on_empty_board, lemma_rook_with_one_blocker, on_rook_line, rook_moves, Rook,
};
use crate::square::on_board;
use crate::square_set::SquareSet;

verus! {

/// What a queen is called.
pub const QUEEN_NAME: &'static str = "dronning";

/// The squares that a queen on `from` may move to: those of a rook and
/// those of a bishop on the same square.
pub open spec fn queen_moves(
    from: (u8, u8),
    team: Set<(u8, u8)>,
    rival_team: Set<(u8, u8)>,
) -> Set<(u8, u8)> {
    rook_moves(from, team, rival_team).union(bishop_moves(from, team, rival_team))
}

/// On an otherwise empty board a queen may move to every other square of
/// her rank, her file and her two diagonals.
pub proof fn lemma_queen_on_empty_board(
    from: (u8, u8),
    team: Set<(u8, u8)>,
    rival_team: Set<(u8, u8)>,
)
    requires
        on_board(from),
        forall|square: (u8, u8)|
            team.contains(square) || rival_team.contains(square) ==> square == from,
    ensures
        queen_moves(from, team, rival_team) == Set::new(
            |to: (u8, u8)|
                on_board(to) && (on_rook_line(from, to) || on_bishop_line(from, to)),
        ),
{
    lemma_rook_on_empty_board(from, team, rival_team);
    lemma_bishop_on_empty_board(from, team, rival_team);
    assert(queen_moves(from, team, rival_team) =~= Set::new(
        |to: (u8, u8)| on_board(to) && (on_rook_line(from, to) || on_bishop_line(from, to)),
    ));
}

/// With one piece besides the queen herself, the queen may move to the
/// squares of her lines that the piece does not bar: up to and with the
/// piece if it is a rival, up to the square before it if it is a friend.
pub proof fn lemma_queen_with_one_blocker(
    from: (u8, u8),
    blocker: (u8, u8),
    team: Set<(u8, u8)>,
    rival_team: Set<(u8, u8)>,
)
    requires
        on_board(from),
        on_board(blocker),
        blocker != from,
        team.contains(blocker) || rival_team.contains(blocker),
        forall|square: (u8, u8)|
            team.contains(square) || rival_team.contains(square) ==> square == from || square
                == blocker,
    ensures
        queen_moves(from, team, rival_team) == Set::new(
            |to: (u8, u8)|
                on_board(to) && (on_rook_line(from, to) || on_bishop_line(from, to)) && !bars(
                    from,
                    blocker,
                    to,
                    team,
                ),
        ),
{
    lemma_rook_with_one_blocker(from, blocker, team, rival_team);
    lemma_bishop_with_one_blocker(from, blocker, team, rival_team);
    assert(queen_moves(from, team, rival_team) =~= Set::new(
        |to: (u8, u8)|
            on_board(to) && (on_rook_line(from, to) || on_bishop_line(from, to)) && !bars(
                from,
                blocker,
                to,
                team,
            ),
    ));
}

/// A queen, with her side and the square she stands on.
#[derive(Clone, Copy, Debug, PartialEq, Eq, Hash)]
pub struct Queen {
    /// The side that the piece belongs to.
    pub color: Color,
    /// The square that the piece stands on, as `(rank, file)`.
    pub position: (u8, u8),
}

impl Queen {
    /// The queen's figure: `♛` for White, `♕` for Black.
    pub open spec fn glyph(self) -> char {
        match self.color {
            Color::White => '♛',
            Color::Black => '♕',
        }
    }

    /// A queen of the given side on the given square.
    pub fn new(color: Color, position: (u8, u8)) -> (queen: Queen)
        ensures
            queen == (Queen { color, position }),
    {
        Queen { color, position }
    }

    /// The figure that stands for the queen on a drawn board.
    pub fn print(&self) -> (glyph: char)
        ensures
            glyph == self.glyph(),
    {
        match self.color {
            Color::White => '♛',
            Color::Black => '♕',
        }
    }

    /// The name of the queen's kind.
    pub fn get_name(&self) -> (name: String)
        ensures
            name@ == QUEEN_NAME@,
    {
        String::from_str(QUEEN_NAME)
    }

    /// The side that the queen belongs to.
    pub fn get_color(&self) -> (color: Color)
        ensures
            color == self.color,
    {
        self.color
    }

    /// The square that the queen records as her own.
    pub fn get_position(&self) -> (position: &(u8, u8))
        ensures
            *position == self.position,
    {
        &self.position
    }

    /// Puts the queen on `target`, whatever the rules say of such a move.
    pub fn move_piece(&mut self, target: (u8, u8))
        ensures
            *final(self) == (Queen { color: old(self).color, position: target }),
    {
        self.position = target;
    }

    /// The squares that the queen may move to, not asking whether the move
    /// would leave her own king attacked. `team` holds the squares of her
    /// own side, `rival_team` those of the other.
    pub fn get_moves(&self, team: &SquareSet, rival_team: &SquareSet) -> (moves: SquareSet)
        requires
            on_board(self.position),
        ensures
            moves@ == queen_moves(self.position, team@, rival_team@),
    {
        let straight = Rook::new(self.color, self.position).get_moves(team, rival_team);
        let diagonal = Bishop::new(self.color, self.position).get_moves(team, rival_team);
        straight.union(&diagonal)
    }
}

} // verus!

use vstd::prelude::*;
use vstd::string::StringExecFns;
use crate::color::Color;
use crate::piece::rays::{
    bars, lemma_ray_on_empty_board, lemma_ray_with_one_blocker, ray_moves, walk_ray,
};
use crate::square::on_board;
use crate::square_set::SquareSet;

verus! {

/// What a rook is called.
pub const ROOK_NAME: &'static str = "tårn";

/// The squares that a rook on `from` may move to: along the four rays of
/// its rank and file.
pub open spec fn rook_moves(from: (u8, u8), team: Set<(u8, u8)>, rival_team: Set<(u8, u8)>) -> Set<
    (u8, u8),
> {
    ray_moves(from, (1, 0), team, rival_team).union(
        ray_moves(from, (-1, 0), team, rival_team),
    ).union(ray_moves(from, (0, 1), team, rival_team)).union(
        ray_moves(from, (0, -1), team, rival_team),
    )
}

/// Whether `to` is another square of the rank or the file of `from`.
pub open spec fn on_rook_line(from: (u8, u8), to: (u8, u8)) -> bool {
    from != to && (from.0 == to.0 || from.1 == to.1)
}

/// On an otherwise empty board a rook may move to every other square of
/// its rank and of its file.
pub proof fn lemma_rook_on_empty_board(
    from: (u8, u8),
    team: Set<(u8, u8)>,
    rival_team: Set<(u8, u8)>,
)
    requires
        on_board(from),
        forall|square: (u8, u8)|
            team.contains(square) || rival_team.contains(square) ==> square == from,
    ensures
        rook_moves(from, team, rival_team) == Set::new(
            |to: (u8, u8)| on_board(to) && on_rook_line(from, to),
        ),
{
    lemma_ray_on_empty_board(from, (1, 0), team, rival_team);
    lemma_ray_on_empty_board(from, (-1, 0), team, rival_team);
    lemma_ray_on_empty_board(from, (0, 1), team, rival_team);
    lemma_ray_on_empty_board(from, (0, -1), team, rival_team);
    assert(rook_moves(from, team, rival_team) =~= Set::new(
        |to: (u8, u8)| on_board(to) && on_rook_line(from, to),
    ));
}

/// With one piece besides the rook itself, the rook may move to the squares
/// of its rank and file that the piece does not bar: up to and with the
/// piece if it is a rival, up to the square before it if it is a friend.
pub proof fn lemma_rook_with_one_blocker(
    from: (u8, u8),
    blocker: (u8, u8),
    team: Set<(u8, u8)>,
    rival_team: Set<(u8, u8)>,
)
    requires
        on_board(from),
        on_board(blocker),
        blocker != from,
        team.contains(blocker) || rival_team.contains(blocker),
        forall|square: (u8, u8)|
            team.contains(square) || rival_team.contains(square) ==> square == from || square
                == blocker,
    ensures
        rook_moves(from, team, rival_team) == Set::new(
            |to: (u8, u8)|
                on_board(to) && on_rook_line(from, to) && !bars(from, blocker, to, team),
        ),
{
    lemma_ray_with_one_blocker(from, (1, 0), blocker, team, rival_team);
    lemma_ray_with_one_blocker(from, (-1, 0), blocker, team, rival_team);
    lemma_ray_with_one_blocker(from, (0, 1), blocker, team, rival_team);
    lemma_ray_with_one_blocker(from, (0, -1), blocker, team, rival_team);
    assert(rook_moves(from, team, rival_team) =~= Set::new(
        |to: (u8, u8)|
            on_board(to) && on_rook_line(from, to) && !bars(from, blocker, to, team),
    ));
}

/// A rook, with its side and the square it stands on.
#[derive(Clone, Copy, Debug, PartialEq, Eq, Hash)]
pub struct Rook {
    /// The side that the piece belongs to.
    pub color: Color,
    /// The square that the piece stands on, as `(rank, file)`.
    pub position: (u8, u8),
}

impl Rook {
    /// The rook's figure: `♖` for White, `♜` for Black.
    pub open spec fn glyph(self) -> char {
        match self.color {
            Color::White => '♖',
            Color::Black => '♜',
        }
    }

    /// A rook of the given side on the given square.
    pub fn new(color: Color, position: (u8, u8)) -> (rook: Rook)
        ensures
            rook == (Rook { color, position }),
    {
        Rook { color, position }
    }

    /// The figure that stands for the rook on a drawn board.
    pub fn print(&self) -> (glyph: char)
        ensures
            glyph == self.glyph(),
    {
        match self.color {
            Color::White => '♖',
            Color::Black => '♜',
        }
    }

    /// The name of the rook's kind.
    pub fn get_name(&self) -> (name: String)
        ensures
            name@ == ROOK_NAME@,
    {
        String::from_str(ROOK_NAME)
    }

    /// The side that the rook belongs to.
    pub fn get_color(&self) -> (color: Color)
        ensures
            color == self.color,
    {
        self.color
    }

    /// The square that the rook records as its own.
    pub fn get_position(&self) -> (position: &(u8, u8))
        ensures
            *position == self.position,
    {
        &self.position
    }

    /// Puts the rook on `target`, whatever the rules say of such a move.
    pub fn move_piece(&mut self, target: (u8, u8))
        ensures
            *final(self) == (Rook { color: old(self).color, position: target }),
    {
        self.position = target;
    }

    /// The squares that the rook may move to, not asking whether the move
    /// would leave its own king attacked. `team` holds the squares of its
    /// own side, `rival_team` those of the other.
    pub fn get_moves(&self, team: &SquareSet, rival_team: &SquareSet) -> (moves: SquareSet)
        requires
            on_board(self.position),
        ensures
            moves@ == rook_moves(self.position, team@, rival_team@),
    {
        let mut moves = SquareSet::new();
        walk_ray(&self.position, 1, 0, team, rival_team, &mut moves);
        walk_ray(&self.position, -1, 0, team, rival_team, &mut moves);
        walk_ray(&self.position, 0, 1, team, rival_team, &mut moves);
        walk_ray(&self.position, 0, -1, team, rival_team, &mut moves);
        assert(moves@ =~= rook_moves(self.position, team@, rival_team@));
        moves
    }
}

} // verus!

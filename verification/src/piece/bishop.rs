use vstd::prelude::*;
use vstd::string::StringExecFns;
use crate::color::Color;
use crate::piece::rays::{
    bars, lemma_ray_on_empty_board, lemma_ray_with_one_blocker, ray_moves, walk_ray,
};
use crate::square::on_board;
use crate::square_set::SquareSet;

verus! {

/// What a bishop is called.
pub const BISHOP_NAME: &'static str = "laupar";

/// The squares that a bishop on `from` may move to: along the four
/// diagonal rays.
pub open spec fn bishop_moves(
    from: (u8, u8),
    team: Set<(u8, u8)>,
    rival_team: Set<(u8, u8)>,
) -> Set<(u8, u8)> {
    ray_moves(from, (1, 1), team, rival_team).union(
        ray_moves(from, (1, -1), team, rival_team),
    ).union(ray_moves(from, (-1, 1), team, rival_team)).union(
        ray_moves(from, (-1, -1), team, rival_team),
    )
}

/// The squares of the board whose rank and file add up to `sum`, from the
/// lowest rank upwards.
pub open spec fn south_east_diagonal(sum: int) -> Seq<(u8, u8)> {
    let first = if sum <= 7 {
        0
    } else {
        sum - 7
    };
    let last = if sum <= 7 {
        sum
    } else {
        7
    };
    Seq::new((last - first + 1) as nat, |i: int| ((first + i) as u8, (sum - first - i) as u8))
}

/// The squares of the board whose file exceeds their rank by `difference`,
/// from the lowest rank upwards.
pub open spec fn north_east_diagonal(difference: int) -> Seq<(u8, u8)> {
    let first = if difference >= 0 {
        0
    } else {
        -difference
    };
    let last = if difference >= 0 {
        7 - difference
    } else {
        7
    };
    Seq::new(
        (last - first + 1) as nat,
        |i: int| ((first + i) as u8, (first + i + difference) as u8),
    )
}

/// Whether `to` is another square of one of the two diagonals of `from`.
pub open spec fn on_bishop_line(from: (u8, u8), to: (u8, u8)) -> bool {
    from != to && (to.0 - from.0 == to.1 - from.1 || to.0 - from.0 == from.1 - to.1)
}

/// On an otherwise empty board a bishop may move to every other square of
/// its two diagonals.
pub proof fn lemma_bishop_on_empty_board(
    from: (u8, u8),
    team: Set<(u8, u8)>,
    rival_team: Set<(u8, u8)>,
)
    requires
        on_board(from),
        forall|square: (u8, u8)|
            team.contains(square) || rival_team.contains(square) ==> square == from,
    ensures
        bishop_moves(from, team, rival_team) == Set::new(
            |to: (u8, u8)| on_board(to) && on_bishop_line(from, to),
        ),
{
    lemma_ray_on_empty_board(from, (1, 1), team, rival_team);
    lemma_ray_on_empty_board(from, (1, -1), team, rival_team);
    lemma_ray_on_empty_board(from, (-1, 1), team, rival_team);
    lemma_ray_on_empty_board(from, (-1, -1), team, rival_team);
    assert(bishop_moves(from, team, rival_team) =~= Set::new(
        |to: (u8, u8)| on_board(to) && on_bishop_line(from, to),
    ));
}

/// With one piece besides the bishop itself, the bishop may move to the
/// squares of its diagonals that the piece does not bar: up to and with the
/// piece if it is a rival, up to the square before it if it is a friend.
pub proof fn lemma_bishop_with_one_blocker(
    from: (u8, u8),
    blocker: (u8, u8),
    team: Set<(u8, u8)>,
    rival_team: Set<(u8, u8)>,
)
    requires
        on_board(from),
        on_board(blocker),
        blocker != from,
        team.contains(blocker) || rival_team.contains(blocker),
        forall|square: (u8, u8)|
            team.contains(square) || rival_team.contains(square) ==> square == from || square
                == blocker,
    ensures
        bishop_moves(from, team, rival_team) == Set::new(
            |to: (u8, u8)|
                on_board(to) && on_bishop_line(from, to) && !bars(from, blocker, to, team),
        ),
{
    lemma_ray_with_one_blocker(from, (1, 1), blocker, team, rival_team);
    lemma_ray_with_one_blocker(from, (1, -1), blocker, team, rival_team);
    lemma_ray_with_one_blocker(from, (-1, 1), blocker, team, rival_team);
    lemma_ray_with_one_blocker(from, (-1, -1), blocker, team, rival_team);
    assert(bishop_moves(from, team, rival_team) =~= Set::new(
        |to: (u8, u8)|
            on_board(to) && on_bishop_line(from, to) && !bars(from, blocker, to, team),
    ));
}

/// A bishop, with its side and the square it stands on.
#[derive(Clone, Copy, Debug, PartialEq, Eq, Hash)]
pub struct Bishop {
    /// The side that the piece belongs to.
    pub color: Color,
    /// The square that the piece stands on, as `(rank, file)`.
    pub position: (u8, u8),
}

impl Bishop {
    /// The diagonal through `position` that falls towards the h-file: the
    /// squares with the same sum of rank and file, from the lowest rank
    /// upwards.
    pub fn get_south_east_diagonal(position: &(u8, u8)) -> (squares: Vec<(u8, u8)>)
        requires
            position.0 + position.1 <= 14,
        ensures
            squares@ == south_east_diagonal(position.0 + position.1),
    {
        let sum: u8 = position.0 + position.1;
        let first: u8 = if sum <= 7 {
            0
        } else {
            sum - 7
        };
        let last: u8 = if sum <= 7 {
            sum
        } else {
            7
        };
        let mut squares: Vec<(u8, u8)> = Vec::new();
        let mut rank: u8 = first;
        while rank <= last
            invariant
                sum <= 14,
                first == (if sum <= 7 { 0int } else { sum - 7 }),
                last == (if sum <= 7 { sum as int } else { 7 }),
                first <= rank <= last + 1,
                squares@.len() == rank - first,
                forall|i: int|
                    0 <= i < squares@.len() ==> squares@[i] == (
                        (first + i) as u8,
                        (sum - first - i) as u8,
                    ),
            decreases last + 1 - rank,
        {
            squares.push((rank, sum - rank));
            rank = rank + 1;
        }
        assert(squares@ =~= south_east_diagonal(position.0 + position.1));
        squares
    }

    /// The diagonal through `position` that rises towards the h-file: the
    /// squares with the same difference of file and rank, from the lowest
    /// rank upwards.
    pub fn get_north_east_diagonal(position: &(u8, u8)) -> (squares: Vec<(u8, u8)>)
        requires
            -7 <= position.1 - position.0 <= 7,
        ensures
            squares@ == north_east_diagonal(position.1 - position.0),
    {
        let rising = position.1 >= position.0;
        let offset: u8 = if rising {
            position.1 - position.0
        } else {
            position.0 - position.1
        };
        let ghost difference = position.1 - position.0;
        let first: u8 = if rising {
            0
        } else {
            offset
        };
        let last: u8 = if rising {
            7 - offset
        } else {
            7
        };
        let mut squares: Vec<(u8, u8)> = Vec::new();
        let mut rank: u8 = first;
        while rank <= last
            invariant
                offset <= 7,
                difference == (if rising { offset as int } else { -offset }),
                first == (if rising { 0int } else { offset as int }),
                last == (if rising { 7 - offset } else { 7int }),
                first <= rank <= last + 1,
                squares@.len() == rank - first,
                forall|i: int|
                    0 <= i < squares@.len() ==> squares@[i] == (
                        (first + i) as u8,
                        (first + i + difference) as u8,
                    ),
            decreases last + 1 - rank,
        {
            let file: u8 = if rising {
                rank + offset
            } else {
                rank - offset
            };
            squares.push((rank, file));
            rank = rank + 1;
        }
        assert(squares@ =~= north_east_diagonal(position.1 - position.0));
        squares
    }

    /// The bishop's figure: `♝` for White, `♗` for Black.
    pub open spec fn glyph(self) -> char {
        match self.color {
            Color::White => '♝',
            Color::Black => '♗',
        }
    }

    /// A bishop of the given side on the given square.
    pub fn new(color: Color, position: (u8, u8)) -> (bishop: Bishop)
        ensures
            bishop == (Bishop { color, position }),
    {
        Bishop { color, position }
    }

    /// The figure that stands for the bishop on a drawn board.
    pub fn print(&self) -> (glyph: char)
        ensures
            glyph == self.glyph(),
    {
        match self.color {
            Color::White => '♝',
            Color::Black => '♗',
        }
    }

    /// The name of the bishop's kind.
    pub fn get_name(&self) -> (name: String)
        ensures
            name@ == BISHOP_NAME@,
    {
        String::from_str(BISHOP_NAME)
    }

    /// The side that the bishop belongs to.
    pub fn get_color(&self) -> (color: Color)
        ensures
            color == self.color,
    {
        self.color
    }

    /// The square that the bishop records as its own.
    pub fn get_position(&self) -> (position: &(u8, u8))
        ensures
            *position == self.position,
    {
        &self.position
    }

    /// Puts the bishop on `target`, whatever the rules say of such a move.
    pub fn move_piece(&mut self, target: (u8, u8))
        ensures
            *final(self) == (Bishop { color: old(self).color, position: target }),
    {
        self.position = target;
    }

    /// The squares that the bishop may move to, not asking whether the move
    /// would leave its own king attacked. `team` holds the squares of its
    /// own side, `rival_team` those of the other.
    pub fn get_moves(&self, team: &SquareSet, rival_team: &SquareSet) -> (moves: SquareSet)
        requires
            on_board(self.position),
        ensures
            moves@ == bishop_moves(self.position, team@, rival_team@),
    {
        let mut moves = SquareSet::new();
        walk_ray(&self.position, 1, 1, team, rival_team, &mut moves);
        walk_ray(&self.position, 1, -1, team, rival_team, &mut moves);
        walk_ray(&self.position, -1, 1, team, rival_team, &mut moves);
        walk_ray(&self.position, -1, -1, team, rival_team, &mut moves);
        assert(moves@ =~= bishop_moves(self.position, team@, rival_team@));
        moves
    }
}

} // verus!

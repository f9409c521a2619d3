use vstd::prelude::*;
use vstd::string::StringExecFns;
use crate::color::Color;
use crate::piece::steps::add_step;
use crate::square::on_board;
use crate::square_set::SquareSet;

verus! {

/// What a pawn is called.
pub const PAWN_NAME: &'static str = "bonde";

/// The way a side's pawns advance: White up the ranks, Black down.
pub open spec fn forward(color: Color) -> int {
    match color {
        Color::White => 1,
        Color::Black => -1,
    }
}

/// The rank on which a side's pawns start.
pub open spec fn home_rank(color: Color) -> u8 {
    match color {
        Color::White => 1,
        Color::Black => 6,
    }
}

/// A pawn, with its side and the square it stands on.
#[derive(Clone, Copy, Debug, PartialEq, Eq, Hash)]
pub struct Pawn {
    /// The side that the piece belongs to.
    pub color: Color,
    /// The square that the piece stands on, as `(rank, file)`.
    pub position: (u8, u8),
}

impl Pawn {
    /// The squares straight ahead that the pawn could advance to on an
    /// empty board: the next one, and from its home rank the one after it
    /// as well.
    pub open spec fn quiet_squares(self) -> Set<(u8, u8)> {
        Set::new(
            |to: (u8, u8)|
                on_board(to) && to.1 == self.position.1 && (to.0 == self.position.0 + forward(
                    self.color,
                ) || (self.position.0 == home_rank(self.color) && to.0 == self.position.0 + 2
                    * forward(self.color))),
        )
    }

    /// The squares on which the pawn could capture: one rank ahead, one
    /// file to either side.
    pub open spec fn capture_squares(self) -> Set<(u8, u8)> {
        Set::new(
            |to: (u8, u8)|
                on_board(to) && to.0 == self.position.0 + forward(self.color) && (to.1
                    == self.position.1 - 1 || to.1 == self.position.1 + 1),
        )
    }

    /// The squares that the pawn may move to: the squares ahead that hold
    /// no piece at all, and the capture squares that hold a rival. The
    /// square two ahead is not barred by a piece on the square between.
    pub open spec fn moves(self, team: Set<(u8, u8)>, rival_team: Set<(u8, u8)>) -> Set<
        (u8, u8),
    > {
        self.quiet_squares().difference(team.union(rival_team)).union(
            self.capture_squares().intersect(rival_team),
        )
    }

    /// From its home rank a pawn has exactly two squares to advance to: the
    /// next two of its file.
    pub proof fn lemma_home_pawn_advances(color: Color, file: u8)
        requires
            file < 8,
        ensures
            ({
                let pawn = Pawn { color, position: (home_rank(color), file) };
                let rank = home_rank(color) as int;
                &&& pawn.quiet_squares() == set![
                    ((rank + forward(color)) as u8, file),
                    ((rank + 2 * forward(color)) as u8, file),
                ]
                &&& pawn.quiet_squares().len() == 2
            }),
    {
        let pawn = Pawn { color, position: (home_rank(color), file) };
        let rank = home_rank(color) as int;
        assert(pawn.quiet_squares() =~= set![
            ((rank + forward(color)) as u8, file),
            ((rank + 2 * forward(color)) as u8, file),
        ]);
    }

    /// From its home rank a pawn of the a-file or the h-file has exactly
    /// one square to capture on: the one ahead on the neighbouring file.
    pub proof fn lemma_edge_pawn_captures(color: Color, file: u8)
        requires
            file == 0 || file == 7,
        ensures
            ({
                let pawn = Pawn { color, position: (home_rank(color), file) };
                let rank = home_rank(color) as int;
                let inner: u8 = if file == 0 {
                    1
                } else {
                    6
                };
                &&& pawn.capture_squares() == set![((rank + forward(color)) as u8, inner)]
                &&& pawn.capture_squares().len() == 1
            }),
    {
        let pawn = Pawn { color, position: (home_rank(color), file) };
        let rank = home_rank(color) as int;
        let inner: u8 = if file == 0 {
            1
        } else {
            6
        };
        assert(pawn.capture_squares() =~= set![((rank + forward(color)) as u8, inner)]);
    }

    /// A pawn may move to one of its capture squares when a rival stands on
    /// it, and only then.
    pub proof fn lemma_captures_need_a_rival(
        self,
        team: Set<(u8, u8)>,
        rival_team: Set<(u8, u8)>,
        to: (u8, u8),
    )
        requires
            self.capture_squares().contains(to),
        ensures
            self.moves(team, rival_team).contains(to) <==> rival_team.contains(to),
    {
    }

    /// A pawn may advance to a square ahead when no piece of either side
    /// stands on it, and only then. What stands between the pawn and the
    /// square two ahead is not asked.
    pub proof fn lemma_advances_need_a_free_square(
        self,
        team: Set<(u8, u8)>,
        rival_team: Set<(u8, u8)>,
        to: (u8, u8),
    )
        requires
            self.quiet_squares().contains(to),
        ensures
            self.moves(team, rival_team).contains(to) <==> !team.contains(to)
                && !rival_team.contains(to),
    {
    }

    /// The squares straight ahead that the pawn advances to when nothing
    /// stands on them.
    pub fn get_pawn_moves(&self) -> (moves: SquareSet)
        requires
            on_board(self.position),
        ensures
            moves@ == self.quiet_squares(),
    {
        let mut moves = SquareSet::new();
        match self.color {
            Color::White => {
                add_step(&self.position, 1, 0, &mut moves);
                if self.position.0 == 1 {
                    add_step(&self.position, 2, 0, &mut moves);
                }
            },
            Color::Black => {
                add_step(&self.position, -1, 0, &mut moves);
                if self.position.0 == 6 {
                    add_step(&self.position, -2, 0, &mut moves);
                }
            },
        }
        assert(moves@ =~= self.quiet_squares());
        moves
    }

    /// The squares on which the pawn captures when a rival stands there.
    pub fn get_pawn_capture_moves(&self) -> (moves: SquareSet)
        requires
            on_board(self.position),
        ensures
            moves@ == self.capture_squares(),
    {
        let mut moves = SquareSet::new();
        match self.color {
            Color::White => {
                add_step(&self.position, 1, -1, &mut moves);
                add_step(&self.position, 1, 1, &mut moves);
            },
            Color::Black => {
                add_step(&self.position, -1, -1, &mut moves);
                add_step(&self.position, -1, 1, &mut moves);
            },
        }
        assert(moves@ =~= self.capture_squares());
        moves
    }

    /// The pawn's figure: `♙` for White, `♟` for Black.
    pub open spec fn glyph(self) -> char {
        match self.color {
            Color::White => '♙',
            Color::Black => '♟',
        }
    }

    /// A pawn of the given side on the given square.
    pub fn new(color: Color, position: (u8, u8)) -> (pawn: Pawn)
        ensures
            pawn == (Pawn { color, position }),
    {
        Pawn { color, position }
    }

    /// The figure that stands for the pawn on a drawn board.
    pub fn print(&self) -> (glyph: char)
        ensures
            glyph == self.glyph(),
    {
        match self.color {
            Color::White => '♙',
            Color::Black => '♟',
        }
    }

    /// The name of the pawn's kind.
    pub fn get_name(&self) -> (name: String)
        ensures
            name@ == PAWN_NAME@,
    {
        String::from_str(PAWN_NAME)
    }

    /// The side that the pawn belongs to.
    pub fn get_color(&self) -> (color: Color)
        ensures
            color == self.color,
    {
        self.color
    }

    /// The square that the pawn records as its own.
    pub fn get_position(&self) -> (position: &(u8, u8))
        ensures
            *position == self.position,
    {
        &self.position
    }

    /// Puts the pawn on `target`, whatever the rules say of such a move.
    pub fn move_piece(&mut self, target: (u8, u8))
        ensures
            *final(self) == (Pawn { color: old(self).color, position: target }),
    {
        self.position = target;
    }

    /// The squares that the pawn may move to, not asking whether the move
    /// would leave its own king attacked. `team` holds the squares of its
    /// own side, `rival_team` those of the other.
    pub fn get_moves(&self, team: &SquareSet, rival_team: &SquareSet) -> (moves: SquareSet)
        requires
            on_board(self.position),
        ensures
            moves@ == self.moves(team@, rival_team@),
    {
        let all_pieces = team.union(rival_team);
        let moves = self.get_pawn_moves().difference(&all_pieces);
        let capture_moves = self.get_pawn_capture_moves().intersection(rival_team);
        moves.union(&capture_moves)
    }
}

} // verus!

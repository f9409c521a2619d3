use vstd::prelude::*;
use vstd::string::StringExecFns;
use crate::color::Color;
use crate::piece::steps::add_step;
use crate::square::on_board;
use crate::square_set::SquareSet;

verus! {

/// What a knight is called.
pub const KNIGHT_NAME: &'static str = "springar";

/// Whether `to` is a knight's jump from `from`: two squares one way and one
/// square across.
pub open spec fn is_knight_jump(from: (u8, u8), to: (u8, u8)) -> bool {
    let ranks = to.0 - from.0;
    let files = to.1 - from.1;
    ||| (ranks == 1 || ranks == -1) && (files == 2 || files == -2)
    ||| (ranks == 2 || ranks == -2) && (files == 1 || files == -1)
}

/// The squares that a knight on `from` may move to: every jump that ends on
/// the board and not on a piece of its own side. Pieces in between do not
/// matter.
pub open spec fn knight_moves(from: (u8, u8), team: Set<(u8, u8)>) -> Set<(u8, u8)> {
    Set::new(|to: (u8, u8)| on_board(to) && is_knight_jump(from, to) && !team.contains(to))
}

/// A knight, with its side and the square it stands on.
#[derive(Clone, Copy, Debug, PartialEq, Eq, Hash)]
pub struct Knight {
    /// The side that the piece belongs to.
    pub color: Color,
    /// The square that the piece stands on, as `(rank, file)`.
    pub position: (u8, u8),
}

impl Knight {
    /// The knight's figure: `♘` for White, `♞` for Black.
    pub open spec fn glyph(self) -> char {
        match self.color {
            Color::White => '♘',
            Color::Black => '♞',
        }
    }

    /// A knight of the given side on the given square.
    pub fn new(color: Color, position: (u8, u8)) -> (knight: Knight)
        ensures
            knight == (Knight { color, position }),
    {
        Knight { color, position }
    }

    /// The figure that stands for the knight on a drawn board.
    pub fn print(&self) -> (glyph: char)
        ensures
            glyph == self.glyph(),
    {
        match self.color {
            Color::White => '♘',
            Color::Black => '♞',
        }
    }

    /// The name of the knight's kind.
    pub fn get_name(&self) -> (name: String)
        ensures
            name@ == KNIGHT_NAME@,
    {
        String::from_str(KNIGHT_NAME)
    }

    /// The side that the knight belongs to.
    pub fn get_color(&self) -> (color: Color)
        ensures
            color == self.color,
    {
        self.color
    }

    /// The square that the knight records as its own.
    pub fn get_position(&self) -> (position: &(u8, u8))
        ensures
            *position == self.position,
    {
        &self.position
    }

    /// Puts the knight on `target`, whatever the rules say of such a move.
    pub fn move_piece(&mut self, target: (u8, u8))
        ensures
            *final(self) == (Knight { color: old(self).color, position: target }),
    {
        self.position = target;
    }

    /// The squares that the knight may move to, not asking whether the move
    /// would leave its own king attacked. `team` holds the squares of its
    /// own side, `rival_team` those of the other.
    #[allow(unused_variables)]
    pub fn get_moves(&self, team: &SquareSet, rival_team: &SquareSet) -> (moves: SquareSet)
        requires
            on_board(self.position),
        ensures
            moves@ == knight_moves(self.position, team@),
    {
        let mut jumps = SquareSet::new();
        add_step(&self.position, 1, 2, &mut jumps);
        add_step(&self.position, 1, -2, &mut jumps);
        add_step(&self.position, -1, 2, &mut jumps);
        add_step(&self.position, -1, -2, &mut jumps);
        add_step(&self.position, 2, 1, &mut jumps);
        add_step(&self.position, 2, -1, &mut jumps);
        add_step(&self.position, -2, 1, &mut jumps);
        add_step(&self.position, -2, -1, &mut jumps);
        let moves = jumps.difference(team);
        assert(moves@ =~= knight_moves(self.position, team@));
        moves
    }
}

} // verus!

use vstd::prelude::*;
use vstd::string::StringExecFns;
use crate::color::Color;
use crate::piece::rays::distance;
use crate::piece::steps::add_step;
use crate::square::on_board;
use crate::square_set::SquareSet;

verus! {

/// What a king is called.
pub const KING_NAME: &'static str = "konge";

/// The squares that a king on `from` may move to: every neighbour that is
/// on the board and not held by a piece of its own side.
pub open spec fn king_moves(from: (u8, u8), team: Set<(u8, u8)>) -> Set<(u8, u8)> {
    Set::new(|to: (u8, u8)| on_board(to) && distance(from, to) == 1 && !team.contains(to))
}

/// A king, with his side and the square he stands on.
#[derive(Clone, Copy, Debug, PartialEq, Eq, Hash)]
pub struct King {
    /// The side that the piece belongs to.
    pub color: Color,
    /// The square that the piece stands on, as `(rank, file)`.
    pub position: (u8, u8),
}

impl King {
    /// The king's figure: `♔` for White, `♚` for Black.
    pub open spec fn glyph(self) -> char {
        match self.color {
            Color::White => '♔',
            Color::Black => '♚',
        }
    }

    /// A king of the given side on the given square.
    pub fn new(color: Color, position: (u8, u8)) -> (king: King)
        ensures
            king == (King { color, position }),
    {
        King { color, position }
    }

    /// The figure that stands for the king on a drawn board.
    pub fn print(&self) -> (glyph: char)
        ensures
            glyph == self.glyph(),
    {
        match self.color {
            Color::White => '♔',
            Color::Black => '♚',
        }
    }

    /// The name of the king's kind.
    pub fn get_name(&self) -> (name: String)
        ensures
            name@ == KING_NAME@,
    {
        String::from_str(KING_NAME)
    }

    /// The side that the king belongs to.
    pub fn get_color(&self) -> (color: Color)
        ensures
            color == self.color,
    {
        self.color
    }

    /// The square that the king records as his own.
    pub fn get_position(&self) -> (position: &(u8, u8))
        ensures
            *position == self.position,
    {
        &self.position
    }

    /// Puts the king on `target`, whatever the rules say of such a move.
    pub fn move_piece(&mut self, target: (u8, u8))
        ensures
            *final(self) == (King { color: old(self).color, position: target }),
    {
        self.position = target;
    }

    /// The squares that the king may move to, not asking whether he would
    /// be attacked there. `team` holds the squares of his own side,
    /// `rival_team` those of the other.
    #[allow(unused_variables)]
    pub fn get_moves(&self, team: &SquareSet, rival_team: &SquareSet) -> (moves: SquareSet)
        requires
            on_board(self.position),
        ensures
            moves@ == king_moves(self.position, team@),
    {
        let mut neighbours = SquareSet::new();
        add_step(&self.position, 1, -1, &mut neighbours);
        add_step(&self.position, 1, 0, &mut neighbours);
        add_step(&self.position, 1, 1, &mut neighbours);
        add_step(&self.position, 0, -1, &mut neighbours);
        add_step(&self.position, 0, 1, &mut neighbours);
        add_step(&self.position, -1, -1, &mut neighbours);
        add_step(&self.position, -1, 0, &mut neighbours);
        add_step(&self.position, -1, 1, &mut neighbours);
        let moves = neighbours.difference(team);
        assert(moves@ =~= king_moves(self.position, team@));
        moves
    }
}

} // verus!

use vstd::prelude::*;
use crate::color::Color;
use crate::piece::bishop::{bishop_moves, Bishop, BISHOP_NAME};
use crate::piece::king::{king_moves, King, KING_NAME};
use crate::piece::knight::{knight_moves, Knight, KNIGHT_NAME};
use crate::piece::pawn::{Pawn, PAWN_NAME};
use crate::piece::queen::{queen_moves, Queen, QUEEN_NAME};
use crate::piece::rook::{rook_moves, Rook, ROOK_NAME};
use crate::square::on_board;
use crate::square_set::SquareSet;

pub mod bishop;
pub mod king;
pub mod knight;
pub mod pawn;
pub mod queen;
pub mod rays;
pub mod rook;
pub mod steps;

verus! {

/// A piece of any of the six kinds.
#[derive(Clone, Copy, Debug, PartialEq, Eq, Hash)]
pub enum Piece {
    Pawn(Pawn),
    Rook(Rook),
    Knight(Knight),
    Bishop(Bishop),
    Queen(Queen),
    King(King),
}

impl Piece {
    /// The side that the piece belongs to.
    pub open spec fn color(self) -> Color {
        match self {
            Piece::Pawn(pawn) => pawn.color,
            Piece::Rook(rook) => rook.color,
            Piece::Knight(knight) => knight.color,
            Piece::Bishop(bishop) => bishop.color,
            Piece::Queen(queen) => queen.color,
            Piece::King(king) => king.color,
        }
    }

    /// The square that the piece records as its own.
    pub open spec fn position(self) -> (u8, u8) {
        match self {
            Piece::Pawn(pawn) => pawn.position,
            Piece::Rook(rook) => rook.position,
            Piece::Knight(knight) => knight.position,
            Piece::Bishop(bishop) => bishop.position,
            Piece::Queen(queen) => queen.position,
            Piece::King(king) => king.position,
        }
    }

    /// The figure that stands for the piece on a drawn board.
    pub open spec fn glyph(self) -> char {
        match self {
            Piece::Pawn(pawn) => pawn.glyph(),
            Piece::Rook(rook) => rook.glyph(),
            Piece::Knight(knight) => knight.glyph(),
            Piece::Bishop(bishop) => bishop.glyph(),
            Piece::Queen(queen) => queen.glyph(),
            Piece::King(king) => king.glyph(),
        }
    }

    /// The name of the piece's kind.
    pub open spec fn name(self) -> Seq<char> {
        match self {
            Piece::Pawn(_) => PAWN_NAME@,
            Piece::Rook(_) => ROOK_NAME@,
            Piece::Knight(_) => KNIGHT_NAME@,
            Piece::Bishop(_) => BISHOP_NAME@,
            Piece::Queen(_) => QUEEN_NAME@,
            Piece::King(_) => KING_NAME@,
        }
    }

    /// The same piece, standing on `target`.
    pub open spec fn moved_to(self, target: (u8, u8)) -> Piece {
        match self {
            Piece::Pawn(pawn) => Piece::Pawn(Pawn { color: pawn.color, position: target }),
            Piece::Rook(rook) => Piece::Rook(Rook { color: rook.color, position: target }),
            Piece::Knight(knight) => Piece::Knight(
                Knight { color: knight.color, position: target },
            ),
            Piece::Bishop(bishop) => Piece::Bishop(
                Bishop { color: bishop.color, position: target },
            ),
            Piece::Queen(queen) => Piece::Queen(Queen { color: queen.color, position: target }),
            Piece::King(king) => Piece::King(King { color: king.color, position: target }),
        }
    }

    /// The squares that the piece may move to by the way its kind moves,
    /// with blocking and capturing, not asking whether the move would leave
    /// its own king attacked. `team` holds the squares of the piece's own
    /// side, `rival_team` those of the other.
    pub open spec fn moves(self, team: Set<(u8, u8)>, rival_team: Set<(u8, u8)>) -> Set<
        (u8, u8),
    > {
        match self {
            Piece::Pawn(pawn) => pawn.moves(team, rival_team),
            Piece::Rook(rook) => rook_moves(rook.position, team, rival_team),
            Piece::Knight(knight) => knight_moves(knight.position, team),
            Piece::Bishop(bishop) => bishop_moves(bishop.position, team, rival_team),
            Piece::Queen(queen) => queen_moves(queen.position, team, rival_team),
            Piece::King(king) => king_moves(king.position, team),
        }
    }

    /// The figure that stands for the piece on a drawn board.
    pub fn print(&self) -> (glyph: char)
        ensures
            glyph == self.glyph(),
    {
        match self {
            Piece::Pawn(pawn) => pawn.print(),
            Piece::Rook(rook) => rook.print(),
            Piece::Knight(knight) => knight.print(),
            Piece::Bishop(bishop) => bishop.print(),
            Piece::Queen(queen) => queen.print(),
            Piece::King(king) => king.print(),
        }
    }

    /// The name of the piece's kind.
    pub fn get_name(&self) -> (name: String)
        ensures
            name@ == self.name(),
    {
        match self {
            Piece::Pawn(pawn) => pawn.get_name(),
            Piece::Rook(rook) => rook.get_name(),
            Piece::Knight(knight) => knight.get_name(),
            Piece::Bishop(bishop) => bishop.get_name(),
            Piece::Queen(queen) => queen.get_name(),
            Piece::King(king) => king.get_name(),
        }
    }

    /// The side that the piece belongs to.
    pub fn get_color(&self) -> (color: Color)
        ensures
            color == self.color(),
    {
        match self {
            Piece::Pawn(pawn) => pawn.get_color(),
            Piece::Rook(rook) => rook.get_color(),
            Piece::Knight(knight) => knight.get_color(),
            Piece::Bishop(bishop) => bishop.get_color(),
            Piece::Queen(queen) => queen.get_color(),
            Piece::King(king) => king.get_color(),
        }
    }

    /// The square that the piece records as its own.
    pub fn get_position(&self) -> (position: &(u8, u8))
        ensures
            *position == self.position(),
    {
        match self {
            Piece::Pawn(pawn) => pawn.get_position(),
            Piece::Rook(rook) => rook.get_position(),
            Piece::Knight(knight) => knight.get_position(),
            Piece::Bishop(bishop) => bishop.get_position(),
            Piece::Queen(queen) => queen.get_position(),
            Piece::King(king) => king.get_position(),
        }
    }

    /// Puts the piece on `target`, whatever the rules say of such a move.
    pub fn move_piece(&mut self, target: (u8, u8))
        ensures
            *final(self) == old(self).moved_to(target),
    {
        match self {
            Piece::Pawn(pawn) => pawn.move_piece(target),
            Piece::Rook(rook) => rook.move_piece(target),
            Piece::Knight(knight) => knight.move_piece(target),
            Piece::Bishop(bishop) => bishop.move_piece(target),
            Piece::Queen(queen) => queen.move_piece(target),
            Piece::King(king) => king.move_piece(target),
        }
    }

    /// The squares that the piece may move to, not asking whether the move
    /// would leave its own king attacked.
    pub fn get_moves(&self, team: &SquareSet, rival_team: &SquareSet) -> (moves: SquareSet)
        requires
            on_board(self.position()),
        ensures
            moves@ == self.moves(team@, rival_team@),
    {
        match self {
            Piece::Pawn(pawn) => pawn.get_moves(team, rival_team),
            Piece::Rook(rook) => rook.get_moves(team, rival_team),
            Piece::Knight(knight) => knight.get_moves(team, rival_team),
            Piece::Bishop(bishop) => bishop.get_moves(team, rival_team),
            Piece::Queen(queen) => queen.get_moves(team, rival_team),
            Piece::King(king) => king.get_moves(team, rival_team),
        }
    }

    /// No move leaves the board.
    pub proof fn lemma_moves_on_board(self, team: Set<(u8, u8)>, rival_team: Set<(u8, u8)>)
        ensures
            forall|to: (u8, u8)| self.moves(team, rival_team).contains(to) ==> on_board(to),
    {
    }

    /// When no square is held by both sides, no move ends on a square of
    /// the piece's own side.
    pub proof fn lemma_moves_avoid_team(self, team: Set<(u8, u8)>, rival_team: Set<(u8, u8)>)
        requires
            team.disjoint(rival_team),
        ensures
            self.moves(team, rival_team).disjoint(team),
    {
    }
}

} // verus!

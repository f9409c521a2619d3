use vstd::prelude::*;
use vstd::string::StringExecFns;
use crate::color::Color;
use crate::model::{
    after_move, attacked, attacks, has_king, in_check, is_king_at, king_square, legal_moves,
    lemma_move_keeps_well_placed, lemma_pseudo_move_keeps_own_king,
    lemma_starting_position_sound, pseudo_moves, squares_of, starting_officer, starting_piece,
    starting_position, well_placed,
};
use crate::piece::bishop::Bishop;
use crate::piece::king::King;
use crate::piece::knight::Knight;
use crate::piece::pawn::Pawn;
use crate::piece::queen::Queen;
use crate::piece::rook::Rook;
use crate::piece::Piece;
use crate::square::{notation, on_board, parse, square_named};
use crate::square_set::{
    lemma_squares_below_ends, lemma_squares_below_step, square_index, squares_below, SquareSet,
};

verus! {

/// The figure to draw on a square: that of the piece on it, or `_`.
pub open spec fn glyph_at(pieces: Map<(u8, u8), Piece>, square: (u8, u8)) -> char {
    if pieces.dom().contains(square) {
        pieces[square].glyph()
    } else {
        '_'
    }
}

/// The kings that are in check: White's first, then Black's.
pub open spec fn checked_kings(pieces: Map<(u8, u8), Piece>) -> Seq<(u8, u8)> {
    let white = if in_check(pieces, Color::White) {
        seq![king_square(pieces, Color::White)]
    } else {
        Seq::empty()
    };
    let black = if in_check(pieces, Color::Black) {
        seq![king_square(pieces, Color::Black)]
    } else {
        Seq::empty()
    };
    white + black
}

/// How a square is to be drawn.
#[derive(Clone, Copy, Debug, PartialEq, Eq)]
pub enum Shade {
    /// No piece stands here.
    Empty,
    /// No piece stands here, and the chosen piece may move here.
    LegalEmpty,
    /// A piece with the given figure stands here.
    Occupied(char),
    /// A king with the given figure stands here, in check.
    CheckedKing(char),
    /// A piece with the given figure stands here, and the chosen piece may
    /// take it.
    LegalTarget(char),
}

/// How a square is to be drawn when the squares of `legal_squares` are to
/// be marked: a king in check shows as such even where he may be taken.
pub open spec fn shade_at(
    pieces: Map<(u8, u8), Piece>,
    square: (u8, u8),
    legal_squares: Set<(u8, u8)>,
) -> Shade {
    if !pieces.dom().contains(square) {
        if legal_squares.contains(square) {
            Shade::LegalEmpty
        } else {
            Shade::Empty
        }
    } else if checked_kings(pieces).contains(square) {
        Shade::CheckedKing(pieces[square].glyph())
    } else if legal_squares.contains(square) {
        Shade::LegalTarget(pieces[square].glyph())
    } else {
        Shade::Occupied(pieces[square].glyph())
    }
}

/// The squares to mark: those of the set, or none where no set is given.
pub open spec fn marked_squares(legal_squares: Option<&SquareSet>) -> Set<(u8, u8)> {
    match legal_squares {
        Some(squares) => squares@,
        None => Set::empty(),
    }
}

/// The words that announce a capture: the capturing piece, its square, the
/// captured piece and its square.
pub open spec fn capture_notice(
    pieces: Map<(u8, u8), Piece>,
    from: (u8, u8),
    to: (u8, u8),
) -> Seq<char> {
    pieces[from].name() + " fra "@ + notation(from) + " fangar "@ + pieces[to].name() + " på "@
        + notation(to)
}

fn index_of(square: &(u8, u8)) -> (index: usize)
    requires
        on_board(*square),
    ensures
        index == square_index(*square),
        index < 64,
{
    square.0 as usize * 8 + square.1 as usize
}

fn square_of(index: usize) -> (square: (u8, u8))
    requires
        index < 64,
    ensures
        on_board(square),
        square_index(square) == index,
{
    ((index / 8) as u8, (index % 8) as u8)
}

fn initial_officer(color: Color, square: (u8, u8)) -> (piece: Piece)
    ensures
        piece == starting_officer(color, square),
{
    if square.1 == 0 || square.1 == 7 {
        Piece::Rook(Rook::new(color, square))
    } else if square.1 == 1 || square.1 == 6 {
        Piece::Knight(Knight::new(color, square))
    } else if square.1 == 2 || square.1 == 5 {
        Piece::Bishop(Bishop::new(color, square))
    } else if square.1 == 3 {
        Piece::Queen(Queen::new(color, square))
    } else {
        Piece::King(King::new(color, square))
    }
}

fn initial_piece(square: (u8, u8)) -> (piece: Option<Piece>)
    ensures
        piece == starting_piece(square),
{
    if square.0 == 0 {
        Some(initial_officer(Color::White, square))
    } else if square.0 == 1 {
        Some(Piece::Pawn(Pawn::new(Color::White, square)))
    } else if square.0 == 6 {
        Some(Piece::Pawn(Pawn::new(Color::Black, square)))
    } else if square.0 == 7 {
        Some(initial_officer(Color::Black, square))
    } else {
        None
    }
}

fn is_listed(kings: &Vec<&(u8, u8)>, square: &(u8, u8)) -> (found: bool)
    ensures
        found == kings@.map_values(|king: &(u8, u8)| *king).contains(*square),
{
    let ghost listed = kings@.map_values(|king: &(u8, u8)| *king);
    let mut index: usize = 0;
    while index < kings.len()
        invariant
            index <= kings@.len(),
            listed == kings@.map_values(|king: &(u8, u8)| *king),
            forall|i: int| 0 <= i < index ==> listed[i] != *square,
        decreases kings@.len() - index,
    {
        let king = kings[index];
        if king.0 == square.0 && king.1 == square.1 {
            assert(listed[index as int] == *square);
            return true;
        }
        index = index + 1;
    }
    false
}

/// A chess board with the pieces that stand on it.
pub struct Board {
    squares: Vec<Option<Piece>>,
}

impl View for Board {
    type V = Map<(u8, u8), Piece>;

    /// The pieces by the squares they stand on.
    closed spec fn view(&self) -> Map<(u8, u8), Piece> {
        Map::new(
            |square: (u8, u8)| on_board(square) && self.squares@[square_index(square)] is Some,
            |square: (u8, u8)| self.squares@[square_index(square)].unwrap(),
        )
    }
}

impl Clone for Board {
    /// A board of its own with the same pieces on the same squares.
    fn clone(&self) -> (copy: Board)
        ensures
            copy@ == self@,
            copy.wf() == self.wf(),
    {
        let mut squares: Vec<Option<Piece>> = Vec::new();
        let mut index: usize = 0;
        while index < self.squares.len()
            invariant
                index <= self.squares@.len(),
                squares@ == self.squares@.take(index as int),
            decreases self.squares@.len() - index,
        {
            squares.push(self.squares[index]);
            index = index + 1;
            assert(squares@ =~= self.squares@.take(index as int));
        }
        assert(squares@ =~= self.squares@);
        Board { squares }
    }
}

impl Board {
    /// Whether the board is sound: it has its 64 squares, and its pieces
    /// are well placed.
    pub closed spec fn wf(&self) -> bool {
        self.squares@.len() == 64 && well_placed(self@)
    }

    /// The pieces of a sound board are well placed.
    pub proof fn lemma_wf_well_placed(&self)
        requires
            self.wf(),
        ensures
            well_placed(self@),
    {
    }

    /// On a sound board the piece in a slot stands on the slot's square.
    proof fn lemma_slot(&self, index: int)
        requires
            self.wf(),
            0 <= index < 64,
            self.squares@[index] is Some,
        ensures
            ({
                let square = ((index / 8) as u8, (index % 8) as u8);
                &&& on_board(square)
                &&& square_index(square) == index
                &&& self@.dom().contains(square)
                &&& self@[square] == self.squares@[index].unwrap()
                &&& self.squares@[index].unwrap().position() == square
            }),
    {
        let square = ((index / 8) as u8, (index % 8) as u8);
        assert(square_index(square) == index);
        assert(self@.dom().contains(square));
    }

    /// The board as it stands when a game begins: for each side eight pawns
    /// on its pawn rank, and on its back rank rook, knight, bishop, queen,
    /// king, bishop, knight, rook from the a-file to the h-file.
    pub fn new() -> (board: Board)
        ensures
            board.wf(),
            board@ == starting_position(),
            has_king(board@, Color::White),
            has_king(board@, Color::Black),
    {
        let mut squares: Vec<Option<Piece>> = Vec::new();
        let mut index: usize = 0;
        while index < 64
            invariant
                index <= 64,
                squares@.len() == index,
                forall|square: (u8, u8)|
                    on_board(square) && square_index(square) < index ==> squares@[square_index(
                        square,
                    )] == starting_piece(square),
            decreases 64 - index,
        {
            let piece = initial_piece(square_of(index));
            squares.push(piece);
            index = index + 1;
        }
        let board = Board { squares };
        assert(board@ =~= starting_position());
        proof {
            lemma_starting_position_sound();
        }
        board
    }

    /// The name of the kind of the piece on `position`.
    pub fn get_piece_name(&self, position: &(u8, u8)) -> (name: String)
        requires
            self.wf(),
            self@.dom().contains(*position),
        ensures
            name@ == self@[*position].name(),
    {
        self.squares[index_of(position)].unwrap().get_name()
    }

    /// The side of the piece on `position`, if a piece stands there.
    pub fn get_square_color(&self, position: &(u8, u8)) -> (color: Option<Color>)
        requires
            self.wf(),
        ensures
            color == (if self@.dom().contains(*position) {
                Some(self@[*position].color())
            } else {
                None
            }),
    {
        if position.0 < 8 && position.1 < 8 {
            match self.squares[index_of(position)] {
                Some(piece) => Some(piece.get_color()),
                None => None,
            }
        } else {
            None
        }
    }

    /// The squares that the piece on `position` may move to without leaving
    /// its own king attacked. Each move that the piece's kind allows is
    /// tried on a copy of the board, and kept unless the side's king is in
    /// check there.
    pub fn get_legal_squares(&self, position: &(u8, u8)) -> (legal: SquareSet)
        requires
            self.wf(),
            self@.dom().contains(*position),
            has_king(self@, self@[*position].color()),
        ensures
            legal@ == legal_moves(self@, *position),
            legal@.subset_of(pseudo_moves(self@, *position)),
    {
        let color = self.get_square_color(position).unwrap();
        let team = self.get_positions(color);
        let rival_team = self.get_positions(color.opposite());
        let piece = self.squares[index_of(position)].unwrap();
        let moves = piece.get_moves(&team, &rival_team);
        let mut legal = SquareSet::new();
        let mut index: usize = 0;
        proof {
            piece.lemma_moves_on_board(team@, rival_team@);
            lemma_squares_below_ends(legal_moves(self@, *position));
        }
        while index < 64
            invariant
                index <= 64,
                self.wf(),
                self@.dom().contains(*position),
                has_king(self@, color),
                piece == self@[*position],
                color == piece.color(),
                moves@ == pseudo_moves(self@, *position),
                legal@ == squares_below(legal_moves(self@, *position), index as int),
            decreases 64 - index,
        {
            let square = square_of(index);
            proof {
                lemma_squares_below_step(legal_moves(self@, *position), index as int, square);
            }
            if moves.contains(&square) {
                let mut new_board = self.clone();
                new_board.move_piece(piece.get_position(), square);
                proof {
                    lemma_pseudo_move_keeps_own_king(self@, *position, square);
                }
                if !new_board.is_check(color) {
                    legal.insert(square);
                }
            }
            index = index + 1;
        }
        legal
    }

    /// The board as eight rows of eight figures, rank 1 first, with `_` on
    /// the squares that hold no piece.
    pub fn create_board(&self) -> (rows: Vec<Vec<char>>)
        requires
            self.wf(),
        ensures
            rows@.len() == 8,
            forall|rank: int| 0 <= rank < 8 ==> (#[trigger] rows@[rank])@.len() == 8,
            forall|rank: u8, file: u8|
                rank < 8 && file < 8 ==> rows@[rank as int]@[file as int] == glyph_at(
                    self@,
                    (rank, file),
                ),
    {
        let mut rows: Vec<Vec<char>> = Vec::new();
        let mut rank: u8 = 0;
        while rank < 8
            invariant
                rank <= 8,
                self.wf(),
                rows@.len() == rank,
                forall|r: int| 0 <= r < rank ==> (#[trigger] rows@[r])@.len() == 8,
                forall|r: u8, f: u8|
                    r < rank && f < 8 ==> rows@[r as int]@[f as int] == glyph_at(self@, (r, f)),
            decreases 8 - rank,
        {
            let mut row: Vec<char> = Vec::new();
            let mut file: u8 = 0;
            while file < 8
                invariant
                    rank < 8,
                    file <= 8,
                    self.wf(),
                    row@.len() == file,
                    forall|f: u8| f < file ==> row@[f as int] == glyph_at(self@, (rank, f)),
                decreases 8 - file,
            {
                let glyph = match self.squares[index_of(&(rank, file))] {
                    Some(piece) => piece.print(),
                    None => '_',
                };
                row.push(glyph);
                file = file + 1;
            }
            rows.push(row);
            rank = rank + 1;
        }
        rows
    }

    /// The board as eight rows of eight squares, rank 1 first, each with
    /// the way it is to be drawn: with the figure of the piece on it, with
    /// a mark where a king is in check, and with a mark on the squares of
    /// `legal_squares`.
    pub fn shades(&self, legal_squares: Option<&SquareSet>) -> (rows: Vec<Vec<Shade>>)
        requires
            self.wf(),
            has_king(self@, Color::White),
            has_king(self@, Color::Black),
        ensures
            rows@.len() == 8,
            forall|rank: int| 0 <= rank < 8 ==> (#[trigger] rows@[rank])@.len() == 8,
            forall|rank: u8, file: u8|
                rank < 8 && file < 8 ==> rows@[rank as int]@[file as int] == shade_at(
                    self@,
                    (rank, file),
                    marked_squares(legal_squares),
                ),
    {
        let no_squares = SquareSet::new();
        let legal_squares = match legal_squares {
            Some(squares) => squares,
            None => &no_squares,
        };
        let kings = self.get_checked_kings();
        let ghost marked = legal_squares@;
        let mut rows: Vec<Vec<Shade>> = Vec::new();
        let mut rank: u8 = 0;
        while rank < 8
            invariant
                rank <= 8,
                self.wf(),
                marked == legal_squares@,
                kings@.map_values(|king: &(u8, u8)| *king) == checked_kings(self@),
                rows@.len() == rank,
                forall|r: int| 0 <= r < rank ==> (#[trigger] rows@[r])@.len() == 8,
                forall|r: u8, f: u8|
                    r < rank && f < 8 ==> rows@[r as int]@[f as int] == shade_at(
                        self@,
                        (r, f),
                        marked,
                    ),
            decreases 8 - rank,
        {
            let mut row: Vec<Shade> = Vec::new();
            let mut file: u8 = 0;
            while file < 8
                invariant
                    rank < 8,
                    file <= 8,
                    self.wf(),
                    marked == legal_squares@,
                    kings@.map_values(|king: &(u8, u8)| *king) == checked_kings(self@),
                    row@.len() == file,
                    forall|f: u8| f < file ==> row@[f as int] == shade_at(self@, (rank, f), marked),
                decreases 8 - file,
            {
                let square = (rank, file);
                let shade = match self.squares[index_of(&square)] {
                    None => if legal_squares.contains(&square) {
                        Shade::LegalEmpty
                    } else {
                        Shade::Empty
                    },
                    Some(piece) => if is_listed(&kings, &square) {
                        Shade::CheckedKing(piece.print())
                    } else if legal_squares.contains(&square) {
                        Shade::LegalTarget(piece.print())
                    } else {
                        Shade::Occupied(piece.print())
                    },
                };
                row.push(shade);
                file = file + 1;
            }
            rows.push(row);
            rank = rank + 1;
        }
        rows
    }

    /// Moves the piece on `position` to `target_square`. A piece that
    /// stands there is taken off the board. Nothing is asked of the move.
    pub fn move_piece(&mut self, position: &(u8, u8), target_square: (u8, u8))
        requires
            old(self).wf(),
            old(self)@.dom().contains(*position),
            on_board(target_square),
        ensures
            final(self).wf(),
            final(self)@ == after_move(old(self)@, *position, target_square),
    {
        let mut moving_piece = self.squares[index_of(position)].unwrap();
        moving_piece.move_piece(target_square);
        self.squares.set(index_of(position), None);
        self.squares.set(index_of(&target_square), Some(moving_piece));
        assert(self@ =~= after_move(old(self)@, *position, target_square));
        proof {
            lemma_move_keeps_well_placed(old(self)@, *position, target_square);
        }
    }

    /// Moves the piece on `position` to `target_square`, where it takes the
    /// piece that stands there, and returns the words that announce it. The
    /// board changes as in `move_piece`.
    pub fn capture(&mut self, position: &(u8, u8), target_square: (u8, u8)) -> (notice: String)
        requires
            old(self).wf(),
            old(self)@.dom().contains(*position),
            old(self)@.dom().contains(target_square),
        ensures
            final(self).wf(),
            final(self)@ == after_move(old(self)@, *position, target_square),
            notice@ == capture_notice(old(self)@, *position, target_square),
    {
        let mut notice = self.get_piece_name(position);
        notice.append(" fra ");
        notice.append(crate::square::format(position).as_str());
        notice.append(" fangar ");
        notice.append(self.get_piece_name(&target_square).as_str());
        notice.append(" på ");
        notice.append(crate::square::format(&target_square).as_str());
        self.move_piece(position, target_square);
        notice
    }

    /// Whether the king of the given side is under attack.
    pub fn is_check(&self, color: Color) -> (checked: bool)
        requires
            self.wf(),
            has_king(self@, color),
        ensures
            checked == in_check(self@, color),
    {
        let king_position = *self.get_king_position(color);
        let team = self.get_positions(color);
        let rival_team = self.get_positions(color.opposite());
        let rivals = self.get_pieces_iter(color.opposite());
        let mut index: usize = 0;
        while index < rivals.len()
            invariant
                index <= rivals@.len(),
                self.wf(),
                is_king_at(self@, king_position, color),
                team@ == squares_of(self@, color),
                rival_team@ == squares_of(self@, color.opposite()),
                forall|i: int|
                    0 <= i < rivals@.len() ==> self@.dom().contains(
                        (#[trigger] rivals@[i]).position(),
                    ) && self@[rivals@[i].position()] == rivals@[i] && rivals@[i].color()
                        == color.opposite(),
                forall|square: (u8, u8)|
                    squares_of(self@, color.opposite()).contains(square) ==> exists|i: int|
                        0 <= i < rivals@.len() && #[trigger] rivals@[i] == self@[square],
                forall|i: int|
                    0 <= i < index ==> !(#[trigger] rivals@[i]).moves(
                        rival_team@,
                        team@,
                    ).contains(king_position),
            decreases rivals@.len() - index,
        {
            let piece = &rivals[index];
            if piece.get_moves(&rival_team, &team).contains(&king_position) {
                assert(attacks(self@, piece.position(), king_position, color.opposite()));
                return true;
            }
            index = index + 1;
        }
        assert(!in_check(self@, color)) by {
            if in_check(self@, color) {
                let king = choose|king: (u8, u8)|
                    is_king_at(self@, king, color) && attacked(self@, king, color.opposite());
                assert(king == king_position);
                let from = choose|from: (u8, u8)|
                    attacks(self@, from, king_position, color.opposite());
                assert(squares_of(self@, color.opposite()).contains(from));
                let i = choose|i: int| 0 <= i < rivals@.len() && rivals@[i] == self@[from];
                assert(rivals@[i].moves(rival_team@, team@).contains(king_position));
            }
        }
        false
    }

    /// The square of the given side's king, if he is on the board.
    pub fn find_king(&self, color: Color) -> (position: Option<&(u8, u8)>)
        requires
            self.wf(),
        ensures
            match position {
                Some(square) => is_king_at(self@, *square, color) && *square == king_square(
                    self@,
                    color,
                ),
                None => !has_king(self@, color),
            },
    {
        let mut index: usize = 0;
        while index < 64
            invariant
                index <= 64,
                self.wf(),
                forall|square: (u8, u8)|
                    on_board(square) && square_index(square) < index ==> !is_king_at(
                        self@,
                        square,
                        color,
                    ),
            decreases 64 - index,
        {
            match &self.squares[index] {
                Some(Piece::King(king)) => {
                    if king.color == color {
                        proof {
                            self.lemma_slot(index as int);
                        }
                        assert(is_king_at(self@, king.position, color));
                        return Some(king.get_position());
                    }
                },
                _ => {},
            }
            index = index + 1;
        }
        assert forall|square: (u8, u8)| !is_king_at(self@, square, color) by {
            if is_king_at(self@, square, color) {
                assert(on_board(square) && square_index(square) < 64);
            }
        }
        None
    }

    /// The square of the given side's king.
    pub fn get_king_position(&self, color: Color) -> (position: &(u8, u8))
        requires
            self.wf(),
            has_king(self@, color),
        ensures
            is_king_at(self@, *position, color),
            *position == king_square(self@, color),
    {
        self.find_king(color).unwrap()
    }

    /// Moves the piece on the square named `position` to the square named
    /// `target`, as `move_piece` does.
    pub fn do_move(&mut self, position: &str, target: &str)
        requires
            old(self).wf(),
            square_named(position@) is Some,
            square_named(target@) is Some,
            old(self)@.dom().contains(square_named(position@).unwrap()),
        ensures
            final(self).wf(),
            final(self)@ == after_move(
                old(self)@,
                square_named(position@).unwrap(),
                square_named(target@).unwrap(),
            ),
    {
        let position = parse(position).unwrap();
        let target = parse(target).unwrap();
        self.move_piece(&position, target);
    }

    /// The squares that hold a piece of the given side.
    pub fn get_positions(&self, color: Color) -> (positions: SquareSet)
        requires
            self.wf(),
        ensures
            positions@ == squares_of(self@, color),
    {
        let mut positions = SquareSet::new();
        let mut index: usize = 0;
        proof {
            lemma_squares_below_ends(squares_of(self@, color));
        }
        while index < 64
            invariant
                index <= 64,
                self.wf(),
                positions@ == squares_below(squares_of(self@, color), index as int),
            decreases 64 - index,
        {
            let square = square_of(index);
            proof {
                lemma_squares_below_step(squares_of(self@, color), index as int, square);
            }
            match self.squares[index] {
                Some(piece) => {
                    if piece.get_color() == color {
                        positions.insert(square);
                    }
                },
                None => {},
            }
            index = index + 1;
        }
        positions
    }

    /// The pieces of the given side, in the order of their squares from a1
    /// along the ranks.
    pub fn get_pieces_iter(&self, color: Color) -> (pieces: Vec<Piece>)
        requires
            self.wf(),
        ensures
            forall|i: int|
                0 <= i < pieces@.len() ==> self@.dom().contains((#[trigger] pieces@[i]).position())
                    && self@[pieces@[i].position()] == pieces@[i] && pieces@[i].color() == color,
            forall|square: (u8, u8)|
                squares_of(self@, color).contains(square) ==> exists|i: int|
                    0 <= i < pieces@.len() && #[trigger] pieces@[i] == self@[square],
            forall|i: int, j: int|
                0 <= i < j < pieces@.len() ==> square_index((#[trigger] pieces@[i]).position())
                    < square_index((#[trigger] pieces@[j]).position()),
    {
        let mut pieces: Vec<Piece> = Vec::new();
        let mut index: usize = 0;
        while index < 64
            invariant
                index <= 64,
                self.wf(),
                forall|i: int|
                    0 <= i < pieces@.len() ==> self@.dom().contains(
                        (#[trigger] pieces@[i]).position(),
                    ) && self@[pieces@[i].position()] == pieces@[i] && pieces@[i].color() == color
                        && square_index(pieces@[i].position()) < index,
                forall|square: (u8, u8)|
                    squares_of(self@, color).contains(square) && square_index(square) < index
                        ==> exists|i: int|
                        0 <= i < pieces@.len() && #[trigger] pieces@[i] == self@[square],
                forall|i: int, j: int|
                    0 <= i < j < pieces@.len() ==> square_index(
                        (#[trigger] pieces@[i]).position(),
                    ) < square_index((#[trigger] pieces@[j]).position()),
            decreases 64 - index,
        {
            let ghost before = pieces@;
            match self.squares[index] {
                Some(piece) => {
                    proof {
                        self.lemma_slot(index as int);
                    }
                    if piece.get_color() == color {
                        pieces.push(piece);
                    }
                },
                None => {},
            }
            index = index + 1;
            assert forall|square: (u8, u8)|
                squares_of(self@, color).contains(square) && square_index(square)
                    < index implies exists|i: int|
                0 <= i < pieces@.len() && #[trigger] pieces@[i] == self@[square] by {
                if square_index(square) < index - 1 {
                    let i = choose|i: int| 0 <= i < before.len() && before[i] == self@[square];
                    assert(pieces@[i] == self@[square]);
                } else {
                    assert(pieces@[pieces@.len() - 1] == self@[square]);
                }
            }
        }
        pieces
    }

    /// The squares of the kings that are in check: White's first, then
    /// Black's.
    pub fn get_checked_kings(&self) -> (kings: Vec<&(u8, u8)>)
        requires
            self.wf(),
            has_king(self@, Color::White),
            has_king(self@, Color::Black),
        ensures
            kings@.map_values(|king: &(u8, u8)| *king) == checked_kings(self@),
    {
        let mut kings: Vec<&(u8, u8)> = Vec::new();
        if self.is_check(Color::White) {
            kings.push(self.get_king_position(Color::White));
        }
        if self.is_check(Color::Black) {
            kings.push(self.get_king_position(Color::Black));
        }
        assert(kings@.map_values(|king: &(u8, u8)| *king) =~= checked_kings(self@));
        kings
    }
}

} // verus!

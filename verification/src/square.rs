use vstd::prelude::*;
use vstd::string::StringExecFns;

verus! {

/// A square is a pair `(rank, file)`; it lies on the board when both are
/// below eight. Rank 0 is White's back rank, file 0 is the a-file.
pub open spec fn on_board(square: (u8, u8)) -> bool {
    square.0 < 8 && square.1 < 8
}

/// Whether the coordinates `(rank, file)` name a square of the board.
pub open spec fn in_bounds(rank: int, file: int) -> bool {
    0 <= rank < 8 && 0 <= file < 8
}

/// The error for text that does not name a square.
#[derive(Clone, Copy, Debug, PartialEq, Eq, Structural)]
pub struct InvalidNotation;

/// The file that a letter names: `a` to `h`, in either case.
pub open spec fn file_of_letter(letter: char) -> Option<u8> {
    if 'a' <= letter <= 'h' {
        Some((letter as u8 - 'a' as u8) as u8)
    } else if 'A' <= letter <= 'H' {
        Some((letter as u8 - 'A' as u8) as u8)
    } else {
        None
    }
}

/// The rank that a digit names: `1` to `8`.
pub open spec fn rank_of_digit(digit: char) -> Option<u8> {
    if '1' <= digit <= '8' {
        Some((digit as u8 - '1' as u8) as u8)
    } else {
        None
    }
}

/// The square that a text names: a file letter followed by a rank digit,
/// and nothing else.
pub open spec fn square_named(text: Seq<char>) -> Option<(u8, u8)> {
    if text.len() == 2 {
        match (rank_of_digit(text[1]), file_of_letter(text[0])) {
            (Some(rank), Some(file)) => Some((rank, file)),
            _ => None,
        }
    } else {
        None
    }
}

/// The letter of a file, in lower case.
pub open spec fn letter_of_file(file: u8) -> char {
    ('a' as u8 + file) as char
}

/// The digit of a rank.
pub open spec fn digit_of_rank(rank: u8) -> char {
    ('1' as u8 + rank) as char
}

/// The name of a square: its file letter in lower case, then its rank digit.
pub open spec fn notation(square: (u8, u8)) -> Seq<char> {
    seq![letter_of_file(square.1), digit_of_rank(square.0)]
}

/// A text with its upper-case letters `A` to `H` turned to lower case.
pub open spec fn normalized(text: Seq<char>) -> Seq<char> {
    text.map_values(
        |c: char|
            if 'A' <= c <= 'H' {
                (c as u8 - 'A' as u8 + 'a' as u8) as char
            } else {
                c
            },
    )
}

fn file_from_letter(letter: char) -> (file: Option<u8>)
    ensures
        file == file_of_letter(letter),
{
    if 'a' <= letter && letter <= 'h' {
        Some(letter as u8 - 'a' as u8)
    } else if 'A' <= letter && letter <= 'H' {
        Some(letter as u8 - 'A' as u8)
    } else {
        None
    }
}

fn rank_from_digit(digit: char) -> (rank: Option<u8>)
    ensures
        rank == rank_of_digit(digit),
{
    if '1' <= digit && digit <= '8' {
        Some(digit as u8 - '1' as u8)
    } else {
        None
    }
}

/// Reads the name of a square, such as `e2`. The file letter may be in
/// either case. Any other text is refused.
pub fn parse(text: &str) -> (result: Result<(u8, u8), InvalidNotation>)
    ensures
        result == match square_named(text@) {
            Some(square) => Ok::<(u8, u8), InvalidNotation>(square),
            None => Err::<(u8, u8), InvalidNotation>(InvalidNotation),
        },
        result matches Ok(square) ==> on_board(square),
{
    if text.unicode_len() != 2 {
        return Err(InvalidNotation);
    }
    let file = file_from_letter(text.get_char(0));
    let rank = rank_from_digit(text.get_char(1));
    match (rank, file) {
        (Some(rank), Some(file)) => Ok((rank, file)),
        _ => Err(InvalidNotation),
    }
}

fn letter_text(file: u8) -> (text: &'static str)
    requires
        file < 8,
    ensures
        text@ == seq![letter_of_file(file)],
{
    proof {
        reveal_strlit("a");
        reveal_strlit("b");
        reveal_strlit("c");
        reveal_strlit("d");
        reveal_strlit("e");
        reveal_strlit("f");
        reveal_strlit("g");
        reveal_strlit("h");
    }
    let text = match file {
        0 => "a",
        1 => "b",
        2 => "c",
        3 => "d",
        4 => "e",
        5 => "f",
        6 => "g",
        _ => "h",
    };
    assert(text@ =~= seq![letter_of_file(file)]);
    text
}

fn digit_text(rank: u8) -> (text: &'static str)
    requires
        rank < 8,
    ensures
        text@ == seq![digit_of_rank(rank)],
{
    proof {
        reveal_strlit("1");
        reveal_strlit("2");
        reveal_strlit("3");
        reveal_strlit("4");
        reveal_strlit("5");
        reveal_strlit("6");
        reveal_strlit("7");
        reveal_strlit("8");
    }
    let text = match rank {
        0 => "1",
        1 => "2",
        2 => "3",
        3 => "4",
        4 => "5",
        5 => "6",
        6 => "7",
        _ => "8",
    };
    assert(text@ =~= seq![digit_of_rank(rank)]);
    text
}

/// Writes the name of a square, such as `e2`.
pub fn format(square: &(u8, u8)) -> (text: String)
    requires
        on_board(*square),
    ensures
        text@ == notation(*square),
{
    let mut text = String::from_str(letter_text(square.1));
    text.append(digit_text(square.0));
    assert(text@ =~= notation(*square));
    text
}

/// Reading the name that was written for a square gives that square back.
pub proof fn lemma_parse_inverts_format(square: (u8, u8))
    requires
        on_board(square),
    ensures
        square_named(notation(square)) == Some(square),
{
}

/// Writing the square that was read from a text gives the text back, with
/// its file letter in lower case.
pub proof fn lemma_format_inverts_parse(text: Seq<char>)
    requires
        square_named(text) is Some,
    ensures
        notation(square_named(text).unwrap()) == normalized(text),
{
    assert(notation(square_named(text).unwrap()) =~= normalized(text));
}

/// A name that is already in lower case is its own normal form.
pub proof fn lemma_normalized_is_idempotent(text: Seq<char>)
    ensures
        normalized(normalized(text)) == normalized(text),
{
    assert(normalized(normalized(text)) =~= normalized(text));
}

} // verus!

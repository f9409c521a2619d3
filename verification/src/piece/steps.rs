use vstd::prelude::*;
use crate::square::{in_bounds, on_board};
use crate::square_set::SquareSet;

verus! {

/// The square that lies `rank_step` ranks and `file_step` files from `from`,
/// as a set: empty when that square is off the board.
pub open spec fn step_target(from: (u8, u8), rank_step: int, file_step: int) -> Set<(u8, u8)> {
    if in_bounds(from.0 + rank_step, from.1 + file_step) {
        set![((from.0 + rank_step) as u8, (from.1 + file_step) as u8)]
    } else {
        Set::empty()
    }
}

/// Adds to `squares` the square that lies the given steps from `from`, if
/// it is on the board.
pub fn add_step(from: &(u8, u8), rank_step: i8, file_step: i8, squares: &mut SquareSet)
    requires
        on_board(*from),
        -2 <= rank_step <= 2,
        -2 <= file_step <= 2,
    ensures
        final(squares)@ == old(squares)@.union(
            step_target(*from, rank_step as int, file_step as int),
        ),
{
    let rank: i8 = from.0 as i8 + rank_step;
    let file: i8 = from.1 as i8 + file_step;
    if 0 <= rank && rank < 8 && 0 <= file && file < 8 {
        squares.insert((rank as u8, file as u8));
    }
    assert(squares@ =~= old(squares)@.union(
        step_target(*from, rank_step as int, file_step as int),
    ));
}

} // verus!

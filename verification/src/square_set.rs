use vstd::prelude::*;
use crate::square::on_board;

verus! {

/// The number of a square, counted along the ranks from a1.
pub open spec fn square_index(square: (u8, u8)) -> int {
    square.0 * 8 + square.1
}

spec fn has_bit(bits: u64, index: u64) -> bool {
    (bits >> index) & 1 == 1
}

proof fn lemma_bits_of_zero()
    ensures
        forall|j: u64| j < 64 ==> !#[trigger] has_bit(0, j),
{
    assert forall|j: u64| j < 64 implies !#[trigger] has_bit(0, j) by {
        assert((0u64 >> j) & 1 != 1) by (bit_vector);
    }
}

proof fn lemma_bits_of_insert(bits: u64, i: u64)
    requires
        i < 64,
    ensures
        forall|j: u64|
            j < 64 ==> (#[trigger] has_bit(bits | (1u64 << i), j) <==> (j == i || has_bit(
                bits,
                j,
            ))),
{
    assert forall|j: u64| j < 64 implies (#[trigger] has_bit(bits | (1u64 << i), j) <==> (j == i
        || has_bit(bits, j))) by {
        assert((((bits | (1u64 << i)) >> j) & 1 == 1) <==> (j == i || (bits >> j) & 1 == 1))
            by (bit_vector)
            requires
                i < 64,
                j < 64,
        ;
    }
}

proof fn lemma_bits_of_union(a: u64, b: u64)
    ensures
        forall|j: u64|
            j < 64 ==> (#[trigger] has_bit(a | b, j) <==> (has_bit(a, j) || has_bit(b, j))),
{
    assert forall|j: u64| j < 64 implies (#[trigger] has_bit(a | b, j) <==> (has_bit(a, j)
        || has_bit(b, j))) by {
        assert((((a | b) >> j) & 1 == 1) <==> ((a >> j) & 1 == 1 || (b >> j) & 1 == 1))
            by (bit_vector)
            requires
                j < 64,
        ;
    }
}

proof fn lemma_bits_of_intersection(a: u64, b: u64)
    ensures
        forall|j: u64|
            j < 64 ==> (#[trigger] has_bit(a & b, j) <==> (has_bit(a, j) && has_bit(b, j))),
{
    assert forall|j: u64| j < 64 implies (#[trigger] has_bit(a & b, j) <==> (has_bit(a, j)
        && has_bit(b, j))) by {
        assert((((a & b) >> j) & 1 == 1) <==> ((a >> j) & 1 == 1 && (b >> j) & 1 == 1))
            by (bit_vector)
            requires
                j < 64,
        ;
    }
}

proof fn lemma_bits_of_difference(a: u64, b: u64)
    ensures
        forall|j: u64|
            j < 64 ==> (#[trigger] has_bit(a & !b, j) <==> (has_bit(a, j) && !has_bit(b, j))),
{
    assert forall|j: u64| j < 64 implies (#[trigger] has_bit(a & !b, j) <==> (has_bit(a, j)
        && !has_bit(b, j))) by {
        assert((((a & !b) >> j) & 1 == 1) <==> ((a >> j) & 1 == 1 && (b >> j) & 1 != 1))
            by (bit_vector)
            requires
                j < 64,
        ;
    }
}

proof fn lemma_some_bit(x: u64, above: u64) -> (i: u64)
    requires
        x != 0,
        above <= 64,
        x >> above == 0,
    ensures
        i < above,
        has_bit(x, i),
    decreases above,
{
    assert(above != 0) by (bit_vector)
        requires
            x != 0,
            x >> above == 0,
    ;
    let top = (above - 1) as u64;
    if has_bit(x, top) {
        top
    } else {
        assert(x >> top == 0) by (bit_vector)
            requires
                0 < above <= 64,
                top == above - 1,
                x >> above == 0,
                (x >> top) & 1 != 1,
        ;
        lemma_some_bit(x, top)
    }
}

proof fn lemma_equal_bits(a: u64, b: u64)
    requires
        forall|j: u64| j < 64 ==> (has_bit(a, j) <==> has_bit(b, j)),
    ensures
        a == b,
{
    if a != b {
        let x = a ^ b;
        assert(x != 0 && x >> 64 == 0) by (bit_vector)
            requires
                a != b,
                x == a ^ b,
        ;
        let i = lemma_some_bit(x, 64);
        assert(((a >> i) & 1 == 1) != ((b >> i) & 1 == 1)) by (bit_vector)
            requires
                i < 64,
                x == a ^ b,
                (x >> i) & 1 == 1,
        ;
        assert(has_bit(a, i) <==> has_bit(b, i));
    }
}

/// The squares of `set` that are on the board and numbered below `index`.
pub open spec fn squares_below(set: Set<(u8, u8)>, index: int) -> Set<(u8, u8)> {
    Set::new(|square: (u8, u8)| on_board(square) && square_index(square) < index && set.contains(square))
}

/// Counting one square further adds that square, if the set holds it.
pub proof fn lemma_squares_below_step(set: Set<(u8, u8)>, index: int, square: (u8, u8))
    requires
        on_board(square),
        square_index(square) == index,
    ensures
        !squares_below(set, index).contains(square),
        squares_below(set, index + 1) == if set.contains(square) {
            squares_below(set, index).insert(square)
        } else {
            squares_below(set, index)
        },
{
    if set.contains(square) {
        assert(squares_below(set, index + 1) =~= squares_below(set, index).insert(square));
    } else {
        assert(squares_below(set, index + 1) =~= squares_below(set, index));
    }
}

/// No square is numbered below 0, and every square of the board below 64.
pub proof fn lemma_squares_below_ends(set: Set<(u8, u8)>)
    ensures
        squares_below(set, 0) == Set::<(u8, u8)>::empty(),
        (forall|square: (u8, u8)| set.contains(square) ==> on_board(square)) ==> squares_below(
            set,
            64,
        ) == set,
{
    assert(squares_below(set, 0) =~= Set::<(u8, u8)>::empty());
    if forall|square: (u8, u8)| set.contains(square) ==> on_board(square) {
        assert(squares_below(set, 64) =~= set);
    }
}

/// A set of squares of the board.
#[derive(Clone, Copy, Debug, PartialEq, Eq, Structural, Hash)]
pub struct SquareSet {
    bits: u64,
}

impl View for SquareSet {
    type V = Set<(u8, u8)>;

    closed spec fn view(&self) -> Set<(u8, u8)> {
        Set::new(
            |square: (u8, u8)|
                on_board(square) && has_bit(self.bits, (square.0 * 8 + square.1) as u64),
        )
    }
}

impl SquareSet {
    /// The empty set.
    pub fn new() -> (set: SquareSet)
        ensures
            set@ == Set::<(u8, u8)>::empty(),
    {
        proof {
            lemma_bits_of_zero();
        }
        let set = SquareSet { bits: 0 };
        assert(set@ =~= Set::<(u8, u8)>::empty());
        set
    }

    /// Whether the square is in the set. A pair that is no square of the
    /// board is in no set.
    pub fn contains(&self, square: &(u8, u8)) -> (found: bool)
        ensures
            found == self@.contains(*square),
    {
        if square.0 < 8 && square.1 < 8 {
            let index: u64 = square.0 as u64 * 8 + square.1 as u64;
            (self.bits >> index) & 1 == 1
        } else {
            false
        }
    }

    /// Adds a square to the set.
    pub fn insert(&mut self, square: (u8, u8))
        requires
            on_board(square),
        ensures
            final(self)@ == old(self)@.insert(square),
    {
        let index: u64 = square.0 as u64 * 8 + square.1 as u64;
        proof {
            lemma_bits_of_insert(self.bits, index);
        }
        self.bits = self.bits | (1u64 << index);
        assert(self@ =~= old(self)@.insert(square));
    }

    /// The squares that are in either set.
    pub fn union(&self, other: &SquareSet) -> (set: SquareSet)
        ensures
            set@ == self@.union(other@),
    {
        proof {
            lemma_bits_of_union(self.bits, other.bits);
        }
        let set = SquareSet { bits: self.bits | other.bits };
        assert(set@ =~= self@.union(other@));
        set
    }

    /// The squares that are in both sets.
    pub fn intersection(&self, other: &SquareSet) -> (set: SquareSet)
        ensures
            set@ == self@.intersect(other@),
    {
        proof {
            lemma_bits_of_intersection(self.bits, other.bits);
        }
        let set = SquareSet { bits: self.bits & other.bits };
        assert(set@ =~= self@.intersect(other@));
        set
    }

    /// The squares of this set that are not in the other.
    pub fn difference(&self, other: &SquareSet) -> (set: SquareSet)
        ensures
            set@ == self@.difference(other@),
    {
        proof {
            lemma_bits_of_difference(self.bits, other.bits);
        }
        let set = SquareSet { bits: self.bits & !other.bits };
        assert(set@ =~= self@.difference(other@));
        set
    }

    /// Whether the set holds no square.
    pub fn is_empty(&self) -> (empty: bool)
        ensures
            empty == (self@ == Set::<(u8, u8)>::empty()),
    {
        proof {
            SquareSet { bits: 0 }.lemma_equal_by_members(*self);
            lemma_bits_of_zero();
            assert(SquareSet { bits: 0 }@ =~= Set::<(u8, u8)>::empty());
        }
        self.bits == 0
    }

    /// The number of squares in the set.
    pub fn len(&self) -> (count: usize)
        ensures
            self@.finite(),
            count == self@.len(),
    {
        let mut count: usize = 0;
        let mut index: u64 = 0;
        proof {
            lemma_squares_below_ends(self@);
        }
        while index < 64
            invariant
                index <= 64,
                count <= index,
                squares_below(self@, index as int).finite(),
                count == squares_below(self@, index as int).len(),
            decreases 64 - index,
        {
            let ghost square = ((index / 8) as u8, (index % 8) as u8);
            proof {
                lemma_squares_below_step(self@, index as int, square);
            }
            if (self.bits >> index) & 1 == 1 {
                count = count + 1;
            }
            index = index + 1;
        }
        count
    }

    /// Every member of a set is a square of the board.
    pub proof fn lemma_members_on_board(self)
        ensures
            forall|square: (u8, u8)| self@.contains(square) ==> on_board(square),
    {
    }

    /// Two sets with the same members are the same value, so that `==`
    /// compares what the sets hold.
    pub proof fn lemma_equal_by_members(self, other: SquareSet)
        ensures
            self@ == other@ <==> self == other,
    {
        if self@ == other@ {
            assert forall|j: u64| j < 64 implies (has_bit(self.bits, j) <==> has_bit(
                other.bits,
                j,
            )) by {
                let square = ((j / 8) as u8, (j % 8) as u8);
                assert((square.0 * 8 + square.1) as u64 == j);
                assert(self@.contains(square) <==> other@.contains(square));
            }
            lemma_equal_bits(self.bits, other.bits);
        }
    }
}

} // verus!

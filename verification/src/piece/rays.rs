use vstd::prelude::*;
use crate::square::{in_bounds, on_board};
use crate::square_set::SquareSet;

verus! {

/// `count` steps of one coordinate, `unit` telling the way: up, down or not
/// at all.
pub open spec fn scaled(unit: int, count: int) -> int {
    if unit > 0 {
        count
    } else if unit < 0 {
        -count
    } else {
        0
    }
}

/// A direction is one of the eight neighbours of `(0, 0)`: a step of at most
/// one in rank and in file, and not none in both.
pub open spec fn is_direction(dir: (int, int)) -> bool {
    -1 <= dir.0 <= 1 && -1 <= dir.1 <= 1 && dir != (0int, 0int)
}

/// The coordinates reached from `from` after `count` steps in direction `dir`.
pub open spec fn ray_square(from: (u8, u8), dir: (int, int), count: int) -> (int, int) {
    (from.0 + scaled(dir.0, count), from.1 + scaled(dir.1, count))
}

/// The number of king's steps between two squares.
pub open spec fn distance(from: (u8, u8), to: (u8, u8)) -> int {
    let ranks = if to.0 >= from.0 {
        to.0 - from.0
    } else {
        from.0 - to.0
    };
    let files = if to.1 >= from.1 {
        to.1 - from.1
    } else {
        from.1 - to.1
    };
    if ranks >= files {
        ranks
    } else {
        files
    }
}

/// Whether `to` lies on the ray that leaves `from` in direction `dir`.
pub open spec fn on_ray(from: (u8, u8), dir: (int, int), to: (u8, u8)) -> bool {
    distance(from, to) >= 1 && ray_square(from, dir, distance(from, to)) == (
        to.0 as int,
        to.1 as int,
    )
}

/// Whether the coordinates name a square of the board that is in `set`.
pub open spec fn holds(set: Set<(u8, u8)>, at: (int, int)) -> bool {
    in_bounds(at.0, at.1) && set.contains((at.0 as u8, at.1 as u8))
}

/// Whether the ray's square number `count` is on the board with no piece of
/// either side on it.
pub open spec fn ray_free_at(
    from: (u8, u8),
    dir: (int, int),
    count: int,
    team: Set<(u8, u8)>,
    rival_team: Set<(u8, u8)>,
) -> bool {
    let at = ray_square(from, dir, count);
    in_bounds(at.0, at.1) && !holds(team, at) && !holds(rival_team, at)
}

/// Whether a piece that slides from `from` in direction `dir` may stop on
/// the ray's square number `count`: every square before it is free, and it
/// is on the board and not held by the piece's own side.
pub open spec fn ray_reaches(
    from: (u8, u8),
    dir: (int, int),
    count: int,
    team: Set<(u8, u8)>,
    rival_team: Set<(u8, u8)>,
) -> bool {
    let at = ray_square(from, dir, count);
    &&& 1 <= count
    &&& in_bounds(at.0, at.1)
    &&& !holds(team, at)
    &&& forall|j: int| 1 <= j < count ==> #[trigger] ray_free_at(from, dir, j, team, rival_team)
}

/// The squares that a sliding piece may move to along one ray: outward from
/// `from` up to the first square that holds a piece, that square included
/// when the piece on it is a rival's.
pub open spec fn ray_moves(
    from: (u8, u8),
    dir: (int, int),
    team: Set<(u8, u8)>,
    rival_team: Set<(u8, u8)>,
) -> Set<(u8, u8)> {
    Set::new(
        |to: (u8, u8)|
            on_board(to) && on_ray(from, dir, to) && ray_reaches(
                from,
                dir,
                distance(from, to),
                team,
                rival_team,
            ),
    )
}

/// The sign of a number: 1, -1 or 0.
pub open spec fn sign(n: int) -> int {
    if n > 0 {
        1
    } else if n < 0 {
        -1
    } else {
        0
    }
}

/// The direction in which `to` lies as seen from `from`.
pub open spec fn direction_to(from: (u8, u8), to: (u8, u8)) -> (int, int) {
    (sign(to.0 - from.0), sign(to.1 - from.1))
}

/// Whether a piece on `blocker` bars a piece that slides from `from` from
/// the square `to`: both lie on one ray from `from`, and the blocker is the
/// nearer one, or it stands on `to` itself and is of the slider's own side.
pub open spec fn bars(from: (u8, u8), blocker: (u8, u8), to: (u8, u8), team: Set<(u8, u8)>) -> bool {
    let dir = direction_to(from, blocker);
    on_ray(from, dir, blocker) && on_ray(from, dir, to) && (distance(from, blocker) < distance(
        from,
        to,
    ) || (to == blocker && team.contains(blocker)))
}

/// With no piece anywhere but on `from`, a ray's moves are all its squares
/// up to the edge of the board.
pub proof fn lemma_ray_on_empty_board(
    from: (u8, u8),
    dir: (int, int),
    team: Set<(u8, u8)>,
    rival_team: Set<(u8, u8)>,
)
    requires
        on_board(from),
        is_direction(dir),
        forall|square: (u8, u8)|
            team.contains(square) || rival_team.contains(square) ==> square == from,
    ensures
        ray_moves(from, dir, team, rival_team) == Set::new(
            |to: (u8, u8)| on_board(to) && on_ray(from, dir, to),
        ),
{
    assert forall|to: (u8, u8)| on_board(to) && on_ray(from, dir, to) implies ray_reaches(
        from,
        dir,
        distance(from, to),
        team,
        rival_team,
    ) by {
        assert forall|j: int| 1 <= j < distance(from, to) implies #[trigger] ray_free_at(
            from,
            dir,
            j,
            team,
            rival_team,
        ) by {}
    }
    assert(ray_moves(from, dir, team, rival_team) =~= Set::new(
        |to: (u8, u8)| on_board(to) && on_ray(from, dir, to),
    ));
}

/// With one piece besides the slider itself, a ray's moves are its squares
/// up to the edge of the board, but for those that the piece bars: the
/// ray ends on the piece if it is a rival, and on the square before it if
/// it is of the slider's own side.
pub proof fn lemma_ray_with_one_blocker(
    from: (u8, u8),
    dir: (int, int),
    blocker: (u8, u8),
    team: Set<(u8, u8)>,
    rival_team: Set<(u8, u8)>,
)
    requires
        on_board(from),
        is_direction(dir),
        on_board(blocker),
        blocker != from,
        team.contains(blocker) || rival_team.contains(blocker),
        forall|square: (u8, u8)|
            team.contains(square) || rival_team.contains(square) ==> square == from || square
                == blocker,
    ensures
        ray_moves(from, dir, team, rival_team) == Set::new(
            |to: (u8, u8)| on_board(to) && on_ray(from, dir, to) && !bars(from, blocker, to, team),
        ),
{
    assert forall|to: (u8, u8)| on_board(to) && on_ray(from, dir, to) implies (ray_reaches(
        from,
        dir,
        distance(from, to),
        team,
        rival_team,
    ) <==> !bars(from, blocker, to, team)) by {
        let n = distance(from, to);
        if bars(from, blocker, to, team) {
            if distance(from, blocker) < n {
                assert(!ray_free_at(from, dir, distance(from, blocker), team, rival_team));
            }
        } else {
            assert forall|j: int| 1 <= j < n implies #[trigger] ray_free_at(
                from,
                dir,
                j,
                team,
                rival_team,
            ) by {
                let at = ray_square(from, dir, j);
                let square = (at.0 as u8, at.1 as u8);
                assert(in_bounds(at.0, at.1));
                assert(square != from);
                if square == blocker {
                    assert(on_ray(from, dir, blocker));
                    assert(direction_to(from, blocker) == dir);
                }
            }
        }
    }
    assert(ray_moves(from, dir, team, rival_team) =~= Set::new(
        |to: (u8, u8)| on_board(to) && on_ray(from, dir, to) && !bars(from, blocker, to, team),
    ));
}

/// The part of a ray's moves that lies fewer than `count` steps away.
spec fn ray_moves_before(
    from: (u8, u8),
    dir: (int, int),
    count: int,
    team: Set<(u8, u8)>,
    rival_team: Set<(u8, u8)>,
) -> Set<(u8, u8)> {
    Set::new(
        |to: (u8, u8)|
            ray_moves(from, dir, team, rival_team).contains(to) && distance(from, to) < count,
    )
}

/// Walks one ray from `from` and adds to `moves` the squares that a sliding
/// piece may move to along it.
pub fn walk_ray(
    from: &(u8, u8),
    rank_step: i8,
    file_step: i8,
    team: &SquareSet,
    rival_team: &SquareSet,
    moves: &mut SquareSet,
)
    requires
        on_board(*from),
        is_direction((rank_step as int, file_step as int)),
    ensures
        final(moves)@ == old(moves)@.union(
            ray_moves(*from, (rank_step as int, file_step as int), team@, rival_team@),
        ),
{
    let ghost dir = (rank_step as int, file_step as int);
    let ghost before = moves@;
    let mut rank: i8 = from.0 as i8 + rank_step;
    let mut file: i8 = from.1 as i8 + file_step;
    let mut count: u8 = 1;
    let mut blocked = false;
    assert(moves@ =~= before.union(ray_moves_before(*from, dir, 1, team@, rival_team@)));
    while !blocked && 0 <= rank && rank < 8 && 0 <= file && file < 8
        invariant
            on_board(*from),
            is_direction(dir),
            dir == (rank_step as int, file_step as int),
            1 <= count <= 8,
            -1 <= rank <= 8,
            -1 <= file <= 8,
            (rank as int, file as int) == ray_square(*from, dir, count as int),
            !blocked ==> forall|j: int|
                1 <= j < count ==> #[trigger] ray_free_at(*from, dir, j, team@, rival_team@),
            blocked ==> forall|to: (u8, u8)|
                ray_moves(*from, dir, team@, rival_team@).contains(to) ==> distance(*from, to)
                    < count,
            moves@ == before.union(
                ray_moves_before(*from, dir, count as int, team@, rival_team@),
            ),
        decreases 8 - count, if blocked { 0int } else { 1int },
    {
        let square = (rank as u8, file as u8);
        let ghost here = count as int;
        assert(distance(*from, square) == here);
        assert(on_ray(*from, dir, square));
        if team.contains(&square) {
            blocked = true;
            assert(!ray_free_at(*from, dir, here, team@, rival_team@));
        } else {
            moves.insert(square);
            assert(ray_moves(*from, dir, team@, rival_team@).contains(square));
            if rival_team.contains(&square) {
                blocked = true;
                assert(!ray_free_at(*from, dir, here, team@, rival_team@));
            } else {
                assert(ray_free_at(*from, dir, here, team@, rival_team@));
            }
        }
        rank = rank + rank_step;
        file = file + file_step;
        count = count + 1;
        assert(moves@ =~= before.union(
            ray_moves_before(*from, dir, count as int, team@, rival_team@),
        )) by {
            assert forall|to: (u8, u8)|
                ray_moves(*from, dir, team@, rival_team@).contains(to) && distance(*from, to)
                    == here implies to == square by {}
        }
    }
    assert(moves@ =~= before.union(ray_moves(*from, dir, team@, rival_team@))) by {
        assert forall|to: (u8, u8)|
            ray_moves(*from, dir, team@, rival_team@).contains(to) implies distance(*from, to)
            < count by {
            if !blocked && distance(*from, to) >= count {
                assert(ray_free_at(*from, dir, count as int, team@, rival_team@)
                    || distance(*from, to) == count);
            }
        }
    }
}

} // verus!

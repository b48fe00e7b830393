//! The search core and solver facade: a bounded, iterative-deepening
//! depth-first search over the states reachable by the eight moves. The
//! solver's contract pins the result down: a returned path really solves the
//! cube and is as short as any solution, and failure means no solution exists
//! within the depth bound.

use vstd::prelude::*;

use crate::cube::cube_solved;
use crate::cube::Cube3x3x3;
use crate::moves::lemma_apply_then_inverse;
use crate::moves::lemma_move_index_injective;
use crate::moves::lemma_move_index_range;
use crate::moves::move_at;
use crate::moves::move_index;
use crate::moves::spec_apply;
use crate::moves::Move;

verus! {

/// The default bound on how many moves deep the solver searches.
pub const DEFAULT_MAX_DEPTH: usize = 6;

/// The state reached from `c` after playing the moves of `s` in order.
pub open spec fn apply_seq(c: Cube3x3x3, s: Seq<Move>) -> Cube3x3x3
    decreases s.len(),
{
    if s.len() == 0 {
        c
    } else {
        spec_apply(apply_seq(c, s.drop_last()), s.last())
    }
}

/// The moves of `s`, played in order from `c`, end on a solved cube.
pub open spec fn is_solution(c: Cube3x3x3, s: Seq<Move>) -> bool {
    cube_solved(apply_seq(c, s))
}

/// No state reached after a nonempty prefix of `s` is among `seen`.
pub open spec fn avoids(c: Cube3x3x3, s: Seq<Move>, seen: Seq<Cube3x3x3>) -> bool {
    forall|i: int| 1 <= i <= s.len() ==> !seen.contains(apply_seq(c, #[trigger] s.take(i)))
}

/// Appending one move plays it after the rest of the sequence.
proof fn lemma_apply_seq_push(c: Cube3x3x3, s: Seq<Move>, m: Move)
    ensures
        apply_seq(c, s.push(m)) == spec_apply(apply_seq(c, s), m),
{
    assert(s.push(m).drop_last() =~= s);
    assert(s.push(m).last() == m);
}

/// A move sequence can be split anywhere: play the first `i` moves, then
/// the rest from the state they reach.
proof fn lemma_apply_seq_split(c: Cube3x3x3, s: Seq<Move>, i: int)
    requires
        0 <= i <= s.len(),
    ensures
        apply_seq(c, s) == apply_seq(apply_seq(c, s.take(i)), s.skip(i)),
    decreases s.len() - i,
{
    if i == s.len() {
        assert(s.take(i) =~= s);
        assert(s.skip(i) =~= Seq::<Move>::empty());
    } else {
        let s0 = s.drop_last();
        lemma_apply_seq_split(c, s0, i);
        assert(s0.take(i) =~= s.take(i));
        assert(s.skip(i).drop_last() =~= s0.skip(i));
        assert(s.skip(i).last() == s.last());
        assert(s.skip(i).len() > 0);
    }
}

/// Loop cutting: any solution that stays off the `seen` states can be
/// shortened to one that also never returns to its own start state.
proof fn lemma_trim(c: Cube3x3x3, s: Seq<Move>, seen: Seq<Cube3x3x3>) -> (t: Seq<Move>)
    requires
        is_solution(c, s),
        avoids(c, s, seen),
    ensures
        t.len() <= s.len(),
        is_solution(c, t),
        avoids(c, t, seen.push(c)),
    decreases s.len(),
{
    if exists|i: int| 1 <= i <= s.len() && apply_seq(c, #[trigger] s.take(i)) == c {
        let i = choose|i: int| 1 <= i <= s.len() && apply_seq(c, #[trigger] s.take(i)) == c;
        let s2 = s.skip(i);
        lemma_apply_seq_split(c, s, i);
        assert(is_solution(c, s2));
        assert forall|j: int| 1 <= j <= s2.len() implies !seen.contains(
            apply_seq(c, #[trigger] s2.take(j)),
        ) by {
            lemma_apply_seq_split(c, s.take(i + j), i);
            assert(s.take(i + j).take(i) =~= s.take(i));
            assert(s.take(i + j).skip(i) =~= s2.take(j));
            assert(!seen.contains(apply_seq(c, s.take(i + j))));
        }
        lemma_trim(c, s2, seen)
    } else {
        assert forall|j: int| 1 <= j <= s.len() implies !seen.push(c).contains(
            apply_seq(c, #[trigger] s.take(j)),
        ) by {
            let x = apply_seq(c, s.take(j));
            assert(!seen.contains(x));
            assert(x != c);
            if seen.push(c).contains(x) {
                let k = choose|k: int|
                    0 <= k < seen.push(c).len() && seen.push(c)[k] == x;
                if k < seen.len() {
                    assert(seen[k] == x);
                    assert(seen.contains(x));
                } else {
                    assert(x == c);
                }
            }
        }
        s
    }
}

/// Whether a cube state already occurs in the stack of seen states.
fn contains_cube(seen: &Vec<Cube3x3x3>, c: &Cube3x3x3) -> (present: bool)
    ensures
        present == seen@.contains(*c),
{
    let mut i: usize = 0;
    while i < seen.len()
        invariant
            i <= seen@.len(),
            forall|j: int| 0 <= j < i ==> seen@[j] != *c,
        decreases seen@.len() - i,
    {
        if seen[i] == *c {
            return true;
        }
        i += 1;
    }
    false
}

/// Play a recorded move sequence from a starting cube.
fn apply_all(c: &Cube3x3x3, s: &Vec<Move>) -> (r: Cube3x3x3)
    ensures
        r == apply_seq(*c, s@),
{
    let mut acc = *c;
    let mut i: usize = 0;
    while i < s.len()
        invariant
            i <= s@.len(),
            acc == apply_seq(*c, s@.take(i as int)),
        decreases s@.len() - i,
    {
        acc = acc.apply(s[i]);
        proof {
            assert(s@.take(i + 1).drop_last() =~= s@.take(i as int));
            assert(s@.take(i + 1).last() == s@[i as int]);
        }
        i += 1;
    }
    proof {
        assert(s@.take(s@.len() as int) =~= s@);
    }
    acc
}

/// Depth-bounded depth-first search below one node. `path` holds the moves
/// played from the root and `seen` the states along that path, the root
/// first and the current state last. On success the path is extended (in
/// place) to a full solution from the root; on failure both stacks are as
/// they were, and no solution of length at most `limit` leaves this node
/// while avoiding every state already on the path.
fn search(
    cube: &Cube3x3x3,
    limit: usize,
    path: &mut Vec<Move>,
    seen: &mut Vec<Cube3x3x3>,
    Ghost(root): Ghost<Cube3x3x3>,
) -> (found: bool)
    requires
        old(seen)@.len() == old(path)@.len() + 1,
        forall|i: int|
            0 <= i <= old(path)@.len() ==> #[trigger] old(seen)@[i] == apply_seq(
                root,
                old(path)@.take(i),
            ),
        *cube == apply_seq(root, old(path)@),
    ensures
        found ==> old(path)@.len() <= final(path)@.len() && final(path)@.len() <= old(path)@.len()
            + limit && final(path)@.take(
            old(path)@.len() as int,
        ) == old(path)@ && is_solution(root, final(path)@),
        !found ==> final(path)@ == old(path)@ && final(seen)@ == old(seen)@ && forall|s: Seq<Move>|
            !(s.len() <= limit && is_solution(*cube, s) && avoids(*cube, s, old(seen)@)),
    decreases limit,
{
    let ghost pre_path = path@;
    let ghost pre_seen = seen@;
    proof {
        assert(pre_path.take(pre_path.len() as int) =~= pre_path);
    }
    if cube.is_solved() {
        return true;
    }
    if limit == 0 {
        proof {
            assert forall|s: Seq<Move>|
                !(s.len() <= limit && is_solution(*cube, s) && avoids(
                    *cube,
                    s,
                    pre_seen,
                )) by {
                if s.len() == 0 {
                    assert(apply_seq(*cube, s) == *cube);
                }
            }
        }
        return false;
    }
    let plen = path.len();
    let mut idx: usize = 0;
    while idx < 8
        invariant
            pre_path == old(path)@,
            pre_seen == old(seen)@,
            path@ == pre_path,
            seen@ == pre_seen,
            pre_seen.len() == pre_path.len() + 1,
            plen == pre_path.len(),
            forall|i: int|
                0 <= i <= pre_path.len() ==> #[trigger] pre_seen[i] == apply_seq(
                    root,
                    pre_path.take(i),
                ),
            *cube == apply_seq(root, pre_path),
            !cube_solved(*cube),
            limit >= 1,
            idx <= 8,
            forall|s: Seq<Move>|
                !(1 <= s.len() <= limit && move_index(s[0]) < idx && is_solution(*cube, s)
                    && avoids(*cube, s, pre_seen)),
        decreases 8 - idx,
    {
        let m = move_at(idx);
        let next = cube.apply(m);
        let ghost moved: Seq<Move> = seq![m];
        proof {
            assert(moved.len() == 1);
            assert(moved.last() == m);
            assert(moved.drop_last() =~= Seq::<Move>::empty());
            assert(apply_seq(*cube, Seq::<Move>::empty()) == *cube);
            assert(apply_seq(*cube, moved) == spec_apply(*cube, m));
        }
        let mut pruned = false;
        if path.len() > 0 {
            let last = path[path.len() - 1];
            if m == last.inverse() {
                pruned = true;
                proof {
                    let parent = pre_seen[plen - 1];
                    assert(pre_path.take(plen - 1) =~= pre_path.drop_last());
                    assert(pre_path.last() == last);
                    assert(*cube == spec_apply(parent, last));
                    lemma_apply_then_inverse(parent, last);
                    assert(next == parent);
                    assert(pre_seen.contains(next));
                }
            }
        }
        if !pruned {
            if contains_cube(seen, &next) {
                pruned = true;
            }
        }
        if pruned {
            proof {
                assert(pre_seen.contains(next));
                assert forall|s: Seq<Move>|
                    !(1 <= s.len() <= limit && move_index(s[0]) == idx && is_solution(*cube, s)
                        && avoids(*cube, s, pre_seen)) by {
                    if 1 <= s.len() <= limit && move_index(s[0]) == idx && is_solution(*cube, s)
                        && avoids(*cube, s, pre_seen) {
                        lemma_move_index_injective(s[0], m);
                        assert(s.take(1) =~= moved);
                        assert(apply_seq(*cube, s.take(1)) == next);
                        assert(!pre_seen.contains(apply_seq(*cube, s.take(1))));
                    }
                }
            }
        } else {
            path.push(m);
            seen.push(next);
            proof {
                lemma_apply_seq_push(root, pre_path, m);
                assert forall|i: int|
                    0 <= i <= path@.len() implies #[trigger] seen@[i] == apply_seq(
                    root,
                    path@.take(i),
                ) by {
                    if i <= plen {
                        assert(path@.take(i) =~= pre_path.take(i));
                    } else {
                        assert(path@.take(i) =~= pre_path.push(m));
                    }
                }
                assert(next == apply_seq(root, path@));
            }
            let found = search(&next, limit - 1, path, seen, Ghost(root));
            if found {
                proof {
                    assert(path@.len() >= plen + 1);
                    assert(path@.take(plen + 1).take(plen as int) =~= path@.take(plen as int));
                    assert(pre_path.push(m).take(plen as int) =~= pre_path);
                }
                return true;
            }
            path.pop();
            seen.pop();
            proof {
                assert(path@ =~= pre_path);
                assert(seen@ =~= pre_seen);
                assert forall|s: Seq<Move>|
                    !(1 <= s.len() <= limit && move_index(s[0]) == idx && is_solution(*cube, s)
                        && avoids(*cube, s, pre_seen)) by {
                    if 1 <= s.len() <= limit && move_index(s[0]) == idx && is_solution(*cube, s)
                        && avoids(*cube, s, pre_seen) {
                        lemma_move_index_injective(s[0], m);
                        let tail = s.skip(1);
                        lemma_apply_seq_split(*cube, s, 1);
                        assert(s.take(1) =~= moved);
                        assert(apply_seq(*cube, s.take(1)) == next);
                        assert(is_solution(next, tail));
                        assert forall|j: int| 1 <= j <= tail.len() implies !pre_seen.contains(
                            apply_seq(next, #[trigger] tail.take(j)),
                        ) by {
                            lemma_apply_seq_split(*cube, s.take(1 + j), 1);
                            assert(s.take(1 + j).take(1) =~= moved);
                            assert(s.take(1 + j).skip(1) =~= tail.take(j));
                            assert(!pre_seen.contains(apply_seq(*cube, s.take(1 + j))));
                        }
                        let t = lemma_trim(next, tail, pre_seen);
                        assert(!(t.len() <= limit - 1 && is_solution(next, t) && avoids(
                            next,
                            t,
                            pre_seen.push(next),
                        )));
                    }
                }
            }
        }
        idx += 1;
    }
    proof {
        assert forall|s: Seq<Move>|
            !(s.len() <= limit && is_solution(*cube, s) && avoids(*cube, s, pre_seen)) by {
            if s.len() <= limit && is_solution(*cube, s) && avoids(*cube, s, pre_seen) {
                if s.len() == 0 {
                    assert(apply_seq(*cube, s) == *cube);
                } else {
                    lemma_move_index_range(s[0]);
                }
            }
        }
    }
    false
}

/// Why the solver gave up: the search exhausted its depth bound without
/// reaching a solved cube.
#[derive(Copy, Clone, Debug, PartialEq, Eq, Structural)]
pub enum SolveError {
    DepthExceeded,
}

/// A successful solve: the solved cube and the moves that reach it.
#[derive(Clone, Debug)]
pub struct SolvedCube {
    /// The cube after playing the returned moves; every face is uniform.
    pub final_state: Cube3x3x3,
    /// The moves that carry the starting cube to the solved state.
    pub moves_applied: Vec<Move>,
}

/// A single-use solver around one starting cube: iterative-deepening
/// depth-first search, trying moves in canonical order at every node,
/// pruning a move that immediately undoes the previous one and any branch
/// that returns to a state already on the current path.
pub struct CubeSolver {
    /// The cube the solver starts from.
    pub cube: Cube3x3x3,
    /// The depth bound: solutions longer than this are not searched for.
    pub max_depth: usize,
}

impl CubeSolver {
    /// A solver for the given cube with the default depth bound.
    pub fn new(cube: Cube3x3x3) -> (s: CubeSolver)
        ensures
            s.cube == cube,
            s.max_depth == DEFAULT_MAX_DEPTH,
    {
        CubeSolver { cube, max_depth: DEFAULT_MAX_DEPTH }
    }

    /// A solver for the given cube with a chosen depth bound.
    pub fn with_max_depth(cube: Cube3x3x3, max_depth: usize) -> (s: CubeSolver)
        ensures
            s.cube == cube,
            s.max_depth == max_depth,
    {
        CubeSolver { cube, max_depth }
    }

    /// Search for a move sequence that solves the cube, consuming the
    /// solver. On success the returned moves really carry the starting cube
    /// to the returned solved state, and no solution is shorter; in
    /// particular an already-solved cube comes back unchanged with an empty
    /// path. Failure means exactly that no move sequence within the depth
    /// bound solves the cube.
    pub fn solve(self) -> (r: Result<SolvedCube, SolveError>)
        ensures
            match r {
                Ok(s) => is_solution(self.cube, s.moves_applied@) && s.final_state == apply_seq(
                    self.cube,
                    s.moves_applied@,
                ) && cube_solved(s.final_state) && s.moves_applied@.len() <= self.max_depth
                    && forall|t: Seq<Move>|
                    is_solution(self.cube, t) ==> s.moves_applied@.len() <= t.len(),
                Err(e) => e == SolveError::DepthExceeded && forall|t: Seq<Move>|
                    t.len() <= self.max_depth ==> !is_solution(self.cube, t),
            },
            cube_solved(self.cube) ==> r is Ok,
    {
        let cube = self.cube;
        let max = self.max_depth;
        let mut limit: usize = 0;
        proof {
            assert(apply_seq(cube, Seq::<Move>::empty()) == cube);
        }
        loop
            invariant
                cube == self.cube,
                max == self.max_depth,
                limit <= max,
                forall|t: Seq<Move>| t.len() < limit ==> !is_solution(cube, t),
            decreases max - limit,
        {
            let mut path: Vec<Move> = Vec::new();
            let mut seen: Vec<Cube3x3x3> = Vec::new();
            seen.push(cube);
            proof {
                assert forall|i: int|
                    0 <= i <= path@.len() implies #[trigger] seen@[i] == apply_seq(
                    cube,
                    path@.take(i),
                ) by {
                    assert(path@.take(i) =~= Seq::<Move>::empty());
                }
            }
            if search(&cube, limit, &mut path, &mut seen, Ghost(cube)) {
                proof {
                    assert(path@.take(0) =~= Seq::<Move>::empty());
                    assert forall|t: Seq<Move>| is_solution(cube, t) implies path@.len()
                        <= t.len() by {
                        if t.len() < limit {
                            assert(!is_solution(cube, t));
                        }
                    }
                }
                let final_state = apply_all(&cube, &path);
                return Ok(SolvedCube { final_state, moves_applied: path });
            }
            proof {
                assert forall|t: Seq<Move>| t.len() < limit + 1 implies !is_solution(
                    cube,
                    t,
                ) by {
                    if t.len() <= limit && is_solution(cube, t) {
                        assert(avoids(cube, t, Seq::<Cube3x3x3>::empty()));
                        let t2 = lemma_trim(cube, t, Seq::<Cube3x3x3>::empty());
                        assert(Seq::<Cube3x3x3>::empty().push(cube) =~= seq![cube]);
                        assert(seen@ == seq![cube]);
                        assert(!(t2.len() <= limit && is_solution(cube, t2) && avoids(
                            cube,
                            t2,
                            seq![cube],
                        )));
                    }
                }
            }
            if limit == max {
                proof {
                    assert(!is_solution(cube, Seq::<Move>::empty()));
                }
                return Err(SolveError::DepthExceeded);
            }
            limit = limit + 1;
        }
    }
}

} // verus!

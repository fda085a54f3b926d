//! Support mapping: which vertex of a hull lies farthest along a direction.

use vstd::prelude::*;
use crate::scalar::{exceeds, greater, nan};
use crate::vector::Vec3;

verus! {

/// A hull vertex together with its reach: the dot product of the vertex with
/// the direction of the search, as the host measured it.
#[derive(Clone, Copy, Debug)]
pub struct Candidate {
    pub vertex: Vec3,
    pub reach: u32,
}

/// The search over `candidates` settles at position `at`.
///
/// A first candidate whose reach is not a number is never displaced.
/// Otherwise the search settles at a candidate whose reach is a number, which
/// strictly exceeds every number before it and which no candidate exceeds:
/// among equal maxima, the earliest.
pub open spec fn settles_at(candidates: Seq<Candidate>, at: int) -> bool {
    &&& 0 <= at < candidates.len()
    &&& if nan(candidates[0].reach) {
        at == 0
    } else {
        &&& !nan(candidates[at].reach)
        &&& forall|j: int|
            0 <= j < at && !nan(#[trigger] candidates[j].reach) ==> exceeds(
                candidates[at].reach,
                candidates[j].reach,
            )
        &&& forall|j: int|
            0 <= j < candidates.len() ==> !exceeds(
                #[trigger] candidates[j].reach,
                candidates[at].reach,
            )
    }
}

/// The search settles at one position at most.
pub proof fn settles_at_most_once(candidates: Seq<Candidate>, first: int, second: int)
    requires
        settles_at(candidates, first),
        settles_at(candidates, second),
    ensures
        first == second,
{
    if !nan(candidates[0].reach) && first != second {
        if first < second {
            assert(exceeds(candidates[second].reach, candidates[first].reach));
            assert(!exceeds(candidates[second].reach, candidates[first].reach));
        } else {
            assert(exceeds(candidates[first].reach, candidates[second].reach));
            assert(!exceeds(candidates[first].reach, candidates[second].reach));
        }
    }
}

/// The position of the farthest candidate, `None` for an empty hull.
pub fn farthest_index(candidates: &[Candidate]) -> (r: Option<usize>)
    ensures
        candidates@.len() == 0 <==> r is None,
        r matches Some(at) ==> settles_at(candidates@, at as int) && at == settled(candidates@),
{
    let n: usize = candidates.len();
    if n == 0 {
        return None;
    }
    let mut best: usize = 0;
    let mut k: usize = 1;
    while k < n
        invariant
            n == candidates@.len(),
            0 <= best < k <= n,
            nan(candidates@[0].reach) ==> best == 0,
            !nan(candidates@[0].reach) ==> !nan(candidates@[best as int].reach),
            forall|j: int|
                0 <= j < best && !nan(#[trigger] candidates@[j].reach) ==> exceeds(
                    candidates@[best as int].reach,
                    candidates@[j].reach,
                ),
            forall|j: int|
                0 <= j < k ==> !exceeds(
                    #[trigger] candidates@[j].reach,
                    candidates@[best as int].reach,
                ),
        decreases n - k,
    {
        if greater(candidates[k].reach, candidates[best].reach) {
            best = k;
        }
        k += 1;
    }
    proof {
        assert(settles_at(candidates@, best as int));
        settles_at_most_once(candidates@, best as int, settled(candidates@));
    }
    Some(best)
}

/// The position at which the search over a hull that is not empty settles.
pub open spec fn settled(candidates: Seq<Candidate>) -> int {
    choose|at: int| settles_at(candidates, at)
}

/// The vertex that a support query returns: the vertex where the search
/// settles, and the origin for an empty hull.
pub open spec fn farthest_of(candidates: Seq<Candidate>) -> Vec3 {
    if candidates.len() == 0 {
        Vec3(0, 0, 0)
    } else {
        candidates[settled(candidates)].vertex
    }
}

/// A hull of one vertex answers every support query with that vertex.
pub proof fn single_vertex_is_farthest(only: Candidate)
    ensures
        farthest_of(seq![only]) == only.vertex,
{
    let hull = seq![only];
    assert(settles_at(hull, 0));
    assert(settles_at(hull, settled(hull)));
}

/// The empty hull answers every support query as the hull of the single
/// point at the origin does, whatever reach was measured of that point.
pub proof fn empty_hull_is_the_origin(reach: u32)
    ensures
        farthest_of(Seq::<Candidate>::empty()) == farthest_of(
            seq![(Candidate { vertex: Vec3(0, 0, 0), reach: reach })],
        ),
{
    single_vertex_is_farthest(Candidate { vertex: Vec3(0, 0, 0), reach: reach });
}

/// The vertex farthest along the direction that the reaches were measured
/// in. An empty hull stands for a single point at the origin.
pub fn farthest(candidates: &[Candidate]) -> (r: Vec3)
    ensures
        r == farthest_of(candidates@),
        candidates@.len() > 0 ==> settles_at(candidates@, settled(candidates@)),
{
    match farthest_index(candidates) {
        Some(at) => {
            proof {
                settles_at_most_once(candidates@, at as int, settled(candidates@));
            }
            candidates[at].vertex
        },
        None => Vec3::default(),
    }
}

} // verus!

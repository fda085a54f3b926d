//! Simplex evolution: how the working set of support points shrinks, grows
//! and terminates while the search closes in on the origin.
//!
//! The simplex holds the support points `b`, `c` and `d` found so far; `a` is
//! the point that the latest support query returned. All points are points
//! of the Minkowski difference of the two hulls.

use vstd::prelude::*;
use core::ops::Neg;
use crate::scalar::{is_negative, is_positive, negative, positive};
use crate::vector::Vec3;

verus! {

/// What the host measured of the triangle spanned by the newest point `a`
/// and two older points `p` and `q`, with `ap = p - a`, `aq = q - a`,
/// `ao = -a` and the face normal `n = ap x aq`.
#[derive(Clone, Copy, Debug)]
pub struct Face {
    /// The face normal `n`.
    pub normal: Vec3,
    /// `(ap x ao) x ap`: orthogonal to the edge from `a` to `p`, on the
    /// origin's side.
    pub toward_first: Vec3,
    /// `(aq x ao) x aq`: orthogonal to the edge from `a` to `q`, on the
    /// origin's side.
    pub toward_second: Vec3,
    /// `(ap x n) . ao`: positive where the origin lies beyond the edge from
    /// `a` to `p`.
    pub beyond_first: u32,
    /// `(n x aq) . ao`: positive where the origin lies beyond the edge from
    /// `a` to `q`.
    pub beyond_second: u32,
    /// `n . ao`: positive where the origin lies on the side that the normal
    /// points to.
    pub above: u32,
}

/// Where the origin lies relative to the two edges of a face that meet in
/// the newest point.
#[derive(Clone, Copy, Debug, PartialEq, Eq, Structural)]
pub enum Region {
    /// Beyond the edge to the face's first older point.
    BeyondFirst,
    /// Beyond the edge to the face's second older point.
    BeyondSecond,
    /// Beyond neither edge: inside the prism over the triangle.
    Within,
}

/// What the simplex currently stands for.
#[derive(Clone, Copy, Debug, PartialEq, Eq, Structural)]
pub enum Width {
    /// A line segment `b`, `c`; with the next point a triangle is examined.
    Segment,
    /// A triangle `b`, `c`, `d`; with the next point a tetrahedron is
    /// examined.
    Tetrahedron,
}

/// The working state of one search.
#[derive(Clone, Copy, Debug)]
pub struct Simplex {
    pub b: Vec3,
    pub c: Vec3,
    pub d: Vec3,
    /// The direction of the next support query.
    pub direction: Vec3,
    pub width: Width,
}

/// What the host measured after a support query returned the point `a`.
#[derive(Clone, Copy, Debug)]
pub struct Probe {
    /// The dot product of `a` with the direction of the query.
    pub reach: u32,
    /// The face of `a` with `b` and `c`.
    pub abc: Face,
    /// The face of `a` with `c` and `d`.
    pub acd: Face,
    /// The face of `a` with `d` and `b`.
    pub adb: Face,
}

/// The outcome of one step of the search.
#[derive(Clone, Copy, Debug)]
pub enum Step {
    /// A separating direction was found: the hulls do not intersect.
    Separated,
    /// The origin is enclosed: the hulls intersect or touch.
    Intersecting,
    /// Undecided: query the support point along the new direction.
    Continue(Simplex),
}

impl Face {
    /// The plane-straddle test. A measurement counts as beyond an edge only
    /// where it is strictly positive; the first edge is asked first.
    pub open spec fn region(self) -> Region {
        if positive(self.beyond_first) {
            Region::BeyondFirst
        } else if positive(self.beyond_second) {
            Region::BeyondSecond
        } else {
            Region::Within
        }
    }
}

impl Face {
    /// The direction is one that this face gives to a search that goes on:
    /// an edge's direction toward the origin, the normal, or the normal
    /// reversed.
    pub open spec fn offers(self, direction: Vec3) -> bool {
        direction == self.toward_first || direction == self.toward_second || direction
            == self.normal || direction == self.normal.negated()
    }
}

impl Probe {
    /// Nothing was measured on the far side of anything: the reach is not
    /// negative and no face has a positive measurement. This is what the
    /// host measures when all support points coincide with the origin, as
    /// they do for two hulls that are one and the same point.
    pub open spec fn flat(self) -> bool {
        &&& !negative(self.reach)
        &&& !positive(self.abc.beyond_first) && !positive(self.abc.beyond_second) && !positive(
            self.abc.above,
        )
        &&& !positive(self.acd.above)
        &&& !positive(self.adb.above)
    }
}

impl Simplex {
    /// The simplex after `c` and `d` have taken the places of `b` and `c`:
    /// the roles in which the face of `a`, `c` and `d` is examined.
    pub open spec fn turned_once(self) -> Simplex {
        Simplex { b: self.c, c: self.d, ..self }
    }

    /// The simplex after `d` and `b` have taken the places of `b` and `c`:
    /// the roles in which the face of `a`, `d` and `b` is examined.
    pub open spec fn turned_twice(self) -> Simplex {
        Simplex { b: self.d, c: self.b, ..self }
    }

    /// Collapse to the segment from `a` to `b`, to be left orthogonally
    /// toward the origin.
    pub open spec fn onto_first_edge(self, a: Vec3, face: Face) -> Simplex {
        Simplex { b: a, c: self.b, d: self.d, direction: face.toward_first, width: Width::Segment }
    }

    /// Collapse to the segment from `a` to `c`, to be left orthogonally
    /// toward the origin.
    pub open spec fn onto_second_edge(self, a: Vec3, face: Face) -> Simplex {
        Simplex { b: a, c: self.c, d: self.d, direction: face.toward_second, width: Width::Segment }
    }

    /// Growth to the triangle `a`, `b`, `c`, to be left along its normal.
    pub open spec fn onto_face(self, a: Vec3, face: Face) -> Simplex {
        Simplex { b: a, c: self.b, d: self.c, direction: face.normal, width: Width::Tetrahedron }
    }

    /// Growth to the triangle `a`, `c`, `b`, to be left against the normal
    /// of `a`, `b`, `c`: the same triangle seen from its other side.
    pub open spec fn onto_face_reversed(self, a: Vec3, face: Face) -> Simplex {
        Simplex {
            b: a,
            c: self.c,
            d: self.b,
            direction: face.normal.negated(),
            width: Width::Tetrahedron,
        }
    }

    /// The segment `b`, `c` met with a new point `a`. Beyond an edge the
    /// simplex collapses to that edge. Within, it grows to a triangle, seen
    /// from the side that the origin is on: the normal's side only where the
    /// origin lies strictly above the face.
    pub open spec fn with_triangle(self, a: Vec3, face: Face) -> Simplex {
        match face.region() {
            Region::BeyondFirst => self.onto_first_edge(a, face),
            Region::BeyondSecond => self.onto_second_edge(a, face),
            Region::Within => if positive(face.above) {
                self.onto_face(a, face)
            } else {
                self.onto_face_reversed(a, face)
            },
        }
    }

    /// A face of the tetrahedron that the origin lies strictly above, met in
    /// the roles `a`, `b`, `c`. Beyond an edge the simplex collapses to that
    /// edge; within, the face replaces the triangle.
    pub open spec fn with_open_face(self, a: Vec3, face: Face) -> Simplex {
        match face.region() {
            Region::BeyondFirst => self.onto_first_edge(a, face),
            Region::BeyondSecond => self.onto_second_edge(a, face),
            Region::Within => self.onto_face(a, face),
        }
    }

    /// The triangle `b`, `c`, `d` met with a new point `a`. The three faces
    /// that meet in `a` are asked in turn; the search goes on through the
    /// first that the origin lies strictly above. Where there is none the
    /// tetrahedron encloses the origin.
    pub open spec fn with_tetrahedron(self, a: Vec3, abc: Face, acd: Face, adb: Face) -> Step {
        if positive(abc.above) {
            Step::Continue(self.with_open_face(a, abc))
        } else if positive(acd.above) {
            Step::Continue(self.turned_once().with_open_face(a, acd))
        } else if positive(adb.above) {
            Step::Continue(self.turned_twice().with_open_face(a, adb))
        } else {
            Step::Intersecting
        }
    }

    /// The refinement for the simplex's width.
    pub open spec fn refined(self, a: Vec3, abc: Face, acd: Face, adb: Face) -> Step {
        match self.width {
            Width::Segment => Step::Continue(self.with_triangle(a, abc)),
            Width::Tetrahedron => self.with_tetrahedron(a, abc, acd, adb),
        }
    }

    /// One turn of the search. A support point whose reach is strictly
    /// negative shows a separating direction; a reach of zero does not, so
    /// hulls that only touch are carried on. Otherwise the simplex is
    /// refined.
    pub open spec fn advanced(self, a: Vec3, probe: Probe) -> Step {
        if negative(probe.reach) {
            Step::Separated
        } else {
            self.refined(a, probe.abc, probe.acd, probe.adb)
        }
    }

    /// The point is one of the simplex's three.
    pub open spec fn holds(self, p: Vec3) -> bool {
        p == self.b || p == self.c || p == self.d
    }
}

/// The first simplex of a search: `c` is the support point along (1, 1, 1),
/// `b` the support point along `-c`, `reach` the dot product of `b` with
/// `-c`, and `toward` the direction orthogonal to the edge from `b` to `c`
/// on the origin's side.
pub open spec fn begun(c: Vec3, b: Vec3, reach: u32, toward: Vec3) -> Step {
    if negative(reach) {
        Step::Separated
    } else {
        Step::Continue(
            Simplex { b: b, c: c, d: Vec3(0, 0, 0), direction: toward, width: Width::Segment },
        )
    }
}

/// Decides where the origin lies relative to the two edges of a face.
pub fn straddle(face: &Face) -> (r: Region)
    ensures
        r == face.region(),
        r is BeyondFirst <==> positive(face.beyond_first),
        r is Within <==> !positive(face.beyond_first) && !positive(face.beyond_second),
{
    if is_positive(face.beyond_first) {
        Region::BeyondFirst
    } else if is_positive(face.beyond_second) {
        Region::BeyondSecond
    } else {
        Region::Within
    }
}

/// Refines a segment with the new point `a`. The search never ends here.
pub fn check_triangle(s: Simplex, a: Vec3, face: &Face) -> (r: Simplex)
    ensures
        r == s.with_triangle(a, *face),
        r.b == a,
        r.width is Tetrahedron <==> face.region() is Within,
{
    match straddle(face) {
        Region::BeyondFirst => Simplex {
            b: a,
            c: s.b,
            d: s.d,
            direction: face.toward_first,
            width: Width::Segment,
        },
        Region::BeyondSecond => Simplex {
            b: a,
            c: s.c,
            d: s.d,
            direction: face.toward_second,
            width: Width::Segment,
        },
        Region::Within => {
            if is_positive(face.above) {
                Simplex { b: a, c: s.b, d: s.c, direction: face.normal, width: Width::Tetrahedron }
            } else {
                Simplex { b: a, c: s.c, d: s.b, direction: face.normal.neg(), width: Width::Tetrahedron }
            }
        },
    }
}

/// Carries the search on through a face of the tetrahedron that the origin
/// lies above; `s` holds the face's older points as `b` and `c`.
pub fn check_tetra(s: Simplex, a: Vec3, face: &Face) -> (r: Simplex)
    ensures
        r == s.with_open_face(a, *face),
        r.b == a,
        r.width is Tetrahedron <==> face.region() is Within,
{
    match straddle(face) {
        Region::BeyondFirst => Simplex {
            b: a,
            c: s.b,
            d: s.d,
            direction: face.toward_first,
            width: Width::Segment,
        },
        Region::BeyondSecond => Simplex {
            b: a,
            c: s.c,
            d: s.d,
            direction: face.toward_second,
            width: Width::Segment,
        },
        Region::Within => Simplex {
            b: a,
            c: s.b,
            d: s.c,
            direction: face.normal,
            width: Width::Tetrahedron,
        },
    }
}

/// Refines the simplex with the new point `a`, by its width.
pub fn simplex(s: Simplex, a: Vec3, abc: &Face, acd: &Face, adb: &Face) -> (r: Step)
    ensures
        r == s.refined(a, *abc, *acd, *adb),
        !(r is Separated),
        r is Intersecting <==> s.width is Tetrahedron && !positive(abc.above) && !positive(
            acd.above,
        ) && !positive(adb.above),
        r matches Step::Continue(next) ==> next.b == a,
{
    match s.width {
        Width::Segment => Step::Continue(check_triangle(s, a, abc)),
        Width::Tetrahedron => {
            if is_positive(abc.above) {
                Step::Continue(check_tetra(s, a, abc))
            } else if is_positive(acd.above) {
                let turned = Simplex { b: s.c, c: s.d, d: s.d, direction: s.direction, width: s.width };
                Step::Continue(check_tetra(turned, a, acd))
            } else if is_positive(adb.above) {
                let turned = Simplex { b: s.d, c: s.b, d: s.d, direction: s.direction, width: s.width };
                Step::Continue(check_tetra(turned, a, adb))
            } else {
                Step::Intersecting
            }
        },
    }
}

/// Opens a search from its first two support points.
pub fn begin(c: Vec3, b: Vec3, reach: u32, toward: Vec3) -> (r: Step)
    ensures
        r == begun(c, b, reach, toward),
        r is Separated <==> negative(reach),
        !(r is Intersecting),
{
    if is_negative(reach) {
        Step::Separated
    } else {
        Step::Continue(
            Simplex { b: b, c: c, d: Vec3::default(), direction: toward, width: Width::Segment },
        )
    }
}

/// Takes one turn of the search with the support point `a` that the query
/// along `s.direction` returned and what was measured of it.
pub fn advance(s: Simplex, a: Vec3, probe: &Probe) -> (r: Step)
    ensures
        r == s.advanced(a, *probe),
        r is Separated <==> negative(probe.reach),
        r is Intersecting <==> !negative(probe.reach) && s.width is Tetrahedron && !positive(
            probe.abc.above,
        ) && !positive(probe.acd.above) && !positive(probe.adb.above),
        r matches Step::Continue(next) ==> next.b == a,
{
    if is_negative(probe.reach) {
        Step::Separated
    } else {
        simplex(s, a, &probe.abc, &probe.acd, &probe.adb)
    }
}

/// A search that goes on keeps the newest point as `b`, and fills `c` and
/// `d` with points that the simplex held before.
pub proof fn points_are_carried(s: Simplex, a: Vec3, probe: Probe)
    ensures
        s.advanced(a, probe) matches Step::Continue(next) ==> next.b == a && s.holds(next.c)
            && s.holds(next.d),
{
}

/// A search that goes on takes its next direction from the measurements of
/// one of the three faces.
pub proof fn direction_is_measured(s: Simplex, a: Vec3, probe: Probe)
    ensures
        s.advanced(a, probe) matches Step::Continue(next) ==> probe.abc.offers(next.direction)
            || probe.acd.offers(next.direction) || probe.adb.offers(next.direction),
        s.width is Segment ==> (s.advanced(a, probe) matches Step::Continue(next)
            ==> probe.abc.offers(next.direction)),
{
}

/// A search on which nothing is ever measured on the far side of anything
/// ends with an intersection at its second turn: the segment grows to a
/// triangle, and the tetrahedron over it has no open face. Hulls that only
/// touch are thereby found to intersect.
pub proof fn flat_search_encloses(
    c: Vec3,
    b: Vec3,
    reach: u32,
    toward: Vec3,
    first_point: Vec3,
    first: Probe,
    second_point: Vec3,
    second: Probe,
)
    requires
        !negative(reach),
        first.flat(),
        second.flat(),
    ensures
        begun(c, b, reach, toward) matches Step::Continue(opened) && (opened.advanced(
            first_point,
            first,
        ) matches Step::Continue(grown) && grown.width is Tetrahedron && grown.advanced(
            second_point,
            second,
        ) is Intersecting),
{
}

/// While the simplex is a segment the search cannot end with an
/// intersection: only a tetrahedron encloses anything.
pub proof fn segment_never_encloses(s: Simplex, a: Vec3, probe: Probe)
    requires
        s.width is Segment,
    ensures
        !(s.advanced(a, probe) is Intersecting),
{
}

/// The width grows to a tetrahedron exactly where the origin lies beyond
/// neither edge of the face that the search goes on through, and falls back
/// to a segment otherwise.
pub proof fn width_follows_region(s: Simplex, a: Vec3, face: Face)
    ensures
        s.with_triangle(a, face).width is Tetrahedron <==> face.region() is Within,
        s.with_open_face(a, face).width is Tetrahedron <==> face.region() is Within,
{
}

} // verus!

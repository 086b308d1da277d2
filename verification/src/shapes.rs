//! The sphere value type and the exact geometric predicates on it.
//!
//! Coordinates and radii are fixed-point tick counts: one spatial unit is
//! [`UNIT`] ticks.  Distances never have to be extracted by a square root to
//! decide a predicate — overlap, containment and contact are all phrased over
//! squared distances, so every decision the packer takes is exact.

use vstd::prelude::*;
use crate::math;

verus! {

/// Number of fixed-point ticks in one spatial unit.
pub const UNIT: i64 = 1_000_000;

/// Largest magnitude a coordinate or radius may take, in ticks.
pub const COORD_LIMIT: i64 = 16_777_216;

/// Contact tolerance in ticks: 0.001 spatial units.
pub const CONTACT_TOL: i64 = 1_000;

/// A point in 3D space, in ticks.
#[derive(Clone, Copy, Debug, PartialEq, Eq, Structural)]
pub struct Point3 {
    /// Coordinate along the first axis.
    pub x: i64,
    /// Coordinate along the second axis.
    pub y: i64,
    /// Coordinate along the third axis.
    pub z: i64,
}

/// An immutable sphere: a center point and a strictly positive radius.
/// Equality is structural.
#[derive(Clone, Copy, Debug, PartialEq, Eq, Structural)]
pub struct Sphere {
    /// Center of the sphere.
    pub center: Point3,
    /// Radius of the sphere, in ticks; always strictly positive.
    pub radius: i64,
}

/// The square of a value.
pub open spec fn sq(v: int) -> int {
    v * v
}

/// Squared Euclidean distance between two points.
pub open spec fn dist2(a: Point3, b: Point3) -> int {
    sq(a.x - b.x) + sq(a.y - b.y) + sq(a.z - b.z)
}

/// Strict overlap: the centers are closer than the sum of the radii.
pub open spec fn spec_overlaps(a: Sphere, b: Sphere) -> bool {
    dist2(a.center, b.center) < sq(a.radius + b.radius)
}

/// Tolerance-based contact: the distance of the centers differs from the sum
/// of the radii by less than [`CONTACT_TOL`].  Used only by the analysis,
/// never for placement validity.
pub open spec fn spec_in_contact(a: Sphere, b: Sphere) -> bool {
    let s = a.radius + b.radius;
    let d2 = dist2(a.center, b.center);
    d2 < sq(s + CONTACT_TOL) && (s < CONTACT_TOL || d2 > sq(s - CONTACT_TOL))
}

/// Outer tangency within the solver tolerance: the centers are no closer
/// than the sum of the radii (no strict overlap) and no farther than that
/// sum plus [`CONTACT_TOL`].
pub open spec fn spec_tangent_band(a: Sphere, b: Sphere) -> bool {
    let s = a.radius + b.radius;
    let d2 = dist2(a.center, b.center);
    sq(s) <= d2 <= sq(s + CONTACT_TOL)
}

/// Every sphere of the sequence is well-formed.
pub open spec fn all_wf(s: Seq<Sphere>) -> bool {
    forall|i: int| 0 <= i < s.len() ==> s[i].wf()
}

/// `s` overlaps no sphere of the sequence.
pub open spec fn spec_clear_of(s: Sphere, v: Seq<Sphere>) -> bool {
    forall|i: int| 0 <= i < v.len() ==> !spec_overlaps(s, v[i])
}

/// No two distinct spheres of the sequence strictly overlap.
pub open spec fn spec_disjoint(s: Seq<Sphere>) -> bool {
    forall|i: int, j: int|
        0 <= i < s.len() && 0 <= j < s.len() && i != j ==> !spec_overlaps(
            #[trigger] s[i],
            #[trigger] s[j],
        )
}

/// Overlap is a symmetric relation.
pub proof fn lemma_overlap_symmetric(a: Sphere, b: Sphere)
    ensures
        spec_overlaps(a, b) == spec_overlaps(b, a),
{
    assert((a.center.x - b.center.x) * (a.center.x - b.center.x) == (b.center.x - a.center.x) * (
    b.center.x - a.center.x)) by (nonlinear_arith);
    assert((a.center.y - b.center.y) * (a.center.y - b.center.y) == (b.center.y - a.center.y) * (
    b.center.y - a.center.y)) by (nonlinear_arith);
    assert((a.center.z - b.center.z) * (a.center.z - b.center.z) == (b.center.z - a.center.z) * (
    b.center.z - a.center.z)) by (nonlinear_arith);
    assert((a.radius + b.radius) * (a.radius + b.radius) == (b.radius + a.radius) * (b.radius
        + a.radius)) by (nonlinear_arith);
}

/// The volume of a sphere of radius `r`, in normalised units: the common
/// factor 4π/3 is dropped, since it cancels in every volume ratio.
pub open spec fn spec_sphere_volume(r: int) -> int {
    r * r * r
}

impl Point3 {
    /// The point is within the coordinate range the library computes over.
    pub open spec fn wf(self) -> bool {
        &&& -COORD_LIMIT <= self.x <= COORD_LIMIT
        &&& -COORD_LIMIT <= self.y <= COORD_LIMIT
        &&& -COORD_LIMIT <= self.z <= COORD_LIMIT
    }

    /// Builds a point from its three coordinates.
    pub fn new(x: i64, y: i64, z: i64) -> (p: Point3)
        ensures
            p == (Point3 { x, y, z }),
    {
        Point3 { x, y, z }
    }

    /// The coordinate origin.
    pub fn origin() -> (p: Point3)
        ensures
            p == (Point3 { x: 0i64, y: 0i64, z: 0i64 }),
    {
        Point3 { x: 0, y: 0, z: 0 }
    }
}

/// Exact squared distance between two in-range points.
pub fn dist2_exec(a: &Point3, b: &Point3) -> (d: i128)
    requires
        a.wf(),
        b.wf(),
    ensures
        d == dist2(*a, *b),
        0 <= d,
{
    let dx = (a.x - b.x) as i128;
    let dy = (a.y - b.y) as i128;
    let dz = (a.z - b.z) as i128;
    let sx = math::mul_q(dx, dx);
    let sy = math::mul_q(dy, dy);
    let sz = math::mul_q(dz, dz);
    proof {
        math::lemma_mul_bounds(dx as int, dx as int, 2 * COORD_LIMIT as int, 2 * COORD_LIMIT as int);
        math::lemma_mul_bounds(dy as int, dy as int, 2 * COORD_LIMIT as int, 2 * COORD_LIMIT as int);
        math::lemma_mul_bounds(dz as int, dz as int, 2 * COORD_LIMIT as int, 2 * COORD_LIMIT as int);
        assert(sx >= 0 && sy >= 0 && sz >= 0) by (nonlinear_arith)
            requires
                sx == dx * dx,
                sy == dy * dy,
                sz == dz * dz,
        ;
    }
    sx + sy + sz
}

impl Sphere {
    /// The sphere is within range and has a strictly positive radius.
    pub open spec fn wf(self) -> bool {
        self.center.wf() && 0 < self.radius <= COORD_LIMIT
    }

    /// Builds a sphere from a center and a strictly positive radius.
    pub fn new(center: Point3, radius: i64) -> (s: Sphere)
        requires
            center.wf(),
            0 < radius <= COORD_LIMIT,
        ensures
            s == (Sphere { center, radius }),
            s.wf(),
    {
        Sphere { center, radius }
    }

    /// The volume of this sphere in normalised units (its radius cubed).
    pub fn volume(&self) -> (v: u128)
        requires
            self.wf(),
        ensures
            v == spec_sphere_volume(self.radius as int),
            1 <= v <= 0x100_0000_0000_0000_0000,
    {
        let r = self.radius as i128;
        let r2 = math::mul_q(r, r);
        proof {
            math::lemma_mul_bounds(r as int, r as int, COORD_LIMIT as int, COORD_LIMIT as int);
            math::lemma_mul_bounds(r2 as int, r as int, COORD_LIMIT as int * COORD_LIMIT as int, COORD_LIMIT as int);
            assert(r * r * r >= 1) by (nonlinear_arith)
                requires
                    r >= 1,
            ;
        }
        let r3 = math::mul_q(r2, r);
        r3 as u128
    }

    /// Decides the strict overlap predicate exactly.
    pub fn overlaps(&self, other: &Sphere) -> (r: bool)
        requires
            self.wf(),
            other.wf(),
        ensures
            r == spec_overlaps(*self, *other),
    {
        let d2 = dist2_exec(&self.center, &other.center);
        let s = (self.radius + other.radius) as i128;
        let s2 = math::mul_q(s, s);
        d2 < s2
    }

    /// Decides tangency within the solver tolerance exactly.
    pub fn in_tangent_band(&self, other: &Sphere) -> (r: bool)
        requires
            self.wf(),
            other.wf(),
        ensures
            r == spec_tangent_band(*self, *other),
    {
        let d2 = dist2_exec(&self.center, &other.center);
        let s = (self.radius + other.radius) as i128;
        let s2 = math::mul_q(s, s);
        let outer = s + CONTACT_TOL as i128;
        let outer2 = math::mul_q(outer, outer);
        s2 <= d2 && d2 <= outer2
    }

    /// Decides the tolerance-based contact predicate exactly.
    pub fn in_contact(&self, other: &Sphere) -> (r: bool)
        requires
            self.wf(),
            other.wf(),
        ensures
            r == spec_in_contact(*self, *other),
    {
        let d2 = dist2_exec(&self.center, &other.center);
        let s = (self.radius + other.radius) as i128;
        let outer = s + CONTACT_TOL as i128;
        let outer2 = math::mul_q(outer, outer);
        if d2 >= outer2 {
            false
        } else if s < CONTACT_TOL as i128 {
            true
        } else {
            let inner = s - CONTACT_TOL as i128;
            let inner2 = math::mul_q(inner, inner);
            d2 > inner2
        }
    }
}

} // verus!

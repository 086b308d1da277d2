//! The seed-triangle builder: the three initial, pairwise tangent spheres.
//!
//! Sphere A sits at a reference point, B along the first axis at the tangent
//! distance, C at the intersection of the two tangency circles; the triangle
//! is then translated so that its incenter sits at the coordinate origin,
//! which keeps all three seeds as far from a boundary near the origin as the
//! configuration allows.  The x coordinate of C is rounded down and the y
//! coordinate up, which keeps the rounded triple inside the tangency band;
//! a triple that still falls outside the band is rejected as unplaceable.
//! The translation is applied to all three centers alike, so it changes no
//! pairwise distance.

use vstd::prelude::*;
use crate::math;
use crate::shapes::{spec_overlaps, spec_tangent_band, Point3, Sphere, COORD_LIMIT};
use crate::{Container, PackError};

verus! {

/// Guard for the intermediate triangle coordinates.
const SEED_GUARD: i128 = 0x400_0000;

/// What the placement step promises of the seed triple: well-formed spheres
/// of the given radii in the z = 0 plane, pairwise tangent within the
/// solver tolerance.
pub open spec fn seed_triple_ok(t: (Sphere, Sphere, Sphere), ra: int, rb: int, rc: int) -> bool {
    let (a, b, c) = t;
    &&& a.wf() && b.wf() && c.wf()
    &&& a.radius == ra
    &&& b.radius == rb
    &&& c.radius == rc
    &&& a.center.z == 0 && b.center.z == 0 && c.center.z == 0
    &&& spec_tangent_band(a, b)
    &&& spec_tangent_band(a, c)
    &&& spec_tangent_band(b, c)
}

/// Computes the three seed spheres for the given radii, before any
/// containment test.  `None` is returned only when a rounding guard or the
/// tangency-band check fires on a degenerate configuration.
fn place_seed_triangle(radius_a: i64, radius_b: i64, radius_c: i64) -> (t: Option<(
    Sphere,
    Sphere,
    Sphere,
)>)
    requires
        0 < radius_a <= COORD_LIMIT,
        0 < radius_b <= COORD_LIMIT,
        0 < radius_c <= COORD_LIMIT,
    ensures
        t is Some ==> seed_triple_ok(t->0, radius_a as int, radius_b as int, radius_c as int),
{
    // Tangent side lengths of the triangle of centers.
    let distance_c = (radius_a + radius_b) as i128;
    let distance_b = (radius_a + radius_c) as i128;
    let distance_a = (radius_c + radius_b) as i128;

    // C's coordinates: x by the law of cosines (rounded down), y as the
    // height over the first axis (rounded up).  These rounding directions
    // keep every pair at least tangent-far apart.
    let num_x = math::mul_q(distance_b, distance_b) + math::mul_q(distance_c, distance_c)
        - math::mul_q(distance_a, distance_a);
    let den_x = 2 * distance_c;
    let x = math::div_floor(num_x, den_x);
    if !math::within_limit(x, SEED_GUARD) {
        return None;
    }
    let y2 = math::mul_q(distance_b, distance_b) - math::mul_q(x, x);
    if y2 < 0 {
        return None;
    }
    let y0 = math::isqrt(y2);
    if !(0 <= y0 && y0 < SEED_GUARD) {
        return None;
    }
    let y0sq = math::mul_q(y0, y0);
    let y = if y0sq < y2 {
        y0 + 1
    } else {
        y0
    };

    // The incenter of the triangle; both seeds and incenter are translated
    // together, so rounding here moves all three spheres alike.
    let perimeter = distance_a + distance_b + distance_c;
    let incenter_x = math::div_floor(
        math::mul_q(distance_b, distance_c) + math::mul_q(distance_c, x),
        perimeter,
    );
    if !math::within_limit(incenter_x, SEED_GUARD) {
        return None;
    }
    let incenter_y = math::div_floor(math::mul_q(distance_c, y), perimeter);
    if !math::within_limit(incenter_y, SEED_GUARD) {
        return None;
    }

    // Centers, translated so the incenter is the origin.
    let ax = -incenter_x;
    let ay = -incenter_y;
    let bx = distance_c - incenter_x;
    let by = -incenter_y;
    let cx = x - incenter_x;
    let cy = y - incenter_y;

    let lim = COORD_LIMIT as i128;
    if !(-lim <= ax && ax <= lim && -lim <= ay && ay <= lim && -lim <= bx && bx <= lim
        && -lim <= cx && cx <= lim && -lim <= cy && cy <= lim) {
        return None;
    }

    let sphere_a = Sphere::new(Point3::new(ax as i64, ay as i64, 0), radius_a);
    let sphere_b = Sphere::new(Point3::new(bx as i64, by as i64, 0), radius_b);
    let sphere_c = Sphere::new(Point3::new(cx as i64, cy as i64, 0), radius_c);

    // The triple must be pairwise tangent within the solver tolerance.
    if !(sphere_a.in_tangent_band(&sphere_b) && sphere_a.in_tangent_band(&sphere_c)
        && sphere_b.in_tangent_band(&sphere_c)) {
        return None;
    }
    Some((sphere_a, sphere_b, sphere_c))
}

/// Accepts a placed seed triple exactly when the container holds all three
/// spheres: `Ok` with the triple in order if and only if each is contained,
/// `SeedUnplaceable` otherwise.
pub fn validate_seeds<C: Container>(
    sphere_a: Sphere,
    sphere_b: Sphere,
    sphere_c: Sphere,
    container: &C,
) -> (r: Result<Vec<Sphere>, PackError>)
    requires
        container.inv(),
        sphere_a.wf(),
        sphere_b.wf(),
        sphere_c.wf(),
    ensures
        r is Ok <==> container.spec_contains(sphere_a) && container.spec_contains(sphere_b)
            && container.spec_contains(sphere_c),
        match r {
            Ok(v) => v@ == seq![sphere_a, sphere_b, sphere_c],
            Err(e) => e == PackError::SeedUnplaceable,
        },
{
    if container.contains(&sphere_a) && container.contains(&sphere_b)
        && container.contains(&sphere_c) {
        let mut init: Vec<Sphere> = Vec::new();
        init.push(sphere_a);
        init.push(sphere_b);
        init.push(sphere_c);
        proof {
            assert(init@ =~= seq![sphere_a, sphere_b, sphere_c]);
        }
        Ok(init)
    } else {
        Err(PackError::SeedUnplaceable)
    }
}

/// Creates three initial spheres that are tangent pairwise within the solver
/// tolerance, in the z = 0 plane, the incenter of the triangle formed by
/// their centers aligned at the origin.  Seeding fails with
/// `SeedUnplaceable` — a reported error, not a process abort — when the
/// seeds cannot all be contained by the boundary geometry.
pub fn init_spheres<C: Container>(radii: &[i64; 3], container: &C) -> (r: Result<
    Vec<Sphere>,
    PackError,
>)
    requires
        container.inv(),
        0 < radii[0] <= COORD_LIMIT,
        0 < radii[1] <= COORD_LIMIT,
        0 < radii[2] <= COORD_LIMIT,
    ensures
        match r {
            Ok(v) => {
                &&& v@.len() == 3
                &&& crate::shapes::all_wf(v@)
                &&& forall|i: int|
                    0 <= i < v@.len() ==> container.spec_contains(#[trigger] v@[i])
                &&& crate::shapes::spec_disjoint(v@)
                &&& v@[0].radius == radii[0]
                &&& v@[1].radius == radii[1]
                &&& v@[2].radius == radii[2]
                &&& v@[0].center.z == 0 && v@[1].center.z == 0 && v@[2].center.z == 0
                &&& spec_tangent_band(v@[0], v@[1])
                &&& spec_tangent_band(v@[0], v@[2])
                &&& spec_tangent_band(v@[1], v@[2])
            },
            Err(e) => e == PackError::SeedUnplaceable,
        },
{
    let placed = place_seed_triangle(radii[0], radii[1], radii[2]);
    match placed {
        None => Err(PackError::SeedUnplaceable),
        Some((sphere_a, sphere_b, sphere_c)) => {
            match validate_seeds(sphere_a, sphere_b, sphere_c, container) {
                Ok(v) => {
                    proof {
                        crate::shapes::lemma_overlap_symmetric(sphere_a, sphere_b);
                        crate::shapes::lemma_overlap_symmetric(sphere_a, sphere_c);
                        crate::shapes::lemma_overlap_symmetric(sphere_b, sphere_c);
                        assert(forall|i: int, j: int|
                            0 <= i < v@.len() && 0 <= j < v@.len() && i != j ==> !spec_overlaps(
                                #[trigger] v@[i],
                                #[trigger] v@[j],
                            ));
                    }
                    Ok(v)
                },
                Err(e) => Err(e),
            }
        },
    }
}

} // verus!

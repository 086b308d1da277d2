//! The frontier engine: the stochastic advancing-front growth loop.
//!
//! The engine owns the placed set S and the front F.  Each iteration picks a
//! front member at random, gathers its reachable neighbours, and asks the
//! tangent-sphere solver for a placement over every unordered neighbour pair;
//! the first success is appended to both S and F and a fresh radius is drawn,
//! while an exhausted front member is retired by index (never by value) and
//! the radius is kept.  The loop carries a caller-chosen attempt budget, so
//! that a sampler which never lets the front empty still terminates.

use vstd::prelude::*;
use crate::random::{RadiusSampler, RandomSource};
use crate::shapes::{all_wf, spec_clear_of, spec_disjoint, spec_overlaps, Sphere, COORD_LIMIT};
use crate::shapes;
use crate::solver;
use crate::util;
use crate::seed;
use crate::math;
use crate::{Container, PackError};

verus! {

/// Every sphere of the sequence is contained in the boundary geometry.
pub open spec fn spec_all_contained<C: Container>(s: Seq<Sphere>, container: C) -> bool {
    forall|i: int| 0 <= i < s.len() ==> container.spec_contains(#[trigger] s[i])
}

/// A sphere within conservative reach of `curr`: any sphere that could
/// possibly overlap a new sphere of radius `r` tangent to `curr` satisfies
/// this bound.
pub open spec fn spec_within_reach(curr: Sphere, other: Sphere, r: int) -> bool {
    shapes::dist2(curr.center, other.center) <= shapes::sq(curr.radius + other.radius + 2 * r)
}

/// Appending a sphere that is clear of a pairwise disjoint sequence keeps the
/// sequence pairwise disjoint.
proof fn lemma_disjoint_push(s: Seq<Sphere>, x: Sphere)
    requires
        spec_disjoint(s),
        spec_clear_of(x, s),
    ensures
        spec_disjoint(s.push(x)),
{
    let s2 = s.push(x);
    assert forall|i: int, j: int|
        0 <= i < s2.len() && 0 <= j < s2.len() && i != j implies !spec_overlaps(
        #[trigger] s2[i],
        #[trigger] s2[j],
    ) by {
        if i < s.len() && j < s.len() {
            assert(!spec_overlaps(s[i], s[j]));
        } else if i < s.len() && j == s.len() {
            shapes::lemma_overlap_symmetric(s[i], x);
            assert(!spec_overlaps(x, s[i]));
        } else if i == s.len() && j < s.len() {
            assert(!spec_overlaps(x, s[j]));
        }
    }
}

/// Gathers V: the spheres of `spheres` other than `curr` (by structural
/// equality) whose centers lie within the conservative reach bound of `curr`
/// for candidate radius `new_radius`.  Exact, sound and complete.
fn neighbours(spheres: &Vec<Sphere>, curr: &Sphere, new_radius: i64) -> (v: Vec<Sphere>)
    requires
        all_wf(spheres@),
        curr.wf(),
        0 < new_radius <= COORD_LIMIT,
    ensures
        all_wf(v@),
        forall|i: int|
            0 <= i < v@.len() ==> (#[trigger] v@[i]) != *curr && spec_within_reach(
                *curr,
                v@[i],
                new_radius as int,
            ),
        forall|j: int|
            0 <= j < spheres@.len() && (#[trigger] spheres@[j]) != *curr && spec_within_reach(
                *curr,
                spheres@[j],
                new_radius as int,
            ) ==> v@.contains(spheres@[j]),
{
    let mut v: Vec<Sphere> = Vec::new();
    let mut j: usize = 0;
    while j < spheres.len()
        invariant
            all_wf(spheres@),
            curr.wf(),
            0 < new_radius <= COORD_LIMIT,
            0 <= j <= spheres@.len(),
            all_wf(v@),
            forall|i: int|
                0 <= i < v@.len() ==> (#[trigger] v@[i]) != *curr && spec_within_reach(
                    *curr,
                    v@[i],
                    new_radius as int,
                ),
            forall|jj: int|
                0 <= jj < j && (#[trigger] spheres@[jj]) != *curr && spec_within_reach(
                    *curr,
                    spheres@[jj],
                    new_radius as int,
                ) ==> v@.contains(spheres@[jj]),
        decreases spheres@.len() - j,
    {
        let ghost v0 = v@;
        let s_dash = spheres[j];
        if !(s_dash.center.x == curr.center.x && s_dash.center.y == curr.center.y
            && s_dash.center.z == curr.center.z && s_dash.radius == curr.radius) {
            let d2 = shapes::dist2_exec(&curr.center, &s_dash.center);
            let bound = (curr.radius + s_dash.radius + 2 * new_radius) as i128;
            let bound2 = math::mul_q(bound, bound);
            if d2 <= bound2 {
                v.push(s_dash);
                proof {
                    assert(v@[v@.len() - 1] == s_dash);
                }
            }
        } else {
            proof {
                assert(s_dash == *curr);
            }
        }
        proof {
            assert forall|jj: int|
                0 <= jj < j + 1 && (#[trigger] spheres@[jj]) != *curr && spec_within_reach(
                    *curr,
                    spheres@[jj],
                    new_radius as int,
                ) implies v@.contains(spheres@[jj]) by {
                if jj < j {
                    let wit = choose|w: int| 0 <= w < v0.len() && v0[w] == spheres@[jj];
                    assert(v@[wit] == spheres@[jj]);
                } else {
                    assert(spheres@[jj] == s_dash);
                    assert(v@[v@.len() - 1] == s_dash);
                }
            }
        }
        j = j + 1;
    }
    v
}

/// Packs spheres into `container` as densely as the advancing front allows.
///
/// Radii come from `size_distribution` and are validated at the point of
/// sampling: a draw that is not strictly positive (or does not fit the
/// coordinate range) aborts the run with `InvalidSample`.  The stochastic
/// choices come from the injectable `random` source, so a fixed seed gives a
/// reproducible run.  `max_attempts` bounds the number of loop iterations,
/// each of which either places one sphere or retires one front member.
///
/// On success the packing is fully contained and pairwise non-overlapping.
/// A candidate whose exact overlap test against the whole placed set fails —
/// possible only if the conservative neighbour bound ever missed a sphere —
/// is treated as a no-solution outcome rather than accepted.
pub fn pack_spheres<C: Container, S: RadiusSampler, R: RandomSource>(
    container: &C,
    size_distribution: &mut S,
    random: &mut R,
    max_attempts: usize,
) -> (r: Result<Vec<Sphere>, PackError>)
    requires
        container.inv(),
        old(size_distribution).inv(),
        old(random).inv(),
    ensures
        final(size_distribution).inv(),
        final(random).inv(),
        match r {
            Ok(s) => {
                &&& s@.len() >= 3
                &&& all_wf(s@)
                &&& spec_all_contained(s@, *container)
                &&& spec_disjoint(s@)
                &&& s@[0].center.z == 0 && s@[1].center.z == 0 && s@[2].center.z == 0
                &&& shapes::spec_tangent_band(s@[0], s@[1])
                &&& shapes::spec_tangent_band(s@[0], s@[2])
                &&& shapes::spec_tangent_band(s@[1], s@[2])
            },
            Err(e) => e == PackError::SeedUnplaceable || e == PackError::InvalidSample,
        },
{
    // Radii of three initial spheres, taken from the input distribution.
    let r0 = match draw_radius(size_distribution) {
        Ok(v) => v,
        Err(e) => { return Err(e); },
    };
    let r1 = match draw_radius(size_distribution) {
        Ok(v) => v,
        Err(e) => { return Err(e); },
    };
    let r2 = match draw_radius(size_distribution) {
        Ok(v) => v,
        Err(e) => { return Err(e); },
    };
    let init_radii: [i64; 3] = [r0, r1, r2];

    let mut spheres = match seed::init_spheres(&init_radii, container) {
        Ok(v) => v,
        Err(e) => { return Err(e); },
    };

    let mut front: Vec<Sphere> = Vec::new();
    front.push(spheres[0]);
    front.push(spheres[1]);
    front.push(spheres[2]);

    // Radius of the next sphere to be grown on the current front.
    let mut new_radius = match draw_radius(size_distribution) {
        Ok(v) => v,
        Err(e) => { return Err(e); },
    };

    let mut attempts = max_attempts;
    while front.len() > 0 && attempts > 0
        invariant
            container.inv(),
            size_distribution.inv(),
            random.inv(),
            all_wf(spheres@),
            spec_all_contained(spheres@, *container),
            spec_disjoint(spheres@),
            spheres@.len() >= 3,
            spheres@[0].center.z == 0 && spheres@[1].center.z == 0 && spheres@[2].center.z == 0,
            shapes::spec_tangent_band(spheres@[0], spheres@[1]),
            shapes::spec_tangent_band(spheres@[0], spheres@[2]),
            shapes::spec_tangent_band(spheres@[1], spheres@[2]),
            all_wf(front@),
            0 < new_radius <= COORD_LIMIT,
        decreases attempts,
    {
        attempts = attempts - 1;
        let idx = random.pick(front.len());
        let curr_sphere = front[idx];
        let set_v = neighbours(&spheres, &curr_sphere, new_radius);
        let pair_list = util::pairs(&set_v);
        proof {
            util::lemma_pairs_wf(set_v@);
        }
        let ghost front0 = front@;
        let mut accepted = false;
        let mut pi: usize = 0;
        while pi < pair_list.len() && !accepted
            invariant
                container.inv(),
                size_distribution.inv(),
                random.inv(),
                all_wf(spheres@),
                spec_all_contained(spheres@, *container),
                spec_disjoint(spheres@),
                spheres@.len() >= 3,
                spheres@[0].center.z == 0 && spheres@[1].center.z == 0 && spheres@[2].center.z
                    == 0,
                shapes::spec_tangent_band(spheres@[0], spheres@[1]),
                shapes::spec_tangent_band(spheres@[0], spheres@[2]),
                shapes::spec_tangent_band(spheres@[1], spheres@[2]),
                all_wf(front@),
                curr_sphere.wf(),
                all_wf(set_v@),
                forall|t: int|
                    0 <= t < pair_list@.len() ==> (#[trigger] pair_list@[t]).0.wf()
                        && pair_list@[t].1.wf(),
                0 <= pi <= pair_list@.len(),
                0 < new_radius <= COORD_LIMIT,
                !accepted ==> front@ == front0 && (idx as int) < front0.len(),
            decreases pair_list@.len() - pi + (if accepted { 0int } else { 1int }),
        {
            let pair = pair_list[pi];
            let s_i = pair.0;
            let s_j = pair.1;
            let set_f = solver::identify_f(
                &curr_sphere,
                &s_i,
                &s_j,
                container,
                &set_v,
                new_radius,
            );
            if set_f.len() > 0 {
                // Found at least one admissible position: pick one at random.
                let pick2 = random.pick(set_f.len());
                let s_new = set_f[pick2];
                if !solver::overlaps_any(&s_new, &spheres) {
                    proof {
                        lemma_disjoint_push(spheres@, s_new);
                    }
                    front.push(s_new);
                    spheres.push(s_new);
                    new_radius = match draw_radius(size_distribution) {
                        Ok(v) => v,
                        Err(e) => { return Err(e); },
                    };
                    accepted = true;
                } else {
                    // The exact test against the whole placed set vetoed the
                    // candidate: treat the pair as yielding no solution.
                    pi = pi + 1;
                }
            } else {
                pi = pi + 1;
            }
        }
        if !accepted {
            // The full tangency search space of this front member is
            // exhausted: retire it permanently, by index, keeping the radius.
            front.remove(idx);
            proof {
                assert forall|i: int| 0 <= i < front@.len() implies (#[trigger] front@[i]).wf() by {
                    if i < idx as int {
                        assert(front@[i] == front0[i]);
                    } else {
                        assert(front@[i] == front0[i + 1]);
                    }
                }
            }
        }
    }
    Ok(spheres)
}

/// Validates one sampled radius exactly: accepted unchanged if and only if
/// it is strictly positive and within the coordinate range; everything else
/// is an `InvalidSample` error.
pub fn validate_radius(v: i64) -> (r: Result<i64, PackError>)
    ensures
        1 <= v <= COORD_LIMIT ==> r == Result::<i64, PackError>::Ok(v),
        !(1 <= v <= COORD_LIMIT) ==> r == Result::<i64, PackError>::Err(PackError::InvalidSample),
{
    if 1 <= v && v <= COORD_LIMIT {
        Ok(v)
    } else {
        Err(PackError::InvalidSample)
    }
}

/// Draws one radius from the sampler and validates it at the point of
/// sampling, as the error contract demands.
fn draw_radius<S: RadiusSampler>(sampler: &mut S) -> (r: Result<i64, PackError>)
    requires
        old(sampler).inv(),
    ensures
        final(sampler).inv(),
        match r {
            Ok(v) => 0 < v <= COORD_LIMIT,
            Err(e) => e == PackError::InvalidSample,
        },
{
    let v = sampler.sample_radius();
    validate_radius(v)
}

} // verus!

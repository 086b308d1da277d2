//! The analytic tangent-sphere solver.
//!
//! Given three reference spheres and a candidate radius `r`, the center of a
//! sphere of radius `r` in outer contact with all three lies on the
//! intersection of three spheres grown around the reference centers.
//! Subtracting the squared-distance equations pairwise yields two linear
//! equations; substituting back yields a quadratic whose discriminant decides
//! existence.  The kernel runs in fixed-point arithmetic (unit vectors are
//! scaled by [`VEC_SCALE`]); magnitude guards keep every intermediate inside
//! `i128`, and a guard that fires reports the configuration as having no
//! solution, exactly like a negative discriminant.  The acceptance tests —
//! containment and overlap against the neighbour set — are exact.

use vstd::prelude::*;
use crate::math;
use crate::shapes::{all_wf, spec_clear_of, Point3, Sphere, COORD_LIMIT};
use crate::Container;

verus! {

/// Fixed-point scale of the solver's unit vectors.
const VEC_SCALE: i128 = 0x100_0000;

/// The square of [`VEC_SCALE`].
const VEC_SCALE_SQ: i128 = 0x1_0000_0000_0000;

/// Outward padding added to the magnitude of each quadratic root.  Moving a
/// root away from the vertex of the quadratic moves the candidate center
/// away from all three reference spheres at once, so the rounding of the
/// kernel can never leave a candidate a few ticks inside an anchor.
const GAMMA_PAD: i128 = 0x1000_0000;

/// Guard for linear-solve results (the two plane coefficients and the
/// quadratic roots, all carrying one factor of the scale).
const LIN_GUARD: i128 = 0x10_0000_0000_0000;

/// Guard for dot products against the doubled-center vector.
const DOT_GUARD: i128 = 0x40_0000_0000_0000;

/// Guard for the squared-distance differences of the plane equations.
const SUM_GUARD: i128 = 0x40_0000_0000_0000;

/// Guard for the numerators of the linear solve.
const NUM_GUARD: i128 = 0x4000_0000_0000_0000_0000;

/// Guard for the constant term rescaled once.
const CW_GUARD: i128 = 0x4000_0000_0000_0000_0000;

/// Guard for the constant term rescaled twice.
const CTERM_GUARD: i128 = 0x40_0000_0000_0000_0000_0000_0000;

/// Guard for the product of the two plane coefficients, already divided
/// once by the scale.
const AB_GUARD: i128 = 0x10_0000_0000_0000_0000_0000;

/// Guard for the assembled quadratic constant.
const VD_GUARD: i128 = 0x1_0000_0000_0000_0000_0000_0000_0000;

/// What the solver promises of every emitted candidate: well-formed, of the
/// requested radius, contained, and overlapping nothing in the neighbour set.
pub open spec fn spec_candidate_ok<C: Container>(
    s: Sphere,
    container: C,
    v: Seq<Sphere>,
    radius: int,
) -> bool {
    s.wf() && s.radius == radius && container.spec_contains(s) && spec_clear_of(s, v)
}

/// Decides whether `s` strictly overlaps any sphere of `list`, exactly.
pub fn overlaps_any(s: &Sphere, list: &Vec<Sphere>) -> (r: bool)
    requires
        s.wf(),
        all_wf(list@),
    ensures
        r == !spec_clear_of(*s, list@),
{
    let mut i: usize = 0;
    while i < list.len()
        invariant
            s.wf(),
            all_wf(list@),
            0 <= i <= list@.len(),
            forall|j: int| 0 <= j < i ==> !crate::shapes::spec_overlaps(*s, list@[j]),
        decreases list@.len() - i,
    {
        if s.overlaps(&list[i]) {
            return true;
        }
        i = i + 1;
    }
    false
}

/// Builds a candidate sphere from raw tick coordinates, rejecting centers
/// outside the range the library computes over.
fn make_candidate(px: i128, py: i128, pz: i128, radius: i64) -> (o: Option<Sphere>)
    requires
        0 < radius <= COORD_LIMIT,
    ensures
        o is Some ==> o->0.wf() && o->0.radius == radius,
{
    let lim = COORD_LIMIT as i128;
    if -lim <= px && px <= lim && -lim <= py && py <= lim && -lim <= pz && pz <= lim {
        Some(Sphere::new(Point3::new(px as i64, py as i64, pz as i64), radius))
    } else {
        None
    }
}

/// `f` is a set of spheres (possibly empty) of known `radius`, in outer
/// contact with `s_1`, `s_2` and `s_3` simultaneously — each emitted sphere
/// is within the tangency band of all three references — completely
/// contained in `container`, and overlapping no element of `set_v`.  At most
/// two such spheres exist; when both pass the acceptance tests, the larger
/// quadratic root is emitted first.  An empty result — negative
/// discriminant, containment failure, overlap rejection or a degenerate
/// reference triple — is a normal no-solution outcome, not an error.
pub fn identify_f<C: Container>(
    s_1: &Sphere,
    s_2: &Sphere,
    s_3: &Sphere,
    container: &C,
    set_v: &Vec<Sphere>,
    radius: i64,
) -> (f: Vec<Sphere>)
    requires
        s_1.wf(),
        s_2.wf(),
        s_3.wf(),
        container.inv(),
        all_wf(set_v@),
        0 < radius <= COORD_LIMIT,
    ensures
        f@.len() <= 2,
        forall|i: int|
            0 <= i < f@.len() ==> spec_candidate_ok(
                #[trigger] f@[i],
                *container,
                set_v@,
                radius as int,
            ),
        forall|i: int|
            0 <= i < f@.len() ==> crate::shapes::spec_tangent_band(#[trigger] f@[i], *s_1)
                && crate::shapes::spec_tangent_band(f@[i], *s_2)
                && crate::shapes::spec_tangent_band(f@[i], *s_3),
{
    let distance_14 = (s_1.radius + radius) as i128;
    let distance_24 = (s_2.radius + radius) as i128;
    let distance_34 = (s_3.radius + radius) as i128;

    let c1x = s_1.center.x as i128;
    let c1y = s_1.center.y as i128;
    let c1z = s_1.center.z as i128;
    let c2x = s_2.center.x as i128;
    let c2y = s_2.center.y as i128;
    let c2z = s_2.center.z as i128;
    let c3x = s_3.center.x as i128;
    let c3y = s_3.center.y as i128;
    let c3z = s_3.center.z as i128;

    // Basis vectors u and v, and their scaled unit forms.
    let ux = c1x - c2x;
    let uy = c1y - c2y;
    let uz = c1z - c2z;
    let vx = c1x - c3x;
    let vy = c1y - c3y;
    let vz = c1z - c3z;

    let nu2 = math::dot3(ux, uy, uz, ux, uy, uz);
    if nu2 <= 0 {
        return Vec::new();
    }
    let nu = math::isqrt(nu2);
    if nu < 1 {
        return Vec::new();
    }
    let uhx = math::div_q(math::mul_q(ux, VEC_SCALE), nu);
    let uhy = math::div_q(math::mul_q(uy, VEC_SCALE), nu);
    let uhz = math::div_q(math::mul_q(uz, VEC_SCALE), nu);
    if !(math::within_limit(uhx, VEC_SCALE) && math::within_limit(uhy, VEC_SCALE)
        && math::within_limit(uhz, VEC_SCALE)) {
        return Vec::new();
    }

    let nv2 = math::dot3(vx, vy, vz, vx, vy, vz);
    if nv2 <= 0 {
        return Vec::new();
    }
    let nv = math::isqrt(nv2);
    if nv < 1 {
        return Vec::new();
    }
    let vhx = math::div_q(math::mul_q(vx, VEC_SCALE), nv);
    let vhy = math::div_q(math::mul_q(vy, VEC_SCALE), nv);
    let vhz = math::div_q(math::mul_q(vz, VEC_SCALE), nv);
    if !(math::within_limit(vhx, VEC_SCALE) && math::within_limit(vhy, VEC_SCALE)
        && math::within_limit(vhz, VEC_SCALE)) {
        return Vec::new();
    }

    // The third basis vector t is the cross product of u and v.
    let (tx, ty, tz) = math::cross3(ux, uy, uz, vx, vy, vz);
    let nt2 = math::dot3(tx, ty, tz, tx, ty, tz);
    if nt2 <= 0 {
        return Vec::new();
    }
    let nt = math::isqrt(nt2);
    if nt < 1 {
        return Vec::new();
    }
    let thx = math::div_q(math::mul_q(tx, VEC_SCALE), nt);
    let thy = math::div_q(math::mul_q(ty, VEC_SCALE), nt);
    let thz = math::div_q(math::mul_q(tz, VEC_SCALE), nt);
    if !(math::within_limit(thx, VEC_SCALE) && math::within_limit(thy, VEC_SCALE)
        && math::within_limit(thz, VEC_SCALE)) {
        return Vec::new();
    }

    let wx = -c1x - c1x;
    let wy = -c1y - c1y;
    let wz = -c1z - c1z;

    // Squared-distance differences of the two plane equations.
    let a_num = math::mul_q(distance_24, distance_24) - math::mul_q(distance_14, distance_14)
        + math::dot3(c1x, c1y, c1z, c1x, c1y, c1z) - math::dot3(c2x, c2y, c2z, c2x, c2y, c2z);
    if !math::within_limit(a_num, SUM_GUARD) {
        return Vec::new();
    }
    let b_num = math::mul_q(distance_34, distance_34) - math::mul_q(distance_14, distance_14)
        + math::dot3(c1x, c1y, c1z, c1x, c1y, c1z) - math::dot3(c3x, c3y, c3z, c3x, c3y, c3z);
    if !math::within_limit(b_num, SUM_GUARD) {
        return Vec::new();
    }
    let a_cap = math::div_q(math::mul_q(a_num, VEC_SCALE), 2 * nu);
    let b_cap = math::div_q(math::mul_q(b_num, VEC_SCALE), 2 * nv);
    if !(math::within_limit(a_cap, LIN_GUARD) && math::within_limit(b_cap, LIN_GUARD)) {
        return Vec::new();
    }
    let c_val = math::mul_q(distance_14, distance_14)
        - math::dot3(c1x, c1y, c1z, c1x, c1y, c1z);
    if !math::within_limit(c_val, SUM_GUARD) {
        return Vec::new();
    }

    // Dot products among the scaled basis and w.
    let dot_uv_raw = math::dot3(uhx, uhy, uhz, vhx, vhy, vhz);
    let c_uv = math::div_q(dot_uv_raw, VEC_SCALE);
    if !math::within_limit(c_uv, VEC_SCALE) {
        return Vec::new();
    }
    let d_uw = math::dot3(uhx, uhy, uhz, wx, wy, wz);
    let d_vw = math::dot3(vhx, vhy, vhz, wx, wy, wz);
    let d_wt = math::dot3(thx, thy, thz, wx, wy, wz);
    if !(math::within_limit(d_uw, DOT_GUARD) && math::within_limit(d_vw, DOT_GUARD)
        && math::within_limit(d_wt, DOT_GUARD)) {
        return Vec::new();
    }

    // Linear solve for the coefficients along u and v.
    let den_ab = math::mul_q(VEC_SCALE, VEC_SCALE) - math::mul_q(c_uv, c_uv);
    if den_ab < 1 {
        return Vec::new();
    }
    let num1 = math::mul_q(a_cap, VEC_SCALE) - math::mul_q(b_cap, c_uv);
    let num2 = math::mul_q(b_cap, VEC_SCALE) - math::mul_q(a_cap, c_uv);
    if !(math::within_limit(num1, NUM_GUARD) && math::within_limit(num2, NUM_GUARD)) {
        return Vec::new();
    }
    let alpha = math::div_q(math::mul_w(num1, VEC_SCALE), den_ab);
    let beta = math::div_q(math::mul_w(num2, VEC_SCALE), den_ab);
    if !(math::within_limit(alpha, LIN_GUARD) && math::within_limit(beta, LIN_GUARD)) {
        return Vec::new();
    }

    // Constant term of the quadratic in the coefficient along t.
    let t1 = math::mul_q(alpha, alpha);
    let t2 = math::mul_q(beta, beta);
    let ab_over_s = math::div_q(math::mul_q(alpha, beta), VEC_SCALE);
    if !math::within_limit(ab_over_s, AB_GUARD) {
        return Vec::new();
    }
    let t3 = 2 * math::mul_w(ab_over_s, c_uv);
    if !math::within_limit(t3, VD_GUARD) {
        return Vec::new();
    }
    let t4 = math::mul_q(alpha, d_uw);
    let t5 = math::mul_q(beta, d_vw);
    let c_scaled = math::mul_q(c_val, VEC_SCALE);
    if !math::within_limit(c_scaled, CW_GUARD) {
        return Vec::new();
    }
    let c_term = math::mul_w(c_scaled, VEC_SCALE);
    if !math::within_limit(c_term, CTERM_GUARD) {
        return Vec::new();
    }
    let value_d = t1 + t2 + t3 + t4 + t5 - c_term;
    if !math::within_limit(value_d, VD_GUARD) {
        return Vec::new();
    }

    // Discriminant: real roots exist only if it is strictly positive.
    let disc = math::mul_q(d_wt, d_wt) - 4 * value_d;
    let mut f: Vec<Sphere> = Vec::new();
    if disc > 0 {
        let sq_disc = math::isqrt(disc);
        // The two roots straddle the vertex of the quadratic; each is padded
        // away from it.
        let gamma_pos = math::div_q(-d_wt + sq_disc, 2) + GAMMA_PAD;
        let gamma_neg = math::div_q(-d_wt - sq_disc, 2) - GAMMA_PAD;
        if !(math::within_limit(gamma_pos, LIN_GUARD) && math::within_limit(gamma_neg, LIN_GUARD)) {
            return f;
        }

        let px_pos = math::div_q(
            math::mul_q(alpha, uhx) + math::mul_q(beta, vhx) + math::mul_q(gamma_pos, thx),
            VEC_SCALE_SQ,
        );
        let py_pos = math::div_q(
            math::mul_q(alpha, uhy) + math::mul_q(beta, vhy) + math::mul_q(gamma_pos, thy),
            VEC_SCALE_SQ,
        );
        let pz_pos = math::div_q(
            math::mul_q(alpha, uhz) + math::mul_q(beta, vhz) + math::mul_q(gamma_pos, thz),
            VEC_SCALE_SQ,
        );
        let px_neg = math::div_q(
            math::mul_q(alpha, uhx) + math::mul_q(beta, vhx) + math::mul_q(gamma_neg, thx),
            VEC_SCALE_SQ,
        );
        let py_neg = math::div_q(
            math::mul_q(alpha, uhy) + math::mul_q(beta, vhy) + math::mul_q(gamma_neg, thy),
            VEC_SCALE_SQ,
        );
        let pz_neg = math::div_q(
            math::mul_q(alpha, uhz) + math::mul_q(beta, vhz) + math::mul_q(gamma_neg, thz),
            VEC_SCALE_SQ,
        );

        // Keep a candidate only if it is bounded by the containing geometry
        // and does not overlap any sphere in V.
        if let Some(s_4_positive) = make_candidate(px_pos, py_pos, pz_pos, radius) {
            if container.contains(&s_4_positive) && s_4_positive.in_tangent_band(s_1)
                && s_4_positive.in_tangent_band(s_2) && s_4_positive.in_tangent_band(s_3)
                && !overlaps_any(&s_4_positive, set_v) {
                f.push(s_4_positive);
            }
        }
        if let Some(s_4_negative) = make_candidate(px_neg, py_neg, pz_neg, radius) {
            if container.contains(&s_4_negative) && s_4_negative.in_tangent_band(s_1)
                && s_4_negative.in_tangent_band(s_2) && s_4_negative.in_tangent_band(s_3)
                && !overlaps_any(&s_4_negative, set_v) {
                f.push(s_4_negative);
            }
        }
    }
    f
}

} // verus!

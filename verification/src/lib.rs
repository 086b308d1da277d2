//! A sphere-packing library built on an advancing-front construction.
//!
//! New spheres are grown tangent to three already-placed spheres at a time,
//! inside an arbitrary containment-testable boundary.  All geometry is carried
//! out in exact fixed-point arithmetic: one spatial unit is `UNIT` ticks, so
//! that containment and overlap decisions are exact integer comparisons.

use vstd::prelude::*;

pub mod engine;
mod math;
pub mod random;
pub mod seed;
pub mod shapes;
pub mod solver;
pub mod util;

use crate::shapes::{dist2, dist2_exec, sq, Sphere};

pub use crate::engine::pack_spheres;

verus! {

/// The `Container` trait must be implemented for all shapes you wish to pack
/// spheres into.  `contains` decides whether a sphere lies fully inside the
/// boundary; `volume` reports the container volume in the same normalised
/// units that `Sphere::volume` uses (a ball of radius `r` has volume `r^3`).
pub trait Container {
    /// Well-formedness of the container itself.
    spec fn inv(&self) -> bool;

    /// What `contains` decides, as a mathematical predicate.
    spec fn spec_contains(&self, sphere: Sphere) -> bool;

    /// The container volume, in normalised units, as a mathematical value.
    spec fn spec_volume(&self) -> int;

    /// Checks if a sphere exists inside some bounding geometry.
    fn contains(&self, sphere: &Sphere) -> (r: bool)
        requires
            self.inv(),
            sphere.wf(),
        ensures
            r == self.spec_contains(*sphere),
    ;

    /// Calculates the volume of this container in normalised units.
    fn volume(&self) -> (v: u128)
        requires
            self.inv(),
        ensures
            v == self.spec_volume(),
            0 < v <= VOLUME_LIMIT,
    ;
}

/// Largest container volume, in normalised units, that the exact ratio
/// arithmetic accepts.
pub const VOLUME_LIMIT: u128 = 0x4000_0000_0000_0000_0000_0000_0000_0000;

/// Largest packing length the exact analysis arithmetic accepts.
pub const LEN_LIMIT: u64 = 0x40_0000_0000_0000;

/// A sphere is itself a container: a candidate is inside iff it fits entirely
/// within the boundary ball.
impl Container for Sphere {
    open spec fn inv(&self) -> bool {
        self.wf()
    }

    /// Inside iff the candidate's radius fits and the centers are no farther
    /// apart than the difference of the radii.
    open spec fn spec_contains(&self, sphere: Sphere) -> bool {
        sphere.radius <= self.radius
            && dist2(sphere.center, self.center) <= sq(self.radius - sphere.radius)
    }

    open spec fn spec_volume(&self) -> int {
        shapes::spec_sphere_volume(self.radius as int)
    }

    fn contains(&self, sphere: &Sphere) -> (r: bool) {
        if sphere.radius > self.radius {
            return false;
        }
        let d2 = dist2_exec(&sphere.center, &self.center);
        let slack = (self.radius - sphere.radius) as i128;
        let slack2 = math::mul_q(slack, slack);
        d2 <= slack2
    }

    fn volume(&self) -> (v: u128) {
        Sphere::volume(self)
    }
}

/// The ways a packing construction can fail.  No-solution outcomes of the
/// tangent-sphere solver are not errors; these two are.
#[derive(Clone, Copy, Debug, PartialEq, Eq, Structural)]
pub enum PackError {
    /// The three initially sampled radii cannot form a mutually tangent
    /// triangle fully contained by the boundary geometry.
    SeedUnplaceable,
    /// The sampler returned a radius that is not strictly positive (or is
    /// beyond the coordinate range the library computes over).
    InvalidSample,
}

/// An exact ratio of two integers; the denominator is strictly positive.
#[derive(Clone, Copy, Debug, PartialEq, Eq, Structural)]
pub struct Ratio {
    /// The numerator.
    pub num: i128,
    /// The denominator; strictly positive.
    pub den: i128,
}

/// The total volume of a sequence of spheres, in normalised units.
pub open spec fn spec_volume_sum(s: Seq<Sphere>) -> int
    decreases s.len(),
{
    if s.len() == 0 {
        0
    } else {
        spec_volume_sum(s.drop_last()) + shapes::spec_sphere_volume(s.last().radius as int)
    }
}

/// The subsequence of `s` in contact with `base`, in input order.
pub open spec fn spec_contacts(s: Seq<Sphere>, base: Sphere) -> Seq<Sphere>
    decreases s.len(),
{
    if s.len() == 0 {
        Seq::empty()
    } else {
        let prefix = spec_contacts(s.drop_last(), base);
        if shapes::spec_in_contact(base, s.last()) {
            prefix.push(s.last())
        } else {
            prefix
        }
    }
}

/// The total number of contacts over the first `k` spheres of `s`.
pub open spec fn spec_contact_sum(s: Seq<Sphere>, k: int) -> int
    decreases k,
{
    if k <= 0 {
        0
    } else {
        spec_contact_sum(s, k - 1) + spec_contacts(s, s[k - 1]).len()
    }
}

/// To obtain quantitative values of your packing effectiveness,
/// `PackedVolume` provides a number of useful indicators of such.
pub struct PackedVolume<C> {
    /// A set of spheres generated by a call to `pack_spheres`, or supplied
    /// ready-made through `from_vec`.
    pub spheres: Vec<Sphere>,
    /// The container in which spheres have been packed.
    pub container: C,
}

impl<C: Container> PackedVolume<C> {
    /// The container and every sphere of the packing are well-formed.
    pub open spec fn wf(self) -> bool {
        self.container.inv() && shapes::all_wf(self.spheres@)
    }

    /// Creates a new `PackedVolume` by running `pack_spheres` with the given
    /// distribution of sphere sizes, random source, attempt budget and a
    /// `container` to pack into.
    pub fn new<S: random::RadiusSampler, R: random::RandomSource>(
        container: C,
        size_distribution: &mut S,
        random: &mut R,
        max_attempts: usize,
    ) -> (r: Result<PackedVolume<C>, PackError>)
        requires
            container.inv(),
            old(size_distribution).inv(),
            old(random).inv(),
        ensures
            final(size_distribution).inv(),
            final(random).inv(),
            match r {
                Ok(p) => {
                    &&& p.wf()
                    &&& p.container == container
                    &&& p.spheres@.len() >= 3
                    &&& engine::spec_all_contained(p.spheres@, container)
                    &&& shapes::spec_disjoint(p.spheres@)
                },
                Err(e) => e == PackError::SeedUnplaceable || e == PackError::InvalidSample,
            },
    {
        match engine::pack_spheres(&container, size_distribution, random, max_attempts) {
            Ok(spheres) => Ok(PackedVolume { spheres, container }),
            Err(e) => Err(e),
        }
    }

    /// Creates a `PackedVolume` from a pre-calculated cluster of `spheres`.
    /// Useful for gathering statistics from packings generated elsewhere for
    /// comparison to the current algorithm.
    pub fn from_vec(spheres: Vec<Sphere>, container: C) -> (p: PackedVolume<C>)
        requires
            container.inv(),
            shapes::all_wf(spheres@),
        ensures
            p.spheres == spheres,
            p.container == container,
            p.wf(),
    {
        PackedVolume { spheres, container }
    }

    /// The total volume of the packed spheres, in normalised units.
    fn total_volume(&self) -> (v: u128)
        requires
            self.wf(),
            self.spheres@.len() <= LEN_LIMIT,
        ensures
            v == spec_volume_sum(self.spheres@),
            v <= self.spheres@.len() * 0x100_0000_0000_0000_0000,
    {
        let mut v: u128 = 0;
        let mut i: usize = 0;
        while i < self.spheres.len()
            invariant
                self.wf(),
                self.spheres@.len() <= LEN_LIMIT,
                0 <= i <= self.spheres@.len(),
                v == spec_volume_sum(self.spheres@.subrange(0, i as int)),
                v <= i * 0x100_0000_0000_0000_0000,
            decreases self.spheres@.len() - i,
        {
            let vi = self.spheres[i].volume();
            proof {
                let pre = self.spheres@.subrange(0, i as int);
                let post = self.spheres@.subrange(0, i as int + 1);
                assert(post.drop_last() =~= pre);
                assert(post.last() == self.spheres@[i as int]);
            }
            proof {
                lemma_volume_sum_step(i as int, self.spheres@.len() as int);
            }
            v = v + vi;
            i = i + 1;
        }
        proof {
            assert(self.spheres@.subrange(0, self.spheres@.len() as int) =~= self.spheres@);
        }
        v
    }

    /// Calculates the volume fraction ν = Vs/V: the volume of all spheres
    /// packed into a container divided by the volume of said container,
    /// as an exact ratio.
    pub fn volume_fraction(&self) -> (nu: Ratio)
        requires
            self.wf(),
            self.spheres@.len() <= LEN_LIMIT,
        ensures
            nu.num == spec_volume_sum(self.spheres@),
            nu.den == self.container.spec_volume(),
            0 <= nu.num,
            0 < nu.den,
    {
        let vol_spheres = self.total_volume();
        let vol_total = self.container.volume();
        proof {
            vstd::arithmetic::mul::lemma_mul_inequality(
                self.spheres@.len() as int,
                0x40_0000_0000_0000,
                0x100_0000_0000_0000_0000,
            );
            assert(0x40_0000_0000_0000int * 0x100_0000_0000_0000_0000int
                == 0x4000_0000_0000_0000_0000_0000_0000_0000int);
        }
        Ratio { num: vol_spheres as i128, den: vol_total as i128 }
    }

    /// Calculates the void ratio e = Vv/Vs: the volume of all void space
    /// divided by the volume of solids in the container, as an exact ratio.
    pub fn void_ratio(&self) -> (e: Ratio)
        requires
            self.wf(),
            1 <= self.spheres@.len() <= LEN_LIMIT,
        ensures
            e.num == self.container.spec_volume() - spec_volume_sum(self.spheres@),
            e.den == spec_volume_sum(self.spheres@),
            0 < e.den,
    {
        proof {
            lemma_volume_sum_positive(self.spheres@);
        }
        let vol_spheres = self.total_volume();
        let vol_total = self.container.volume();
        proof {
            vstd::arithmetic::mul::lemma_mul_inequality(
                self.spheres@.len() as int,
                0x40_0000_0000_0000,
                0x100_0000_0000_0000_0000,
            );
            assert(0x40_0000_0000_0000int * 0x100_0000_0000_0000_0000int
                == 0x4000_0000_0000_0000_0000_0000_0000_0000int);
        }
        Ratio {
            num: vol_total as i128 - vol_spheres as i128,
            den: vol_spheres as i128,
        }
    }

    /// Returns the set of spheres connected to the sphere at a chosen index,
    /// under the tolerance-based contact predicate.
    pub fn sphere_contacts(&self, sphere_idx: usize) -> (c: Vec<Sphere>)
        requires
            self.wf(),
            sphere_idx < self.spheres@.len(),
        ensures
            c@ == spec_contacts(self.spheres@, self.spheres@[sphere_idx as int]),
    {
        let base = self.spheres[sphere_idx];
        let mut c: Vec<Sphere> = Vec::new();
        let mut i: usize = 0;
        while i < self.spheres.len()
            invariant
                self.wf(),
                sphere_idx < self.spheres@.len(),
                base == self.spheres@[sphere_idx as int],
                0 <= i <= self.spheres@.len(),
                c@ == spec_contacts(self.spheres@.subrange(0, i as int), base),
            decreases self.spheres@.len() - i,
        {
            proof {
                let pre = self.spheres@.subrange(0, i as int);
                let post = self.spheres@.subrange(0, i as int + 1);
                assert(post.drop_last() =~= pre);
                assert(post.last() == self.spheres@[i as int]);
            }
            if base.in_contact(&self.spheres[i]) {
                c.push(self.spheres[i]);
            }
            i = i + 1;
        }
        proof {
            assert(self.spheres@.subrange(0, self.spheres@.len() as int) =~= self.spheres@);
        }
        c
    }

    /// Calculates the number of contacts a sphere has with the rest of the
    /// packed set.
    pub fn sphere_contacts_count(&self, sphere_idx: usize) -> (n: usize)
        requires
            self.wf(),
            sphere_idx < self.spheres@.len(),
        ensures
            n == spec_contacts(self.spheres@, self.spheres@[sphere_idx as int]).len(),
    {
        let c = self.sphere_contacts(sphere_idx);
        c.len()
    }

    /// The coordination number of the packing: the arithmetic mean, over all
    /// spheres, of the number of spheres each is in contact with, as an
    /// exact ratio.
    pub fn coordination_number(&self) -> (k: Ratio)
        requires
            self.wf(),
            1 <= self.spheres@.len() <= LEN_LIMIT,
        ensures
            k.num == spec_contact_sum(self.spheres@, self.spheres@.len() as int),
            k.den == self.spheres@.len(),
    {
        let num_particles = self.spheres.len();
        let mut coordinations: u128 = 0;
        let mut idx: usize = 0;
        while idx < num_particles
            invariant
                self.wf(),
                num_particles == self.spheres@.len(),
                1 <= num_particles <= LEN_LIMIT,
                0 <= idx <= num_particles,
                coordinations == spec_contact_sum(self.spheres@, idx as int),
                coordinations <= idx * 0x40_0000_0000_0000,
            decreases num_particles - idx,
        {
            let n = self.sphere_contacts_count(idx);
            proof {
                lemma_contacts_len_bounded(self.spheres@, self.spheres@[idx as int]);
                lemma_contact_sum_step(idx as int, num_particles as int);
            }
            coordinations = coordinations + (n as u128);
            idx = idx + 1;
        }
        proof {
            vstd::arithmetic::mul::lemma_mul_inequality(
                num_particles as int,
                0x40_0000_0000_0000,
                0x40_0000_0000_0000,
            );
            assert(0x40_0000_0000_0000int * 0x40_0000_0000_0000int
                == 0x1000_0000_0000_0000_0000_0000_0000int);
        }
        Ratio { num: coordinations as i128, den: num_particles as i128 }
    }

    /// Generates the fabric tensor of the packing: the mean, over all
    /// spheres, of the per-sphere average outer product of its contact
    /// directions.  A contact's direction is taken, as a unit vector, from
    /// the cross product of the two centers; a contact whose cross product
    /// vanishes (the centers are parallel) contributes nothing, as does a
    /// sphere without contacts.  The trace of the result is near
    /// [`FABRIC_SCALE`] for any packing with at least one contact per
    /// sphere; the diagonal of an isotropic packing is near a third of it.
    pub fn fabric_tensor(&self) -> (phi: FabricTensor)
        requires
            self.wf(),
            1 <= self.spheres@.len() <= LEN_LIMIT,
        ensures
            phi.wf(),
    {
        let num_particles = self.spheres.len();
        let mut gxx: i128 = 0;
        let mut gxy: i128 = 0;
        let mut gxz: i128 = 0;
        let mut gyy: i128 = 0;
        let mut gyz: i128 = 0;
        let mut gzz: i128 = 0;
        let mut idx: usize = 0;
        while idx < num_particles
            invariant
                self.wf(),
                num_particles == self.spheres@.len(),
                1 <= num_particles <= LEN_LIMIT,
                0 <= idx <= num_particles,
                0 <= gxx <= idx * 0x800_0000_0000,
                -(idx * 0x800_0000_0000) <= gxy <= idx * 0x800_0000_0000,
                -(idx * 0x800_0000_0000) <= gxz <= idx * 0x800_0000_0000,
                0 <= gyy <= idx * 0x800_0000_0000,
                -(idx * 0x800_0000_0000) <= gyz <= idx * 0x800_0000_0000,
                0 <= gzz <= idx * 0x800_0000_0000,
            decreases num_particles - idx,
        {
            let center = self.spheres[idx].center;
            // The set of all spheres in contact with the current sphere.
            let p_c = self.sphere_contacts(idx);
            proof {
                lemma_contacts_wf(self.spheres@, self.spheres@[idx as int]);
                lemma_contacts_len_bounded(self.spheres@, self.spheres@[idx as int]);
            }
            // Number of spheres in contact with the current sphere.
            let m_p = p_c.len();
            if m_p > 0 {
                let mut sxx: i128 = 0;
                let mut sxy: i128 = 0;
                let mut sxz: i128 = 0;
                let mut syy: i128 = 0;
                let mut syz: i128 = 0;
                let mut szz: i128 = 0;
                let mut k: usize = 0;
                while k < m_p
                    invariant
                        self.wf(),
                        shapes::all_wf(p_c@),
                        m_p == p_c@.len(),
                        1 <= m_p <= LEN_LIMIT,
                        idx < self.spheres@.len(),
                        center == self.spheres@[idx as int].center,
                        0 <= k <= m_p,
                        0 <= sxx <= k * 0x100_0000_0000,
                        -(k * 0x100_0000_0000) <= sxy <= k * 0x100_0000_0000,
                        -(k * 0x100_0000_0000) <= sxz <= k * 0x100_0000_0000,
                        0 <= syy <= k * 0x100_0000_0000,
                        -(k * 0x100_0000_0000) <= syz <= k * 0x100_0000_0000,
                        0 <= szz <= k * 0x100_0000_0000,
                    decreases m_p - k,
                {
                    let other = p_c[k].center;
                    let (cx, cy, cz) = math::cross3(
                        center.x as i128,
                        center.y as i128,
                        center.z as i128,
                        other.x as i128,
                        other.y as i128,
                        other.z as i128,
                    );
                    let norm2 = math::dot3(cx, cy, cz, cx, cy, cz);
                    proof {
                        lemma_fabric_inner_step(k as int, m_p as int);
                    }
                    if norm2 > 0 {
                        let norm = math::isqrt(norm2);
                        if norm >= 1 {
                            // The unit vector of the contact direction,
                            // scaled by 2^20.
                            let nx = math::div_q(math::mul_q(cx, 0x10_0000), norm);
                            let ny = math::div_q(math::mul_q(cy, 0x10_0000), norm);
                            let nz = math::div_q(math::mul_q(cz, 0x10_0000), norm);
                            if math::within_limit(nx, 0x10_0000) && math::within_limit(
                                ny,
                                0x10_0000,
                            ) && math::within_limit(nz, 0x10_0000) {
                                sxx = sxx + math::mul_unit(nx, nx);
                                sxy = sxy + math::mul_unit(nx, ny);
                                sxz = sxz + math::mul_unit(nx, nz);
                                syy = syy + math::mul_unit(ny, ny);
                                syz = syz + math::mul_unit(ny, nz);
                                szz = szz + math::mul_unit(nz, nz);
                            }
                        }
                    }
                    k = k + 1;
                }
                // Average over this sphere's contacts, then accumulate.
                let cxx = fabric_contrib(sxx, m_p);
                let cxy = fabric_contrib(sxy, m_p);
                let cxz = fabric_contrib(sxz, m_p);
                let cyy = fabric_contrib(syy, m_p);
                let cyz = fabric_contrib(syz, m_p);
                let czz = fabric_contrib(szz, m_p);
                proof {
                    lemma_fabric_outer_step(idx as int, num_particles as int);
                }
                gxx = gxx + cxx;
                gxy = gxy + cxy;
                gxz = gxz + cxz;
                gyy = gyy + cyy;
                gyz = gyz + cyz;
                gzz = gzz + czz;
            } else {
                proof {
                    lemma_fabric_outer_step(idx as int, num_particles as int);
                }
            }
            idx = idx + 1;
        }
        proof {
            lemma_fabric_outer_step(num_particles - 1, num_particles as int);
        }
        let exx = fabric_entry(gxx, num_particles);
        let exy = fabric_entry(gxy, num_particles);
        let exz = fabric_entry(gxz, num_particles);
        let eyy = fabric_entry(gyy, num_particles);
        let eyz = fabric_entry(gyz, num_particles);
        let ezz = fabric_entry(gzz, num_particles);
        FabricTensor {
            xx: exx,
            xy: exy,
            xz: exz,
            yx: exy,
            yy: eyy,
            yz: eyz,
            zx: exz,
            zy: eyz,
            zz: ezz,
        }
    }
}

/// The fixed-point scale of the fabric-tensor entries: an isotropic packing
/// has diagonal entries near a third of this, and the trace of any packing
/// with contacts is near this.
pub const FABRIC_SCALE: i64 = 0x100_0000_0000;

/// The second-order fabric tensor of a packing, in fixed-point entries
/// scaled by [`FABRIC_SCALE`].  It is symmetric by construction.
#[derive(Clone, Copy, Debug, PartialEq, Eq, Structural)]
pub struct FabricTensor {
    /// Row 1, column 1.
    pub xx: i64,
    /// Row 1, column 2.
    pub xy: i64,
    /// Row 1, column 3.
    pub xz: i64,
    /// Row 2, column 1.
    pub yx: i64,
    /// Row 2, column 2.
    pub yy: i64,
    /// Row 2, column 3.
    pub yz: i64,
    /// Row 3, column 1.
    pub zx: i64,
    /// Row 3, column 2.
    pub zy: i64,
    /// Row 3, column 3.
    pub zz: i64,
}

impl FabricTensor {
    /// Entries are bounded, the diagonal — made of averaged squares — is
    /// non-negative, and the tensor is symmetric.
    pub open spec fn wf(self) -> bool {
        &&& 0 <= self.xx <= 0x800_0000_0000
        &&& 0 <= self.yy <= 0x800_0000_0000
        &&& 0 <= self.zz <= 0x800_0000_0000
        &&& -0x800_0000_0000 <= self.xy <= 0x800_0000_0000
        &&& -0x800_0000_0000 <= self.xz <= 0x800_0000_0000
        &&& -0x800_0000_0000 <= self.yz <= 0x800_0000_0000
        &&& self.yx == self.xy
        &&& self.zx == self.xz
        &&& self.zy == self.yz
    }

    /// The trace of the tensor, in [`FABRIC_SCALE`] units.
    pub fn trace(&self) -> (t: i64)
        requires
            self.wf(),
        ensures
            t == self.xx + self.yy + self.zz,
    {
        self.xx + self.yy + self.zz
    }
}

/// One more sphere volume still fits: the step fact for the running sum.
proof fn lemma_volume_sum_step(i: int, len: int)
    requires
        0 <= i < len <= 0x40_0000_0000_0000,
    ensures
        (i + 1) * 0x100_0000_0000_0000_0000 == i * 0x100_0000_0000_0000_0000
            + 0x100_0000_0000_0000_0000,
        (i + 1) * 0x100_0000_0000_0000_0000 <= 0x4000_0000_0000_0000_0000_0000_0000_0000,
{
    vstd::arithmetic::mul::lemma_mul_is_distributive_add_other_way(
        0x100_0000_0000_0000_0000,
        i,
        1,
    );
    vstd::arithmetic::mul::lemma_mul_basics(0x100_0000_0000_0000_0000);
    vstd::arithmetic::mul::lemma_mul_inequality(i + 1, len, 0x100_0000_0000_0000_0000);
    vstd::arithmetic::mul::lemma_mul_inequality(len, 0x40_0000_0000_0000, 0x100_0000_0000_0000_0000);
    assert(0x40_0000_0000_0000int * 0x100_0000_0000_0000_0000int
        == 0x4000_0000_0000_0000_0000_0000_0000_0000int);
}

/// One more contact count still fits: the step fact for the running sum.
proof fn lemma_contact_sum_step(i: int, len: int)
    requires
        0 <= i < len <= 0x40_0000_0000_0000,
    ensures
        (i + 1) * 0x40_0000_0000_0000 == i * 0x40_0000_0000_0000 + 0x40_0000_0000_0000,
        (i + 1) * 0x40_0000_0000_0000 <= 0x1000_0000_0000_0000_0000_0000_0000,
{
    vstd::arithmetic::mul::lemma_mul_is_distributive_add_other_way(0x40_0000_0000_0000, i, 1);
    vstd::arithmetic::mul::lemma_mul_basics(0x40_0000_0000_0000);
    vstd::arithmetic::mul::lemma_mul_inequality(i + 1, len, 0x40_0000_0000_0000);
    vstd::arithmetic::mul::lemma_mul_inequality(len, 0x40_0000_0000_0000, 0x40_0000_0000_0000);
    assert(0x40_0000_0000_0000int * 0x40_0000_0000_0000int
        == 0x1000_0000_0000_0000_0000_0000_0000int);
}

/// A non-empty sequence of well-formed spheres has positive total volume,
/// and the total is linearly bounded by the length.
proof fn lemma_volume_sum_positive(s: Seq<Sphere>)
    requires
        shapes::all_wf(s),
        s.len() >= 1,
    ensures
        spec_volume_sum(s) >= 1,
        spec_volume_sum(s) <= s.len() * 0x100_0000_0000_0000_0000,
    decreases s.len(),
{
    let last = s.last();
    assert(last.wf());
    assert(1 <= shapes::spec_sphere_volume(last.radius as int) <= 0x100_0000_0000_0000_0000)
        by (nonlinear_arith)
        requires
            1 <= last.radius <= 0x100_0000,
    ;
    vstd::arithmetic::mul::lemma_mul_is_distributive_sub_other_way(
        0x100_0000_0000_0000_0000,
        s.len() as int,
        1,
    );
    vstd::arithmetic::mul::lemma_mul_basics(0x100_0000_0000_0000_0000);
    if s.len() == 1 {
        assert(spec_volume_sum(s.drop_last()) == 0);
    } else {
        lemma_volume_sum_positive(s.drop_last());
    }
}

/// A contact list never outgrows the packing it came from.
proof fn lemma_contacts_len_bounded(s: Seq<Sphere>, base: Sphere)
    ensures
        spec_contacts(s, base).len() <= s.len(),
    decreases s.len(),
{
    if s.len() > 0 {
        lemma_contacts_len_bounded(s.drop_last(), base);
    }
}

/// Contacts of a well-formed packing are well-formed spheres.
proof fn lemma_contacts_wf(s: Seq<Sphere>, base: Sphere)
    requires
        shapes::all_wf(s),
    ensures
        forall|t: int|
            0 <= t < spec_contacts(s, base).len() ==> (#[trigger] spec_contacts(s, base)[t]).wf(),
    decreases s.len(),
{
    if s.len() > 0 {
        assert forall|i: int| 0 <= i < s.drop_last().len() implies (#[trigger] s.drop_last()[i]).wf()
        by {
            assert(s.drop_last()[i] == s[i]);
        }
        lemma_contacts_wf(s.drop_last(), base);
        let prefix = spec_contacts(s.drop_last(), base);
        assert forall|t: int|
            0 <= t < spec_contacts(s, base).len() implies (#[trigger] spec_contacts(s, base)[t]).wf()
        by {
            if t < prefix.len() {
                assert(spec_contacts(s, base)[t] == prefix[t]);
            } else {
                assert(spec_contacts(s, base)[t] == s.last());
            }
        }
    }
}

/// One more unit product still fits: the step fact for the per-sphere sums.
proof fn lemma_fabric_inner_step(i: int, len: int)
    requires
        0 <= i < len <= 0x40_0000_0000_0000,
    ensures
        (i + 1) * 0x100_0000_0000 == i * 0x100_0000_0000 + 0x100_0000_0000,
        (i + 1) * 0x100_0000_0000 <= 0x4000_0000_0000_0000_0000_0000,
{
    vstd::arithmetic::mul::lemma_mul_is_distributive_add_other_way(0x100_0000_0000, i, 1);
    vstd::arithmetic::mul::lemma_mul_basics(0x100_0000_0000);
    vstd::arithmetic::mul::lemma_mul_inequality(i + 1, len, 0x100_0000_0000);
    vstd::arithmetic::mul::lemma_mul_inequality(len, 0x40_0000_0000_0000, 0x100_0000_0000);
    assert(0x40_0000_0000_0000int * 0x100_0000_0000int == 0x4000_0000_0000_0000_0000_0000int);
}

/// One more per-sphere contribution still fits: the step fact for the
/// accumulated tensor.
proof fn lemma_fabric_outer_step(i: int, len: int)
    requires
        0 <= i < len <= 0x40_0000_0000_0000,
    ensures
        (i + 1) * 0x800_0000_0000 == i * 0x800_0000_0000 + 0x800_0000_0000,
        (i + 1) * 0x800_0000_0000 <= 0x2_0000_0000_0000_0000_0000_0000,
{
    vstd::arithmetic::mul::lemma_mul_is_distributive_add_other_way(0x800_0000_0000, i, 1);
    vstd::arithmetic::mul::lemma_mul_basics(0x800_0000_0000);
    vstd::arithmetic::mul::lemma_mul_inequality(i + 1, len, 0x800_0000_0000);
    vstd::arithmetic::mul::lemma_mul_inequality(len, 0x40_0000_0000_0000, 0x800_0000_0000);
    assert(0x40_0000_0000_0000int * 0x800_0000_0000int == 0x2_0000_0000_0000_0000_0000_0000int);
}

/// Averages one sphere's summed unit products over its contact count,
/// guarding the result into the accumulation range.
fn fabric_contrib(s: i128, m: usize) -> (c: i128)
    requires
        m >= 1,
        -0x4000_0000_0000_0000_0000_0000 <= s <= 0x4000_0000_0000_0000_0000_0000,
    ensures
        -0x800_0000_0000 <= c <= 0x800_0000_0000,
        s >= 0 ==> c >= 0,
{
    let q = math::div_q(s, m as i128);
    if math::within_limit(q, 0x800_0000_0000) {
        q
    } else {
        0
    }
}

/// Averages the accumulated tensor over the number of spheres, guarding the
/// entry into the range the tensor type carries.
fn fabric_entry(g: i128, n: usize) -> (e: i64)
    requires
        n >= 1,
        -0x2_0000_0000_0000_0000_0000_0000 <= g <= 0x2_0000_0000_0000_0000_0000_0000,
    ensures
        -0x800_0000_0000 <= e <= 0x800_0000_0000,
        g >= 0 ==> e >= 0,
{
    let q = math::div_q(g, n as i128);
    if math::within_limit(q, 0x800_0000_0000) {
        q as i64
    } else {
        0
    }
}

} // verus!

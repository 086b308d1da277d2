//! Injectable sources of randomness and of radii.
//!
//! The packer draws two kinds of values: indices (to pick a front member and
//! to break ties between candidate placements) and radii.  Both come through
//! small traits so that runs are reproducible: a seeded generator gives a
//! fixed stream, and replay sources give back a prescribed sequence.

use vstd::prelude::*;
use crate::shapes::COORD_LIMIT;

verus! {

/// Relies on rand's `StdRng`: the standard seedable generator.
#[verifier::external_type_specification]
#[verifier::external_body]
pub struct ExStdRng(rand::rngs::StdRng);

/// Relies on rand's `SeedableRng::seed_from_u64`: builds a generator whose
/// stream is a function of the seed.
#[verifier::external_body]
fn std_rng_from_seed(seed: u64) -> rand::rngs::StdRng {
    <rand::rngs::StdRng as rand::SeedableRng>::seed_from_u64(seed)
}

/// Relies on rand's `Rng::gen_range` over `0..n`: it panics only on an empty
/// range and returns a value inside the range.
#[verifier::external_body]
fn rng_below(rng: &mut rand::rngs::StdRng, n: usize) -> (r: usize)
    requires
        n >= 1,
    ensures
        r < n,
{
    rand::Rng::gen_range(rng, 0..n)
}

/// Relies on rand's `Rng::gen_range` over `lo..=hi`: it panics only on an
/// empty range and returns a value inside the range.
#[verifier::external_body]
fn rng_between(rng: &mut rand::rngs::StdRng, lo: i64, hi: i64) -> (r: i64)
    requires
        lo <= hi,
    ensures
        lo <= r <= hi,
{
    rand::Rng::gen_range(rng, lo..=hi)
}

/// A source of indices for the stochastic choices of the frontier engine.
pub trait RandomSource {
    /// Well-formedness the source maintains across draws.
    spec fn inv(&self) -> bool;

    /// Picks an index below `n`.
    fn pick(&mut self, n: usize) -> (r: usize)
        requires
            old(self).inv(),
            n >= 1,
        ensures
            final(self).inv(),
            r < n,
    ;
}

/// A source of sphere radii, in ticks.  The engine validates every draw and
/// reports `InvalidSample` for a radius that is not strictly positive and
/// within range; the sampler itself promises nothing.
pub trait RadiusSampler {
    /// Well-formedness the sampler maintains across draws.
    spec fn inv(&self) -> bool;

    /// Draws the next radius, in ticks.
    fn sample_radius(&mut self) -> (r: i64)
        requires
            old(self).inv(),
        ensures
            final(self).inv(),
    ;
}

/// An index source backed by a seeded generator: the stream of picks is a
/// function of the seed.
pub struct SeededSource {
    rng: rand::rngs::StdRng,
}

impl SeededSource {
    /// Builds the source from a seed.
    pub fn new(seed: u64) -> SeededSource {
        SeededSource { rng: std_rng_from_seed(seed) }
    }
}

impl RandomSource for SeededSource {
    open spec fn inv(&self) -> bool {
        true
    }

    fn pick(&mut self, n: usize) -> (r: usize) {
        rng_below(&mut self.rng, n)
    }
}

/// An index source that replays a fixed list of draws; after the list is
/// exhausted it keeps answering zero.  Two engines driven by equal replay
/// sources make identical choices.
pub struct ReplaySource {
    /// The prescribed draws; each is reduced modulo the asked-for bound.
    values: Vec<usize>,
    next: usize,
}

impl ReplaySource {
    /// The prescribed draws, as the contracts see them.
    pub closed spec fn spec_draws(&self) -> Seq<usize> {
        self.values@
    }

    /// How many draws have been consumed.
    pub closed spec fn spec_position(&self) -> int {
        self.next as int
    }

    /// Builds the source from the prescribed draws.
    pub fn new(values: Vec<usize>) -> (s: ReplaySource)
        ensures
            s.inv(),
            s.spec_draws() == values@,
            s.spec_position() == 0,
    {
        ReplaySource { values, next: 0 }
    }
}

impl RandomSource for ReplaySource {
    open spec fn inv(&self) -> bool {
        true
    }

    /// Answers the next prescribed draw reduced modulo `n` and advances;
    /// once the list is exhausted, answers zero without advancing.
    fn pick(&mut self, n: usize) -> (r: usize)
        ensures
            final(self).spec_draws() == old(self).spec_draws(),
            old(self).spec_position() < old(self).spec_draws().len() ==> {
                &&& final(self).spec_position() == old(self).spec_position() + 1
                &&& r as int == old(self).spec_draws()[old(self).spec_position()] as int % (
                n as int)
            },
            old(self).spec_position() >= old(self).spec_draws().len() ==> {
                &&& final(self).spec_position() == old(self).spec_position()
                &&& r == 0
            },
    {
        if self.next < self.values.len() {
            let v = self.values[self.next];
            self.next = self.next + 1;
            v % n
        } else {
            0
        }
    }
}

/// A sampler that draws radii uniformly from `lo..=hi` ticks through a seeded
/// generator.
pub struct UniformSampler {
    lo: i64,
    hi: i64,
    rng: rand::rngs::StdRng,
}

impl UniformSampler {
    /// The lower radius bound, as the contracts see it.
    pub closed spec fn spec_lo(&self) -> int {
        self.lo as int
    }

    /// The upper radius bound, as the contracts see it.
    pub closed spec fn spec_hi(&self) -> int {
        self.hi as int
    }

    /// Builds the sampler; the bounds must be positive, in range and ordered.
    pub fn new(lo: i64, hi: i64, seed: u64) -> (s: UniformSampler)
        requires
            1 <= lo <= hi <= COORD_LIMIT,
        ensures
            s.inv(),
            s.spec_lo() == lo,
            s.spec_hi() == hi,
    {
        UniformSampler { lo, hi, rng: std_rng_from_seed(seed) }
    }
}

impl RadiusSampler for UniformSampler {
    closed spec fn inv(&self) -> bool {
        1 <= self.lo <= self.hi <= COORD_LIMIT
    }

    /// Every draw lies within the configured bounds, so it is always a valid
    /// radius.
    fn sample_radius(&mut self) -> (r: i64)
        ensures
            final(self).spec_lo() == old(self).spec_lo(),
            final(self).spec_hi() == old(self).spec_hi(),
            old(self).spec_lo() <= r <= old(self).spec_hi(),
    {
        let lo = self.lo;
        let hi = self.hi;
        rng_between(&mut self.rng, lo, hi)
    }
}

/// A sampler that replays a fixed list of radii; after the list is exhausted
/// it answers zero, which the engine rejects as an invalid sample.
pub struct SequenceSampler {
    values: Vec<i64>,
    next: usize,
}

impl SequenceSampler {
    /// The prescribed radii, as the contracts see them.
    pub closed spec fn spec_draws(&self) -> Seq<i64> {
        self.values@
    }

    /// How many radii have been consumed.
    pub closed spec fn spec_position(&self) -> int {
        self.next as int
    }

    /// Builds the sampler from the prescribed radii.
    pub fn new(values: Vec<i64>) -> (s: SequenceSampler)
        ensures
            s.inv(),
            s.spec_draws() == values@,
            s.spec_position() == 0,
    {
        SequenceSampler { values, next: 0 }
    }
}

impl RadiusSampler for SequenceSampler {
    open spec fn inv(&self) -> bool {
        true
    }

    /// Answers the next prescribed radius and advances; once the list is
    /// exhausted, answers zero — which the engine rejects as invalid —
    /// without advancing.
    fn sample_radius(&mut self) -> (r: i64)
        ensures
            final(self).spec_draws() == old(self).spec_draws(),
            old(self).spec_position() < old(self).spec_draws().len() ==> {
                &&& final(self).spec_position() == old(self).spec_position() + 1
                &&& r == old(self).spec_draws()[old(self).spec_position()]
            },
            old(self).spec_position() >= old(self).spec_draws().len() ==> {
                &&& final(self).spec_position() == old(self).spec_position()
                &&& r == 0
            },
    {
        if self.next < self.values.len() {
            let v = self.values[self.next];
            self.next = self.next + 1;
            v
        } else {
            0
        }
    }
}

} // verus!

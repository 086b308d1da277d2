use spherical_cow::engine::pack_spheres;
use spherical_cow::random::{
    RadiusSampler, RandomSource, ReplaySource, SeededSource, SequenceSampler, UniformSampler,
};
use spherical_cow::shapes::{Point3, Sphere};
use spherical_cow::{Container, PackedVolume};

fn sphere(x: i64, y: i64, z: i64, r: i64) -> Sphere {
    Sphere::new(Point3::new(x, y, z), r)
}

fn dist2(a: &Sphere, b: &Sphere) -> i128 {
    let dx = (a.center.x - b.center.x) as i128;
    let dy = (a.center.y - b.center.y) as i128;
    let dz = (a.center.z - b.center.z) as i128;
    dx * dx + dy * dy + dz * dz
}

#[test]
fn replay_sources_follow_their_prescribed_draws() {
    let mut picks = ReplaySource::new(vec![5, 7]);
    assert_eq!(picks.pick(3), 2); // 5 modulo 3
    assert_eq!(picks.pick(10), 7);
    assert_eq!(picks.pick(4), 0); // exhausted

    let mut radii = SequenceSampler::new(vec![1_000_000, 250_000]);
    assert_eq!(radii.sample_radius(), 1_000_000);
    assert_eq!(radii.sample_radius(), 250_000);
    assert_eq!(radii.sample_radius(), 0); // exhausted
}

#[test]
fn invalid_sample_is_rejected_at_sampling() {
    let boundary = sphere(0, 0, 0, 8_000_000);
    let mut sampler = SequenceSampler::new(vec![0]);
    let mut random = SeededSource::new(1);
    let r = pack_spheres(&boundary, &mut sampler, &mut random, 1_000);
    assert_eq!(r, Err(spherical_cow::PackError::InvalidSample));

    let mut negative = SequenceSampler::new(vec![1_000_000, -5]);
    let r2 = pack_spheres(&boundary, &mut negative, &mut random, 1_000);
    assert_eq!(r2, Err(spherical_cow::PackError::InvalidSample));
}

#[test]
fn unplaceable_seeds_are_reported() {
    // Three sampled radii that cannot form a contained seed triangle.
    let boundary = Sphere::new(Point3::origin(), 1_000_000);
    let mut sampler = SequenceSampler::new(vec![900_000, 900_000, 900_000, 100_000]);
    let mut random = SeededSource::new(3);
    let r = pack_spheres(&boundary, &mut sampler, &mut random, 1_000);
    assert_eq!(r, Err(spherical_cow::PackError::SeedUnplaceable));
}

#[test]
fn zero_budget_returns_the_seed_triple() {
    let boundary = sphere(0, 0, 0, 8_000_000);
    let mut sampler = SequenceSampler::new(vec![1_000_000, 1_000_000, 1_000_000, 500_000]);
    let mut random = SeededSource::new(7);
    let packed = pack_spheres(&boundary, &mut sampler, &mut random, 0).unwrap();
    assert_eq!(packed.len(), 3);
    assert_eq!(packed[0].radius, 1_000_000);
    assert_eq!(packed[1].radius, 1_000_000);
    assert_eq!(packed[2].radius, 1_000_000);
}

#[test]
fn replayed_inputs_give_identical_packings() {
    // A container that fits nothing beyond the seeds: the run needs only the
    // four prescribed radii, and two replays agree sphere for sphere.
    let boundary = sphere(0, 0, 0, 2_300_000);
    let radii = vec![1_000_000, 1_000_000, 1_000_000, 900_000];
    let mut sampler_a = SequenceSampler::new(radii.clone());
    let mut random_a = SeededSource::new(11);
    let run_a = pack_spheres(&boundary, &mut sampler_a, &mut random_a, 100_000).unwrap();
    let mut sampler_b = SequenceSampler::new(radii);
    let mut random_b = SeededSource::new(11);
    let run_b = pack_spheres(&boundary, &mut sampler_b, &mut random_b, 100_000).unwrap();
    assert_eq!(run_a, run_b);
}

#[test]
fn seeded_runs_are_reproducible() {
    let boundary = sphere(0, 0, 0, 2_000_000);
    let mut sampler_a = UniformSampler::new(300_000, 500_000, 42);
    let mut random_a = SeededSource::new(1729);
    let run_a = pack_spheres(&boundary, &mut sampler_a, &mut random_a, 1_000_000).unwrap();
    let mut sampler_b = UniformSampler::new(300_000, 500_000, 42);
    let mut random_b = SeededSource::new(1729);
    let run_b = pack_spheres(&boundary, &mut sampler_b, &mut random_b, 1_000_000).unwrap();
    assert_eq!(run_a, run_b);
    assert!(run_a.len() >= 3);
}

#[test]
fn packing_a_spherical_container_terminates_with_plausible_density() {
    // A boundary ball of two units filled with radii of a fifth to two
    // fifths of a unit: the run must exhaust its front and land strictly
    // between zero and the random-packing density region.
    let boundary = sphere(0, 0, 0, 2_000_000);
    let mut sampler = UniformSampler::new(200_000, 400_000, 2024);
    let mut random = SeededSource::new(99);
    let packed = PackedVolume::new(boundary, &mut sampler, &mut random, 1_000_000).unwrap();
    let n = packed.spheres.len();
    assert!(n >= 3, "only {} spheres placed", n);

    // Containment: every sphere lies inside the boundary.
    for s in &packed.spheres {
        assert!(boundary.contains(s));
    }
    // Non-overlap: no strict overlap between any pair.
    for i in 0..n {
        for j in 0..n {
            if i != j {
                let a = &packed.spheres[i];
                let b = &packed.spheres[j];
                assert!(!a.overlaps(b));
                let s = (a.radius + b.radius) as i128;
                assert!(dist2(a, b) >= s * s);
            }
        }
    }
    // Volume fraction strictly between 0 and the 0.64 random-packing bound.
    let nu = packed.volume_fraction();
    let fraction = nu.num as f64 / nu.den as f64;
    assert!(fraction > 0.0, "fraction = {}", fraction);
    assert!(fraction < 0.64, "fraction = {}", fraction);

    // The packing grew beyond its seeds and is reasonably dense.
    assert!(n > 10, "only {} spheres placed", n);
    assert!(fraction > 0.2, "fraction = {}", fraction);
}

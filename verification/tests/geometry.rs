use spherical_cow::shapes::{Point3, Sphere};
use spherical_cow::seed::init_spheres;
use spherical_cow::solver::identify_f;
use spherical_cow::util::pairs;
use spherical_cow::PackError;

fn sphere(x: i64, y: i64, z: i64, r: i64) -> Sphere {
    Sphere::new(Point3::new(x, y, z), r)
}

fn dist2(a: &Sphere, b: &Sphere) -> i128 {
    let dx = (a.center.x - b.center.x) as i128;
    let dy = (a.center.y - b.center.y) as i128;
    let dz = (a.center.z - b.center.z) as i128;
    dx * dx + dy * dy + dz * dz
}

/// The distance of the two centers differs from `expected` by at most `tol`.
fn assert_distance_near(a: &Sphere, b: &Sphere, expected: i128, tol: i128) {
    let d2 = dist2(a, b);
    assert!(d2 >= (expected - tol) * (expected - tol), "distance below {} - {}", expected, tol);
    assert!(d2 <= (expected + tol) * (expected + tol), "distance above {} + {}", expected, tol);
}

#[test]
fn pairs_of_small_sets() {
    let a = sphere(0, 0, 0, 10);
    let b = sphere(100, 0, 0, 10);
    let c = sphere(0, 100, 0, 10);
    let d = sphere(0, 0, 100, 10);
    let e = sphere(50, 50, 0, 10);

    assert_eq!(pairs(&vec![]).len(), 0);
    assert_eq!(pairs(&vec![a]).len(), 0);
    assert_eq!(pairs(&vec![a, b]), vec![(a, b)]);
    assert_eq!(pairs(&vec![a, b, c]), vec![(b, a), (c, a), (c, b)]);
    assert_eq!(pairs(&vec![a, b, c, d]).len(), 6);
    assert_eq!(pairs(&vec![a, b, c, d, e]).len(), 10);
}

#[test]
fn pairs_has_no_self_pair_and_no_duplicates() {
    let set = vec![
        sphere(0, 0, 0, 10),
        sphere(100, 0, 0, 11),
        sphere(0, 100, 0, 12),
        sphere(0, 0, 100, 13),
    ];
    let ps = pairs(&set);
    for (x, y) in &ps {
        assert!(x != y);
    }
    for i in 0..ps.len() {
        for j in 0..ps.len() {
            if i != j {
                let (a1, b1) = ps[i];
                let (a2, b2) = ps[j];
                assert!(!(a1 == a2 && b1 == b2));
                assert!(!(a1 == b2 && b1 == a2));
            }
        }
    }
}

#[test]
fn seed_triangle_is_pairwise_tangent() {
    let boundary = sphere(0, 0, 0, 16_000_000);
    let seeds = init_spheres(&[1_000_000, 1_500_000, 2_000_000], &boundary).unwrap();
    assert_eq!(seeds.len(), 3);
    assert_eq!(seeds[0].radius, 1_000_000);
    assert_eq!(seeds[1].radius, 1_500_000);
    assert_eq!(seeds[2].radius, 2_000_000);
    // Pairwise tangent within the rounding of the construction, and never
    // strictly overlapping.
    assert_distance_near(&seeds[0], &seeds[1], 2_500_000, 4);
    assert_distance_near(&seeds[0], &seeds[2], 3_000_000, 4);
    assert_distance_near(&seeds[1], &seeds[2], 3_500_000, 4);
    for i in 0..3 {
        for j in 0..3 {
            if i != j {
                assert!(!seeds[i].overlaps(&seeds[j]));
            }
        }
    }
}

#[test]
fn seed_triangle_incenter_near_origin() {
    let boundary = sphere(0, 0, 0, 16_000_000);
    let seeds = init_spheres(&[1_000_000, 1_000_000, 1_000_000], &boundary).unwrap();
    // For equal radii the incenter is the centroid; all three centers are at
    // the same distance from the origin.
    let origin = sphere(0, 0, 0, 1);
    let d0 = dist2(&seeds[0], &origin);
    let d1 = dist2(&seeds[1], &origin);
    let d2v = dist2(&seeds[2], &origin);
    let tol = 40_000_000_000; // rounding of the incenter, squared scale
    assert!((d0 - d1).abs() < tol);
    assert!((d0 - d2v).abs() < tol);
}

#[test]
fn seed_fails_in_small_container() {
    let boundary = sphere(0, 0, 0, 1_000_000);
    let r = init_spheres(&[900_000, 900_000, 900_000], &boundary);
    assert_eq!(r, Err(PackError::SeedUnplaceable));
}

#[test]
fn solver_reproduces_tetrahedral_configuration() {
    // Three mutually tangent unit spheres on a plane; a fourth unit sphere
    // stacked above them touches all three at the known tetrahedral center.
    let s1 = sphere(0, 0, 0, 1_000_000);
    let s2 = sphere(2_000_000, 0, 0, 1_000_000);
    let s3 = sphere(1_000_000, 1_732_051, 0, 1_000_000);
    let boundary = sphere(0, 0, 0, 16_000_000);
    let set_v: Vec<Sphere> = Vec::new();
    let f = identify_f(&s1, &s2, &s3, &boundary, &set_v, 1_000_000);
    assert_eq!(f.len(), 2);
    // The larger root (positive side of u x v, here +z) comes first.
    let top = f[0];
    let bottom = f[1];
    assert!(top.center.z > 0);
    assert!(bottom.center.z < 0);
    let tol = 5_000;
    assert!((top.center.x - 1_000_000).abs() < tol, "x = {}", top.center.x);
    assert!((top.center.y - 577_350).abs() < tol, "y = {}", top.center.y);
    assert!((top.center.z - 1_632_993).abs() < tol, "z = {}", top.center.z);
    // Tangent to all three references within solver tolerance.
    for s in [&s1, &s2, &s3] {
        assert_distance_near(&top, s, 2_000_000, 3_000);
        assert_distance_near(&bottom, s, 2_000_000, 3_000);
    }
}

#[test]
fn solver_returns_empty_for_negative_discriminant() {
    // References far apart relative to the grown tangency radii: the three
    // tangency spheres cannot intersect.
    let s1 = sphere(0, 0, 0, 100_000);
    let s2 = sphere(10_000_000, 0, 0, 100_000);
    let s3 = sphere(5_000_000, 8_000_000, 0, 100_000);
    let boundary = sphere(0, 0, 0, 16_000_000);
    let set_v: Vec<Sphere> = Vec::new();
    let f = identify_f(&s1, &s2, &s3, &boundary, &set_v, 100_000);
    assert!(f.is_empty());
}

#[test]
fn solver_filters_by_containment_and_overlap() {
    let s1 = sphere(0, 0, 0, 1_000_000);
    let s2 = sphere(2_000_000, 0, 0, 1_000_000);
    let s3 = sphere(1_000_000, 1_732_051, 0, 1_000_000);
    // A container too small for any fourth sphere: everything is rejected.
    let tight = sphere(0, 0, 0, 1_100_000);
    let set_v: Vec<Sphere> = Vec::new();
    assert!(identify_f(&s1, &s2, &s3, &tight, &set_v, 1_000_000).is_empty());
    // A blocker sitting on the upper solution: only the lower one survives.
    let boundary = sphere(0, 0, 0, 16_000_000);
    let blocker = vec![sphere(1_000_000, 577_350, 1_632_993, 1_000_000)];
    let f = identify_f(&s1, &s2, &s3, &boundary, &blocker, 1_000_000);
    assert_eq!(f.len(), 1);
    assert!(f[0].center.z < 0);
}

#[test]
fn solver_candidates_stay_in_the_tangency_band() {
    // Unequal references, not pairwise tangent: each emitted candidate must
    // still be tangent to all three within the band.
    let s1 = sphere(-1_500_000, 200_000, 0, 1_200_000);
    let s2 = sphere(1_800_000, -100_000, 0, 900_000);
    let s3 = sphere(300_000, 2_100_000, 150_000, 1_000_000);
    let boundary = sphere(0, 0, 0, 16_000_000);
    let set_v: Vec<Sphere> = Vec::new();
    let f = identify_f(&s1, &s2, &s3, &boundary, &set_v, 800_000);
    assert!(!f.is_empty());
    for c in &f {
        for s in [&s1, &s2, &s3] {
            assert!(c.in_tangent_band(s));
        }
    }
}

#[test]
fn overlap_predicate_is_strict() {
    let a = sphere(0, 0, 0, 1_000_000);
    let tangent = sphere(2_000_000, 0, 0, 1_000_000);
    let close = sphere(1_999_999, 0, 0, 1_000_000);
    assert!(!a.overlaps(&tangent));
    assert!(a.overlaps(&close));
}

#[test]
fn contact_predicate_uses_tolerance() {
    let a = sphere(0, 0, 0, 1_000_000);
    let tangent = sphere(2_000_000, 0, 0, 1_000_000);
    let near = sphere(2_000_900, 0, 0, 1_000_000);
    let far = sphere(2_002_000, 0, 0, 1_000_000);
    assert!(a.in_contact(&tangent));
    assert!(a.in_contact(&near));
    assert!(!a.in_contact(&far));
    // A sphere is not its own contact: its distance to itself is zero.
    assert!(!a.in_contact(&a));
}

use spherical_cow::shapes::{Point3, Sphere};
use spherical_cow::{FabricTensor, PackedVolume, FABRIC_SCALE};

fn sphere(x: i64, y: i64, z: i64, r: i64) -> Sphere {
    Sphere::new(Point3::new(x, y, z), r)
}

#[test]
fn from_vec_keeps_spheres_and_container() {
    let boundary = sphere(0, 0, 0, 8_000_000);
    let spheres = vec![sphere(0, 0, 0, 1_000_000), sphere(2_000_000, 0, 0, 1_000_000)];
    let packed = PackedVolume::from_vec(spheres.clone(), boundary);
    assert_eq!(packed.spheres, spheres);
    assert_eq!(packed.container, boundary);
}

#[test]
fn volume_fraction_of_single_sphere_is_exact() {
    // A unit sphere inside a boundary ball of twice the radius: the volume
    // fraction is exactly one eighth.
    let boundary = sphere(0, 0, 0, 2_000_000);
    let packed = PackedVolume::from_vec(vec![sphere(0, 0, 0, 1_000_000)], boundary);
    let nu = packed.volume_fraction();
    assert_eq!(nu.num, 1_000_000_000_000_000_000);
    assert_eq!(nu.den, 8_000_000_000_000_000_000);
    assert_eq!(nu.num * 8, nu.den);
}

#[test]
fn void_ratio_of_single_sphere_is_exact() {
    let boundary = sphere(0, 0, 0, 2_000_000);
    let packed = PackedVolume::from_vec(vec![sphere(0, 0, 0, 1_000_000)], boundary);
    let e = packed.void_ratio();
    assert_eq!(e.num, 7_000_000_000_000_000_000);
    assert_eq!(e.den, 1_000_000_000_000_000_000);
}

#[test]
fn contacts_and_coordination_number() {
    let boundary = sphere(0, 0, 0, 16_000_000);
    let s1 = sphere(0, 0, 0, 1_000_000);
    let s2 = sphere(2_000_000, 0, 0, 1_000_000);
    let s3 = sphere(10_000_000, 0, 0, 1_000_000);
    let packed = PackedVolume::from_vec(vec![s1, s2, s3], boundary);
    assert_eq!(packed.sphere_contacts(0), vec![s2]);
    assert_eq!(packed.sphere_contacts_count(0), 1);
    assert_eq!(packed.sphere_contacts_count(1), 1);
    assert_eq!(packed.sphere_contacts_count(2), 0);
    let k = packed.coordination_number();
    assert_eq!(k.num, 2);
    assert_eq!(k.den, 3);
}

#[test]
fn contact_tolerance_boundary_is_strict() {
    let boundary = sphere(0, 0, 0, 16_000_000);
    // Sum of radii exactly at the tolerance: |0 - sum| < tolerance fails, so
    // a lone sphere of radius 500 ticks has no contact, not even itself.
    let at_boundary = PackedVolume::from_vec(vec![sphere(0, 0, 0, 500)], boundary);
    assert_eq!(at_boundary.sphere_contacts_count(0), 0);
    assert!(at_boundary.sphere_contacts(0).is_empty());
    let k = at_boundary.coordination_number();
    assert_eq!(k.num, 0);
    assert_eq!(k.den, 1);
    // Strictly below the tolerance the predicate admits the sphere itself.
    let below = PackedVolume::from_vec(vec![sphere(0, 0, 0, 499)], boundary);
    assert_eq!(below.sphere_contacts_count(0), 1);
}

#[test]
fn fabric_tensor_is_symmetric_with_unit_trace() {
    // Two tangent spheres whose centers both sit off the origin, so the
    // cross-product contact direction is well defined (here along the third
    // axis): the tensor concentrates on the zz entry and its trace is one.
    let boundary = sphere(0, 0, 0, 16_000_000);
    let s1 = sphere(1_000_000, 1_000_000, 0, 1_000_000);
    let s2 = sphere(1_000_000, -1_000_000, 0, 1_000_000);
    let packed = PackedVolume::from_vec(vec![s1, s2], boundary);
    let phi: FabricTensor = packed.fabric_tensor();
    assert_eq!(phi.xy, phi.yx);
    assert_eq!(phi.xz, phi.zx);
    assert_eq!(phi.yz, phi.zy);
    let trace = phi.trace();
    let tol = FABRIC_SCALE / 100;
    assert!((trace - FABRIC_SCALE).abs() <= tol, "trace = {}, scale = {}", trace, FABRIC_SCALE);
    assert!((phi.zz - FABRIC_SCALE).abs() <= tol);
    assert!(phi.xx.abs() <= tol && phi.yy.abs() <= tol);
}

use orbit_sim::gravity::{
    compute_gravitational_force, CelestialBody, Force, ForceError, GravityConstant, Offset, Vec3i,
};
use orbit_sim::orbit::BodyKind;

fn at(x: i64, y: i64, z: i64) -> Vec3i {
    Vec3i { x, y, z }
}

fn body(kind: BodyKind, mass: u64, position: Vec3i) -> CelestialBody {
    CelestialBody {
        name: "body".to_string(),
        kind,
        mass,
        position,
        velocity: at(0, 0, 0),
        acceleration: at(0, 0, 0),
    }
}

#[test]
fn force_has_exact_size_and_direction() {
    let g = GravityConstant { num: 10, den: 1 };
    let a = body(BodyKind::Planet, 3, at(0, 0, 0));
    let b = body(BodyKind::Star, 4, at(0, 2, 0));
    let f = compute_gravitational_force(&g, &a, &b);
    assert_eq!(f, Ok(Force { magnitude: 30, direction: Offset { dx: 0, dy: 2, dz: 0 } }));
}

#[test]
fn force_rounds_down_with_a_ratio_constant() {
    let g = GravityConstant { num: 7, den: 3 };
    let a = body(BodyKind::Planet, 5, at(1, 1, 1));
    let b = body(BodyKind::Planet, 2, at(2, 2, 2));
    // 7 * 5 * 2 / (3 * 3) = 70 / 9
    let f = compute_gravitational_force(&g, &a, &b).unwrap();
    assert_eq!(f.magnitude, 7);
    assert_eq!(f.direction, Offset { dx: 1, dy: 1, dz: 1 });
}

#[test]
fn force_is_antisymmetric() {
    let g = GravityConstant { num: 6674, den: 100 };
    let a = body(BodyKind::Planet, 1_000, at(-3, 4, 12));
    let b = body(BodyKind::Star, 90_000, at(5, -2, 1));
    let ab = compute_gravitational_force(&g, &a, &b).unwrap();
    let ba = compute_gravitational_force(&g, &b, &a).unwrap();
    assert_eq!(ab.magnitude, ba.magnitude);
    assert_eq!(ab.direction, Offset { dx: 8, dy: -6, dz: -11 });
    assert_eq!(
        ba.direction,
        Offset { dx: -ab.direction.dx, dy: -ab.direction.dy, dz: -ab.direction.dz }
    );
}

#[test]
fn doubling_distance_quarters_force() {
    let g = GravityConstant { num: 1_000_000, den: 1 };
    let a = body(BodyKind::Planet, 3, at(10, 10, 0));
    let near = body(BodyKind::Star, 7, at(13, 14, 0));
    let far = body(BodyKind::Star, 7, at(16, 18, 0));
    let fn_ = compute_gravitational_force(&g, &a, &near).unwrap();
    let ff = compute_gravitational_force(&g, &a, &far).unwrap();
    assert_eq!(fn_.magnitude, 840_000);
    assert_eq!(ff.magnitude, 210_000);
    assert_eq!(ff.magnitude, fn_.magnitude / 4);
    assert_eq!(ff.direction, Offset { dx: 6, dy: 8, dz: 0 });
}

#[test]
fn earth_and_sun() {
    // Masses in units of 1e22 kg, lengths in units of 1e6 m, so that
    // G = 6.674e-11 * 1e22 * 1e22 / 1e12 N per unit mass squared over unit length squared.
    let g = GravityConstant { num: 6_674 * 10u128.pow(18), den: 1 };
    let earth = body(BodyKind::Planet, 597, at(0, 0, 0));
    let sun = body(BodyKind::Star, 198_900_000, at(149_600, 0, 0));
    let f = compute_gravitational_force(&g, &earth, &sun).unwrap();
    let newtons = f.magnitude as f64;
    assert!((newtons - 3.54e22).abs() / 3.54e22 < 0.01);
    assert_eq!(f.direction, Offset { dx: 149_600, dy: 0, dz: 0 });
}

#[test]
fn coincident_bodies_are_rejected() {
    let g = GravityConstant { num: 1, den: 1 };
    let a = body(BodyKind::Planet, 3, at(5, 5, 5));
    let b = body(BodyKind::Star, 4, at(5, 5, 5));
    assert_eq!(compute_gravitational_force(&g, &a, &b), Err(ForceError::CoincidentBodies));
    assert_eq!(compute_gravitational_force(&g, &a, &a), Err(ForceError::CoincidentBodies));
}

#[test]
fn zero_denominator_is_rejected() {
    let g = GravityConstant { num: 1, den: 0 };
    let a = body(BodyKind::Planet, 3, at(0, 0, 0));
    let b = body(BodyKind::Star, 4, at(1, 0, 0));
    assert_eq!(compute_gravitational_force(&g, &a, &b), Err(ForceError::ZeroDenominator));
}

#[test]
fn numerator_overflow_is_rejected() {
    let g = GravityConstant { num: u128::MAX, den: 1 };
    let a = body(BodyKind::Planet, 2, at(0, 0, 0));
    let b = body(BodyKind::Star, 1, at(1, 0, 0));
    assert_eq!(compute_gravitational_force(&g, &a, &b), Err(ForceError::Overflow));
}

#[test]
fn zero_mass_gives_no_overflow() {
    let g = GravityConstant { num: u128::MAX, den: 1 };
    let a = body(BodyKind::Planet, u64::MAX, at(0, 0, 0));
    let b = body(BodyKind::Star, 0, at(1, 0, 0));
    let f = compute_gravitational_force(&g, &a, &b).unwrap();
    assert_eq!(f.magnitude, 0);
}

#[test]
fn farthest_points_give_zero_force() {
    let g = GravityConstant { num: 1_000, den: 1 };
    let a = body(BodyKind::Planet, 1, at(i64::MIN, i64::MIN, i64::MIN));
    let b = body(BodyKind::Star, 1, at(i64::MAX, i64::MAX, i64::MAX));
    let f = compute_gravitational_force(&g, &a, &b).unwrap();
    assert_eq!(f.magnitude, 0);
    assert_eq!(f.direction.dx, u64::MAX as i128);
}

//! The Newtonian model: the pull of one body on another, `G * m_a * m_b / d^2`,
//! directed from the first body toward the second.

use vstd::prelude::*;
use vstd::arithmetic::div_mod::{lemma_basic_div, lemma_div_denominator};
use vstd::arithmetic::mul::{lemma_mul_is_associative, lemma_mul_is_commutative};

use crate::orbit::{lemma_product_fits, BodyKind};

verus! {

/// A point of the integer grid, in the caller's length unit.
#[derive(Clone, Copy, Debug, PartialEq, Eq, Structural)]
pub struct Vec3i {
    pub x: i64,
    pub y: i64,
    pub z: i64,
}

/// The difference of two grid points.
#[derive(Clone, Copy, Debug, PartialEq, Eq, Structural)]
pub struct Offset {
    pub dx: i128,
    pub dy: i128,
    pub dz: i128,
}

/// The gravitational constant as the ratio `num / den`, in the caller's units.
#[derive(Clone, Copy, Debug, PartialEq, Eq, Structural)]
pub struct GravityConstant {
    pub num: u128,
    pub den: u128,
}

/// A body of the Newtonian model.
///
/// `velocity` and `acceleration` are carried for the host; the force
/// computation reads only `mass` and `position`.
pub struct CelestialBody {
    pub name: String,
    pub kind: BodyKind,
    pub mass: u64,
    pub position: Vec3i,
    pub velocity: Vec3i,
    pub acceleration: Vec3i,
}

/// A force: its size, rounded down, and the direction it points in.
///
/// The force vector is `magnitude * direction / |direction|`.
#[derive(Clone, Copy, Debug, PartialEq, Eq, Structural)]
pub struct Force {
    pub magnitude: u128,
    pub direction: Offset,
}

/// Why no force could be computed.
#[derive(Clone, Copy, Debug, PartialEq, Eq, Structural)]
pub enum ForceError {
    /// The constant's denominator is zero.
    ZeroDenominator,
    /// The two bodies share a position, so their distance is zero.
    CoincidentBodies,
    /// `num * m_a * m_b` does not fit in a `u128`.
    Overflow,
}

/// The offset from `a` to `b`.
pub open spec fn offset_between(a: Vec3i, b: Vec3i) -> Offset {
    Offset {
        dx: (b.x - a.x) as i128,
        dy: (b.y - a.y) as i128,
        dz: (b.z - a.z) as i128,
    }
}

/// The squared length of the offset from `a` to `b`.
pub open spec fn distance_sq(a: Vec3i, b: Vec3i) -> int {
    (b.x - a.x) * (b.x - a.x) + (b.y - a.y) * (b.y - a.y) + (b.z - a.z) * (b.z - a.z)
}

/// `G`'s numerator times both masses.
pub open spec fn pull_numerator(g: GravityConstant, ma: int, mb: int) -> int {
    g.num * ma * mb
}

/// `G * m_a * m_b / d^2`, rounded down.
pub open spec fn pull_magnitude(g: GravityConstant, a: CelestialBody, b: CelestialBody) -> int {
    pull_numerator(g, a.mass as int, b.mass as int) / (g.den * distance_sq(a.position, b.position))
}

/// What `compute_gravitational_force` returns for `a` pulled toward `b`.
pub open spec fn gravity_between(g: GravityConstant, a: CelestialBody, b: CelestialBody) -> Result<
    Force,
    ForceError,
> {
    if g.den == 0 {
        Err(ForceError::ZeroDenominator)
    } else if a.position == b.position {
        Err(ForceError::CoincidentBodies)
    } else if pull_numerator(g, a.mass as int, b.mass as int) > u128::MAX {
        Err(ForceError::Overflow)
    } else {
        Ok(
            Force {
                magnitude: pull_magnitude(g, a, b) as u128,
                direction: offset_between(a.position, b.position),
            },
        )
    }
}

/// The same force pointing the other way.
pub open spec fn reversed(f: Force) -> Force {
    Force {
        magnitude: f.magnitude,
        direction: Offset {
            dx: (-f.direction.dx) as i128,
            dy: (-f.direction.dy) as i128,
            dz: (-f.direction.dz) as i128,
        },
    }
}

/// A result with its force, if any, pointing the other way.
pub open spec fn reversed_result(r: Result<Force, ForceError>) -> Result<Force, ForceError> {
    match r {
        Ok(f) => Ok(reversed(f)),
        Err(e) => Err(e),
    }
}

/// `b - a` for one coordinate, with its square.
fn axis_delta(a: i64, b: i64) -> (r: (i128, u128))
    ensures
        r.0 == b - a,
        r.1 == (b - a) * (b - a),
{
    let d: i128 = b as i128 - a as i128;
    let m: u128 = if d < 0 { (-d) as u128 } else { d as u128 };
    proof {
        assert(m * m <= u64::MAX as int * u64::MAX as int) by (nonlinear_arith)
            requires
                m <= u64::MAX,
        ;
        assert(m * m == d * d) by (nonlinear_arith)
            requires
                m == d || m == -d,
        ;
    }
    (d, m * m)
}

/// `factor * (p + q + r)`, or `None` where that does not fit in a `u128`.
fn scaled_sum(factor: u128, p: u128, q: u128, r: u128) -> (res: Option<u128>)
    requires
        factor >= 1,
    ensures
        match res {
            Some(v) => v == factor * (p + q + r),
            None => factor * (p + q + r) > u128::MAX,
        },
{
    proof {
        assert(factor * (p + q + r) >= p + q + r) by (nonlinear_arith)
            requires
                factor >= 1,
                p + q + r >= 0,
        ;
    }
    let sum: u128 = match p.checked_add(q) {
        Some(pq) => match pq.checked_add(r) {
            Some(v) => v,
            None => {
                return None;
            },
        },
        None => {
            return None;
        },
    };
    factor.checked_mul(sum)
}

/// The pull of `body_b` on `body_a`: a force of size `G * m_a * m_b / d^2`
/// (rounded down) pointing from `body_a` toward `body_b`.
///
/// Fails when the constant's denominator is zero, when the bodies coincide,
/// or when `num * m_a * m_b` overflows a `u128`. A distance so large that
/// `den * d^2` overflows gives a force of size zero.
pub fn compute_gravitational_force(
    g_const: &GravityConstant,
    body_a: &CelestialBody,
    body_b: &CelestialBody,
) -> (r: Result<Force, ForceError>)
    ensures
        r == gravity_between(*g_const, *body_a, *body_b),
{
    if g_const.den == 0 {
        return Err(ForceError::ZeroDenominator);
    }
    let pa = body_a.position;
    let pb = body_b.position;
    if pa == pb {
        return Err(ForceError::CoincidentBodies);
    }
    let ma: u64 = body_a.mass;
    let mb: u64 = body_b.mass;
    proof {
        lemma_product_fits(ma, mb);
        lemma_mul_is_associative(g_const.num as int, ma as int, mb as int);
    }
    let masses: u128 = ma as u128 * mb as u128;
    let numerator: u128 = match g_const.num.checked_mul(masses) {
        Some(v) => v,
        None => {
            return Err(ForceError::Overflow);
        },
    };
    let (dx, sx) = axis_delta(pa.x, pb.x);
    let (dy, sy) = axis_delta(pa.y, pb.y);
    let (dz, sz) = axis_delta(pa.z, pb.z);
    let direction = Offset { dx, dy, dz };
    proof {
        lemma_distinct_points_apart(pa, pb);
        let d2: int = distance_sq(pa, pb);
        assert(g_const.den * d2 > 0) by (nonlinear_arith)
            requires
                g_const.den >= 1,
                d2 > 0,
        ;
    }
    let magnitude: u128 = match scaled_sum(g_const.den, sx, sy, sz) {
        Some(denominator) => numerator / denominator,
        None => {
            proof {
                lemma_basic_div(numerator as int, g_const.den * distance_sq(pa, pb));
            }
            0
        },
    };
    Ok(Force { magnitude, direction })
}

/// The pull of `b` on `a` is the pull of `a` on `b` turned around: the same
/// size in the opposite direction, and the same error where there is one.
pub proof fn lemma_force_antisymmetric(g: GravityConstant, a: CelestialBody, b: CelestialBody)
    ensures
        gravity_between(g, b, a) == reversed_result(gravity_between(g, a, b)),
{
    let (ma, mb) = (a.mass as int, b.mass as int);
    lemma_mul_is_associative(g.num as int, ma, mb);
    lemma_mul_is_associative(g.num as int, mb, ma);
    lemma_mul_is_commutative(ma, mb);
    let (p, q) = (a.position, b.position);
    assert(distance_sq(q, p) == distance_sq(p, q)) by (nonlinear_arith);
}

/// Moving the second body twice as far from the first, masses unchanged,
/// divides the size of the pull by four (rounded down as the size is) and
/// doubles its direction vector; where one of the two fails, both fail alike.
pub proof fn lemma_force_inverse_square(
    g: GravityConstant,
    a: CelestialBody,
    b: CelestialBody,
    far: CelestialBody,
)
    requires
        far.mass == b.mass,
        far.position.x - a.position.x == 2 * (b.position.x - a.position.x),
        far.position.y - a.position.y == 2 * (b.position.y - a.position.y),
        far.position.z - a.position.z == 2 * (b.position.z - a.position.z),
    ensures
        match (gravity_between(g, a, b), gravity_between(g, a, far)) {
            (Ok(near), Ok(farther)) => {
                &&& farther.magnitude == near.magnitude / 4
                &&& farther.direction.dx == 2 * near.direction.dx
                &&& farther.direction.dy == 2 * near.direction.dy
                &&& farther.direction.dz == 2 * near.direction.dz
            },
            (Err(e), Err(f)) => e == f,
            _ => false,
        },
{
    let (p, q, r) = (a.position, b.position, far.position);
    let d: int = distance_sq(p, q);
    assert(distance_sq(p, r) == 4 * d) by (nonlinear_arith)
        requires
            r.x - p.x == 2 * (q.x - p.x),
            r.y - p.y == 2 * (q.y - p.y),
            r.z - p.z == 2 * (q.z - p.z),
            d == distance_sq(p, q),
    ;
    if g.den != 0 && p != q {
        lemma_distinct_points_apart(p, q);
        let n: int = pull_numerator(g, a.mass as int, b.mass as int);
        let gd: int = g.den * d;
        assert(gd > 0 && g.den * (4 * d) == gd * 4 && n >= 0) by (nonlinear_arith)
            requires
                g.den > 0,
                d > 0,
                gd == g.den * d,
                n == g.num * a.mass * b.mass,
        ;
        lemma_div_denominator(n, gd, 4);
    }
}

/// Two different grid points are a positive squared distance apart.
proof fn lemma_distinct_points_apart(a: Vec3i, b: Vec3i)
    requires
        a != b,
    ensures
        distance_sq(a, b) > 0,
{
    let dx: int = b.x - a.x;
    let dy: int = b.y - a.y;
    let dz: int = b.z - a.z;
    assert(dx * dx >= 0 && dy * dy >= 0 && dz * dz >= 0) by (nonlinear_arith);
    if dx != 0 {
        assert(dx * dx > 0) by (nonlinear_arith)
            requires
                dx != 0,
        ;
    } else if dy != 0 {
        assert(dy * dy > 0) by (nonlinear_arith)
            requires
                dy != 0,
        ;
    } else {
        assert(dz != 0);
        assert(dz * dz > 0) by (nonlinear_arith)
            requires
                dz != 0,
        ;
    }
}

} // verus!

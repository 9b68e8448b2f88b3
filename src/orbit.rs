//! The angular orbit model: a planet moves on a circle of fixed radius
//! around the origin at a fixed angular rate; a star does not move.

use vstd::prelude::*;
use vstd::arithmetic::div_mod::{lemma_add_mod_noop, lemma_add_mod_noop_right, lemma_mod_bound};
use vstd::arithmetic::mul::lemma_mul_is_distributive_add;

verus! {

/// Binary-angle units in one full turn.
pub const FULL_TURN: u64 = 4294967296;

/// What a body is: a star sits still at the origin, a planet orbits it.
#[derive(Clone, Copy, Debug, PartialEq, Eq, Structural)]
pub enum BodyKind {
    Star,
    Planet,
}

/// A body of the angular model.
///
/// `angle` is a binary angle (`FULL_TURN` units make one turn), `speed` is in
/// angle units per time unit, and `radius` is the orbital radius.
pub struct OrbitBody {
    pub name: String,
    pub kind: BodyKind,
    pub radius: u64,
    pub angle: u32,
    pub speed: u64,
}

/// A point given by its distance from the origin and its binary angle.
#[derive(Clone, Copy, Debug, PartialEq, Eq, Structural)]
pub struct PolarPoint {
    pub radius: u64,
    pub angle: u32,
}

/// `a + delta`, reduced to one turn.
pub open spec fn turned(a: int, delta: int) -> int {
    (a + delta) % (FULL_TURN as int)
}

/// The body after `dt` time units: a planet's angle grows by `speed * dt`
/// (modulo one turn), a star is left as it is.
pub open spec fn advanced(b: OrbitBody, dt: int) -> OrbitBody {
    match b.kind {
        BodyKind::Star => b,
        BodyKind::Planet => OrbitBody { angle: turned(b.angle as int, b.speed * dt) as u32, ..b },
    }
}

/// The body after a run of time steps, taken in order.
pub open spec fn advanced_through(b: OrbitBody, dts: Seq<u64>) -> OrbitBody
    decreases dts.len(),
{
    if dts.len() == 0 {
        b
    } else {
        advanced(advanced_through(b, dts.drop_last()), dts.last() as int)
    }
}

/// The sum of a run of time steps.
pub open spec fn total_time(dts: Seq<u64>) -> int
    decreases dts.len(),
{
    if dts.len() == 0 {
        0
    } else {
        total_time(dts.drop_last()) + dts.last()
    }
}

/// The body when its angle is re-derived from a growing clock: a planet's
/// angle grows by `speed * elapsed / per_day` (rounded down, modulo one turn);
/// a star is left as it is.
pub open spec fn advanced_by_days(b: OrbitBody, elapsed: int, per_day: int) -> OrbitBody {
    match b.kind {
        BodyKind::Star => b,
        BodyKind::Planet => OrbitBody {
            angle: turned(b.angle as int, (b.speed * elapsed) / per_day) as u32,
            ..b
        },
    }
}

/// Where a body is: a star at the origin, a planet on its circle at its angle.
pub open spec fn orbit_point(b: OrbitBody) -> PolarPoint {
    match b.kind {
        BodyKind::Star => PolarPoint { radius: 0, angle: 0 },
        BodyKind::Planet => PolarPoint { radius: b.radius, angle: b.angle },
    }
}

/// The product of two `u64` values fits in a `u128`.
pub(crate) proof fn lemma_product_fits(a: u64, b: u64)
    ensures
        a as int * b as int <= u128::MAX,
{
    assert(a as int * b as int <= u64::MAX as int * u64::MAX as int) by (nonlinear_arith);
}

/// `angle + delta` modulo one turn, for an angle below one turn.
fn turn_by(angle: u32, delta: u128) -> (r: u32)
    ensures
        r as int == turned(angle as int, delta as int),
{
    let reduced: u64 = (delta % (FULL_TURN as u128)) as u64;
    let sum: u64 = angle as u64 + reduced;
    proof {
        lemma_add_mod_noop(angle as int, delta as int, FULL_TURN as int);
        assert((angle as int) % (FULL_TURN as int) == angle as int);
    }
    (sum % FULL_TURN) as u32
}

impl OrbitBody {
    /// Re-derives the angle step from a growing clock: a planet's angle grows
    /// by `speed * elapsed_total / seconds_per_day`, rounded down and modulo
    /// one turn; a star does not move.
    pub fn advance_day_scaled(&mut self, elapsed_total: u64, seconds_per_day: u64)
        requires
            seconds_per_day > 0,
        ensures
            *final(self) == advanced_by_days(
                *old(self),
                elapsed_total as int,
                seconds_per_day as int,
            ),
    {
        match self.kind {
            BodyKind::Star => {},
            BodyKind::Planet => {
                proof {
                    lemma_product_fits(self.speed, elapsed_total);
                }
                let scaled: u128 = self.speed as u128 * elapsed_total as u128;
                self.angle = turn_by(self.angle, scaled / seconds_per_day as u128);
            },
        }
    }

    /// Where the body is now: a star at the origin, a planet at its orbital
    /// radius and angle.
    pub fn position(&self) -> (r: PolarPoint)
        ensures
            r == orbit_point(*self),
    {
        match self.kind {
            BodyKind::Star => PolarPoint { radius: 0, angle: 0 },
            BodyKind::Planet => PolarPoint { radius: self.radius, angle: self.angle },
        }
    }

    /// Advances the body by `dt` time units: a planet's angle grows by
    /// `speed * dt`, modulo one turn; a star does not move.
    pub fn advance_angular(&mut self, dt: u64)
        ensures
            *final(self) == advanced(*old(self), dt as int),
    {
        match self.kind {
            BodyKind::Star => {},
            BodyKind::Planet => {
                proof {
                    lemma_product_fits(self.speed, dt);
                }
                let delta: u128 = self.speed as u128 * dt as u128;
                self.angle = turn_by(self.angle, delta);
            },
        }
    }
}

/// Moves every body of `bodies` by `dt` time units, each as
/// `OrbitBody::advance_angular` does.
pub fn step_angular(bodies: &mut Vec<OrbitBody>, dt: u64)
    ensures
        final(bodies)@.len() == old(bodies)@.len(),
        forall|i: int|
            0 <= i < old(bodies)@.len() ==> #[trigger] final(bodies)@[i] == advanced(
                old(bodies)@[i],
                dt as int,
            ),
{
    let n: usize = bodies.len();
    let mut i: usize = 0;
    while i < n
        invariant
            i <= n,
            n == old(bodies)@.len(),
            bodies@.len() == n,
            forall|j: int| 0 <= j < i ==> #[trigger] bodies@[j] == advanced(old(bodies)@[j], dt as int),
            forall|j: int| i <= j < n ==> #[trigger] bodies@[j] == old(bodies)@[j],
        decreases n - i,
    {
        bodies[i].advance_angular(dt);
        i += 1;
    }
}

/// Two steps in a row land where one step of their summed length does.
pub proof fn lemma_advance_twice(b: OrbitBody, x: int, y: int)
    requires
        x >= 0,
        y >= 0,
    ensures
        advanced(advanced(b, x), y) == advanced(b, x + y),
{
    if b.kind == BodyKind::Planet {
        let t = FULL_TURN as int;
        let a = b.angle as int;
        let s = b.speed as int;
        lemma_mod_bound(a + s * x, t);
        lemma_add_mod_noop_right(s * y, a + s * x, t);
        lemma_mul_is_distributive_add(s, x, y);
    }
}

/// Advancing a body through a run of time steps, one call per step, gives
/// the same body as one call with the steps' total.
pub proof fn lemma_stepwise_matches_single(b: OrbitBody, dts: Seq<u64>)
    ensures
        advanced_through(b, dts) == advanced(b, total_time(dts)),
    decreases dts.len(),
{
    if dts.len() == 0 {
        assert(advanced(b, 0) == b);
    } else {
        lemma_stepwise_matches_single(b, dts.drop_last());
        lemma_total_time_nonneg(dts.drop_last());
        lemma_advance_twice(b, total_time(dts.drop_last()), dts.last() as int);
    }
}

/// A run of time steps never sums below zero.
proof fn lemma_total_time_nonneg(dts: Seq<u64>)
    ensures
        total_time(dts) >= 0,
    decreases dts.len(),
{
    if dts.len() > 0 {
        lemma_total_time_nonneg(dts.drop_last());
    }
}

/// A star stays where it is, at the origin, however long it is advanced.
pub proof fn lemma_star_stays_put(b: OrbitBody, dt: int)
    requires
        b.kind == BodyKind::Star,
        dt >= 0,
    ensures
        orbit_point(advanced(b, dt)) == orbit_point(b),
        advanced(b, dt) == b,
{
}

/// Advancing a planet keeps it at the same distance from the origin.
pub proof fn lemma_orbit_radius_kept(b: OrbitBody, dt: int)
    requires
        dt >= 0,
    ensures
        orbit_point(advanced(b, dt)).radius == orbit_point(b).radius,
{
}

} // verus!

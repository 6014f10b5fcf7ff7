use crate::controls::{unit_heading, unit_spec, Heading};
use crate::geometry::{
    abs_le, div_toward_zero, floor_sqrt, isqrt, lemma_floor_sqrt_monotone, lemma_mul_bound,
    lemma_trunc_div_bound, trunc_div, Point3,
};
use crate::light::Illumination;
use vstd::prelude::*;

verus! {

/// Full health, in thousandths of a point.
pub const FULL_HEALTH: i64 = 100_000;

/// Largest magnitude of a health value, in thousandths of a point.
pub const HEALTH_LIMIT: i64 = 1_000_000_000_000;

/// Health lost per millisecond by a lit enemy, in thousandths of a point
/// (25 points a second).
pub const DRAIN_PER_MS: i64 = 25;

/// Largest enemy speed or velocity component, in thousandths of a unit per
/// second.
pub const VELOCITY_LIMIT: i64 = 1_000_000_000;

/// Gain of the steering force.
pub const STEER_GAIN: i64 = 20;

/// Below this squared horizontal distance to the player, in millionths of
/// a square unit, a chasing enemy gets no new force.
pub const STEER_DEADZONE_SQ: i64 = 10_000;

/// Smallest and largest visual scale of an enemy, in thousandths.
pub const MIN_SIZE: i64 = 300;
pub const MAX_SIZE: i64 = 1000;

/// One enemy: where it is and how fast it moves (both owned by the physics
/// backend and copied in each tick), its chase speed, its health, how it is
/// lit, and which of the enemy models it wears.
#[derive(Clone, Copy, Debug, PartialEq, Eq, Structural)]
pub struct Enemy {
    pub pos: Point3,
    pub vel: Point3,
    pub speed: i64,
    pub health: i64,
    pub light: Illumination,
    pub variant: u8,
}

impl Enemy {
    pub open spec fn wf(self) -> bool {
        &&& self.pos.bounded()
        &&& abs_le(self.vel.x as int, VELOCITY_LIMIT as int)
        &&& abs_le(self.vel.y as int, VELOCITY_LIMIT as int)
        &&& abs_le(self.vel.z as int, VELOCITY_LIMIT as int)
        &&& 0 <= self.speed <= VELOCITY_LIMIT
        &&& abs_le(self.health as int, HEALTH_LIMIT as int)
    }
}

/// Health after `dt` milliseconds: a lit enemy loses 25 points a second,
/// however many lights reach it.
pub open spec fn drain_spec(health: int, light: Illumination, dt: int) -> int {
    if light.is_lit() {
        health - DRAIN_PER_MS * dt
    } else {
        health
    }
}

/// Health after `dt` milliseconds under the given lighting.
pub fn drain(health: i64, light: Illumination, dt: i64) -> (r: i64)
    requires
        abs_le(health as int, HEALTH_LIMIT as int),
        0 <= dt <= crate::controls::TICK_LIMIT,
    ensures
        r == drain_spec(health as int, light, dt as int),
{
    if light.lit() {
        health - DRAIN_PER_MS * dt
    } else {
        health
    }
}

/// Being lit by two lights drains no more than being lit by one.
pub proof fn lemma_drain_does_not_stack(health: int, dt: int)
    ensures
        drain_spec(health, Illumination { spotlighted: true, torchlit: true }, dt)
            == drain_spec(health, Illumination { spotlighted: true, torchlit: false }, dt),
        drain_spec(health, Illumination { spotlighted: true, torchlit: true }, dt)
            == drain_spec(health, Illumination { spotlighted: false, torchlit: true }, dt),
        drain_spec(health, Illumination { spotlighted: true, torchlit: true }, dt) == health - 25 * dt,
{
}

/// The share of full health, clamped to `[0, FULL_HEALTH]`.
pub open spec fn clamp_health(h: int) -> int {
    if h < 0 {
        0
    } else if h > FULL_HEALTH {
        FULL_HEALTH as int
    } else {
        h
    }
}

/// Visual scale for a health value, in thousandths:
/// `0.3 + 0.7 * sqrt(clamp(health / 100, 0, 1))`.
pub open spec fn size_spec(health: int) -> int {
    MIN_SIZE + (MAX_SIZE - MIN_SIZE) * floor_sqrt((clamp_health(health) * 10) as nat) / 1000
}

/// Visual scale for a health value, in thousandths: shrinking slowly at
/// high health and quickly near death.
pub fn calc_size(health: i64) -> (r: i64)
    ensures
        r == size_spec(health as int),
        MIN_SIZE <= r <= MAX_SIZE,
{
    let h: i64 = if health < 0 {
        0
    } else if health > FULL_HEALTH {
        FULL_HEALTH
    } else {
        health
    };
    let s = isqrt((h * 10) as u128);
    proof {
        lemma_floor_sqrt_monotone((h * 10) as nat, 1_000_000);
        crate::geometry::lemma_floor_sqrt_unique(1_000_000, 1000);
    }
    let root = s as i64;
    MIN_SIZE + (MAX_SIZE - MIN_SIZE) * root / 1000
}

/// Scale never decreases as health grows, and runs from exactly 0.3 at no
/// health to exactly 1.0 at full health.
pub proof fn lemma_size_monotone(h1: int, h2: int)
    requires
        h1 <= h2,
    ensures
        size_spec(h1) <= size_spec(h2),
        size_spec(0) == MIN_SIZE,
        size_spec(FULL_HEALTH as int) == MAX_SIZE,
{
    lemma_floor_sqrt_monotone((clamp_health(h1) * 10) as nat, (clamp_health(h2) * 10) as nat);
    let a = floor_sqrt((clamp_health(h1) * 10) as nat) as int;
    let b = floor_sqrt((clamp_health(h2) * 10) as nat) as int;
    assert(700 * a <= 700 * b);
    vstd::arithmetic::div_mod::lemma_div_is_ordered(700 * a, 700 * b, 1000);
    crate::geometry::lemma_floor_sqrt_unique(0, 0);
    crate::geometry::lemma_floor_sqrt_unique(1_000_000, 1000);
}

/// The force steering an enemy toward the player this tick: zero while it
/// is lit, and zero when it is already within reach of the player (so it
/// coasts under the physics backend's damping); otherwise the gap between
/// the velocity it wants, toward the player at its own speed, and its
/// velocity, times the gain, kept horizontal.
pub open spec fn steer_spec(e: Enemy, player: Point3) -> Point3 {
    let dx = player.x - e.pos.x;
    let dz = player.z - e.pos.z;
    if e.light.is_lit() || dx * dx + dz * dz <= STEER_DEADZONE_SQ {
        Point3 { x: 0, y: 0, z: 0 }
    } else {
        match unit_spec(dx, dz) {
            None => Point3 { x: 0, y: 0, z: 0 },
            Some(u) => Point3 {
                x: ((trunc_div(u.x * e.speed, 1000) - e.vel.x) * STEER_GAIN) as i64,
                y: 0,
                z: ((trunc_div(u.z * e.speed, 1000) - e.vel.z) * STEER_GAIN) as i64,
            },
        }
    }
}

fn steer_axis(u: i64, speed: i64, vel: i64) -> (r: i64)
    requires
        abs_le(u as int, 1000),
        0 <= speed <= VELOCITY_LIMIT,
        abs_le(vel as int, VELOCITY_LIMIT as int),
    ensures
        r == (trunc_div(u * speed, 1000) - vel) * STEER_GAIN,
{
    proof {
        lemma_mul_bound(u as int, speed as int, 1000, VELOCITY_LIMIT as int);
        lemma_trunc_div_bound(u * speed, 1000, 1000 * VELOCITY_LIMIT);
    }
    (div_toward_zero(u * speed, 1000) - vel) * STEER_GAIN
}

/// The steering force for `e` chasing a player at `player`.
pub fn chase_force(e: &Enemy, player: &Point3) -> (r: Point3)
    requires
        e.wf(),
        player.bounded(),
    ensures
        r == steer_spec(*e, *player),
{
    let zero = Point3 { x: 0, y: 0, z: 0 };
    if e.light.lit() {
        return zero;
    }
    let dx = player.x - e.pos.x;
    let dz = player.z - e.pos.z;
    proof {
        lemma_mul_bound(dx as int, dx as int, 2_000_000_000, 2_000_000_000);
        lemma_mul_bound(dz as int, dz as int, 2_000_000_000, 2_000_000_000);
    }
    if (dx as i128) * (dx as i128) + (dz as i128) * (dz as i128) <= STEER_DEADZONE_SQ as i128 {
        return zero;
    }
    match unit_heading(Heading { x: dx, z: dz }) {
        None => zero,
        Some(u) => Point3 {
            x: steer_axis(u.x, e.speed, e.vel.x),
            y: 0,
            z: steer_axis(u.z, e.speed, e.vel.z),
        },
    }
}

} // verus!

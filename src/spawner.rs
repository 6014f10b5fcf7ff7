use crate::enemy::Enemy;
use crate::geometry::Point3;
use crate::light::Illumination;
use crate::random::draw_range;
use crate::state::GameState;
use vstd::prelude::*;

verus! {

/// Enemies alive at the start of a night, before the ramp adds more.
pub const BASE_POPULATION: u64 = 10;

/// One more enemy joins the target population every this many milliseconds.
pub const RAMP_MS: u64 = 5000;

/// Longest night the spawner plans for, in milliseconds (about 31 years).
pub const NIGHT_LIMIT_MS: u64 = 1_000_000_000_000;

/// Where the tutorial enemy stands, its speed, health and model, and the
/// scale it is drawn at.
pub const TUTORIAL_X: i64 = -10_000;
pub const TUTORIAL_Z: i64 = -10_000;
pub const TUTORIAL_SPEED: i64 = 3000;
pub const TUTORIAL_HEALTH: i64 = 60_000;
pub const TUTORIAL_VARIANT: u8 = 5;
pub const TUTORIAL_SCALE: i64 = 600;

/// Height at which enemies are placed, in thousandths of a unit.
pub const SPAWN_HEIGHT: i64 = 1000;

/// What the spawner does this tick.
#[derive(Clone, Copy, Debug, PartialEq, Eq, Structural)]
pub enum SpawnOrder {
    /// Place the single hand-tuned enemy of the first night.
    Tutorial,
    /// Place this many enemies drawn at random (possibly none).
    General(u64),
}

/// The population the spawner aims for after `survived_ms` of a night.
pub open spec fn target_population(survived_ms: int) -> int {
    BASE_POPULATION + survived_ms / (RAMP_MS as int)
}

/// The first night, before its first kill, is the tutorial: one easy enemy,
/// placed only while none is alive. Afterwards the population is topped up
/// to the target and never thinned.
pub open spec fn spawn_order_spec(state: GameState, alive: int) -> SpawnOrder {
    if state.night_number == 1 && state.kills_this_night == 0 {
        if alive == 0 {
            SpawnOrder::Tutorial
        } else {
            SpawnOrder::General(0)
        }
    } else if alive >= target_population(state.survived_ms as int) {
        SpawnOrder::General(0)
    } else {
        SpawnOrder::General((target_population(state.survived_ms as int) - alive) as u64)
    }
}

/// What to spawn this tick, with `alive` enemies in the level.
pub fn spawn_order(state: &GameState, alive: u64) -> (r: SpawnOrder)
    requires
        state.survived_ms <= NIGHT_LIMIT_MS,
    ensures
        r == spawn_order_spec(*state, alive as int),
{
    if state.night_number == 1 && state.kills_this_night == 0 {
        if alive == 0 {
            SpawnOrder::Tutorial
        } else {
            SpawnOrder::General(0)
        }
    } else {
        let target = BASE_POPULATION + state.survived_ms / RAMP_MS;
        if alive >= target {
            SpawnOrder::General(0)
        } else {
            SpawnOrder::General(target - alive)
        }
    }
}

/// The random draws for one enemy, in the order they are made: its health,
/// the turn of its bearing from straight behind the player (milliradians,
/// within half a turn either way), its distance from the player, its speed
/// and its model.
#[derive(Clone, Copy, Debug, PartialEq, Eq, Structural)]
pub struct SpawnPlan {
    pub health: i64,
    pub bearing: i64,
    pub radius: i64,
    pub speed: i64,
    pub variant: u8,
}

/// Upper bound (exclusive) of a spawned enemy's health, in thousandths of a
/// point: `10 + seconds / 5` points.
pub open spec fn max_spawn_health(survived_ms: int) -> int {
    10_000 + survived_ms / 5
}

pub open spec fn plan_ok(p: SpawnPlan, survived_ms: int) -> bool {
    &&& 5000 <= p.health < max_spawn_health(survived_ms)
    &&& -3141 <= p.bearing < 3142
    &&& 12_000 <= p.radius < 20_000
    &&& 1000 <= p.speed < 4000
    &&& 1 <= p.variant < 6
}

/// Draws one enemy to spawn after `survived_ms` of the night.
pub fn draw_spawn(rng: &mut rand::rngs::SmallRng, survived_ms: u64) -> (r: SpawnPlan)
    requires
        survived_ms <= NIGHT_LIMIT_MS,
    ensures
        plan_ok(r, survived_ms as int),
{
    let max_health = 10_000 + (survived_ms / 5) as i64;
    let health = draw_range(rng, 5000, max_health);
    let bearing = draw_range(rng, -3141, 3142);
    let radius = draw_range(rng, 12_000, 20_000);
    let speed = draw_range(rng, 1000, 4000);
    let variant = draw_range(rng, 1, 6) as u8;
    SpawnPlan { health, bearing, radius, speed, variant }
}

/// A freshly spawned enemy of plan `p` at ground position `(x, z)`: at
/// rest and unlit.
pub open spec fn spawned_spec(p: SpawnPlan, x: i64, z: i64) -> Enemy {
    Enemy {
        pos: Point3 { x, y: SPAWN_HEIGHT, z },
        vel: Point3 { x: 0, y: 0, z: 0 },
        speed: p.speed,
        health: p.health,
        light: Illumination { spotlighted: false, torchlit: false },
        variant: p.variant,
    }
}

/// The enemy of plan `p`, placed at `(x, z)`.
pub fn spawn_enemy(p: &SpawnPlan, x: i64, z: i64) -> (r: Enemy)
    ensures
        r == spawned_spec(*p, x, z),
{
    Enemy {
        pos: Point3 { x, y: SPAWN_HEIGHT, z },
        vel: Point3 { x: 0, y: 0, z: 0 },
        speed: p.speed,
        health: p.health,
        light: Illumination { spotlighted: false, torchlit: false },
        variant: p.variant,
    }
}

/// The tutorial enemy.
pub fn tutorial_enemy() -> (r: Enemy)
    ensures
        r.pos == (Point3 { x: TUTORIAL_X, y: SPAWN_HEIGHT, z: TUTORIAL_Z }),
        r.vel.is_zero(),
        r.speed == TUTORIAL_SPEED,
        r.health == TUTORIAL_HEALTH,
        !r.light.spotlighted && !r.light.torchlit,
        r.variant == TUTORIAL_VARIANT,
{
    Enemy {
        pos: Point3 { x: TUTORIAL_X, y: SPAWN_HEIGHT, z: TUTORIAL_Z },
        vel: Point3 { x: 0, y: 0, z: 0 },
        speed: TUTORIAL_SPEED,
        health: TUTORIAL_HEALTH,
        light: Illumination { spotlighted: false, torchlit: false },
        variant: TUTORIAL_VARIANT,
    }
}

} // verus!

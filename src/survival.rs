use crate::enemy::{clamp_health, FULL_HEALTH, HEALTH_LIMIT};
use crate::geometry::{abs_le, dist_sq, distance_sq, floor_sqrt, isqrt, lemma_mul_bound, Point3};
use vstd::prelude::*;

verus! {

/// Radius within which an enemy hurts the player, in thousandths of a unit.
pub const DAMAGE_RADIUS: i64 = 6000;

/// The player's health lost to one enemy at squared distance `d2` during
/// `dt` milliseconds, in thousandths of a point: `25 * (1 - d / 6)^2` points
/// a second within the radius, nothing beyond it.
pub open spec fn proximity_damage_spec(d2: int, dt: int) -> int {
    let d = floor_sqrt(d2 as nat) as int;
    if d < DAMAGE_RADIUS {
        25 * (DAMAGE_RADIUS - d) * (DAMAGE_RADIUS - d) * dt / 36_000_000
    } else {
        0
    }
}

/// Health lost to an enemy at `enemy` by a player at `player` during `dt`
/// milliseconds.
pub fn proximity_damage(player: &Point3, enemy: &Point3, dt: i64) -> (r: i64)
    requires
        player.bounded(),
        enemy.bounded(),
        0 <= dt <= crate::controls::TICK_LIMIT,
    ensures
        r == proximity_damage_spec(dist_sq(*player, *enemy), dt as int),
        0 <= r <= 25 * dt,
{
    let d = isqrt(distance_sq(player, enemy));
    if d >= DAMAGE_RADIUS as u128 {
        return 0;
    }
    let gap = DAMAGE_RADIUS - d as i64;
    proof {
        lemma_mul_bound(gap as int, gap as int, 6000, 6000);
    }
    let g2 = gap * gap;
    proof {
        assert(0 <= g2) by (nonlinear_arith)
            requires
                g2 == gap * gap,
        ;
        let p = 25 * g2 * dt;
        assert(p == 25 * gap * gap * dt) by (nonlinear_arith)
            requires
                g2 == gap * gap,
                p == 25 * g2 * dt,
        ;
        assert(0 <= p <= (25 * dt) * 36_000_000) by (nonlinear_arith)
            requires
                0 <= g2 <= 36_000_000,
                dt >= 0,
                p == 25 * g2 * dt,
        ;
        vstd::arithmetic::div_mod::lemma_div_is_ordered(p, (25 * dt) * 36_000_000, 36_000_000);
        vstd::arithmetic::div_mod::lemma_div_multiples_vanish(25 * dt, 36_000_000);
        vstd::arithmetic::div_mod::lemma_div_pos_is_pos(p, 36_000_000);
        lemma_mul_bound(25 * g2, dt as int, 900_000_000, 10_000);
    }
    25 * g2 * dt / 36_000_000
}

/// The damage falls to nothing at the radius and beyond, and at no distance
/// is exactly 25 points a second.
pub proof fn lemma_damage_falloff(d2: int, dt: int)
    requires
        d2 >= DAMAGE_RADIUS * DAMAGE_RADIUS,
        dt >= 0,
    ensures
        proximity_damage_spec(d2, dt) == 0,
        proximity_damage_spec(0, dt) == 25 * dt,
{
    let d = floor_sqrt(d2 as nat) as int;
    crate::geometry::lemma_floor_sqrt_monotone(36_000_000, d2 as nat);
    crate::geometry::lemma_floor_sqrt_unique(36_000_000, 6000);
    crate::geometry::lemma_floor_sqrt_unique(0, 0);
    assert(25 * 6000 * 6000 * dt == (25 * dt) * 36_000_000) by (nonlinear_arith);
    vstd::arithmetic::div_mod::lemma_div_multiples_vanish(25 * dt, 36_000_000);
}

/// Health after the enemies at `enemies[..k]` each took their share in
/// turn, never dropping below zero.
pub open spec fn damage_fold(health: int, player: Point3, enemies: Seq<Point3>, dt: int, k: int) -> int
    decreases k,
{
    if k <= 0 {
        health
    } else {
        let h = damage_fold(health, player, enemies, dt, k - 1) - proximity_damage_spec(dist_sq(player, enemies[k - 1]), dt);
        if h < 0 {
            0
        } else {
            h
        }
    }
}

pub open spec fn all_bounded(ps: Seq<Point3>) -> bool {
    forall|i: int| 0 <= i < ps.len() ==> #[trigger] ps[i].bounded()
}

/// The player's health after one tick of damage from every nearby enemy.
/// The player is defeated when it comes out at zero or below.
pub fn player_damage(health: i64, player: &Point3, enemies: &Vec<Point3>, dt: i64) -> (r: i64)
    requires
        abs_le(health as int, HEALTH_LIMIT as int),
        player.bounded(),
        all_bounded(enemies@),
        0 <= dt <= crate::controls::TICK_LIMIT,
    ensures
        r == damage_fold(health as int, *player, enemies@, dt as int, enemies@.len() as int),
        enemies@.len() > 0 ==> r >= 0,
{
    let mut h = health;
    let mut i: usize = 0;
    while i < enemies.len()
        invariant
            i <= enemies.len(),
            player.bounded(),
            all_bounded(enemies@),
            0 <= dt <= crate::controls::TICK_LIMIT,
            h == damage_fold(health as int, *player, enemies@, dt as int, i as int),
            abs_le(h as int, HEALTH_LIMIT as int),
            i > 0 ==> h >= 0,
        decreases enemies.len() - i,
    {
        let dmg = proximity_damage(player, &enemies[i], dt);
        h = h - dmg;
        if h < 0 {
            h = 0;
        }
        i += 1;
    }
    h
}

/// Presentation signals driven by the player's health, in thousandths.
#[derive(Clone, Copy, Debug, PartialEq, Eq, Structural)]
pub struct Feedback {
    pub vignette: i64,
    pub brightness: i64,
}

/// `0.5 + 10 (1 - ratio)^2` for the vignette and `6 - 5 (1 - ratio)^2` for
/// the brightness, which is forced to zero once health is gone; `ratio` is
/// the clamped share of full health.
pub open spec fn feedback_spec(health: int) -> Feedback {
    let u = FULL_HEALTH - clamp_health(health);
    Feedback {
        vignette: (500 + u * u / 1_000_000) as i64,
        brightness: if health <= 0 {
            0
        } else {
            (6000 - u * u / 2_000_000) as i64
        },
    }
}

/// The vignette and brightness for the player's health.
pub fn feedback(health: i64) -> (r: Feedback)
    ensures
        r == feedback_spec(health as int),
{
    let h: i64 = if health < 0 {
        0
    } else if health > FULL_HEALTH {
        FULL_HEALTH
    } else {
        health
    };
    let u = FULL_HEALTH - h;
    proof {
        lemma_mul_bound(u as int, u as int, FULL_HEALTH as int, FULL_HEALTH as int);
        assert(0 <= u * u) by (nonlinear_arith);
        vstd::arithmetic::div_mod::lemma_div_is_ordered(u * u, 10_000_000_000, 2_000_000);
    }
    let vignette = 500 + u * u / 1_000_000;
    let brightness = if health <= 0 {
        0
    } else {
        6000 - u * u / 2_000_000
    };
    Feedback { vignette, brightness }
}

} // verus!

use crate::enemy::{chase_force, drain, drain_spec, steer_spec, Enemy, FULL_HEALTH, HEALTH_LIMIT, VELOCITY_LIMIT};
use crate::geometry::{abs_le, Point3};
use crate::light::{
    change_spec, lit_by_torches, torch_reaches, torches_wf, FlagChange, Illumination, LightChange, Torch,
};
use crate::spawner::{spawn_order, spawn_order_spec, SpawnOrder, NIGHT_LIMIT_MS};
use crate::state::GameState;
use crate::geometry::dist_sq;
use crate::survival::{all_bounded, damage_fold, player_damage, DAMAGE_RADIUS};
use vstd::prelude::*;

verus! {

/// Height at which the player starts, in thousandths of a unit.
pub const PLAYER_START_HEIGHT: i64 = 1000;

/// The player's movement speed, in thousandths of a unit per second.
pub const PLAYER_SPEED: i64 = 3000;

/// The simulation of one night: the session state, the player, and the
/// enemies alive, in the order they were spawned.
#[derive(Debug)]
pub struct Level {
    pub state: GameState,
    pub player_pos: Point3,
    pub player_health: i64,
    /// Movement speed, in thousandths of a unit per second.
    pub player_speed: i64,
    pub enemies: Vec<Enemy>,
}

/// An enemy after `dt` milliseconds of draining.
pub open spec fn drained(e: Enemy, dt: int) -> Enemy {
    Enemy { health: drain_spec(e.health as int, e.light, dt) as i64, ..e }
}

/// The enemies of `es[..k]` still alive after draining, in order.
pub open spec fn survivors(es: Seq<Enemy>, dt: int, k: int) -> Seq<Enemy>
    decreases k,
{
    if k <= 0 {
        Seq::empty()
    } else if drained(es[k - 1], dt).health > 0 {
        survivors(es, dt, k - 1).push(drained(es[k - 1], dt))
    } else {
        survivors(es, dt, k - 1)
    }
}

/// How many of `es[..k]` die from draining.
pub open spec fn deaths(es: Seq<Enemy>, dt: int, k: int) -> int
    decreases k,
{
    if k <= 0 {
        0
    } else if drained(es[k - 1], dt).health > 0 {
        deaths(es, dt, k - 1)
    } else {
        deaths(es, dt, k - 1) + 1
    }
}

pub open spec fn enemies_wf(es: Seq<Enemy>) -> bool {
    forall|i: int| 0 <= i < es.len() ==> (#[trigger] es[i]).wf() && es[i].health > 0
}

/// `e` with only its spotlight flag replaced.
pub open spec fn spotlit(e: Enemy, spot: bool) -> Enemy {
    Enemy { light: Illumination { spotlighted: spot, ..e.light }, ..e }
}

/// `e` with only its torch flag replaced, from the torches' reach.
pub open spec fn torchlit(e: Enemy, torches: Seq<Torch>) -> Enemy {
    Enemy { light: Illumination { torchlit: torch_reaches(torches, e.pos), ..e.light }, ..e }
}

/// `e` with its lighting replaced.
pub open spec fn relit(e: Enemy, spot: bool, torches: Seq<Torch>) -> Enemy {
    Enemy { light: Illumination { spotlighted: spot, torchlit: torch_reaches(torches, e.pos) }, ..e }
}

/// Every enemy with its lighting replaced from this tick's hit tests.
pub open spec fn relit_all(es: Seq<Enemy>, spot_hits: Seq<bool>, torches: Seq<Torch>) -> Seq<Enemy> {
    Seq::new(es.len(), |i: int| relit(es[i], spot_hits[i], torches))
}

/// What one tick of the simulation reports to the presentation and physics
/// layers: each enemy's flag changes and steering force (by its index
/// before the tick), which enemies were removed, whether the player was
/// defeated on this tick, and what to spawn.
#[derive(Debug)]
pub struct StepReport {
    pub changes: Vec<LightChange>,
    pub forces: Vec<Point3>,
    pub removed: Vec<bool>,
    pub defeated: bool,
    pub spawn: SpawnOrder,
}

impl Level {
    /// The session state is sound, the player is in the world, and every
    /// enemy is in the world and alive.
    pub open spec fn wf(self) -> bool {
        &&& self.state.wf()
        &&& self.state.survived_ms <= NIGHT_LIMIT_MS
        &&& self.player_pos.bounded()
        &&& abs_le(self.player_health as int, HEALTH_LIMIT as int)
        &&& 0 <= self.player_speed <= crate::controls::SPEED_LIMIT
        &&& enemies_wf(self.enemies@)
    }

    /// A night with the player at full health at the centre and no enemy.
    pub fn new(state: GameState) -> (r: Level)
        requires
            state.wf(),
            state.survived_ms <= NIGHT_LIMIT_MS,
        ensures
            r.wf(),
            r.state == state,
            r.player_pos == (Point3 { x: 0, y: PLAYER_START_HEIGHT, z: 0 }),
            r.player_health == FULL_HEALTH,
            r.player_speed == PLAYER_SPEED,
            r.enemies@.len() == 0,
    {
        Level {
            state,
            player_pos: Point3 { x: 0, y: PLAYER_START_HEIGHT, z: 0 },
            player_health: FULL_HEALTH,
            player_speed: PLAYER_SPEED,
            enemies: Vec::new(),
        }
    }

    /// Adds a spawned enemy after the others.
    pub fn add_enemy(&mut self, e: Enemy)
        requires
            old(self).wf(),
            e.wf(),
            e.health > 0,
        ensures
            final(self).wf(),
            final(self).enemies@ == old(self).enemies@.push(e),
            final(self).state == old(self).state,
            final(self).player_pos == old(self).player_pos,
            final(self).player_speed == old(self).player_speed,
            final(self).player_health == old(self).player_health,
    {
        self.enemies.push(e);
        assert(enemies_wf(self.enemies@)) by {
            assert(forall|i: int| 0 <= i < old(self).enemies@.len() ==> self.enemies@[i] == old(self).enemies@[i]);
        }
    }

    /// Copies in the player's position as the physics backend left it.
    pub fn set_player_pos(&mut self, p: Point3)
        requires
            old(self).wf(),
            p.bounded(),
        ensures
            final(self).wf(),
            *final(self) == (Level { player_pos: p, ..*old(self) }),
    {
        self.player_pos = p;
    }

    /// Copies in the `i`-th enemy's position and velocity as the physics
    /// backend left them.
    pub fn set_enemy_motion(&mut self, i: usize, pos: Point3, vel: Point3)
        requires
            old(self).wf(),
            i < old(self).enemies@.len(),
            pos.bounded(),
            abs_le(vel.x as int, VELOCITY_LIMIT as int),
            abs_le(vel.y as int, VELOCITY_LIMIT as int),
            abs_le(vel.z as int, VELOCITY_LIMIT as int),
        ensures
            final(self).wf(),
            final(self).enemies@ == old(self).enemies@.update(i as int, Enemy { pos, vel, ..old(self).enemies@[i as int] }),
            final(self).state == old(self).state,
            final(self).player_pos == old(self).player_pos,
            final(self).player_speed == old(self).player_speed,
            final(self).player_health == old(self).player_health,
    {
        let e = self.enemies[i];
        self.enemies.set(i, Enemy { pos, vel, ..e });
        assert(enemies_wf(self.enemies@)) by {
            assert forall|k: int| 0 <= k < self.enemies@.len() implies (#[trigger] self.enemies@[k]).wf() && self.enemies@[k].health > 0 by {
                if k != i {
                    assert(self.enemies@[k] == old(self).enemies@[k]);
                }
            }
        }
    }

    /// Advances the night's clock by `dt` milliseconds.
    pub fn tick_clock(&mut self, dt: u64)
        requires
            old(self).wf(),
            old(self).state.survived_ms + dt <= NIGHT_LIMIT_MS,
        ensures
            final(self).wf(),
            final(self).state.survived_ms == old(self).state.survived_ms + dt,
            final(self).state == (GameState { survived_ms: final(self).state.survived_ms, ..old(self).state }),
            final(self).enemies@ == old(self).enemies@,
            final(self).player_pos == old(self).player_pos,
            final(self).player_speed == old(self).player_speed,
            final(self).player_health == old(self).player_health,
    {
        self.state.tick_clock(dt);
    }

    /// Sets each enemy's spotlight flag from `spot_hits[i]`, whether the
    /// `i`-th enemy lies in a visible spotlight cone this tick, and reports
    /// its changes. Torch flags and everything else stay as they were.
    pub fn update_spotlit(&mut self, spot_hits: &Vec<bool>) -> (r: Vec<FlagChange>)
        requires
            old(self).wf(),
            spot_hits@.len() == old(self).enemies@.len(),
        ensures
            final(self).wf(),
            final(self).state == old(self).state,
            final(self).player_pos == old(self).player_pos,
            final(self).player_speed == old(self).player_speed,
            final(self).player_health == old(self).player_health,
            final(self).enemies@.len() == old(self).enemies@.len(),
            r@.len() == old(self).enemies@.len(),
            forall|i: int| 0 <= i < r@.len() ==> #[trigger] final(self).enemies@[i]
                == spotlit(old(self).enemies@[i], spot_hits@[i]),
            forall|i: int| 0 <= i < r@.len() ==> #[trigger] r@[i]
                == change_spec(old(self).enemies@[i].light.spotlighted, spot_hits@[i]),
    {
        let ghost start = self.enemies@;
        let mut changes: Vec<FlagChange> = Vec::new();
        let mut i: usize = 0;
        while i < self.enemies.len()
            invariant
                i <= self.enemies@.len(),
                self.enemies@.len() == start.len(),
                spot_hits@.len() == start.len(),
                enemies_wf(start),
                changes@.len() == i,
                self.state == old(self).state,
                self.player_pos == old(self).player_pos,
                self.player_health == old(self).player_health,
                self.player_speed == old(self).player_speed,
                start == old(self).enemies@,
                old(self).wf(),
                forall|k: int| i <= k < start.len() ==> #[trigger] self.enemies@[k] == start[k],
                forall|k: int| 0 <= k < i ==> #[trigger] self.enemies@[k] == spotlit(start[k], spot_hits@[k]),
                forall|k: int| 0 <= k < i ==> #[trigger] changes@[k] == change_spec(start[k].light.spotlighted, spot_hits@[k]),
            decreases start.len() - i,
        {
            let mut e = self.enemies[i];
            let ch = e.light.set_spotlighted(spot_hits[i]);
            self.enemies.set(i, e);
            changes.push(ch);
            i += 1;
        }
        assert(enemies_wf(self.enemies@)) by {
            assert forall|k: int| 0 <= k < self.enemies@.len() implies (#[trigger] self.enemies@[k]).wf() && self.enemies@[k].health > 0 by {
                assert(self.enemies@[k] == spotlit(start[k], spot_hits@[k]));
            }
        }
        changes
    }

    /// Sets each enemy's torch flag from whether some torch reaches it, and
    /// reports its changes. Spotlight flags and everything else stay as
    /// they were.
    pub fn update_torchlit(&mut self, torches: &Vec<Torch>) -> (r: Vec<FlagChange>)
        requires
            old(self).wf(),
            torches_wf(torches@),
        ensures
            final(self).wf(),
            final(self).state == old(self).state,
            final(self).player_pos == old(self).player_pos,
            final(self).player_speed == old(self).player_speed,
            final(self).player_health == old(self).player_health,
            final(self).enemies@.len() == old(self).enemies@.len(),
            r@.len() == old(self).enemies@.len(),
            forall|i: int| 0 <= i < r@.len() ==> #[trigger] final(self).enemies@[i]
                == torchlit(old(self).enemies@[i], torches@),
            forall|i: int| 0 <= i < r@.len() ==> #[trigger] r@[i]
                == change_spec(old(self).enemies@[i].light.torchlit, torch_reaches(torches@, old(self).enemies@[i].pos)),
    {
        let ghost start = self.enemies@;
        let mut changes: Vec<FlagChange> = Vec::new();
        let mut i: usize = 0;
        while i < self.enemies.len()
            invariant
                i <= self.enemies@.len(),
                self.enemies@.len() == start.len(),
                torches_wf(torches@),
                enemies_wf(start),
                changes@.len() == i,
                self.state == old(self).state,
                self.player_pos == old(self).player_pos,
                self.player_health == old(self).player_health,
                self.player_speed == old(self).player_speed,
                start == old(self).enemies@,
                old(self).wf(),
                forall|k: int| i <= k < start.len() ==> #[trigger] self.enemies@[k] == start[k],
                forall|k: int| 0 <= k < i ==> #[trigger] self.enemies@[k] == torchlit(start[k], torches@),
                forall|k: int| 0 <= k < i ==> #[trigger] changes@[k]
                    == change_spec(start[k].light.torchlit, torch_reaches(torches@, start[k].pos)),
            decreases start.len() - i,
        {
            let mut e = self.enemies[i];
            assert(e.wf());
            let in_torch = lit_by_torches(torches, &e.pos);
            let ch = e.light.set_torchlit(in_torch);
            self.enemies.set(i, e);
            changes.push(ch);
            i += 1;
        }
        assert(enemies_wf(self.enemies@)) by {
            assert forall|k: int| 0 <= k < self.enemies@.len() implies (#[trigger] self.enemies@[k]).wf() && self.enemies@[k].health > 0 by {
                assert(self.enemies@[k] == torchlit(start[k], torches@));
            }
        }
        changes
    }

    /// Re-evaluates how each enemy is lit: first the spotlight flags from
    /// `spot_hits`, then the torch flags from the torches, each flag from
    /// its own test. The changes of both are returned, enemy by enemy.
    pub fn update_lighting(&mut self, spot_hits: &Vec<bool>, torches: &Vec<Torch>) -> (r: Vec<LightChange>)
        requires
            old(self).wf(),
            spot_hits@.len() == old(self).enemies@.len(),
            torches_wf(torches@),
        ensures
            final(self).wf(),
            final(self).state == old(self).state,
            final(self).player_pos == old(self).player_pos,
            final(self).player_speed == old(self).player_speed,
            final(self).player_health == old(self).player_health,
            final(self).enemies@.len() == old(self).enemies@.len(),
            r@.len() == old(self).enemies@.len(),
            forall|i: int| 0 <= i < r@.len() ==> #[trigger] final(self).enemies@[i]
                == relit(old(self).enemies@[i], spot_hits@[i], torches@),
            forall|i: int| 0 <= i < r@.len() ==> (#[trigger] r@[i]).spotlight
                == change_spec(old(self).enemies@[i].light.spotlighted, spot_hits@[i]),
            forall|i: int| 0 <= i < r@.len() ==> (#[trigger] r@[i]).torch
                == change_spec(old(self).enemies@[i].light.torchlit, torch_reaches(torches@, old(self).enemies@[i].pos)),
    {
        let ghost start = self.enemies@;
        let spot = self.update_spotlit(spot_hits);
        let ghost mid = self.enemies@;
        let torch = self.update_torchlit(torches);
        let mut changes: Vec<LightChange> = Vec::new();
        let mut i: usize = 0;
        while i < spot.len()
            invariant
                i <= spot@.len(),
                spot@.len() == start.len(),
                torch@.len() == start.len(),
                changes@.len() == i,
                forall|k: int| 0 <= k < i ==> (#[trigger] changes@[k]).spotlight == spot@[k],
                forall|k: int| 0 <= k < i ==> (#[trigger] changes@[k]).torch == torch@[k],
            decreases start.len() - i,
        {
            changes.push(LightChange { spotlight: spot[i], torch: torch[i] });
            i += 1;
        }
        assert forall|k: int| 0 <= k < start.len() implies #[trigger] self.enemies@[k] == relit(start[k], spot_hits@[k], torches@) by {
            assert(mid[k] == spotlit(start[k], spot_hits@[k]));
        }
        assert forall|k: int| 0 <= k < start.len() implies (#[trigger] changes@[k]).torch
            == change_spec(start[k].light.torchlit, torch_reaches(torches@, start[k].pos)) by {
            assert(mid[k] == spotlit(start[k], spot_hits@[k]));
        }
        changes
    }

    /// The steering force of each enemy this tick (see `steer_spec`).
    pub fn steering(&self) -> (r: Vec<Point3>)
        requires
            self.wf(),
        ensures
            r@.len() == self.enemies@.len(),
            forall|i: int| 0 <= i < r@.len() ==> #[trigger] r@[i] == steer_spec(self.enemies@[i], self.player_pos),
    {
        let mut forces: Vec<Point3> = Vec::new();
        let mut i: usize = 0;
        while i < self.enemies.len()
            invariant
                self.wf(),
                i <= self.enemies@.len(),
                forces@.len() == i,
                forall|k: int| 0 <= k < i ==> #[trigger] forces@[k] == steer_spec(self.enemies@[k], self.player_pos),
            decreases self.enemies@.len() - i,
        {
            assert(self.enemies@[i as int].wf());
            forces.push(chase_force(&self.enemies[i], &self.player_pos));
            i += 1;
        }
        forces
    }

    /// Drains every lit enemy by 25 points a second over `dt` milliseconds
    /// and removes those whose health falls to zero or below, counting each
    /// as a kill of this night and of the session. Returns, for each enemy
    /// as it stood before, whether it was removed.
    pub fn drain_enemies(&mut self, dt: i64) -> (r: Vec<bool>)
        requires
            old(self).wf(),
            0 <= dt <= crate::controls::TICK_LIMIT,
            old(self).state.total_kills + old(self).enemies@.len() <= u64::MAX,
        ensures
            final(self).wf(),
            final(self).enemies@ == survivors(old(self).enemies@, dt as int, old(self).enemies@.len() as int),
            final(self).state.kills_this_night == old(self).state.kills_this_night
                + deaths(old(self).enemies@, dt as int, old(self).enemies@.len() as int),
            final(self).state.total_kills == old(self).state.total_kills
                + deaths(old(self).enemies@, dt as int, old(self).enemies@.len() as int),
            final(self).state == (GameState {
                kills_this_night: final(self).state.kills_this_night,
                total_kills: final(self).state.total_kills,
                ..old(self).state
            }),
            final(self).player_pos == old(self).player_pos,
            final(self).player_speed == old(self).player_speed,
            final(self).player_health == old(self).player_health,
            r@.len() == old(self).enemies@.len(),
            forall|i: int| 0 <= i < r@.len() ==> #[trigger] r@[i] == (drained(old(self).enemies@[i], dt as int).health <= 0),
    {
        let ghost start = self.enemies@;
        let n = self.enemies.len();
        let mut kept: Vec<Enemy> = Vec::new();
        let mut removed: Vec<bool> = Vec::new();
        let mut i: usize = 0;
        while i < n
            invariant
                n == start.len(),
                start == old(self).enemies@,
                self.enemies@ == start,
                i <= n,
                old(self).wf(),
                0 <= dt <= crate::controls::TICK_LIMIT,
                old(self).state.total_kills + n <= u64::MAX,
                self.state.wf(),
                self.state == (GameState {
                    kills_this_night: self.state.kills_this_night,
                    total_kills: self.state.total_kills,
                    ..old(self).state
                }),
                self.state.kills_this_night == old(self).state.kills_this_night + deaths(start, dt as int, i as int),
                self.state.total_kills == old(self).state.total_kills + deaths(start, dt as int, i as int),
                0 <= deaths(start, dt as int, i as int) <= i,
                self.player_pos == old(self).player_pos,
                self.player_health == old(self).player_health,
                self.player_speed == old(self).player_speed,
                kept@ == survivors(start, dt as int, i as int),
                enemies_wf(kept@),
                removed@.len() == i,
                forall|k: int| 0 <= k < i ==> #[trigger] removed@[k] == (drained(start[k], dt as int).health <= 0),
            decreases n - i,
        {
            let e = self.enemies[i];
            assert(e.wf() && e.health > 0);
            let h = drain(e.health, e.light, dt);
            if h > 0 {
                kept.push(Enemy { health: h, ..e });
                removed.push(false);
            } else {
                self.state.record_kill();
                removed.push(true);
            }
            i += 1;
        }
        self.enemies = kept;
        removed
    }

    /// Applies one tick of proximity damage to the player, never below
    /// zero. Returns whether this tick depleted the player's health: true
    /// once per depletion, on the tick where it falls to zero.
    pub fn damage_player(&mut self, dt: i64) -> (r: bool)
        requires
            old(self).wf(),
            0 <= dt <= crate::controls::TICK_LIMIT,
        ensures
            final(self).wf(),
            final(self).player_health == damage_fold(
                old(self).player_health as int,
                old(self).player_pos,
                old(self).enemies@.map_values(|e: Enemy| e.pos),
                dt as int,
                old(self).enemies@.len() as int,
            ),
            r == (old(self).player_health > 0 && final(self).player_health <= 0),
            final(self).state == old(self).state,
            final(self).player_pos == old(self).player_pos,
            final(self).player_speed == old(self).player_speed,
            final(self).enemies@ == old(self).enemies@,
    {
        let mut positions: Vec<Point3> = Vec::new();
        let mut i: usize = 0;
        while i < self.enemies.len()
            invariant
                self.wf(),
                i <= self.enemies@.len(),
                positions@ == self.enemies@.subrange(0, i as int).map_values(|e: Enemy| e.pos),
                all_bounded(positions@),
            decreases self.enemies@.len() - i,
        {
            assert(self.enemies@[i as int].wf());
            positions.push(self.enemies[i].pos);
            i += 1;
            assert(self.enemies@.subrange(0, i as int) == self.enemies@.subrange(0, i - 1).push(self.enemies@[i - 1]));
        }
        assert(self.enemies@.subrange(0, self.enemies@.len() as int) == self.enemies@);
        let h = player_damage(self.player_health, &self.player_pos, &positions, dt);
        proof {
            lemma_damage_fold_bound(self.player_health as int, self.player_pos, positions@, dt as int, positions@.len() as int);
        }
        let was_alive = self.player_health > 0;
        self.player_health = h;
        was_alive && h <= 0
    }

    /// One tick of the night, in order: the clock advances by `dt`
    /// milliseconds; the lighting is re-evaluated from `spot_hits` and the
    /// torches; unlit enemies steer toward the player while lit ones stop
    /// pushing; lit enemies are drained and the dead removed and counted;
    /// the player takes proximity damage from those left; and the spawner
    /// decides on the population that remains. Each stage sees the results
    /// of the stages before it in the same tick.
    pub fn step(&mut self, dt: i64, spot_hits: &Vec<bool>, torches: &Vec<Torch>) -> (r: StepReport)
        requires
            old(self).wf(),
            0 <= dt <= crate::controls::TICK_LIMIT,
            old(self).state.survived_ms + dt <= NIGHT_LIMIT_MS,
            spot_hits@.len() == old(self).enemies@.len(),
            torches_wf(torches@),
            old(self).state.total_kills + old(self).enemies@.len() <= u64::MAX,
        ensures
            final(self).wf(),
            final(self).state.survived_ms == old(self).state.survived_ms + dt,
            ({
                let lit = relit_all(old(self).enemies@, spot_hits@, torches@);
                let n = old(self).enemies@.len() as int;
                &&& final(self).enemies@ == survivors(lit, dt as int, n)
                &&& final(self).state.kills_this_night == old(self).state.kills_this_night + deaths(lit, dt as int, n)
                &&& final(self).state.total_kills == old(self).state.total_kills + deaths(lit, dt as int, n)
                &&& r.forces@.len() == n
                &&& forall|i: int| 0 <= i < n ==> #[trigger] r.forces@[i] == steer_spec(lit[i], old(self).player_pos)
                &&& r.removed@.len() == n
                &&& forall|i: int| 0 <= i < n ==> #[trigger] r.removed@[i] == (drained(lit[i], dt as int).health <= 0)
                &&& final(self).player_health == damage_fold(
                    old(self).player_health as int,
                    old(self).player_pos,
                    final(self).enemies@.map_values(|e: Enemy| e.pos),
                    dt as int,
                    final(self).enemies@.len() as int,
                )
            }),
            r.changes@.len() == old(self).enemies@.len(),
            forall|i: int| 0 <= i < r.changes@.len() ==> (#[trigger] r.changes@[i]).spotlight
                == change_spec(old(self).enemies@[i].light.spotlighted, spot_hits@[i]),
            forall|i: int| 0 <= i < r.changes@.len() ==> (#[trigger] r.changes@[i]).torch
                == change_spec(old(self).enemies@[i].light.torchlit, torch_reaches(torches@, old(self).enemies@[i].pos)),
            r.defeated == (old(self).player_health > 0 && final(self).player_health <= 0),
            r.spawn == spawn_order_spec(final(self).state, final(self).enemies@.len() as int),
            final(self).player_pos == old(self).player_pos,
            final(self).player_speed == old(self).player_speed,
            final(self).state.night_number == old(self).state.night_number,
            final(self).state.spent == old(self).state.spent,
            final(self).state.flashlight == old(self).state.flashlight,
            final(self).state.torch == old(self).state.torch,
    {
        self.tick_clock(dt as u64);
        let changes = self.update_lighting(spot_hits, torches);
        assert(self.enemies@ =~= relit_all(old(self).enemies@, spot_hits@, torches@));
        let forces = self.steering();
        let removed = self.drain_enemies(dt);
        let defeated = self.damage_player(dt);
        let spawn = self.spawn_order();
        StepReport { changes, forces, removed, defeated, spawn }
    }

    /// What the spawner does this tick.
    pub fn spawn_order(&self) -> (r: SpawnOrder)
        requires
            self.wf(),
        ensures
            r == spawn_order_spec(self.state, self.enemies@.len() as int),
    {
        spawn_order(&self.state, self.enemies.len() as u64)
    }
}

/// Damage only lowers health, down to zero at most.
proof fn lemma_damage_fold_bound(health: int, player: Point3, ps: Seq<Point3>, dt: int, k: int)
    requires
        abs_le(health, HEALTH_LIMIT as int),
        0 <= dt,
        0 <= k <= ps.len(),
        all_bounded(ps),
    ensures
        abs_le(damage_fold(health, player, ps, dt, k), HEALTH_LIMIT as int),
    decreases k,
{
    if k > 0 {
        lemma_damage_fold_bound(health, player, ps, dt, k - 1);
    }
}

proof fn lemma_single_kill_prefix(es: Seq<Enemy>, dt: int, i: int, k: int)
    requires
        0 <= i < es.len(),
        0 <= k <= es.len(),
        drained(es[i], dt).health <= 0,
        forall|j: int| 0 <= j < es.len() && j != i ==> #[trigger] drained(es[j], dt).health > 0,
    ensures
        deaths(es, dt, k) == if k > i { 1int } else { 0int },
        survivors(es, dt, k).len() == if k > i { k - 1 } else { k },
    decreases k,
{
    if k > 0 {
        lemma_single_kill_prefix(es, dt, i, k - 1);
    }
}

/// When exactly one enemy of the level dies from this tick's draining, both
/// kill counters grow by exactly one and that enemy is gone, the others
/// staying in order.
pub proof fn lemma_single_kill(es: Seq<Enemy>, dt: int, i: int)
    requires
        0 <= i < es.len(),
        drained(es[i], dt).health <= 0,
        forall|j: int| 0 <= j < es.len() && j != i ==> #[trigger] drained(es[j], dt).health > 0,
    ensures
        deaths(es, dt, es.len() as int) == 1,
        survivors(es, dt, es.len() as int).len() == es.len() - 1,
        forall|j: int| 0 <= j < survivors(es, dt, es.len() as int).len()
            ==> #[trigger] survivors(es, dt, es.len() as int)[j].health > 0,
{
    lemma_single_kill_prefix(es, dt, i, es.len() as int);
    lemma_survivors_alive(es, dt, es.len() as int);
}

/// Every survivor of draining is alive.
pub proof fn lemma_survivors_alive(es: Seq<Enemy>, dt: int, k: int)
    requires
        0 <= k <= es.len(),
    ensures
        forall|j: int| 0 <= j < survivors(es, dt, k).len() ==> #[trigger] survivors(es, dt, k)[j].health > 0,
    decreases k,
{
    if k > 0 {
        lemma_survivors_alive(es, dt, k - 1);
        let prev = survivors(es, dt, k - 1);
        let d = drained(es[k - 1], dt);
        if d.health > 0 {
            assert forall|j: int| 0 <= j < prev.push(d).len() implies #[trigger] prev.push(d)[j].health > 0 by {
                if j < prev.len() {
                    assert(prev.push(d)[j] == prev[j]);
                }
            }
        }
    }
}

/// The two lighting flags are set each from its own test: the spotlight
/// flag from the cone hit alone, the torch flag from the torches' reach
/// alone, so an enemy may carry both, either or neither; nothing else about
/// the enemy changes.
pub proof fn lemma_flags_independent(e: Enemy, spot: bool, torches: Seq<Torch>)
    ensures
        relit(e, spot, torches).light.spotlighted == spot,
        relit(e, spot, torches).light.torchlit == torch_reaches(torches, e.pos),
        relit(e, spot, torches).pos == e.pos,
        relit(e, spot, torches).health == e.health,
        relit(e, spot, torches).light.is_lit() == (spot || torch_reaches(torches, e.pos)),
{
}

/// Enemies at the damage radius or farther leave the player's health as it
/// was.
pub proof fn lemma_far_enemies_harmless(health: int, player: Point3, ps: Seq<Point3>, dt: int, k: int)
    requires
        health >= 0,
        dt >= 0,
        0 <= k <= ps.len(),
        forall|i: int| 0 <= i < ps.len() ==> #[trigger] dist_sq(player, ps[i]) >= DAMAGE_RADIUS * DAMAGE_RADIUS,
    ensures
        damage_fold(health, player, ps, dt, k) == health,
    decreases k,
{
    if k > 0 {
        lemma_far_enemies_harmless(health, player, ps, dt, k - 1);
        crate::survival::lemma_damage_falloff(dist_sq(player, ps[k - 1]), dt);
    }
}

} // verus!


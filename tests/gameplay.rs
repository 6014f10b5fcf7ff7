use nightfall::controls::{
    apply_movement, draw_cursed, jitter_of, CursedDraw, ground_target, unit_heading, CursedAimState, CursedControls, Heading, Vec2i,
};
use nightfall::enemy::{calc_size, chase_force, drain, Enemy};
use nightfall::geometry::{isqrt, Point3};
use nightfall::level::Level;
use nightfall::light::{FlagChange, Illumination, Torch};
use nightfall::mirror::{reflect, MirrorHit, Spotlight};
use nightfall::spawner::{draw_spawn, spawn_enemy, spawn_order, tutorial_enemy, SpawnOrder};
use nightfall::state::GameState;
use nightfall::survival::{feedback, player_damage, proximity_damage};
use nightfall::SmallRng;
use rand::SeedableRng;

fn enemy_at(x: i64, z: i64, health: i64) -> Enemy {
    Enemy {
        pos: Point3::new(x, 1000, z),
        vel: Point3::zero(),
        speed: 2000,
        health,
        light: Illumination::dark(),
        variant: 1,
    }
}

#[test]
fn isqrt_rounds_down() {
    assert_eq!(isqrt(0), 0);
    assert_eq!(isqrt(15), 3);
    assert_eq!(isqrt(16), 4);
    assert_eq!(isqrt(1_000_000), 1000);
    assert_eq!(isqrt(u64::MAX as u128), 4_294_967_295);
}

#[test]
fn illumination_flags_are_independent() {
    for spot in [false, true] {
        for torch in [false, true] {
            let mut l = Illumination::dark();
            let ch = l.update(spot, torch);
            assert_eq!(l.spotlighted, spot);
            assert_eq!(l.torchlit, torch);
            assert_eq!(ch.spotlight, if spot { FlagChange::Added } else { FlagChange::Unchanged });
            assert_eq!(ch.torch, if torch { FlagChange::Added } else { FlagChange::Unchanged });
            assert_eq!(l.lit(), spot || torch);
        }
    }
    let mut l = Illumination { spotlighted: true, torchlit: true };
    let ch = l.update(true, false);
    assert_eq!(ch.spotlight, FlagChange::Unchanged);
    assert_eq!(ch.torch, FlagChange::Removed);
    assert!(l.spotlighted && !l.torchlit);
}

#[test]
fn level_lighting_uses_spot_hits_and_torch_range() {
    let mut level = Level::new(GameState::new());
    level.add_enemy(enemy_at(3000, 0, 50_000));
    level.add_enemy(enemy_at(9000, 0, 50_000));
    level.add_enemy(enemy_at(-20_000, 0, 50_000));
    let torches = vec![Torch { pos: Point3::new(0, 1000, 0), range: 4000 }];
    let changes = level.update_lighting(&vec![false, true, true], &torches);
    assert_eq!(level.enemies[0].light, Illumination { spotlighted: false, torchlit: true });
    assert_eq!(level.enemies[1].light, Illumination { spotlighted: true, torchlit: false });
    assert_eq!(level.enemies[2].light, Illumination { spotlighted: true, torchlit: false });
    assert_eq!(changes[0].torch, FlagChange::Added);
    assert_eq!(changes[1].spotlight, FlagChange::Added);
    let again = level.update_lighting(&vec![false, true, false], &torches);
    assert_eq!(again[1].spotlight, FlagChange::Unchanged);
    assert_eq!(again[2].spotlight, FlagChange::Removed);
}

#[test]
fn torch_range_is_inclusive() {
    let t = Torch { pos: Point3::new(0, 0, 0), range: 5000 };
    assert!(t.lights(&Point3::new(3000, 0, 4000)));
    assert!(!t.lights(&Point3::new(3000, 1, 4000)));
}

#[test]
fn drain_does_not_stack() {
    let both = drain(60_000, Illumination { spotlighted: true, torchlit: true }, 1000);
    let spot = drain(60_000, Illumination { spotlighted: true, torchlit: false }, 1000);
    let torch = drain(60_000, Illumination { spotlighted: false, torchlit: true }, 1000);
    assert_eq!(both, 35_000);
    assert_eq!(spot, 35_000);
    assert_eq!(torch, 35_000);
    assert_eq!(drain(60_000, Illumination::dark(), 1000), 60_000);
}

#[test]
fn size_follows_square_root_curve() {
    assert_eq!(calc_size(0), 300);
    assert_eq!(calc_size(100_000), 1000);
    assert_eq!(calc_size(25_000), 650);
    assert_eq!(calc_size(-4000), 300);
    assert_eq!(calc_size(250_000), 1000);
    let mut last = calc_size(0);
    for h in (0..=100_000).step_by(997) {
        let s = calc_size(h);
        assert!(s >= last);
        last = s;
    }
}

#[test]
fn damage_falls_off_with_distance() {
    let p = Point3::new(0, 1000, 0);
    assert_eq!(proximity_damage(&p, &Point3::new(0, 1000, 0), 1000), 25_000);
    assert_eq!(proximity_damage(&p, &Point3::new(3000, 1000, 0), 1000), 6250);
    assert_eq!(proximity_damage(&p, &Point3::new(6000, 1000, 0), 1000), 0);
    assert_eq!(proximity_damage(&p, &Point3::new(0, 1000, 7000), 1000), 0);
}

#[test]
fn player_damage_sums_and_clamps() {
    let p = Point3::new(0, 0, 0);
    let near = vec![Point3::new(0, 0, 0), Point3::new(3000, 0, 0), Point3::new(50_000, 0, 0)];
    assert_eq!(player_damage(100_000, &p, &near, 1000), 100_000 - 25_000 - 6250);
    assert_eq!(player_damage(10_000, &p, &near, 1000), 0);
    assert_eq!(player_damage(100_000, &p, &vec![], 1000), 100_000);
}

#[test]
fn feedback_ramps_with_lost_health() {
    let full = feedback(100_000);
    assert_eq!((full.vignette, full.brightness), (500, 6000));
    let half = feedback(50_000);
    assert_eq!((half.vignette, half.brightness), (3000, 4750));
    let gone = feedback(0);
    assert_eq!((gone.vignette, gone.brightness), (10_500, 0));
    let below = feedback(-3);
    assert_eq!(below.brightness, 0);
}

#[test]
fn diagonal_movement_is_not_normalized() {
    let c = CursedControls::new();
    let calm = Vec2i::new(0, 0);
    let straight = apply_movement(&c, Vec2i::new(1000, 0), calm, 3000, 1000);
    let diagonal = apply_movement(&c, Vec2i::new(1000, 1000), calm, 3000, 1000);
    assert_eq!((straight.right, straight.forward), (3000, 0));
    assert_eq!((diagonal.right, diagonal.forward), (3000, 3000));
    let len2 = |r: i64, f: i64| r * r + f * f;
    assert!(len2(diagonal.right, diagonal.forward) > len2(straight.right, straight.forward));
    assert_eq!(len2(diagonal.right, diagonal.forward), 2 * len2(straight.right, straight.forward));
}

#[test]
fn cursed_movement_skews_swirls_and_scales() {
    let mut c = CursedControls::new();
    c.enabled = true;
    // x' = 1000 * -1 + 0 = -1000, y' = 0 + 1000 * -350 / 1000 = -350;
    // swirl (1000, 0) * 0.35 = (350, 0); scaled by 1.8.
    let d = c.cursed_input(Vec2i::new(1000, 0), Vec2i::new(1000, 0));
    assert_eq!((d.x, d.y), ((-1000 + 350) * 1800 / 1000, -350 * 1800 / 1000));
    let moved = apply_movement(&c, Vec2i::new(1000, 0), Vec2i::new(1000, 0), 1000, 1000);
    assert_eq!((moved.right, moved.forward), (-1170, -630));
}

#[test]
fn toggling_cursed_mode_redraws_parameters() {
    let mut rng = SmallRng::seed_from_u64(7);
    let mut c = CursedControls::new();
    let mut aim = CursedAimState::new();
    aim.current_dir = Heading::new(1000, 0);
    let drawn = c.toggle(&mut aim, &mut rng).unwrap();
    assert!(c.enabled);
    assert_eq!(aim.current_dir, Heading::new(0, 0));
    assert_eq!(c.speed_mul, drawn.speed_mul);
    assert_eq!(c.invert_x, if drawn.flip_x { -1 } else { 1 });
    let first = c;
    assert!((1400..3000).contains(&first.speed_mul));
    assert!(first.invert_x == -1 || first.invert_x == 1);
    assert!((300..2500).contains(&first.aim_jitter));
    aim.current_dir = Heading::new(0, 1000);
    assert_eq!(c.toggle(&mut aim, &mut rng), None);
    assert!(!c.enabled);
    assert_eq!(aim.current_dir, Heading::new(0, 1000));
    assert_eq!(c.speed_mul, first.speed_mul);
    c.toggle(&mut aim, &mut rng);
    assert!(c.enabled);
    let second = c;
    assert_ne!(
        (first.speed_mul, first.skew_x, first.skew_y, first.aim_rotate, first.aim_lag),
        (second.speed_mul, second.skew_x, second.skew_y, second.aim_rotate, second.aim_lag)
    );
}

#[test]
fn ground_target_projects_the_cursor_ray() {
    let cam = Point3::new(20_000, 20_000, 20_000);
    let hit = ground_target(cam, Point3::new(-577, -577, -577)).unwrap();
    assert_eq!(hit, Point3::new(0, 0, 0));
    assert_eq!(ground_target(cam, Point3::new(1000, 0, 0)), None);
    assert_eq!(ground_target(cam, Point3::new(0, 500, 0)), None);
    let under = Point3::new(5, -100, 7);
    assert_eq!(ground_target(under, Point3::new(0, 1000, 0)), Some(Point3::new(5, 0, 7)));
}

#[test]
fn aim_snaps_when_calm_and_eases_when_cursed() {
    let calm = CursedControls::new();
    let mut aim = CursedAimState::new();
    assert_eq!(aim.aim(&calm, Heading::new(0, -5000), Heading::new(0, 0), 16), Some(Heading::new(0, -1000)));
    assert_eq!(aim.current_dir, Heading::new(0, 0));
    assert_eq!(aim.aim(&calm, Heading::new(0, 0), Heading::new(0, 0), 16), None);

    let mut cursed = CursedControls::new();
    cursed.enabled = true;
    let first = aim.aim(&cursed, Heading::new(3000, 0), Heading::new(0, 0), 16);
    assert_eq!(first, Some(Heading::new(1000, 0)));
    assert_eq!(aim.current_dir, Heading::new(1000, 0));
    // alpha = clamp(0.12 * 60 * 0.016, 0.01, 0.35) = 0.115
    let eased = aim.aim(&cursed, Heading::new(0, 3000), Heading::new(0, 0), 16).unwrap();
    assert_eq!(eased, Heading::new(992, 128));
    assert_eq!(aim.current_dir, eased);
}

#[test]
fn aim_jitter_is_off_when_calm() {
    let mut rng = SmallRng::seed_from_u64(3);
    let calm = CursedControls::new();
    for _ in 0..50 {
        assert_eq!(calm.aim_jitter(&mut rng), Heading::new(0, 0));
    }
    let mut cursed = CursedControls::new();
    cursed.enabled = true;
    let mut jittered = 0;
    for _ in 0..500 {
        let j = cursed.aim_jitter(&mut rng);
        assert!(j.x >= -1000 && j.x < 1000 && j.z >= -1000 && j.z < 1000);
        if j != Heading::new(0, 0) {
            jittered += 1;
        }
    }
    assert!(jittered > 0 && jittered < 200);
    assert_eq!(cursed.aim_angle(1000), 900 + 350);
    assert_eq!(cursed.aim_angle(-1000), 900 - 350);
}

#[test]
fn unit_heading_of_zero_is_none() {
    assert_eq!(unit_heading(Heading::new(0, 0)), None);
    assert_eq!(unit_heading(Heading::new(3, 4)), Some(Heading::new(600, 800)));
}

#[test]
fn head_on_reflection_turns_back() {
    assert_eq!(reflect(Point3::new(0, 0, -1000), Point3::new(0, 0, 1000)), Point3::new(0, 0, 1_000_000_000));
    let source = Spotlight {
        pos: Point3::new(0, 1000, 0),
        dir: Point3::new(0, 0, -1000),
        inner_angle: 100,
        outer_angle: 200,
        range: 6000,
        intensity: 500_000,
        visible: true,
    };
    let mut beam = Spotlight { visible: false, ..source };
    beam.update_reflection(&source, Some(MirrorHit { toi: 2000, normal: Point3::new(0, 0, 1000) }));
    assert!(beam.visible);
    assert_eq!(beam.dir, Point3::new(0, 0, 1000));
    assert_eq!(beam.pos, Point3::new(0, 1000, -2000 + 150));
    assert_eq!((beam.inner_angle, beam.outer_angle), (100, 200));
    assert_eq!((beam.range, beam.intensity), (12_000, 750_000));
    beam.update_reflection(&source, None);
    assert!(!beam.visible);
}

#[test]
fn grazing_mirror_hides_reflection() {
    let source = Spotlight {
        pos: Point3::new(0, 0, 0),
        dir: Point3::new(1000, 0, 0),
        inner_angle: 100,
        outer_angle: 200,
        range: 6000,
        intensity: 10,
        visible: true,
    };
    let mut beam = Spotlight { visible: true, ..source };
    beam.update_reflection(&source, Some(MirrorHit { toi: 10, normal: Point3::new(0, 0, 0) }));
    assert!(!beam.visible);
}

#[test]
fn steering_stops_when_lit_and_chases_otherwise() {
    let player = Point3::new(0, 1000, 0);
    let mut e = enemy_at(-10_000, 0, 50_000);
    e.speed = 3000;
    assert_eq!(chase_force(&e, &player), Point3::new(60_000, 0, 0));
    e.vel = Point3::new(1000, 0, 500);
    assert_eq!(chase_force(&e, &player), Point3::new(40_000, 0, -10_000));
    e.light = Illumination { spotlighted: false, torchlit: true };
    assert_eq!(chase_force(&e, &player), Point3::new(0, 0, 0));
    let close = enemy_at(50, 50, 50_000);
    assert_eq!(chase_force(&close, &player), Point3::new(0, 0, 0));
}

#[test]
fn spawner_tops_up_to_target() {
    let mut s = GameState::new();
    s.night_number = 2;
    s.survived_ms = 25_000;
    assert_eq!(spawn_order(&s, 0), SpawnOrder::General(15));
    assert_eq!(spawn_order(&s, 12), SpawnOrder::General(3));
    assert_eq!(spawn_order(&s, 40), SpawnOrder::General(0));
    s.survived_ms = 24_999;
    assert_eq!(spawn_order(&s, 0), SpawnOrder::General(14));
}

#[test]
fn first_night_starts_with_tutorial() {
    let s = GameState::new();
    assert_eq!(spawn_order(&s, 0), SpawnOrder::Tutorial);
    assert_eq!(spawn_order(&s, 1), SpawnOrder::General(0));
    let t = tutorial_enemy();
    assert_eq!(t.pos, Point3::new(-10_000, 1000, -10_000));
    assert_eq!((t.speed, t.health, t.variant), (3000, 60_000, 5));
}

#[test]
fn spawn_draws_stay_in_range() {
    let mut rng = SmallRng::seed_from_u64(11);
    let mut healths = std::collections::HashSet::new();
    for _ in 0..200 {
        let p = draw_spawn(&mut rng, 25_000);
        healths.insert(p.health);
        assert!(p.health >= 5000 && p.health < 15_000);
        assert!(p.bearing >= -3141 && p.bearing < 3142);
        assert!(p.radius >= 12_000 && p.radius < 20_000);
        assert!(p.speed >= 1000 && p.speed < 4000);
        assert!(p.variant >= 1 && p.variant < 6);
        let e = spawn_enemy(&p, 1, 2);
        assert_eq!((e.pos, e.health, e.speed), (Point3::new(1, 1000, 2), p.health, p.speed));
        assert_eq!(e.light, Illumination::dark());
    }
    assert!(healths.len() > 100);
}

#[test]
fn kill_is_counted_once_and_removed() {
    let mut level = Level::new(GameState::new());
    let mut doomed = enemy_at(20_000, 0, 100);
    doomed.light = Illumination { spotlighted: true, torchlit: true };
    level.add_enemy(enemy_at(-20_000, 0, 100));
    level.add_enemy(doomed);
    let removed = level.drain_enemies(16);
    assert_eq!(removed, vec![false, true]);
    assert_eq!(level.state.kills_this_night, 1);
    assert_eq!(level.state.total_kills, 1);
    assert_eq!(level.enemies.len(), 1);
    assert_eq!(level.enemies[0].pos, Point3::new(-20_000, 1000, 0));
    assert_eq!(level.enemies[0].health, 100);
}

#[test]
fn tutorial_night_end_to_end() {
    let mut level = Level::new(GameState::new());
    assert_eq!(level.player_pos, Point3::new(0, 1000, 0));
    assert_eq!((level.player_health, level.player_speed), (100_000, 3000));
    assert!(level.enemies.is_empty());
    assert_eq!(level.spawn_order(), SpawnOrder::Tutorial);
    level.add_enemy(tutorial_enemy());
    assert_eq!(level.spawn_order(), SpawnOrder::General(0));
    let mut killed_at = None;
    for tick in 0..4 {
        level.tick_clock(1000);
        let hits = vec![true; level.enemies.len()];
        level.update_lighting(&hits, &vec![]);
        let removed = level.drain_enemies(1000);
        if removed.contains(&true) && killed_at.is_none() {
            killed_at = Some(tick);
        }
    }
    assert_eq!(killed_at, Some(2));
    assert_eq!(level.state.kills_this_night, 1);
    assert_eq!(level.state.total_kills, 1);
    assert!(level.enemies.is_empty());
    assert_eq!(level.spawn_order(), SpawnOrder::General(10));
}

#[test]
fn player_is_defeated_at_zero_health() {
    let mut level = Level::new(GameState::new());
    level.add_enemy(enemy_at(0, 0, 50_000));
    let mut defeated = false;
    let mut ticks = 0;
    while !defeated {
        defeated = level.damage_player(1000);
        ticks += 1;
    }
    assert_eq!(ticks, 4);
    assert_eq!(level.player_health, 0);
    assert!(!level.damage_player(1000));
    assert_eq!(level.player_health, 0);
}

#[test]
fn shop_sells_upgrades_within_budget() {
    let mut s = GameState::new();
    assert!(!s.increase_flashlight_angle());
    s.total_kills = 180;
    assert_eq!(s.currency(), 180);
    assert!(s.increase_flashlight_angle());
    assert_eq!((s.flashlight.angle, s.spent), (300, 45));
    assert!(s.increase_flashlight_range());
    assert_eq!(s.flashlight.range, 7000);
    assert!(!s.increase_torch_range());
    assert!(!s.buy_torch());
    s.total_kills = 400;
    assert!(s.buy_torch());
    assert_eq!(s.spent, 190);
    assert!(!s.can_buy_torch());
    assert!(s.increase_torch_range());
    assert!(s.increase_torch_on_seconds());
    assert!(s.decrease_torch_off_seconds());
    let t = s.torch.unwrap();
    assert_eq!((t.range, t.on_ms, t.off_ms), (6000, 3000, 1900));
    assert_eq!(s.spent, 325);
    assert!(s.currency() < 100);
}

#[test]
fn shop_caps_flashlight_and_torch() {
    let mut s = GameState::new();
    s.total_kills = 10_000;
    let mut bought = 0;
    while s.increase_flashlight_angle() {
        bought += 1;
    }
    assert_eq!((bought, s.flashlight.angle), (7, 900));
    assert!(s.max_flashlight_angle());
    while s.increase_flashlight_range() {}
    assert_eq!(s.flashlight.range, 10_000);
    assert!(s.buy_torch());
    while s.decrease_torch_off_seconds() {}
    assert_eq!(s.torch.unwrap().off_ms, 300);
    assert!(s.max_torch_off_seconds());
    while s.increase_torch_range() {}
    assert_eq!(s.torch.unwrap().range, 10_000);
    assert!(s.max_torch_range());
}

#[test]
fn next_night_resets_counters() {
    let mut s = GameState::new();
    s.kills_this_night = 4;
    s.total_kills = 9;
    s.survived_ms = 30_000;
    s.next_night();
    assert_eq!((s.night_number, s.kills_this_night, s.total_kills, s.survived_ms), (2, 0, 9, 0));
}

#[test]
fn step_runs_the_tick_pipeline_in_order() {
    let mut level = Level::new(GameState::new());
    let report = level.step(16, &vec![], &vec![]);
    assert_eq!(report.spawn, SpawnOrder::Tutorial);
    level.add_enemy(tutorial_enemy());
    let mut kills_seen = 0;
    let mut ticks = 0;
    while level.state.total_kills == 0 {
        let r = level.step(500, &vec![true], &vec![]);
        assert_eq!(r.forces, vec![Point3::new(0, 0, 0)]);
        ticks += 1;
        if r.removed[0] {
            kills_seen += 1;
            assert_eq!(r.spawn, SpawnOrder::General(10));
        }
    }
    assert_eq!((ticks, kills_seen), (5, 1));
    assert_eq!(level.state.survived_ms, 16 + 5 * 500);
    assert_eq!(level.state.kills_this_night, 1);
    assert!(level.enemies.is_empty());
    assert_eq!(level.player_health, 100_000);
}

#[test]
fn step_steers_unlit_enemies_and_hurts_the_player() {
    let mut s = GameState::new();
    s.night_number = 2;
    let mut level = Level::new(s);
    let mut e = enemy_at(0, 3000, 50_000);
    e.speed = 1000;
    level.add_enemy(e);
    let r = level.step(1000, &vec![false], &vec![]);
    assert_eq!(r.changes[0].spotlight, FlagChange::Unchanged);
    assert_eq!(r.forces, vec![Point3::new(0, 0, -20_000)]);
    assert_eq!(r.removed, vec![false]);
    assert_eq!(level.player_health, 100_000 - 6250);
    assert!(!r.defeated);
    assert_eq!(r.spawn, SpawnOrder::General(9));
}

#[test]
fn enemy_in_reach_of_player_gets_no_force() {
    let player = Point3::new(0, 1000, 0);
    let mut e = enemy_at(60, 0, 50_000);
    e.vel = Point3::new(2000, 0, 2000);
    assert_eq!(chase_force(&e, &player), Point3::new(0, 0, 0));
    e.pos = Point3::new(101, 1000, 0);
    assert_eq!(chase_force(&e, &player), Point3::new(-80_000, 0, -40_000));
}

#[test]
fn far_enemies_do_not_hurt_the_player() {
    let mut level = Level::new(GameState::new());
    level.add_enemy(enemy_at(6000, 0, 50_000));
    level.add_enemy(enemy_at(0, -9000, 50_000));
    assert!(!level.damage_player(1000));
    assert_eq!(level.player_health, 100_000);
}

#[test]
fn enabling_takes_up_the_drawn_parameters() {
    let d = CursedDraw {
        speed_mul: 2000,
        flip_x: false,
        flip_y: true,
        skew_x: -500,
        skew_y: 400,
        swirl_strength: 200,
        aim_rotate: -3000,
        aim_wobble: 800,
        aim_wobble_hz: 3000,
        aim_lag: 50,
        aim_jitter: 2000,
    };
    let mut c = CursedControls::new();
    let mut aim = CursedAimState::new();
    aim.current_dir = Heading::new(1000, 0);
    c.enable_with(&mut aim, &d);
    assert!(c.enabled);
    assert_eq!((c.speed_mul, c.invert_x, c.invert_y), (2000, 1, -1));
    assert_eq!((c.skew_x, c.skew_y, c.swirl_strength), (-500, 400, 200));
    assert_eq!((c.aim_rotate, c.aim_wobble, c.aim_wobble_hz), (-3000, 800, 3000));
    assert_eq!((c.aim_lag, c.aim_jitter), (50, 2000));
    assert_eq!(aim.current_dir, Heading::new(0, 0));
}

#[test]
fn cursed_draws_vary_and_stay_in_range() {
    let mut rng = SmallRng::seed_from_u64(5);
    let mut flips = 0;
    let mut speeds = std::collections::HashSet::new();
    for _ in 0..100 {
        let d = draw_cursed(&mut rng);
        assert!((1400..3000).contains(&d.speed_mul));
        assert!((-1000..1000).contains(&d.skew_x) && (-1000..1000).contains(&d.skew_y));
        assert!((150..750).contains(&d.swirl_strength));
        assert!((-3141..3142).contains(&d.aim_rotate));
        assert!((40..220).contains(&d.aim_lag));
        if d.flip_x {
            flips += 1;
        }
        speeds.insert(d.speed_mul);
    }
    assert!(flips > 20 && flips < 80);
    assert!(speeds.len() > 50);
}

#[test]
fn jitter_is_taken_only_when_the_chance_comes_up() {
    assert_eq!(jitter_of(true, -700, 300), Heading::new(-700, 300));
    assert_eq!(jitter_of(false, -700, 300), Heading::new(0, 0));
}

#[test]
fn flag_passes_leave_the_other_flag_alone() {
    let mut level = Level::new(GameState::new());
    let mut e = enemy_at(1000, 0, 50_000);
    e.light = Illumination { spotlighted: false, torchlit: true };
    level.add_enemy(e);
    let mut f = enemy_at(30_000, 0, 50_000);
    f.light = Illumination { spotlighted: true, torchlit: false };
    level.add_enemy(f);
    let spot = level.update_spotlit(&vec![false, true]);
    assert_eq!(spot, vec![FlagChange::Unchanged, FlagChange::Unchanged]);
    assert_eq!(level.enemies[0].light, Illumination { spotlighted: false, torchlit: true });
    let torches = vec![Torch { pos: Point3::new(30_000, 1000, 0), range: 2000 }];
    let torch = level.update_torchlit(&torches);
    assert_eq!(torch, vec![FlagChange::Removed, FlagChange::Added]);
    assert_eq!(level.enemies[0].light, Illumination { spotlighted: false, torchlit: false });
    assert_eq!(level.enemies[1].light, Illumination { spotlighted: true, torchlit: true });
}

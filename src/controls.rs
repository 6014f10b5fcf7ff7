use crate::geometry::{
    abs_le, coord_ok, div_toward_zero, floor_sqrt, is_floor_sqrt, isqrt, lemma_mul_bound,
    lemma_trunc_div_bound, trunc_div, Point3, COORD_LIMIT,
};
use crate::random::{draw_range, draw_ratio};
use vstd::prelude::*;

verus! {

/// Largest magnitude of one component of a movement input (a full stick
/// deflection is 1000).
pub const INPUT_LIMIT: i64 = 1_000_000;

/// Largest player speed, in thousandths of a unit per second.
pub const SPEED_LIMIT: i64 = 100_000;

/// Longest tick, in milliseconds.
pub const TICK_LIMIT: i64 = 10_000;

/// A two-component vector: a movement input, a wave sample or a horizontal
/// direction, in thousandths.
#[derive(Clone, Copy, Debug, PartialEq, Eq, Structural)]
pub struct Vec2i {
    pub x: i64,
    pub y: i64,
}

impl Vec2i {
    pub fn new(x: i64, y: i64) -> (r: Vec2i)
        ensures
            r.x == x && r.y == y,
    {
        Vec2i { x, y }
    }
}

/// A player displacement along the camera's right and forward ground axes,
/// in thousandths of a unit. The two axes are orthonormal, so the length of
/// the displacement is that of the pair.
#[derive(Clone, Copy, Debug, PartialEq, Eq, Structural)]
pub struct Displacement {
    pub right: i64,
    pub forward: i64,
}

/// Input corruption of the cursed mode. Every parameter is re-drawn each
/// time the mode is switched on.
#[derive(Clone, Copy, Debug, PartialEq, Eq, Structural)]
pub struct CursedControls {
    pub enabled: bool,
    /// Movement multiplier, in thousandths.
    pub speed_mul: i64,
    /// Sign applied to each input axis: -1 or 1.
    pub invert_x: i64,
    pub invert_y: i64,
    /// Share of the other axis mixed into each axis, in thousandths.
    pub skew_x: i64,
    pub skew_y: i64,
    /// Amplitude of the swirl added to the input, in thousandths.
    pub swirl_strength: i64,
    /// Fixed rotation of the aim, in milliradians.
    pub aim_rotate: i64,
    /// Amplitude of the aim wobble, in milliradians.
    pub aim_wobble: i64,
    /// Frequency of the aim wobble, in millihertz.
    pub aim_wobble_hz: i64,
    /// Aim smoothing factor, in thousandths (lower lags more).
    pub aim_lag: i64,
    /// Largest aim jitter, in thousandths of a unit.
    pub aim_jitter: i64,
}

/// A horizontal vector on the ground plane (its x and z components), in
/// thousandths: an offset, or a direction of length about 1000.
#[derive(Clone, Copy, Debug, PartialEq, Eq, Structural)]
pub struct Heading {
    pub x: i64,
    pub z: i64,
}

impl Heading {
    pub open spec fn is_zero(self) -> bool {
        self.x == 0 && self.z == 0
    }

    pub fn new(x: i64, z: i64) -> (r: Heading)
        ensures
            r.x == x && r.z == z,
    {
        Heading { x, z }
    }
}

/// The smoothed aim direction kept while the cursed mode is on; zero means
/// that the next aim snaps to the desired direction.
#[derive(Clone, Copy, Debug, PartialEq, Eq, Structural)]
pub struct CursedAimState {
    pub current_dir: Heading,
}

impl CursedAimState {
    pub fn new() -> (r: CursedAimState)
        ensures
            r.current_dir.is_zero(),
    {
        CursedAimState { current_dir: Heading { x: 0, z: 0 } }
    }
}

pub open spec fn is_sign(v: int) -> bool {
    v == -1 || v == 1
}

/// Range of each parameter drawn when the cursed mode is switched on:
/// `lo <= value < hi`.
pub const SPEED_MUL_RANGE: (i64, i64) = (1400, 3000);
pub const SKEW_RANGE: (i64, i64) = (-1000, 1000);
pub const SWIRL_RANGE: (i64, i64) = (150, 750);
pub const ROTATE_RANGE: (i64, i64) = (-3141, 3142);
pub const WOBBLE_RANGE: (i64, i64) = (150, 900);
pub const WOBBLE_HZ_RANGE: (i64, i64) = (600, 3500);
pub const LAG_RANGE: (i64, i64) = (40, 220);
pub const JITTER_RANGE: (i64, i64) = (300, 2500);

pub open spec fn in_range(v: i64, r: (i64, i64)) -> bool {
    r.0 <= v < r.1
}

/// Chance per aim update that the cursed aim jitters: 2 in 25.
pub const JITTER_CHANCE: (u32, u32) = (2, 25);

impl CursedControls {
    /// Every parameter lies in the range it is drawn from.
    pub open spec fn wf(self) -> bool {
        &&& in_range(self.speed_mul, SPEED_MUL_RANGE)
        &&& is_sign(self.invert_x as int)
        &&& is_sign(self.invert_y as int)
        &&& in_range(self.skew_x, SKEW_RANGE)
        &&& in_range(self.skew_y, SKEW_RANGE)
        &&& in_range(self.swirl_strength, SWIRL_RANGE)
        &&& in_range(self.aim_rotate, ROTATE_RANGE)
        &&& in_range(self.aim_wobble, WOBBLE_RANGE)
        &&& in_range(self.aim_wobble_hz, WOBBLE_HZ_RANGE)
        &&& in_range(self.aim_lag, LAG_RANGE)
        &&& in_range(self.aim_jitter, JITTER_RANGE)
    }

    /// The parameters, leaving out the on/off flag.
    pub open spec fn params_eq(self, o: CursedControls) -> bool {
        self == CursedControls { enabled: self.enabled, ..o }
    }

    /// Switched off, with a fixed set of parameters.
    pub fn new() -> (r: CursedControls)
        ensures
            r.wf(),
            !r.enabled,
            r.speed_mul == 1800,
            r.invert_x == -1 && r.invert_y == 1,
            r.skew_x == 650 && r.skew_y == -350,
            r.swirl_strength == 350,
            r.aim_rotate == 900,
            r.aim_wobble == 350,
            r.aim_wobble_hz == 1700,
            r.aim_lag == 120,
            r.aim_jitter == 1000,
    {
        CursedControls {
            enabled: false,
            speed_mul: 1800,
            invert_x: -1,
            invert_y: 1,
            skew_x: 650,
            skew_y: -350,
            swirl_strength: 350,
            aim_rotate: 900,
            aim_wobble: 350,
            aim_wobble_hz: 1700,
            aim_lag: 120,
            aim_jitter: 1000,
        }
    }

    /// Switches the cursed mode on with the parameters of draw `d` and
    /// resets the smoothed aim: a drawn `true` inverts its axis.
    pub fn enable_with(&mut self, aim: &mut CursedAimState, d: &CursedDraw)
        requires
            d.wf(),
        ensures
            final(self).wf(),
            *final(self) == enabled_spec(*d),
            final(aim).current_dir.is_zero(),
    {
        *self = CursedControls {
            enabled: true,
            speed_mul: d.speed_mul,
            invert_x: if d.flip_x { -1 } else { 1 },
            invert_y: if d.flip_y { -1 } else { 1 },
            skew_x: d.skew_x,
            skew_y: d.skew_y,
            swirl_strength: d.swirl_strength,
            aim_rotate: d.aim_rotate,
            aim_wobble: d.aim_wobble,
            aim_wobble_hz: d.aim_wobble_hz,
            aim_lag: d.aim_lag,
            aim_jitter: d.aim_jitter,
        };
        aim.current_dir = Heading { x: 0, z: 0 };
    }

    /// Flips the cursed mode. Switching it on draws every parameter anew,
    /// in field order, takes them up (see `enable_with`) and returns the
    /// draw; switching it off changes nothing else and draws nothing.
    pub fn toggle(&mut self, aim: &mut CursedAimState, rng: &mut rand::rngs::SmallRng) -> (r: Option<CursedDraw>)
        requires
            old(self).wf(),
        ensures
            final(self).wf(),
            final(self).enabled == !old(self).enabled,
            (r is Some) == final(self).enabled,
            r matches Some(d) ==> d.wf() && *final(self) == enabled_spec(d) && final(aim).current_dir.is_zero(),
            !final(self).enabled ==> final(self).params_eq(*old(self)) && *final(aim) == *old(aim),
            !final(self).enabled ==> *final(rng) == *old(rng),
    {
        if self.enabled {
            self.enabled = false;
            return None;
        }
        let d = draw_cursed(rng);
        self.enable_with(aim, &d);
        Some(d)
    }
}

/// One draw of the cursed parameters: a value per parameter, and for each
/// axis whether it is inverted.
#[derive(Clone, Copy, Debug, PartialEq, Eq, Structural)]
pub struct CursedDraw {
    pub speed_mul: i64,
    pub flip_x: bool,
    pub flip_y: bool,
    pub skew_x: i64,
    pub skew_y: i64,
    pub swirl_strength: i64,
    pub aim_rotate: i64,
    pub aim_wobble: i64,
    pub aim_wobble_hz: i64,
    pub aim_lag: i64,
    pub aim_jitter: i64,
}

impl CursedDraw {
    /// Every value lies in the range it is drawn from.
    pub open spec fn wf(self) -> bool {
        &&& in_range(self.speed_mul, SPEED_MUL_RANGE)
        &&& in_range(self.skew_x, SKEW_RANGE)
        &&& in_range(self.skew_y, SKEW_RANGE)
        &&& in_range(self.swirl_strength, SWIRL_RANGE)
        &&& in_range(self.aim_rotate, ROTATE_RANGE)
        &&& in_range(self.aim_wobble, WOBBLE_RANGE)
        &&& in_range(self.aim_wobble_hz, WOBBLE_HZ_RANGE)
        &&& in_range(self.aim_lag, LAG_RANGE)
        &&& in_range(self.aim_jitter, JITTER_RANGE)
    }
}

/// The cursed controls switched on with the parameters of draw `d`.
pub open spec fn enabled_spec(d: CursedDraw) -> CursedControls {
    CursedControls {
        enabled: true,
        speed_mul: d.speed_mul,
        invert_x: if d.flip_x { -1i64 } else { 1i64 },
        invert_y: if d.flip_y { -1i64 } else { 1i64 },
        skew_x: d.skew_x,
        skew_y: d.skew_y,
        swirl_strength: d.swirl_strength,
        aim_rotate: d.aim_rotate,
        aim_wobble: d.aim_wobble,
        aim_wobble_hz: d.aim_wobble_hz,
        aim_lag: d.aim_lag,
        aim_jitter: d.aim_jitter,
    }
}

/// Chance that a drawn axis is inverted: 1 in 2.
pub const FLIP_CHANCE: (u32, u32) = (1, 2);

/// Draws the cursed parameters, in field order, each from its range; each
/// axis is inverted with a chance of 1 in 2.
pub fn draw_cursed(rng: &mut rand::rngs::SmallRng) -> (r: CursedDraw)
    ensures
        r.wf(),
{
    let speed_mul = draw_range(rng, SPEED_MUL_RANGE.0, SPEED_MUL_RANGE.1);
    let flip_x = draw_ratio(rng, FLIP_CHANCE.0, FLIP_CHANCE.1);
    let flip_y = draw_ratio(rng, FLIP_CHANCE.0, FLIP_CHANCE.1);
    let skew_x = draw_range(rng, SKEW_RANGE.0, SKEW_RANGE.1);
    let skew_y = draw_range(rng, SKEW_RANGE.0, SKEW_RANGE.1);
    let swirl_strength = draw_range(rng, SWIRL_RANGE.0, SWIRL_RANGE.1);
    let aim_rotate = draw_range(rng, ROTATE_RANGE.0, ROTATE_RANGE.1);
    let aim_wobble = draw_range(rng, WOBBLE_RANGE.0, WOBBLE_RANGE.1);
    let aim_wobble_hz = draw_range(rng, WOBBLE_HZ_RANGE.0, WOBBLE_HZ_RANGE.1);
    let aim_lag = draw_range(rng, LAG_RANGE.0, LAG_RANGE.1);
    let aim_jitter = draw_range(rng, JITTER_RANGE.0, JITTER_RANGE.1);
    CursedDraw {
        speed_mul,
        flip_x,
        flip_y,
        skew_x,
        skew_y,
        swirl_strength,
        aim_rotate,
        aim_wobble,
        aim_wobble_hz,
        aim_lag,
        aim_jitter,
    }
}

/// Largest magnitude of an input component once corrupted.
pub const MOVE_INPUT_LIMIT: i64 = 10_000_000;

/// The corrupted input: skewed and inverted, swirled by `wave` (a sample of
/// the time-varying swirl direction, in thousandths), then scaled.
pub open spec fn cursed_input_spec(c: CursedControls, input: Vec2i, wave: Vec2i) -> (int, int) {
    let x = input.x * c.invert_x + trunc_div(input.y * c.skew_x, 1000);
    let y = input.y * c.invert_y + trunc_div(input.x * c.skew_y, 1000);
    let sx = trunc_div(wave.x * c.swirl_strength, 1000);
    let sy = trunc_div(wave.y * c.swirl_strength, 1000);
    (trunc_div((x + sx) * c.speed_mul, 1000), trunc_div((y + sy) * c.speed_mul, 1000))
}

/// The displacement for an input held during `dt` milliseconds at `speed`
/// thousandths of a unit per second. It is not normalized: a diagonal input
/// moves farther than a straight one.
pub open spec fn displacement_spec(input: Vec2i, speed: int, dt: int) -> Displacement {
    Displacement {
        right: trunc_div(input.x * speed * dt, 1_000_000) as i64,
        forward: trunc_div(input.y * speed * dt, 1_000_000) as i64,
    }
}

/// The input that drives movement: the raw input, or its corruption while
/// the cursed mode is on.
pub open spec fn effective_input_spec(c: CursedControls, input: Vec2i, wave: Vec2i) -> Vec2i {
    if c.enabled {
        Vec2i { x: cursed_input_spec(c, input, wave).0 as i64, y: cursed_input_spec(c, input, wave).1 as i64 }
    } else {
        input
    }
}

pub open spec fn input_ok(input: Vec2i, wave: Vec2i) -> bool {
    &&& abs_le(input.x as int, INPUT_LIMIT as int)
    &&& abs_le(input.y as int, INPUT_LIMIT as int)
    &&& abs_le(wave.x as int, 1000)
    &&& abs_le(wave.y as int, 1000)
}

fn skew_axis(a: i64, inv: i64, b: i64, skew: i64, wave: i64, swirl: i64, mul: i64) -> (r: i64)
    requires
        abs_le(a as int, INPUT_LIMIT as int),
        abs_le(b as int, INPUT_LIMIT as int),
        abs_le(wave as int, 1000),
        is_sign(inv as int),
        in_range(skew, SKEW_RANGE),
        in_range(swirl, SWIRL_RANGE),
        in_range(mul, SPEED_MUL_RANGE),
    ensures
        r == trunc_div((a * inv + trunc_div(b * skew, 1000) + trunc_div(wave * swirl, 1000)) * mul, 1000),
        abs_le(r as int, MOVE_INPUT_LIMIT as int),
{
    proof {
        lemma_mul_bound(b as int, skew as int, INPUT_LIMIT as int, 1000);
        lemma_trunc_div_bound(b * skew, 1000, INPUT_LIMIT * 1000);
        lemma_mul_bound(wave as int, swirl as int, 1000, 1000);
        lemma_trunc_div_bound(wave * swirl, 1000, 1_000_000);
    }
    let turned: i64 = if inv < 0 { -a } else { a };
    let v = turned + div_toward_zero(b * skew, 1000) + div_toward_zero(wave * swirl, 1000);
    proof {
        lemma_mul_bound(v as int, mul as int, 2_001_000, 3000);
        lemma_trunc_div_bound(v * mul, 1000, 6_003_000_000);
    }
    div_toward_zero(v * mul, 1000)
}

impl CursedControls {
    /// The input corrupted by the cursed parameters, whether or not the
    /// mode is on.
    pub fn cursed_input(&self, input: Vec2i, wave: Vec2i) -> (r: Vec2i)
        requires
            self.wf(),
            input_ok(input, wave),
        ensures
            (r.x as int, r.y as int) == cursed_input_spec(*self, input, wave),
            abs_le(r.x as int, MOVE_INPUT_LIMIT as int),
            abs_le(r.y as int, MOVE_INPUT_LIMIT as int),
    {
        let x = skew_axis(input.x, self.invert_x, input.y, self.skew_x, wave.x, self.swirl_strength, self.speed_mul);
        let y = skew_axis(input.y, self.invert_y, input.x, self.skew_y, wave.y, self.swirl_strength, self.speed_mul);
        Vec2i { x, y }
    }

    /// The input that drives movement this tick.
    pub fn effective_input(&self, input: Vec2i, wave: Vec2i) -> (r: Vec2i)
        requires
            self.wf(),
            input_ok(input, wave),
        ensures
            r == effective_input_spec(*self, input, wave),
            abs_le(r.x as int, MOVE_INPUT_LIMIT as int),
            abs_le(r.y as int, MOVE_INPUT_LIMIT as int),
    {
        if self.enabled {
            self.cursed_input(input, wave)
        } else {
            input
        }
    }
}

/// The displacement for `input` held for `dt` milliseconds at `speed`
/// thousandths of a unit per second, along the right and forward axes.
pub fn move_displacement(input: Vec2i, speed: i64, dt: i64) -> (r: Displacement)
    requires
        abs_le(input.x as int, MOVE_INPUT_LIMIT as int),
        abs_le(input.y as int, MOVE_INPUT_LIMIT as int),
        0 <= speed <= SPEED_LIMIT,
        0 <= dt <= TICK_LIMIT,
    ensures
        r == displacement_spec(input, speed as int, dt as int),
{
    proof {
        lemma_mul_bound(input.x as int, speed as int, MOVE_INPUT_LIMIT as int, SPEED_LIMIT as int);
        lemma_mul_bound(input.y as int, speed as int, MOVE_INPUT_LIMIT as int, SPEED_LIMIT as int);
        lemma_mul_bound(input.x * speed, dt as int, MOVE_INPUT_LIMIT * SPEED_LIMIT, TICK_LIMIT as int);
        lemma_mul_bound(input.y * speed, dt as int, MOVE_INPUT_LIMIT * SPEED_LIMIT, TICK_LIMIT as int);
    }
    Displacement {
        right: div_toward_zero(input.x * speed * dt, 1_000_000),
        forward: div_toward_zero(input.y * speed * dt, 1_000_000),
    }
}

/// One tick of player movement: the raw input, corrupted while the cursed
/// mode is on, turned into a displacement that is deliberately not
/// normalized.
pub fn apply_movement(c: &CursedControls, input: Vec2i, wave: Vec2i, speed: i64, dt: i64) -> (r: Displacement)
    requires
        c.wf(),
        input_ok(input, wave),
        0 <= speed <= SPEED_LIMIT,
        0 <= dt <= TICK_LIMIT,
    ensures
        r == displacement_spec(effective_input_spec(*c, input, wave), speed as int, dt as int),
{
    let eff = c.effective_input(input, wave);
    move_displacement(eff, speed, dt)
}

/// A diagonal input moves farther than a straight one: the displacement
/// for `(k, k)` is that for `(k, 0)` on both axes, so its squared length is
/// twice as large.
pub proof fn lemma_diagonal_not_normalized(k: i64, speed: int, dt: int)
    ensures
        displacement_spec(Vec2i { x: k, y: k }, speed, dt).right
            == displacement_spec(Vec2i { x: k, y: 0 }, speed, dt).right,
        displacement_spec(Vec2i { x: k, y: k }, speed, dt).forward
            == displacement_spec(Vec2i { x: k, y: 0 }, speed, dt).right,
        displacement_spec(Vec2i { x: k, y: 0 }, speed, dt).forward == 0,
{
    assert(0 * speed * dt == 0) by (nonlinear_arith);
}

/// Division rounded toward zero by a divisor of either sign.
pub open spec fn signed_div(a: int, d: int) -> int {
    if d > 0 {
        trunc_div(a, d)
    } else {
        trunc_div(-a, -d)
    }
}

/// Where the ray from `o` along `d` meets the ground plane `y = 0`: none
/// when the ray runs parallel to it, meets it behind its origin, or meets it
/// beyond the world's bounds.
pub open spec fn ground_hit_spec(o: Point3, d: Point3) -> Option<Point3> {
    if d.y == 0 || (o.y > 0 && d.y > 0) || (o.y < 0 && d.y < 0) {
        None
    } else {
        let x = o.x + signed_div(d.x * (-o.y), d.y as int);
        let z = o.z + signed_div(d.z * (-o.y), d.y as int);
        if coord_ok(x) && coord_ok(z) {
            Some(Point3 { x: x as i64, y: 0, z: z as i64 })
        } else {
            None
        }
    }
}

fn ray_step(o: i64, d: i64, oy: i64, dy: i64) -> (r: i64)
    requires
        coord_ok(o as int),
        coord_ok(oy as int),
        abs_le(d as int, 1000),
        abs_le(dy as int, 1000),
        dy != 0,
    ensures
        r == o + signed_div(d * (-oy), dy as int),
{
    proof {
        lemma_mul_bound(d as int, -oy, 1000, 1_000_000_000);
        lemma_trunc_div_bound(d * (-oy), if dy > 0 { dy as int } else { -dy }, 1_000_000_000_000);
        lemma_trunc_div_bound(-(d * (-oy)), if dy > 0 { dy as int } else { -dy }, 1_000_000_000_000);
        assert(1_000_000_000_000int / (if dy > 0 { dy as int } else { -dy }) <= 1_000_000_000_000) by {
            vstd::arithmetic::div_mod::lemma_div_is_ordered_by_denominator(1_000_000_000_000, 1, if dy > 0 { dy as int } else { -dy });
        }
    }
    let num = d * (-oy);
    if dy > 0 {
        o + div_toward_zero(num, dy)
    } else {
        o + div_toward_zero(-num, -dy)
    }
}

/// The point on the ground under the cursor, from the camera ray through it
/// (`d` is a direction of length about 1000).
pub fn ground_target(o: Point3, d: Point3) -> (r: Option<Point3>)
    requires
        o.bounded(),
        abs_le(d.x as int, 1000),
        abs_le(d.y as int, 1000),
        abs_le(d.z as int, 1000),
    ensures
        r == ground_hit_spec(o, d),
{
    if d.y == 0 || (o.y > 0 && d.y > 0) || (o.y < 0 && d.y < 0) {
        return None;
    }
    let x = ray_step(o.x, d.x, o.y, d.y);
    let z = ray_step(o.z, d.z, o.y, d.y);
    if -COORD_LIMIT <= x && x <= COORD_LIMIT && -COORD_LIMIT <= z && z <= COORD_LIMIT {
        Some(Point3 { x, y: 0, z })
    } else {
        None
    }
}

/// Largest magnitude of a component of an aim offset, jitter included.
pub const AIM_OFFSET_LIMIT: i64 = 3_000_010_000;

/// `(x, z)` scaled to length about 1000, rounded toward zero; none for the
/// zero vector.
pub open spec fn unit_spec(x: int, z: int) -> Option<Heading> {
    let len = floor_sqrt((x * x + z * z) as nat);
    if len == 0 {
        None
    } else {
        Some(Heading { x: trunc_div(x * 1000, len as int) as i64, z: trunc_div(z * 1000, len as int) as i64 })
    }
}

proof fn lemma_component_le_len(x: int, z: int, len: int)
    requires
        is_floor_sqrt(x * x + z * z, len),
    ensures
        abs_le(x, len),
        abs_le(x * 1000, len * 1000),
{
    assert(abs_le(x, len)) by (nonlinear_arith)
        requires
            (len + 1) * (len + 1) > x * x + z * z,
            len >= 0,
    {
        if x > len {
            assert(x * x >= (len + 1) * (len + 1));
        } else if x < -len {
            assert(x * x >= (len + 1) * (len + 1));
        }
    }
}

proof fn lemma_unit_component(x: int, z: int, len: int)
    requires
        is_floor_sqrt(x * x + z * z, len),
        len > 0,
    ensures
        abs_le(trunc_div(x * 1000, len), 1000),
{
    lemma_component_le_len(x, z, len);
    lemma_trunc_div_bound(x * 1000, len, len * 1000);
    assert((len * 1000) / len == 1000) by {
        vstd::arithmetic::div_mod::lemma_div_multiples_vanish(1000, len);
    }
}

fn abs_u64(v: i64) -> (r: u64)
    requires
        v > i64::MIN,
    ensures
        r as int == if v < 0 { -v } else { v as int },
{
    if v < 0 {
        (-v) as u64
    } else {
        v as u64
    }
}

/// The horizontal direction of `v`, scaled to length about 1000.
pub fn unit_heading(v: Heading) -> (r: Option<Heading>)
    requires
        abs_le(v.x as int, AIM_OFFSET_LIMIT as int),
        abs_le(v.z as int, AIM_OFFSET_LIMIT as int),
    ensures
        r == unit_spec(v.x as int, v.z as int),
        r matches Some(h) ==> abs_le(h.x as int, 1000) && abs_le(h.z as int, 1000),
{
    let ax = abs_u64(v.x);
    let az = abs_u64(v.z);
    proof {
        lemma_mul_bound(ax as int, ax as int, AIM_OFFSET_LIMIT as int, AIM_OFFSET_LIMIT as int);
        lemma_mul_bound(az as int, az as int, AIM_OFFSET_LIMIT as int, AIM_OFFSET_LIMIT as int);
        assert(ax * ax == v.x * v.x) by (nonlinear_arith)
            requires
                ax as int == if v.x < 0 { -v.x } else { v.x as int },
        ;
        assert(az * az == v.z * v.z) by (nonlinear_arith)
            requires
                az as int == if v.z < 0 { -v.z } else { v.z as int },
        ;
    }
    let len = isqrt((ax * ax + az * az) as u128);
    if len == 0 {
        return None;
    }
    proof {
        lemma_unit_component(v.x as int, v.z as int, len as int);
        lemma_unit_component(v.z as int, v.x as int, len as int);
        assert(len <= 4_300_000_000) by (nonlinear_arith)
            requires
                len * len <= ax * ax + az * az,
                ax * ax + az * az <= 18_000_120_000_200_000_000,
        ;
        lemma_mul_bound(v.x as int, 1000, AIM_OFFSET_LIMIT as int, 1000);
        lemma_mul_bound(v.z as int, 1000, AIM_OFFSET_LIMIT as int, 1000);
    }
    let l = len as i64;
    Some(Heading { x: div_toward_zero(v.x * 1000, l), z: div_toward_zero(v.z * 1000, l) })
}

/// Largest magnitude of a component of an aim offset before jitter.
pub const AIM_LIMIT: i64 = 3_000_000_000;

/// Blend factor of the aim smoothing, in thousandths:
/// `clamp(lag * 60 * dt, 0.01, 0.35)`.
pub open spec fn blend_spec(lag: int, dt: int) -> int {
    let a = lag * 60 * dt / 1000;
    if a < 10 {
        10
    } else if a > 350 {
        350
    } else {
        a
    }
}

/// `cur` moved toward `des` by `alpha` thousandths of the way.
pub open spec fn lerp_spec(cur: Heading, des: Heading, alpha: int) -> (int, int) {
    (
        cur.x + trunc_div((des.x - cur.x) * alpha, 1000),
        cur.z + trunc_div((des.z - cur.z) * alpha, 1000),
    )
}

impl CursedAimState {
    /// The smoothed direction is zero or of length about 1000.
    pub open spec fn wf(self) -> bool {
        abs_le(self.current_dir.x as int, 1000) && abs_le(self.current_dir.z as int, 1000)
    }

    /// The facing chosen for an aim `offset` from the player (after the
    /// cursed rotation, when the mode is on) plus `jitter`, and the smoothed
    /// direction kept afterwards.
    pub open spec fn aim_spec(self, c: CursedControls, offset: Heading, jitter: Heading, dt: int) -> (Option<Heading>, CursedAimState) {
        let tx = if c.enabled { offset.x + jitter.x } else { offset.x as int };
        let tz = if c.enabled { offset.z + jitter.z } else { offset.z as int };
        match unit_spec(tx, tz) {
            None => (None, self),
            Some(desired) => if !c.enabled {
                (Some(desired), CursedAimState { current_dir: Heading { x: 0, z: 0 } })
            } else if self.current_dir.is_zero() {
                (Some(desired), CursedAimState { current_dir: desired })
            } else {
                let m = lerp_spec(self.current_dir, desired, blend_spec(c.aim_lag as int, dt));
                match unit_spec(m.0, m.1) {
                    None => (None, CursedAimState { current_dir: Heading { x: 0, z: 0 } }),
                    Some(h) => (Some(h), CursedAimState { current_dir: h }),
                }
            },
        }
    }

    /// Chooses the player's facing. Off the cursed mode the facing snaps to
    /// the direction of `offset` and the smoothed direction is cleared; on
    /// it, `offset` is first displaced by `jitter` and the facing eases from
    /// the smoothed direction toward the desired one. A zero offset leaves
    /// the facing and the state as they were.
    pub fn aim(&mut self, c: &CursedControls, offset: Heading, jitter: Heading, dt: i64) -> (r: Option<Heading>)
        requires
            old(self).wf(),
            c.wf(),
            abs_le(offset.x as int, AIM_LIMIT as int),
            abs_le(offset.z as int, AIM_LIMIT as int),
            abs_le(jitter.x as int, JITTER_RANGE.1 as int),
            abs_le(jitter.z as int, JITTER_RANGE.1 as int),
            0 <= dt <= TICK_LIMIT,
        ensures
            final(self).wf(),
            (r, *final(self)) == old(self).aim_spec(*c, offset, jitter, dt as int),
    {
        let target = if c.enabled {
            Heading { x: offset.x + jitter.x, z: offset.z + jitter.z }
        } else {
            offset
        };
        let desired = match unit_heading(target) {
            None => return None,
            Some(h) => h,
        };
        if !c.enabled {
            self.current_dir = Heading { x: 0, z: 0 };
            return Some(desired);
        }
        if self.current_dir.x == 0 && self.current_dir.z == 0 {
            self.current_dir = desired;
            return Some(desired);
        }
        proof {
            lemma_mul_bound(c.aim_lag * 60, dt as int, 13_200, TICK_LIMIT as int);
        }
        let raw = c.aim_lag * 60 * dt / 1000;
        let alpha = if raw < 10 {
            10
        } else if raw > 350 {
            350
        } else {
            raw
        };
        let cur = self.current_dir;
        proof {
            lemma_mul_bound(desired.x - cur.x, alpha as int, 2000, 350);
            lemma_mul_bound(desired.z - cur.z, alpha as int, 2000, 350);
        }
        let mx = cur.x + div_toward_zero((desired.x - cur.x) * alpha, 1000);
        let mz = cur.z + div_toward_zero((desired.z - cur.z) * alpha, 1000);
        match unit_heading(Heading { x: mx, z: mz }) {
            None => {
                self.current_dir = Heading { x: 0, z: 0 };
                None
            },
            Some(h) => {
                self.current_dir = h;
                Some(h)
            },
        }
    }
}

impl CursedControls {
    /// The rotation applied to the aim while the mode is on, in
    /// milliradians, for a sample `wave` of the wobble (its sine, in
    /// thousandths).
    pub fn aim_angle(&self, wave: i64) -> (r: i64)
        requires
            self.wf(),
            abs_le(wave as int, 1000),
        ensures
            r == self.aim_rotate + trunc_div(self.aim_wobble * wave, 1000),
    {
        proof {
            lemma_mul_bound(self.aim_wobble as int, wave as int, 900, 1000);
            lemma_trunc_div_bound(self.aim_wobble * wave, 1000, 900_000);
        }
        self.aim_rotate + div_toward_zero(self.aim_wobble * wave, 1000)
    }

    /// The jitter added to the aim this tick: none off the cursed mode; on
    /// it, a draw with a chance of 2 in 25 decides whether the offset drawn
    /// on each axis from `-aim_jitter..aim_jitter` is taken (see
    /// `jitter_of`).
    pub fn aim_jitter(&self, rng: &mut rand::rngs::SmallRng) -> (r: Heading)
        requires
            self.wf(),
        ensures
            !self.enabled ==> r.is_zero(),
            !self.enabled ==> *final(rng) == *old(rng),
            -self.aim_jitter <= r.x < self.aim_jitter || r.x == 0,
            -self.aim_jitter <= r.z < self.aim_jitter || r.z == 0,
            abs_le(r.x as int, JITTER_RANGE.1 as int),
            abs_le(r.z as int, JITTER_RANGE.1 as int),
    {
        if !self.enabled {
            return Heading { x: 0, z: 0 };
        }
        let hit = draw_ratio(rng, JITTER_CHANCE.0, JITTER_CHANCE.1);
        if hit {
            let x = draw_range(rng, -self.aim_jitter, self.aim_jitter);
            let z = draw_range(rng, -self.aim_jitter, self.aim_jitter);
            jitter_of(hit, x, z)
        } else {
            jitter_of(hit, 0, 0)
        }
    }
}

/// The aim jitter for a chance draw `hit` and offsets `x`, `z`: the offsets
/// when the chance came up, none otherwise.
pub fn jitter_of(hit: bool, x: i64, z: i64) -> (r: Heading)
    ensures
        r == (if hit { Heading { x, z } } else { Heading { x: 0, z: 0 } }),
{
    if hit {
        Heading { x, z }
    } else {
        Heading { x: 0, z: 0 }
    }
}

/// Where the camera moves this tick: from `cam` toward the player plus the
/// camera's fixed `offset`, by eight times the tick's length in seconds.
pub open spec fn follow_spec(cam: Point3, player: Point3, offset: Point3, dt: int) -> Point3 {
    Point3 {
        x: (cam.x + trunc_div((player.x + offset.x - cam.x) * 8 * dt, 1000)) as i64,
        y: (cam.y + trunc_div((player.y + offset.y - cam.y) * 8 * dt, 1000)) as i64,
        z: (cam.z + trunc_div((player.z + offset.z - cam.z) * 8 * dt, 1000)) as i64,
    }
}

fn follow_axis(cam: i64, target: i64, dt: i64) -> (r: i64)
    requires
        coord_ok(cam as int),
        abs_le(target as int, 2_000_000_000),
        0 <= dt <= TICK_LIMIT,
    ensures
        r == cam + trunc_div((target - cam) * 8 * dt, 1000),
{
    proof {
        lemma_mul_bound((target - cam) * 8, dt as int, 24_000_000_000, TICK_LIMIT as int);
        lemma_trunc_div_bound((target - cam) * 8 * dt, 1000, 24_000_000_000 * TICK_LIMIT);
    }
    cam + div_toward_zero((target - cam) * 8 * dt, 1000)
}

/// The camera's position after easing toward the player for `dt`
/// milliseconds.
pub fn camera_follow(cam: Point3, player: Point3, offset: Point3, dt: i64) -> (r: Point3)
    requires
        cam.bounded(),
        player.bounded(),
        offset.bounded(),
        0 <= dt <= TICK_LIMIT,
    ensures
        r == follow_spec(cam, player, offset, dt as int),
{
    Point3 {
        x: follow_axis(cam.x, player.x + offset.x, dt),
        y: follow_axis(cam.y, player.y + offset.y, dt),
        z: follow_axis(cam.z, player.z + offset.z, dt),
    }
}

} // verus!

use crate::geometry::{abs_le, div_toward_zero, lemma_mul_bound, trunc_div, unit3, unit3_spec, Point3};
use vstd::prelude::*;

verus! {

/// Longest beam, in thousandths of a unit.
pub const RANGE_LIMIT: i64 = 1_000_000;

/// Brightest beam.
pub const INTENSITY_LIMIT: i64 = 1_000_000_000_000;

/// How far along the reflected direction the reflected beam starts from the
/// hit point, in thousandths of a unit.
pub const REFLECT_OFFSET: i64 = 150;

/// A cone of light: where it starts, where it points (a direction of length
/// about 1000), its half-angles in milliradians, its reach in thousandths of
/// a unit and its intensity.
#[derive(Clone, Copy, Debug, PartialEq, Eq, Structural)]
pub struct Spotlight {
    pub pos: Point3,
    pub dir: Point3,
    pub inner_angle: i64,
    pub outer_angle: i64,
    pub range: i64,
    pub intensity: i64,
    pub visible: bool,
}

pub open spec fn is_direction(d: Point3) -> bool {
    abs_le(d.x as int, 1000) && abs_le(d.y as int, 1000) && abs_le(d.z as int, 1000)
}

impl Spotlight {
    pub open spec fn wf(self) -> bool {
        &&& self.pos.bounded()
        &&& is_direction(self.dir)
        &&& 0 <= self.range <= RANGE_LIMIT
        &&& 0 <= self.intensity <= INTENSITY_LIMIT
    }
}

/// Where the beam's ray met a mirror: the distance along the ray, in
/// thousandths of a unit, and the mirror's normal in world space (its own
/// normal turned by its orientation), of length at most about 1000.
#[derive(Clone, Copy, Debug, PartialEq, Eq, Structural)]
pub struct MirrorHit {
    pub toi: i64,
    pub normal: Point3,
}

pub open spec fn dot(a: Point3, b: Point3) -> int {
    a.x * b.x + a.y * b.y + a.z * b.z
}

/// `d` reflected about the plane with normal `n`, scaled by `n . n`:
/// `(n . n) d - 2 (d . n) n`.
pub open spec fn reflect_spec(d: Point3, n: Point3) -> Point3 {
    Point3 {
        x: (dot(n, n) * d.x - 2 * dot(d, n) * n.x) as i64,
        y: (dot(n, n) * d.y - 2 * dot(d, n) * n.y) as i64,
        z: (dot(n, n) * d.z - 2 * dot(d, n) * n.z) as i64,
    }
}

proof fn lemma_dot_bound(a: Point3, b: Point3)
    requires
        is_direction(a),
        is_direction(b),
    ensures
        abs_le(dot(a, b), 3_000_000),
{
    lemma_mul_bound(a.x as int, b.x as int, 1000, 1000);
    lemma_mul_bound(a.y as int, b.y as int, 1000, 1000);
    lemma_mul_bound(a.z as int, b.z as int, 1000, 1000);
}

fn dot3(a: Point3, b: Point3) -> (r: i64)
    requires
        is_direction(a),
        is_direction(b),
    ensures
        r == dot(a, b),
        abs_le(r as int, 3_000_000),
{
    proof {
        lemma_dot_bound(a, b);
        lemma_mul_bound(a.x as int, b.x as int, 1000, 1000);
        lemma_mul_bound(a.y as int, b.y as int, 1000, 1000);
        lemma_mul_bound(a.z as int, b.z as int, 1000, 1000);
    }
    a.x * b.x + a.y * b.y + a.z * b.z
}

fn reflect_axis(nn: i64, d: i64, dn: i64, n: i64) -> (r: i64)
    requires
        abs_le(nn as int, 3_000_000),
        abs_le(dn as int, 3_000_000),
        abs_le(d as int, 1000),
        abs_le(n as int, 1000),
    ensures
        r == nn * d - 2 * dn * n,
        abs_le(r as int, 9_000_000_000),
{
    proof {
        lemma_mul_bound(nn as int, d as int, 3_000_000, 1000);
        lemma_mul_bound(2 * dn, n as int, 6_000_000, 1000);
    }
    nn * d - 2 * dn * n
}

/// The reflection of direction `d` on a mirror with normal `n`, scaled by
/// `n . n`.
pub fn reflect(d: Point3, n: Point3) -> (r: Point3)
    requires
        is_direction(d),
        is_direction(n),
    ensures
        r == reflect_spec(d, n),
        abs_le(r.x as int, 9_000_000_000),
        abs_le(r.y as int, 9_000_000_000),
        abs_le(r.z as int, 9_000_000_000),
{
    let nn = dot3(n, n);
    let dn = dot3(d, n);
    Point3 { x: reflect_axis(nn, d.x, dn, n.x), y: reflect_axis(nn, d.y, dn, n.y), z: reflect_axis(nn, d.z, dn, n.z) }
}

/// The point `toi` thousandths of a unit along `dir` from `pos`.
pub open spec fn along_spec(pos: Point3, dir: Point3, toi: int) -> Point3 {
    Point3 {
        x: (pos.x + trunc_div(dir.x * toi, 1000)) as i64,
        y: (pos.y + trunc_div(dir.y * toi, 1000)) as i64,
        z: (pos.z + trunc_div(dir.z * toi, 1000)) as i64,
    }
}

/// The reflected beam after this tick: hidden, with its pose kept, when
/// the source ray meets no mirror or reflects to nothing; otherwise placed
/// just off the hit point along the reflected direction, with the source's
/// angles, twice its range and one and a half times its intensity.
pub open spec fn reflected_spec(beam: Spotlight, source: Spotlight, hit: Option<MirrorHit>) -> Spotlight {
    match hit {
        None => Spotlight { visible: false, ..beam },
        Some(h) => match unit3_spec(reflect_spec(source.dir, h.normal)) {
            None => Spotlight { visible: false, ..beam },
            Some(r) => Spotlight {
                pos: along_spec(along_spec(source.pos, source.dir, h.toi as int), r, REFLECT_OFFSET as int),
                dir: r,
                inner_angle: source.inner_angle,
                outer_angle: source.outer_angle,
                range: (source.range * 2) as i64,
                intensity: (source.intensity * 3 / 2) as i64,
                visible: true,
            },
        },
    }
}

fn step_axis(p: i64, d: i64, toi: i64) -> (r: i64)
    requires
        abs_le(p as int, 2_000_000_000),
        abs_le(d as int, 1000),
        0 <= toi <= RANGE_LIMIT,
    ensures
        r == p + trunc_div(d * toi, 1000),
        abs_le(r - p, 1_000_000),
{
    proof {
        lemma_mul_bound(d as int, toi as int, 1000, RANGE_LIMIT as int);
        crate::geometry::lemma_trunc_div_bound(d * toi, 1000, 1000 * RANGE_LIMIT);
    }
    p + div_toward_zero(d * toi, 1000)
}

fn along(pos: Point3, dir: Point3, toi: i64) -> (r: Point3)
    requires
        abs_le(pos.x as int, 2_000_000_000),
        abs_le(pos.y as int, 2_000_000_000),
        abs_le(pos.z as int, 2_000_000_000),
        is_direction(dir),
        0 <= toi <= RANGE_LIMIT,
    ensures
        r == along_spec(pos, dir, toi as int),
        abs_le(r.x - pos.x, 1_000_000),
        abs_le(r.y - pos.y, 1_000_000),
        abs_le(r.z - pos.z, 1_000_000),
{
    Point3 { x: step_axis(pos.x, dir.x, toi), y: step_axis(pos.y, dir.y, toi), z: step_axis(pos.z, dir.z, toi) }
}

impl Spotlight {
    /// Recomputes this reflected beam from the `source` beam and where its
    /// ray met a mirror this tick, if it did.
    pub fn update_reflection(&mut self, source: &Spotlight, hit: Option<MirrorHit>)
        requires
            source.wf(),
            hit matches Some(h) ==> 0 <= h.toi <= source.range && is_direction(h.normal),
        ensures
            *final(self) == reflected_spec(*old(self), *source, hit),
            final(self).visible <==> (hit is Some && unit3_spec(reflect_spec(source.dir, hit->0.normal)) is Some),
    {
        let h = match hit {
            None => {
                self.visible = false;
                return;
            },
            Some(h) => h,
        };
        let r = match unit3(reflect(source.dir, h.normal)) {
            None => {
                self.visible = false;
                return;
            },
            Some(r) => r,
        };
        let hit_point = along(source.pos, source.dir, h.toi);
        self.pos = along(hit_point, r, REFLECT_OFFSET);
        self.dir = r;
        self.inner_angle = source.inner_angle;
        self.outer_angle = source.outer_angle;
        self.range = source.range * 2;
        self.intensity = source.intensity * 3 / 2;
        self.visible = true;
    }

    /// Half the height of the cone shape that stands for the beam in
    /// overlap queries: half its range.
    pub fn cone_half_height(&self) -> (r: i64)
        requires
            self.wf(),
        ensures
            r == self.range / 2,
    {
        self.range / 2
    }

    /// Centre of that cone: half the range ahead of the light along its
    /// direction, so that its apex sits at the light.
    pub fn cone_center(&self) -> (r: Point3)
        requires
            self.wf(),
        ensures
            r == along_spec(self.pos, self.dir, self.range / 2),
    {
        along(self.pos, self.dir, self.range / 2)
    }
}

} // verus!

use vstd::prelude::*;

verus! {

/// Largest magnitude of a coordinate the simulation handles (one million
/// world units, in thousandths).
pub const COORD_LIMIT: i64 = 1_000_000_000;

/// A point or vector in world space, in thousandths of a world unit.
#[derive(Clone, Copy, Debug, PartialEq, Eq, Structural)]
pub struct Point3 {
    pub x: i64,
    pub y: i64,
    pub z: i64,
}

pub open spec fn coord_ok(c: int) -> bool {
    -COORD_LIMIT <= c <= COORD_LIMIT
}

impl Point3 {
    /// Every coordinate is within `COORD_LIMIT`.
    pub open spec fn bounded(self) -> bool {
        coord_ok(self.x as int) && coord_ok(self.y as int) && coord_ok(self.z as int)
    }

    pub open spec fn is_zero(self) -> bool {
        self.x == 0 && self.y == 0 && self.z == 0
    }

    pub fn new(x: i64, y: i64, z: i64) -> (r: Point3)
        ensures
            r.x == x && r.y == y && r.z == z,
    {
        Point3 { x, y, z }
    }

    pub fn zero() -> (r: Point3)
        ensures
            r.x == 0 && r.y == 0 && r.z == 0,
    {
        Point3 { x: 0, y: 0, z: 0 }
    }
}

/// Division rounded toward zero, as integer division does on machine words.
pub open spec fn trunc_div(a: int, d: int) -> int {
    if a >= 0 {
        a / d
    } else {
        -((-a) / d)
    }
}

/// `a / d`, rounded toward zero.
pub fn div_toward_zero(a: i64, d: i64) -> (r: i64)
    requires
        d > 0,
        a > i64::MIN,
    ensures
        r == trunc_div(a as int, d as int),
{
    if a >= 0 {
        a / d
    } else {
        -((-a) / d)
    }
}

/// `v` lies within `b` of zero.
pub open spec fn abs_le(v: int, b: int) -> bool {
    -b <= v <= b
}

/// A bound on a product from bounds on its factors.
pub proof fn lemma_mul_bound(a: int, b: int, ba: int, bb: int)
    requires
        abs_le(a, ba),
        abs_le(b, bb),
    ensures
        abs_le(a * b, ba * bb),
{
    assert(abs_le(a * b, ba * bb)) by (nonlinear_arith)
        requires
            abs_le(a, ba),
            abs_le(b, bb),
    ;
}

/// A bound on a quotient rounded toward zero.
pub proof fn lemma_trunc_div_bound(a: int, d: int, b: int)
    requires
        abs_le(a, b),
        d > 0,
    ensures
        abs_le(trunc_div(a, d), b / d),
{
    if a >= 0 {
        vstd::arithmetic::div_mod::lemma_div_is_ordered(a, b, d);
        vstd::arithmetic::div_mod::lemma_div_pos_is_pos(a, d);
    } else {
        vstd::arithmetic::div_mod::lemma_div_is_ordered(-a, b, d);
        vstd::arithmetic::div_mod::lemma_div_pos_is_pos(-a, d);
    }
}

/// `r` is the integer square root of `n`.
pub open spec fn is_floor_sqrt(n: int, r: int) -> bool {
    0 <= r && r * r <= n && n < (r + 1) * (r + 1)
}

/// The largest `r <= k` with `r * r <= n`.
pub open spec fn sqrt_below(n: nat, k: nat) -> nat
    decreases k,
{
    if k * k <= n || k == 0 {
        k
    } else {
        sqrt_below(n, (k - 1) as nat)
    }
}

/// The integer square root: the largest `r` with `r * r <= n`.
pub open spec fn floor_sqrt(n: nat) -> nat {
    sqrt_below(n, n)
}

proof fn lemma_sqrt_below(n: nat, k: nat, r: nat)
    requires
        is_floor_sqrt(n as int, r as int),
        r <= k,
    ensures
        sqrt_below(n, k) == r,
    decreases k,
{
    if k == r {
    } else {
        assert(k * k >= (r + 1) * (r + 1)) by (nonlinear_arith)
            requires
                k >= r + 1,
        ;
        lemma_sqrt_below(n, (k - 1) as nat, r);
    }
}

/// A witness of the integer square root is the integer square root.
pub proof fn lemma_floor_sqrt_unique(n: nat, r: nat)
    requires
        is_floor_sqrt(n as int, r as int),
    ensures
        floor_sqrt(n) == r,
{
    assert(r <= n) by (nonlinear_arith)
        requires
            r * r <= n,
    ;
    lemma_sqrt_below(n, n, r);
}

/// The integer square root never decreases as its argument grows.
pub proof fn lemma_floor_sqrt_monotone(a: nat, b: nat)
    requires
        a <= b,
    ensures
        floor_sqrt(a) <= floor_sqrt(b),
{
    let ra = isqrt_ghost(a);
    let rb = isqrt_ghost(b);
    if ra > rb {
        assert(ra * ra >= (rb + 1) * (rb + 1)) by (nonlinear_arith)
            requires
                ra >= rb + 1,
                rb >= 0,
        ;
    }
}

proof fn isqrt_ghost(n: nat) -> (r: nat)
    ensures
        is_floor_sqrt(n as int, r as int),
        floor_sqrt(n) == r,
{
    assert(n < (n + 1) * (n + 1)) by (nonlinear_arith);
    let r = exists_floor_sqrt(n, n + 1);
    lemma_floor_sqrt_unique(n, r);
    r
}

proof fn exists_floor_sqrt(n: nat, hi: nat) -> (r: nat)
    requires
        n < hi * hi,
    ensures
        is_floor_sqrt(n as int, r as int),
    decreases hi,
{
    if hi == 0 {
        assert(hi * hi == 0) by (nonlinear_arith)
            requires
                hi == 0,
        ;
        0
    } else if (hi - 1) * (hi - 1) <= n {
        let r = (hi - 1) as nat;
        assert((r + 1) * (r + 1) == hi * hi);
        r
    } else {
        exists_floor_sqrt(n, (hi - 1) as nat)
    }
}

/// Integer square root, rounded down.
pub fn isqrt(n: u128) -> (r: u128)
    ensures
        r as nat == floor_sqrt(n as nat),
        is_floor_sqrt(n as int, r as int),
        r <= 0x1_0000_0000_0000_0000,
{
    let mut lo: u128 = 0;
    let mut hi: u128 = 0x1_0000_0000_0000_0000;
    assert(n < 0x1_0000_0000_0000_0000 * 0x1_0000_0000_0000_0000);
    while hi - lo > 1
        invariant
            lo < hi <= 0x1_0000_0000_0000_0000,
            lo * lo <= n,
            n < hi * hi,
        decreases hi - lo,
    {
        let mid: u128 = lo + (hi - lo) / 2;
        assert(mid * mid < 0x1_0000_0000_0000_0000 * 0x1_0000_0000_0000_0000) by (nonlinear_arith)
            requires
                mid < 0x1_0000_0000_0000_0000,
        ;
        if mid * mid <= n {
            lo = mid;
        } else {
            hi = mid;
        }
    }
    assert(hi == lo + 1);
    proof {
        lemma_floor_sqrt_unique(n as nat, lo as nat);
    }
    lo
}

/// The squared distance between two points.
pub open spec fn dist_sq(a: Point3, b: Point3) -> int {
    (a.x - b.x) * (a.x - b.x) + (a.y - b.y) * (a.y - b.y) + (a.z - b.z) * (a.z - b.z)
}

/// The square of `v`, which may be as large as a coordinate difference or a
/// reflected direction.
pub fn square(v: i64) -> (r: u128)
    requires
        abs_le(v as int, 10_000_000_000),
    ensures
        r == v * v,
        r <= 100_000_000_000_000_000_000,
{
    let a: u128 = if v < 0 { (-v) as u128 } else { v as u128 };
    assert(a * a == v * v && a * a <= 100_000_000_000_000_000_000) by (nonlinear_arith)
        requires
            a as int == if v < 0 { -v } else { v as int },
            abs_le(v as int, 10_000_000_000),
    ;
    a * a
}

/// The squared distance between two points of the world.
pub fn distance_sq(a: &Point3, b: &Point3) -> (r: u128)
    requires
        a.bounded(),
        b.bounded(),
    ensures
        r == dist_sq(*a, *b),
{
    square(a.x - b.x) + square(a.y - b.y) + square(a.z - b.z)
}

/// `v` scaled to length about 1000, rounded toward zero; none for the zero
/// vector.
pub open spec fn unit3_spec(v: Point3) -> Option<Point3> {
    let len = floor_sqrt((v.x * v.x + v.y * v.y + v.z * v.z) as nat) as int;
    if len == 0 {
        None
    } else {
        Some(Point3 {
            x: trunc_div(v.x * 1000, len) as i64,
            y: trunc_div(v.y * 1000, len) as i64,
            z: trunc_div(v.z * 1000, len) as i64,
        })
    }
}

proof fn lemma_unit3_component(a: int, b: int, c: int, len: int)
    requires
        is_floor_sqrt(a * a + b * b + c * c, len),
        len > 0,
    ensures
        abs_le(trunc_div(a * 1000, len), 1000),
{
    assert(abs_le(a, len)) by (nonlinear_arith)
        requires
            (len + 1) * (len + 1) > a * a + b * b + c * c,
            len >= 0,
    {
        if a > len {
            assert(a * a >= (len + 1) * (len + 1));
        } else if a < -len {
            assert(a * a >= (len + 1) * (len + 1));
        }
    }
    assert(abs_le(a * 1000, len * 1000)) by (nonlinear_arith)
        requires
            abs_le(a, len),
    ;
    lemma_trunc_div_bound(a * 1000, len, len * 1000);
    vstd::arithmetic::div_mod::lemma_div_multiples_vanish(1000, len);
}

/// The direction of `v`, scaled to length about 1000.
pub fn unit3(v: Point3) -> (r: Option<Point3>)
    requires
        abs_le(v.x as int, 10_000_000_000),
        abs_le(v.y as int, 10_000_000_000),
        abs_le(v.z as int, 10_000_000_000),
    ensures
        r == unit3_spec(v),
        r matches Some(u) ==> abs_le(u.x as int, 1000) && abs_le(u.y as int, 1000) && abs_le(u.z as int, 1000),
{
    let len = isqrt(square(v.x) + square(v.y) + square(v.z));
    if len == 0 {
        return None;
    }
    proof {
        lemma_unit3_component(v.x as int, v.y as int, v.z as int, len as int);
        lemma_unit3_component(v.y as int, v.x as int, v.z as int, len as int);
        lemma_unit3_component(v.z as int, v.x as int, v.y as int, len as int);
        assert(len <= 20_000_000_000) by (nonlinear_arith)
            requires
                len * len <= 300_000_000_000_000_000_000,
        ;
        lemma_mul_bound(v.x as int, 1000, 10_000_000_000, 1000);
        lemma_mul_bound(v.y as int, 1000, 10_000_000_000, 1000);
        lemma_mul_bound(v.z as int, 1000, 10_000_000_000, 1000);
    }
    let l = len as i64;
    Some(Point3 {
        x: div_toward_zero(v.x * 1000, l),
        y: div_toward_zero(v.y * 1000, l),
        z: div_toward_zero(v.z * 1000, l),
    })
}

} // verus!

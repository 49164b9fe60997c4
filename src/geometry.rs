//! Fixed-point points, unit directions, bounding boxes and motion steps.

use vstd::prelude::*;

verus! {

/// Length of a unit direction in its fixed-point form.
pub const DIR_ONE: i32 = 1000;

/// Divisor turning `speed * micros * scale * component` into milli-units:
/// micros per second, times the time-scale unit, times the component unit
/// (`DIR_ONE * DIR_ONE`), over milli-units per world unit.
pub const STEP_DENOM: u128 = 1_000_000_000_000;

/// Bound on a motion component handed to `advance_coord`.
pub const COMP_BOUND: i64 = 0x10_0000_0000_0000;

/// A position, in thousandths of a world unit.
#[derive(Clone, Copy, Debug, PartialEq, Eq, Structural)]
pub struct Point {
    pub x: i32,
    pub y: i32,
}

/// A unit direction; each component in thousandths.
#[derive(Clone, Copy, Debug, PartialEq, Eq, Structural)]
pub struct Direction {
    pub x: i32,
    pub y: i32,
}

impl Direction {
    pub open spec fn wf(self) -> bool {
        -DIR_ONE <= self.x <= DIR_ONE && -DIR_ONE <= self.y <= DIR_ONE
    }
}

/// Division rounding toward zero, so that motion is symmetric in direction.
pub open spec fn trunc_div(a: int, b: int) -> int {
    if a >= 0 {
        a / b
    } else {
        -((-a) / b)
    }
}

/// The value nearest to `v` in the range of `i32`.
pub open spec fn clamp_i32(v: int) -> i32 {
    if v < i32::MIN {
        i32::MIN
    } else if v > i32::MAX {
        i32::MAX
    } else {
        v as i32
    }
}

pub open spec fn is_floor_sqrt(n: int, r: int) -> bool {
    0 <= r && r * r <= n && n < (r + 1) * (r + 1)
}

/// The integer square root of `n`, rounded down.
pub open spec fn floor_sqrt(n: int) -> int {
    choose|r: int| is_floor_sqrt(n, r)
}

proof fn lemma_floor_sqrt_unique(n: int, r1: int, r2: int)
    requires
        is_floor_sqrt(n, r1),
        is_floor_sqrt(n, r2),
    ensures
        r1 == r2,
{
    if r1 < r2 {
        assert((r1 + 1) * (r1 + 1) <= r2 * r2) by (nonlinear_arith)
            requires
                0 <= r1 + 1 <= r2,
        ;
    } else if r2 < r1 {
        assert((r2 + 1) * (r2 + 1) <= r1 * r1) by (nonlinear_arith)
            requires
                0 <= r2 + 1 <= r1,
        ;
    }
}

/// Every component of a vector is at most the floor of its length.
proof fn lemma_component_within_length(a: int, b: int)
    requires
        is_floor_sqrt(a * a + b * b, floor_sqrt(a * a + b * b)),
    ensures
        -floor_sqrt(a * a + b * b) <= a <= floor_sqrt(a * a + b * b),
{
    let n = a * a + b * b;
    let r = floor_sqrt(n);
    assert(b * b >= 0) by (nonlinear_arith);
    if a > r {
        assert((r + 1) * (r + 1) <= a * a) by (nonlinear_arith)
            requires
                0 <= r + 1 <= a,
        ;
    }
    if a < -r {
        assert((r + 1) * (r + 1) <= a * a) by (nonlinear_arith)
            requires
                0 <= r + 1 <= -a,
        ;
    }
}

/// Integer square root, rounded down.
pub fn isqrt(n: u128) -> (r: u64)
    requires
        n < 0x40_0000_0000_0000_0000,
    ensures
        r == floor_sqrt(n as int),
        is_floor_sqrt(n as int, r as int),
{
    let mut lo: u64 = 0;
    let mut hi: u64 = 0x8_0000_0000;
    assert(0x8_0000_0000int * 0x8_0000_0000int == 0x40_0000_0000_0000_0000int) by (nonlinear_arith);
    while hi - lo > 1
        invariant
            lo < hi <= 0x8_0000_0000,
            lo * lo <= n,
            n < hi * hi,
        decreases hi - lo,
    {
        let mid: u64 = lo + (hi - lo) / 2;
        assert(mid * mid < 0x40_0000_0000_0000_0000) by (nonlinear_arith)
            requires
                mid < 0x8_0000_0000,
        ;
        let sq: u128 = (mid as u128) * (mid as u128);
        if sq <= n {
            lo = mid;
        } else {
            hi = mid;
        }
    }
    proof {
        assert(is_floor_sqrt(n as int, lo as int));
        lemma_floor_sqrt_unique(n as int, lo as int, floor_sqrt(n as int));
    }
    lo
}

/// The unit direction along `(vx, vy)`, or `None` for the zero vector.
pub open spec fn unit_toward(vx: int, vy: int) -> Option<Direction> {
    if vx == 0 && vy == 0 {
        None
    } else {
        let len = floor_sqrt(vx * vx + vy * vy);
        Some(
            Direction {
                x: trunc_div(vx * DIR_ONE, len) as i32,
                y: trunc_div(vy * DIR_ONE, len) as i32,
            },
        )
    }
}

/// Scales `a` by `DIR_ONE` and divides by `len`, rounding toward zero.
fn scale_component(a: i64, len: i64) -> (r: i32)
    requires
        0 < len <= 0x100_0000_0000,
        -len <= a <= len,
    ensures
        r == trunc_div(a * DIR_ONE, len as int),
        -DIR_ONE <= r <= DIR_ONE,
{
    let neg = a < 0;
    let mag: u64 = if neg { (-a) as u64 } else { a as u64 };
    assert(mag * 1000 <= len * 1000) by (nonlinear_arith)
        requires
            mag <= len,
    ;
    let q: u64 = (mag * 1000) / (len as u64);
    assert(q <= 1000) by (nonlinear_arith)
        requires
            q == (mag * 1000) / (len as int),
            mag * 1000 <= len * 1000,
            len > 0,
    ;
    if neg {
        -(q as i32)
    } else {
        q as i32
    }
}

/// Normalises `(vx, vy)`; `None` for the zero vector, which has no direction.
pub fn normalize(vx: i64, vy: i64) -> (r: Option<Direction>)
    requires
        -0x2_0000_0000 <= vx <= 0x2_0000_0000,
        -0x2_0000_0000 <= vy <= 0x2_0000_0000,
    ensures
        r == unit_toward(vx as int, vy as int),
        r matches Some(d) ==> d.wf(),
{
    if vx == 0 && vy == 0 {
        return None;
    }
    assert(vx * vx <= 0x4_0000_0000_0000_0000) by (nonlinear_arith)
        requires
            -0x2_0000_0000 <= vx <= 0x2_0000_0000,
    ;
    assert(vy * vy <= 0x4_0000_0000_0000_0000) by (nonlinear_arith)
        requires
            -0x2_0000_0000 <= vy <= 0x2_0000_0000,
    ;
    assert(vx * vx >= 0 && vy * vy >= 0) by (nonlinear_arith);
    let n: u128 = ((vx as i128) * (vx as i128) + (vy as i128) * (vy as i128)) as u128;
    assert(n == vx * vx + vy * vy);
    let len: u64 = isqrt(n);
    proof {
        assert(len < 0x8_0000_0000) by (nonlinear_arith)
            requires
                len * len <= n,
                n < 0x40_0000_0000_0000_0000,
        ;
        lemma_component_within_length(vx as int, vy as int);
        assert(vy * vy + vx * vx == vx * vx + vy * vy);
        lemma_component_within_length(vy as int, vx as int);
        if len == 0 {
            assert(1 <= vx * vx + vy * vy) by (nonlinear_arith)
                requires
                    vx != 0 || vy != 0,
            ;
        }
    }
    let x = scale_component(vx, len as i64);
    let y = scale_component(vy, len as i64);
    Some(Direction { x, y })
}

/// The displacement along one axis, in milli-units, of a body moving for
/// `dt_us` microseconds at `speed` world units per second under time scale
/// `scale` (thousandths), along a component `comp` in millionths.
pub open spec fn axis_step(speed: int, dt_us: int, scale: int, comp: int) -> int {
    trunc_div(speed * dt_us * scale * comp, STEP_DENOM as int)
}

/// A coordinate after one step; it saturates at the ends of `i32`.
pub open spec fn stepped(pos: int, speed: int, dt_us: int, scale: int, comp: int) -> i32 {
    clamp_i32(pos + axis_step(speed, dt_us, scale, comp))
}

proof fn lemma_trunc_div_negated(v: int, d: int)
    requires
        0 <= v,
        0 < d,
    ensures
        trunc_div(-v, d) == -(v / d),
{
    if v == 0 {
        assert(0int / d == 0);
    }
}

/// Halving the time scale halves every motion step, rounded toward zero:
/// at half speed a body covers exactly half the distance it would cover at
/// normal speed, up to that rounding.
pub proof fn lemma_half_scale_halves_step(speed: int, dt_us: int, comp: int)
    requires
        0 <= speed,
        0 <= dt_us,
    ensures
        axis_step(speed, dt_us, 500, comp) == trunc_div(axis_step(speed, dt_us, 1000, comp), 2),
{
    let mag = if comp >= 0 { comp } else { -comp };
    let m = speed * dt_us * mag;
    assert(m >= 0) by (nonlinear_arith)
        requires
            0 <= speed,
            0 <= dt_us,
            0 <= mag,
            m == speed * dt_us * mag,
    ;
    assert(speed * dt_us * 1000 * comp == if comp >= 0 { m * 1000 } else { -(m * 1000) }) by (nonlinear_arith)
        requires
            m == speed * dt_us * mag,
            mag == if comp >= 0 { comp } else { -comp },
    ;
    assert(speed * dt_us * 500 * comp == if comp >= 0 { m * 500 } else { -(m * 500) }) by (nonlinear_arith)
        requires
            m == speed * dt_us * mag,
            mag == if comp >= 0 { comp } else { -comp },
    ;
    let d: int = STEP_DENOM as int;
    vstd::arithmetic::div_mod::lemma_div_multiples_vanish_quotient(1000, m, 1_000_000_000);
    vstd::arithmetic::div_mod::lemma_div_multiples_vanish_quotient(500, m, 2_000_000_000);
    assert(1000 * m == m * 1000 && 500 * m == m * 500);
    assert((m * 1000) / d == m / 1_000_000_000);
    assert((m * 500) / d == m / 2_000_000_000);
    vstd::arithmetic::div_mod::lemma_div_denominator(m, 1_000_000_000, 2);
    vstd::arithmetic::div_mod::lemma_div_pos_is_pos(m, 1_000_000_000);
    if comp < 0 {
        lemma_trunc_div_negated(m * 1000, d);
        lemma_trunc_div_negated(m * 500, d);
        lemma_trunc_div_negated(m / 1_000_000_000, 2);
    }
}

proof fn lemma_step_product_bound(speed: int, dt: int, scale: int, mag: int)
    requires
        0 <= speed < 0x1_0000_0000,
        0 <= dt < 0x1_0000_0000,
        0 <= scale <= 1000,
        0 <= mag <= COMP_BOUND,
    ensures
        0 <= speed * dt < 0x1_0000_0000_0000_0000,
        0 <= speed * dt * scale < 0x400_0000_0000_0000_0000,
        0 <= speed * dt * scale * mag < 0x1_0000_0000_0000_0000_0000_0000_0000_0000,
{
    assert(0 <= speed * dt < 0x1_0000_0000_0000_0000) by (nonlinear_arith)
        requires
            0 <= speed < 0x1_0000_0000,
            0 <= dt < 0x1_0000_0000,
    ;
    let a = speed * dt;
    assert(0 <= a * scale < 0x400_0000_0000_0000_0000) by (nonlinear_arith)
        requires
            0 <= a < 0x1_0000_0000_0000_0000,
            0 <= scale <= 1000,
    ;
    let b = a * scale;
    assert(0 <= b * mag < 0x1_0000_0000_0000_0000_0000_0000_0000_0000) by (nonlinear_arith)
        requires
            0 <= b < 0x400_0000_0000_0000_0000,
            0 <= mag <= 0x10_0000_0000_0000,
    ;
}

/// Moves one coordinate by `speed * dt_us * scale * comp`, scaled to milli-units.
pub fn advance_coord(pos: i32, speed: u32, dt_us: u32, scale: u32, comp: i64) -> (r: i32)
    requires
        scale <= 1000,
        -COMP_BOUND <= comp <= COMP_BOUND,
    ensures
        r == stepped(pos as int, speed as int, dt_us as int, scale as int, comp as int),
{
    let neg = comp < 0;
    let mag: u64 = if neg { (-comp) as u64 } else { comp as u64 };
    proof {
        lemma_step_product_bound(speed as int, dt_us as int, scale as int, mag as int);
    }
    let speed_time: u128 = (speed as u128) * (dt_us as u128);
    let scaled: u128 = speed_time * (scale as u128);
    let prod: u128 = scaled * (mag as u128);
    let q: u128 = prod / STEP_DENOM;
    assert(q < 0x1000_0000_0000_0000_0000_0000);
    let step: i128 = if neg { -(q as i128) } else { q as i128 };
    proof {
        if neg {
            assert(speed * dt_us * scale * comp == -(speed * dt_us * scale * mag)) by (nonlinear_arith)
                requires
                    comp == -mag,
            ;
        }
    }
    let v: i128 = (pos as i128) + step;
    if v < i32::MIN as i128 {
        i32::MIN
    } else if v > i32::MAX as i128 {
        i32::MAX
    } else {
        v as i32
    }
}

/// An axis-aligned box given by its centre and half extents.
#[derive(Clone, Copy, Debug, PartialEq, Eq, Structural)]
pub struct Collider {
    pub center: Point,
    pub half_width: i32,
    pub half_height: i32,
}

impl Collider {
    /// Closed boxes overlap when they overlap on both axes; touching counts.
    pub open spec fn overlaps(self, other: Collider) -> bool {
        self.center.x - self.half_width <= other.center.x + other.half_width
            && self.center.x + self.half_width >= other.center.x - other.half_width
            && self.center.y - self.half_height <= other.center.y + other.half_height
            && self.center.y + self.half_height >= other.center.y - other.half_height
    }

    pub fn intersects(&self, other: &Collider) -> (r: bool)
        ensures
            r == self.overlaps(*other),
    {
        let ax = self.center.x as i64;
        let ay = self.center.y as i64;
        let bx = other.center.x as i64;
        let by = other.center.y as i64;
        let ahw = self.half_width as i64;
        let ahh = self.half_height as i64;
        let bhw = other.half_width as i64;
        let bhh = other.half_height as i64;
        ax - ahw <= bx + bhw && ax + ahw >= bx - bhw && ay - ahh <= by + bhh && ay + ahh >= by - bhh
    }
}

} // verus!

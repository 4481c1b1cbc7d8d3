use rand::Rng;
use vstd::prelude::*;

use crate::actors::{Actor, TypeActor};

verus! {

/// Fixed-point scale: one whole unit is `ONE` thousandths.
pub const ONE: i64 = 1000;

/// Width of the visible screen.
pub const SCREEN_WIDTH: i64 = 1_200_000;

/// Height of the visible screen.
pub const SCREEN_HEIGHT: i64 = 1_000_000;

/// Every position and velocity stays within `[-PLANE_LIMIT, PLANE_LIMIT]` on both axes.
pub const PLANE_LIMIT: i64 = 1_000_000_000;

/// A point or a vector of the plane, in thousandths of a unit.
#[derive(Clone, Copy, Debug, PartialEq, Eq, Structural)]
pub struct Vec2 {
    pub x: i64,
    pub y: i64,
}

pub open spec fn in_plane_int(v: int) -> bool {
    -PLANE_LIMIT <= v <= PLANE_LIMIT
}

pub open spec fn clamp_int(v: int, lo: int, hi: int) -> int {
    if v < lo {
        lo
    } else if v > hi {
        hi
    } else {
        v
    }
}

/// Integer division rounding toward zero (the divisor is positive).
pub open spec fn div_toward_zero(a: int, b: int) -> int {
    if a >= 0 {
        a / b
    } else {
        -((-a) / b)
    }
}

/// Absolute value.
pub open spec fn abs_int(a: int) -> int {
    if a >= 0 {
        a
    } else {
        -a
    }
}

/// `a + b` held to the range of `i64`.
pub open spec fn sat_add(a: int, b: int) -> int {
    clamp_int(a + b, i64::MIN as int, i64::MAX as int)
}

pub open spec fn plane(v: int) -> int {
    clamp_int(v, -PLANE_LIMIT as int, PLANE_LIMIT as int)
}

impl Vec2 {
    pub open spec fn in_plane(self) -> bool {
        in_plane_int(self.x as int) && in_plane_int(self.y as int)
    }

    pub fn new(x: i64, y: i64) -> (r: Vec2)
        ensures
            r.x == x,
            r.y == y,
    {
        Vec2 { x, y }
    }
}

/// Clamps a wide intermediate value into the plane.
pub fn to_plane(v: i128) -> (r: i64)
    ensures
        r == plane(v as int),
{
    if v < -(PLANE_LIMIT as i128) {
        -PLANE_LIMIT
    } else if v > PLANE_LIMIT as i128 {
        PLANE_LIMIT
    } else {
        v as i64
    }
}

/// Adds with saturation at the bounds of `i64`.
pub fn add_saturating(a: i64, b: i64) -> (r: i64)
    ensures
        r == sat_add(a as int, b as int),
{
    let s: i128 = a as i128 + b as i128;
    if s > i64::MAX as i128 {
        i64::MAX
    } else if s < i64::MIN as i128 {
        i64::MIN
    } else {
        s as i64
    }
}

/// Divides rounding toward zero.
pub fn divide_toward_zero(a: i128, b: i128) -> (r: i128)
    requires
        b > 0,
        a > i128::MIN,
    ensures
        r == div_toward_zero(a as int, b as int),
{
    if a >= 0 {
        a / b
    } else {
        let q: i128 = (-a) / b;
        -q
    }
}


/// Largest input accepted by `smoothstep` (a thousand whole units).
pub const SMOOTH_LIMIT: i64 = 1_000_000;

/// `t²(3 − 2t)` in thousandths, rounded toward zero.
pub open spec fn smoothstep_spec(t: int) -> int {
    div_toward_zero(t * t * (3 * ONE - 2 * t), ONE * ONE)
}

/// The cubic ease weight `t²(3 − 2t)` of a fixed-point `t`.
pub fn smoothstep(t: i64) -> (r: i64)
    requires
        0 <= t <= SMOOTH_LIMIT,
    ensures
        r == smoothstep_spec(t as int),
        -2_000_000_000_000 <= r <= 3_000_000_000,
{
    let tt: i128 = t as i128;
    assert(tt * tt <= 1_000_000_000_000) by (nonlinear_arith)
        requires
            0 <= tt <= 1_000_000,
    ;
    assert(0 <= tt * tt) by (nonlinear_arith);
    let sq: i128 = tt * tt;
    let k: i128 = 3 * (ONE as i128) - 2 * tt;
    assert(-2_000_000_000_000_000_000 <= sq * k <= 3_000_000_000_000_000) by (nonlinear_arith)
        requires
            0 <= sq <= 1_000_000_000_000,
            -2_000_000 <= k <= 3000,
    ;
    let q: i128 = divide_toward_zero(sq * k, (ONE as i128) * (ONE as i128));
    assert(-2_000_000_000_000 <= q <= 3_000_000_000) by {
        let num = sq * k;
        if num >= 0 {
            assert(num / 1_000_000 <= 3_000_000_000_000_000int / 1_000_000int) by {
                vstd::arithmetic::div_mod::lemma_div_is_ordered(num, 3_000_000_000_000_000, 1_000_000);
            }
        } else {
            assert((-num) / 1_000_000 <= 2_000_000_000_000_000_000int / 1_000_000int) by {
                vstd::arithmetic::div_mod::lemma_div_is_ordered(-num, 2_000_000_000_000_000_000, 1_000_000);
            }
        }
    }
    q as i64
}

/// `r` is the integer square root of `n`.
pub open spec fn is_root(n: int, r: int) -> bool {
    0 <= r && r * r <= n < (r + 1) * (r + 1)
}

/// The integer square root of a non-negative `n`.
pub open spec fn root(n: int) -> int {
    choose|r: int| is_root(n, r)
}

proof fn lemma_root_unique(n: int, a: int, b: int)
    requires
        is_root(n, a),
        is_root(n, b),
    ensures
        a == b,
{
    if a < b {
        assert((a + 1) * (a + 1) <= b * b) by (nonlinear_arith)
            requires
                0 <= a,
                a + 1 <= b,
        ;
    } else if b < a {
        assert((b + 1) * (b + 1) <= a * a) by (nonlinear_arith)
            requires
                0 <= b,
                b + 1 <= a,
        ;
    }
}

proof fn lemma_root_is(n: int, r: int)
    requires
        is_root(n, r),
    ensures
        root(n) == r,
{
    let c = root(n);
    assert(is_root(n, c));
    lemma_root_unique(n, c, r);
}

/// Integer square root by bisection.
fn isqrt(n: u128) -> (r: u128)
    requires
        n < 100_000_000_000_000_000_000_000_000,
    ensures
        r == root(n as int),
        is_root(n as int, r as int),
        r < 10_000_000_000_000,
{
    let mut lo: u128 = 0;
    let mut hi: u128 = 10_000_000_000_000;
    while hi - lo > 1
        invariant
            lo < hi <= 10_000_000_000_000,
            lo * lo <= n,
            n < hi * hi,
        decreases hi - lo,
    {
        let mid: u128 = lo + (hi - lo) / 2;
        assert(mid * mid <= 100_000_000_000_000_000_000_000_000) by (nonlinear_arith)
            requires
                mid <= 10_000_000_000_000,
        ;
        if mid * mid <= n {
            lo = mid;
        } else {
            hi = mid;
        }
    }
    proof {
        lemma_root_is(n as int, lo as int);
    }
    lo
}

/// The unit vector (in thousandths) pointing from `a` toward `b`, or zero when they coincide.
pub open spec fn direction_spec(a: Vec2, b: Vec2) -> Vec2 {
    let dx = b.x - a.x;
    let dy = b.y - a.y;
    let n = dx * dx + dy * dy;
    if n == 0 {
        Vec2 { x: 0, y: 0 }
    } else {
        let r = root(n * ONE * ONE);
        Vec2 {
            x: div_toward_zero(dx * ONE * ONE, r) as i64,
            y: div_toward_zero(dy * ONE * ONE, r) as i64,
        }
    }
}

pub(crate) proof fn lemma_div_bounded(a: int, r: int)
    requires
        r >= 1,
    ensures
        -abs_int(a) <= div_toward_zero(a, r) <= abs_int(a),
{
    if a >= 0 {
        vstd::arithmetic::div_mod::lemma_div_is_ordered_by_denominator(a, 1, r);
        vstd::arithmetic::div_mod::lemma_div_pos_is_pos(a, r);
    } else {
        vstd::arithmetic::div_mod::lemma_div_is_ordered_by_denominator(-a, 1, r);
        vstd::arithmetic::div_mod::lemma_div_pos_is_pos(-a, r);
    }
}

/// Each component of a direction lies within one unit.
pub proof fn lemma_direction_bounded(a: Vec2, b: Vec2)
    requires
        a.in_plane(),
        b.in_plane(),
    ensures
        -ONE <= direction_spec(a, b).x <= ONE,
        -ONE <= direction_spec(a, b).y <= ONE,
{
    let dx = b.x - a.x;
    let dy = b.y - a.y;
    let n = dx * dx + dy * dy;
    assert(dx * dx >= 0 && dy * dy >= 0) by (nonlinear_arith);
    if n != 0 {
        let big = n * ONE * ONE;
        assert(big == n * 1_000_000);
        lemma_root_exists(big);
        let r = root(big);
        lemma_component_bounded(dx, dy, r);
        lemma_component_bounded(dy, dx, r);
    }
}

proof fn lemma_root_exists(n: int)
    requires
        n >= 0,
    ensures
        is_root(n, root(n)),
    decreases n,
{
    if n == 0 {
        assert(is_root(0, 0));
    } else {
        lemma_root_exists(n - 1);
        let r = root(n - 1);
        if (r + 1) * (r + 1) <= n {
            assert((r + 2) * (r + 2) > n) by (nonlinear_arith)
                requires
                    r >= 0,
                    n - 1 < (r + 1) * (r + 1),
            ;
            assert(is_root(n, r + 1));
        } else {
            assert(is_root(n, r));
        }
    }
}

proof fn lemma_component_bounded(d: int, e: int, r: int)
    requires
        d * d + e * e != 0,
        is_root((d * d + e * e) * ONE * ONE, r),
    ensures
        -ONE <= div_toward_zero(d * ONE * ONE, r) <= ONE,
{
    let m = abs_int(d);
    assert(m * m == d * d) by (nonlinear_arith)
        requires
            m == d || m == -d,
    ;
    assert(0 <= e * e) by (nonlinear_arith);
    assert(m * 1000 <= r) by (nonlinear_arith)
        requires
            m >= 0,
            r >= 0,
            m * m <= d * d + e * e,
            (d * d + e * e) * 1000 * 1000 < (r + 1) * (r + 1),
    ;
    assert(r >= 1) by (nonlinear_arith)
        requires
            d * d + e * e >= 1,
            (d * d + e * e) * 1000 * 1000 < (r + 1) * (r + 1),
            r >= 0,
    ;
    assert((m * 1_000_000) / r <= 1000) by {
        vstd::arithmetic::div_mod::lemma_div_is_ordered(m * 1_000_000, 1000 * r, r);
        vstd::arithmetic::div_mod::lemma_div_multiples_vanish(1000, r);
    }
    vstd::arithmetic::div_mod::lemma_div_pos_is_pos(m * 1_000_000, r);
    if d >= 0 {
        assert(d * ONE * ONE == m * 1_000_000);
    } else {
        assert(-(d * ONE * ONE) == m * 1_000_000);
    }
}

/// Smoothstep keeps 0, ½ and 1 where they are.
pub proof fn lemma_smoothstep_fixed_points()
    ensures
        smoothstep_spec(0) == 0,
        smoothstep_spec(ONE as int) == ONE,
        smoothstep_spec((ONE / 2) as int) == ONE / 2,
{
    assert(0int * 0int * (3000int - 2int * 0int) == 0int) by (nonlinear_arith);
    assert(1000int * 1000int * (3000int - 2int * 1000int) == 1_000_000_000int) by (nonlinear_arith);
    assert(500int * 500int * (3000int - 2int * 500int) == 500_000_000int) by (nonlinear_arith);
    assert(1_000_000_000int / 1_000_000int == 1000int);
    assert(500_000_000int / 1_000_000int == 500int);
    assert(0int / 1_000_000int == 0int);
}

/// Smoothstep never decreases on `[0, 1]`.
pub proof fn lemma_smoothstep_monotonic(a: int, b: int)
    requires
        0 <= a <= b <= ONE,
    ensures
        smoothstep_spec(a) <= smoothstep_spec(b),
{
    let na = a * a * (3000 - 2 * a);
    let nb = b * b * (3000 - 2 * b);
    assert(0 <= na) by (nonlinear_arith)
        requires
            0 <= a <= 1000,
            na == a * a * (3000 - 2 * a),
    ;
    assert(a * a <= 1000 * a && b * b <= 1000 * b && a * b <= 1000 * a) by (nonlinear_arith)
        requires
            0 <= a <= b <= 1000,
    ;
    assert(2 * (a * a + a * b + b * b) <= 3000 * (a + b)) by (nonlinear_arith)
        requires
            0 <= a <= b <= 1000,
            a * a <= 1000 * a,
            b * b <= 1000 * b,
            a * b <= 1000 * a,
    ;
    assert(nb - na == (b - a) * (3000 * (a + b) - 2 * (a * a + a * b + b * b))) by (nonlinear_arith)
        requires
            na == a * a * (3000 - 2 * a),
            nb == b * b * (3000 - 2 * b),
    ;
    assert(na <= nb) by (nonlinear_arith)
        requires
            0 <= b - a,
            0 <= 3000 * (a + b) - 2 * (a * a + a * b + b * b),
            nb - na == (b - a) * (3000 * (a + b) - 2 * (a * a + a * b + b * b)),
    ;
    vstd::arithmetic::div_mod::lemma_div_is_ordered(na, nb, 1_000_000);
}

proof fn lemma_root_at_least_one_unit(n: int, r: int)
    requires
        n >= 1,
        is_root(n * 1_000_000, r),
    ensures
        r >= 1000,
{
    if r < 1000 {
        assert((r + 1) * (r + 1) <= 1_000_000) by (nonlinear_arith)
            requires
                0 <= r < 1000,
        ;
        assert(n * 1_000_000 >= 1_000_000) by (nonlinear_arith)
            requires
                n >= 1,
        ;
    }
}

/// For `q = |d|·S²/r` rounded down: `q·r <= |d|·S² < (q + 1)·r`.
proof fn lemma_quotient_brackets(d: int, r: int)
    requires
        r >= 1,
    ensures
        abs_int(div_toward_zero(d * 1_000_000, r)) * r <= abs_int(d) * 1_000_000,
        abs_int(d) * 1_000_000 < (abs_int(div_toward_zero(d * 1_000_000, r)) + 1) * r,
        abs_int(div_toward_zero(d * 1_000_000, r)) == (abs_int(d) * 1_000_000) / r,
{
    let m = abs_int(d) * 1_000_000;
    vstd::arithmetic::div_mod::lemma_fundamental_div_mod(m, r);
    vstd::arithmetic::div_mod::lemma_div_pos_is_pos(m, r);
    if d >= 0 {
        assert(d * 1_000_000 == m);
    } else {
        assert(-(d * 1_000_000) == m);
    }
    let q = m / r;
    assert(q * r <= m && m < (q + 1) * r) by (nonlinear_arith)
        requires
            m == r * q + m % r,
            0 <= m % r < r,
    ;
}

/// The direction from `a` to `b` is the opposite of the direction from `b` to `a`,
/// and between distinct points it has length one unit up to the fixed-point resolution:
/// its squared length is below `(ONE + 1)²`, and growing each component by one in
/// magnitude brings the squared length above `ONE²`.
pub proof fn lemma_direction_unit(a: Vec2, b: Vec2)
    requires
        a.in_plane(),
        b.in_plane(),
        a != b,
    ensures
        direction_spec(b, a).x == -direction_spec(a, b).x,
        direction_spec(b, a).y == -direction_spec(a, b).y,
        direction_spec(a, b).x * direction_spec(a, b).x + direction_spec(a, b).y * direction_spec(a, b).y
            < (ONE + 1) * (ONE + 1),
        (abs_int(direction_spec(a, b).x as int) + 1) * (abs_int(direction_spec(a, b).x as int) + 1)
            + (abs_int(direction_spec(a, b).y as int) + 1) * (abs_int(direction_spec(a, b).y as int) + 1)
            > ONE * ONE,
{
    lemma_direction_bounded(a, b);
    lemma_direction_bounded(b, a);
    let dx = b.x - a.x;
    let dy = b.y - a.y;
    let n = dx * dx + dy * dy;
    assert(dx * dx >= 0 && dy * dy >= 0) by (nonlinear_arith);
    if n == 0 {
        assert(dx == 0 && dy == 0) by (nonlinear_arith)
            requires
                dx * dx >= 0,
                dy * dy >= 0,
                dx * dx + dy * dy == 0,
        ;
        assert(false);
    }
    assert((a.x - b.x) * (a.x - b.x) + (a.y - b.y) * (a.y - b.y) == n) by (nonlinear_arith)
        requires
            dx == b.x - a.x,
            dy == b.y - a.y,
            n == dx * dx + dy * dy,
    ;
    let big = n * 1_000_000;
    assert(n * ONE * ONE == big);
    lemma_root_exists(big);
    let r = root(big);
    lemma_root_at_least_one_unit(n, r);
    let ux = div_toward_zero(dx * 1_000_000, r);
    let uy = div_toward_zero(dy * 1_000_000, r);
    assert(dx * ONE * ONE == dx * 1_000_000);
    assert(dy * ONE * ONE == dy * 1_000_000);
    assert((a.x - b.x) * ONE * ONE == -(dx * 1_000_000));
    assert((a.y - b.y) * ONE * ONE == -(dy * 1_000_000));
    assert(direction_spec(a, b).x == ux);
    assert(direction_spec(a, b).y == uy);
    lemma_quotient_brackets(dx, r);
    lemma_quotient_brackets(dy, r);
    let mx = abs_int(dx);
    let my = abs_int(dy);
    let qx = abs_int(ux);
    let qy = abs_int(uy);
    assert(mx * mx == dx * dx) by (nonlinear_arith)
        requires
            mx == dx || mx == -dx,
    ;
    assert(my * my == dy * dy) by (nonlinear_arith)
        requires
            my == dy || my == -dy,
    ;
    assert(ux * ux == qx * qx) by (nonlinear_arith)
        requires
            qx == ux || qx == -ux,
    ;
    assert(uy * uy == qy * qy) by (nonlinear_arith)
        requires
            qy == uy || qy == -uy,
    ;
    // upper bound
    assert(qx * qx * (r * r) <= mx * mx * 1_000_000_000_000) by (nonlinear_arith)
        requires
            0 <= qx * r <= mx * 1_000_000,
            qx >= 0,
            r >= 1,
    ;
    assert(qy * qy * (r * r) <= my * my * 1_000_000_000_000) by (nonlinear_arith)
        requires
            0 <= qy * r <= my * 1_000_000,
            qy >= 0,
            r >= 1,
    ;
    assert((r + 1) * 1000 <= 1001 * r) by (nonlinear_arith)
        requires
            r >= 1000,
    ;
    let x = qx * qx + qy * qy;
    let rr = r * r;
    assert(rr > 0) by (nonlinear_arith)
        requires
            rr == r * r,
            r >= 1000,
    ;
    assert(x * rr <= n * 1_000_000_000_000) by (nonlinear_arith)
        requires
            x == qx * qx + qy * qy,
            qx * qx * rr <= mx * mx * 1_000_000_000_000,
            qy * qy * rr <= my * my * 1_000_000_000_000,
            mx * mx + my * my == n,
    ;
    assert(n * 1_000_000_000_000 < ((r + 1) * 1000) * ((r + 1) * 1000)) by (nonlinear_arith)
        requires
            n * 1_000_000 < (r + 1) * (r + 1),
    ;
    assert(((r + 1) * 1000) * ((r + 1) * 1000) <= (1001 * r) * (1001 * r)) by (nonlinear_arith)
        requires
            0 <= (r + 1) * 1000 <= 1001 * r,
    ;
    assert(x * rr < (1001 * 1001) * rr) by (nonlinear_arith)
        requires
            x * rr < (1001 * r) * (1001 * r),
            rr == r * r,
    ;
    assert(x < 1001 * 1001) by (nonlinear_arith)
        requires
            x * rr < (1001 * 1001) * rr,
            rr > 0,
    ;
    // lower bound
    assert((qx + 1) * (qx + 1) * (r * r) > mx * mx * 1_000_000_000_000) by (nonlinear_arith)
        requires
            0 <= mx * 1_000_000 < (qx + 1) * r,
            qx >= 0,
            r >= 1,
    ;
    assert((qy + 1) * (qy + 1) * (r * r) > my * my * 1_000_000_000_000) by (nonlinear_arith)
        requires
            0 <= my * 1_000_000 < (qy + 1) * r,
            qy >= 0,
            r >= 1,
    ;
    let w = (qx + 1) * (qx + 1) + (qy + 1) * (qy + 1);
    assert(w * (r * r) > 1_000_000 * (r * r)) by (nonlinear_arith)
        requires
            w == (qx + 1) * (qx + 1) + (qy + 1) * (qy + 1),
            (qx + 1) * (qx + 1) * (r * r) > mx * mx * 1_000_000_000_000,
            (qy + 1) * (qy + 1) * (r * r) > my * my * 1_000_000_000_000,
            mx * mx + my * my == n,
            r * r <= n * 1_000_000,
    ;
    assert(w > 1_000_000) by (nonlinear_arith)
        requires
            w * (r * r) > 1_000_000 * (r * r),
            r >= 1000,
    ;
}

/// Unit direction from `current_position` toward `desired_pos`.
pub fn position_to_direction(current_position: Vec2, desired_pos: Vec2) -> (r: Vec2)
    requires
        current_position.in_plane(),
        desired_pos.in_plane(),
    ensures
        r == direction_spec(current_position, desired_pos),
{
    let dx: i128 = desired_pos.x as i128 - current_position.x as i128;
    let dy: i128 = desired_pos.y as i128 - current_position.y as i128;
    assert(0 <= dx * dx <= 4_000_000_000_000_000_000) by (nonlinear_arith)
        requires
            -2_000_000_000 <= dx <= 2_000_000_000,
    ;
    assert(0 <= dy * dy <= 4_000_000_000_000_000_000) by (nonlinear_arith)
        requires
            -2_000_000_000 <= dy <= 2_000_000_000,
    ;
    let n: i128 = dx * dx + dy * dy;
    if n == 0 {
        return Vec2 { x: 0, y: 0 };
    }
    let scale: i128 = 1_000_000;
    let r: u128 = isqrt((n * scale) as u128);
    assert(r >= 1) by (nonlinear_arith)
        requires
            n >= 1,
            n * 1_000_000 < (r + 1) * (r + 1),
            r >= 0,
    ;
    let qx: i128 = divide_toward_zero(dx * scale, r as i128);
    let qy: i128 = divide_toward_zero(dy * scale, r as i128);
    proof {
        lemma_div_bounded(dx * scale, r as int);
        lemma_div_bounded(dy * scale, r as int);
        assert((n * scale) as u128 == n * 1_000_000);
    }
    Vec2 { x: qx as i64, y: qy as i64 }
}

/// Largest weight magnitude accepted by `lerp`.
pub const WEIGHT_LIMIT: i64 = 10_000_000_000_000;

/// `a + (b − a)·w` for a fixed-point weight `w`, kept in the plane.
pub open spec fn lerp_spec(a: int, b: int, w: int) -> int {
    plane(a + div_toward_zero((b - a) * w, ONE as int))
}

/// Linear interpolation from `a` toward `b` by the fixed-point weight `w`.
pub fn lerp(a: i64, b: i64, w: i64) -> (r: i64)
    requires
        in_plane_int(a as int),
        in_plane_int(b as int),
        -WEIGHT_LIMIT <= w <= WEIGHT_LIMIT,
    ensures
        r == lerp_spec(a as int, b as int, w as int),
{
    let d: i128 = b as i128 - a as i128;
    let ww: i128 = w as i128;
    assert(-20_000_000_000_000_000_000_000 <= d * ww <= 20_000_000_000_000_000_000_000)
        by (nonlinear_arith)
        requires
            -2_000_000_000 <= d <= 2_000_000_000,
            -10_000_000_000_000 <= ww <= 10_000_000_000_000,
    ;
    let q: i128 = divide_toward_zero(d * ww, ONE as i128);
    proof {
        lemma_div_bounded(d * ww, 1000);
    }
    to_plane(a as i128 + q)
}

/// Interpolates both coordinates of a point.
pub open spec fn lerp_point_spec(a: Vec2, b: Vec2, w: int) -> Vec2 {
    Vec2 { x: lerp_spec(a.x as int, b.x as int, w) as i64, y: lerp_spec(a.y as int, b.y as int, w) as i64 }
}

pub fn lerp_point(a: Vec2, b: Vec2, w: i64) -> (r: Vec2)
    requires
        a.in_plane(),
        b.in_plane(),
        -WEIGHT_LIMIT <= w <= WEIGHT_LIMIT,
    ensures
        r == lerp_point_spec(a, b, w as int),
        r.in_plane(),
{
    Vec2 { x: lerp(a.x, b.x, w), y: lerp(a.y, b.y, w) }
}

/// Relies on rand's `Rng::gen_range` on `thread_rng()`: a value drawn from `lo..hi`
/// (it panics when the range is empty).
#[verifier::external_body]
pub(crate) fn random_in(lo: i64, hi: i64) -> (r: i64)
    requires
        lo < hi,
    ensures
        lo <= r < hi,
{
    rand::thread_rng().gen_range(lo..hi)
}

/// Lowest coordinate of a patrol point.
pub const PATROL_MARGIN: i64 = 5000;

/// A patrol point: in the upper half of the screen, away from its top and left edges.
pub open spec fn is_patrol_point(p: Vec2) -> bool {
    PATROL_MARGIN <= p.x < SCREEN_WIDTH && PATROL_MARGIN <= p.y < SCREEN_HEIGHT / 2
}

/// A random patrol point.
pub fn make_rand_pos() -> (r: Vec2)
    ensures
        is_patrol_point(r),
        r.in_plane(),
{
    let x = random_in(PATROL_MARGIN, SCREEN_WIDTH);
    let y = random_in(PATROL_MARGIN, SCREEN_HEIGHT / 2);
    Vec2 { x, y }
}

/// How far beyond the screen edge off-screen spawns are placed.
pub const OFFSCREEN_GAP: i64 = 50_000;

/// The point just off the screen `[0, w] × [0, h]` on edge `edge`
/// (0 left, 1 right, 2 top, otherwise bottom), `along` units along that edge.
pub open spec fn edge_point_spec(edge: int, along: int, w: int, h: int) -> Vec2 {
    if edge == 0 {
        Vec2 { x: (-OFFSCREEN_GAP) as i64, y: along as i64 }
    } else if edge == 1 {
        Vec2 { x: (w + OFFSCREEN_GAP) as i64, y: along as i64 }
    } else if edge == 2 {
        Vec2 { x: along as i64, y: (-OFFSCREEN_GAP) as i64 }
    } else {
        Vec2 { x: along as i64, y: (h + OFFSCREEN_GAP) as i64 }
    }
}

/// A point on one of the four off-screen spawn lines of the screen `[0, w] × [0, h]`.
pub open spec fn is_offscreen_spawn(p: Vec2, w: int, h: int) -> bool {
    (p.x == -OFFSCREEN_GAP && 0 <= p.y < h) || (p.x == w + OFFSCREEN_GAP && 0 <= p.y < h) || (
    p.y == -OFFSCREEN_GAP && 0 <= p.x < w) || (p.y == h + OFFSCREEN_GAP && 0 <= p.x < w)
}

/// Largest screen side accepted by the off-screen spawns.
pub const SCREEN_LIMIT: i64 = 100_000_000;

/// The off-screen point on `edge`, `along` units along it.
pub fn edge_point(edge: i64, along: i64, screen_width: i64, screen_height: i64) -> (r: Vec2)
    requires
        0 < screen_width <= SCREEN_LIMIT,
        0 < screen_height <= SCREEN_LIMIT,
        0 <= along <= SCREEN_LIMIT,
    ensures
        r == edge_point_spec(edge as int, along as int, screen_width as int, screen_height as int),
        r.in_plane(),
{
    if edge == 0 {
        Vec2 { x: -OFFSCREEN_GAP, y: along }
    } else if edge == 1 {
        Vec2 { x: screen_width + OFFSCREEN_GAP, y: along }
    } else if edge == 2 {
        Vec2 { x: along, y: -OFFSCREEN_GAP }
    } else {
        Vec2 { x: along, y: screen_height + OFFSCREEN_GAP }
    }
}

/// A random point just outside the screen `[0, w] × [0, h]`, on a random edge.
pub fn random_offscreen_position(screen_width: i64, screen_height: i64) -> (r: Vec2)
    requires
        0 < screen_width <= SCREEN_LIMIT,
        0 < screen_height <= SCREEN_LIMIT,
    ensures
        is_offscreen_spawn(r, screen_width as int, screen_height as int),
        r.x < 0 || r.x > screen_width || r.y < 0 || r.y > screen_height,
        r.in_plane(),
{
    let edge = random_in(0, 4);
    let along = if edge < 2 {
        random_in(0, screen_height)
    } else {
        random_in(0, screen_width)
    };
    edge_point(edge, along, screen_width, screen_height)
}

/// Right and bottom margins that keep the player's sprite on screen.
pub const PLAYER_MARGIN: i64 = 4000;

pub open spec fn clamp_player_spec(player: Actor) -> Actor {
    if player.tag == TypeActor::Player {
        Actor {
            position: Vec2 {
                x: clamp_int(player.position.x as int, 0, (SCREEN_WIDTH - PLAYER_MARGIN) as int) as i64,
                y: clamp_int(player.position.y as int, 0, (SCREEN_HEIGHT - PLAYER_MARGIN) as int) as i64,
            },
            ..player
        }
    } else {
        player
    }
}

/// Keeps the player on screen; other actors are left as they are.
pub fn clamp_player(player: &mut Actor)
    ensures
        *final(player) == clamp_player_spec(*old(player)),
        final(player).tag == TypeActor::Player ==> 0 <= final(player).position.x <= SCREEN_WIDTH
            - PLAYER_MARGIN && 0 <= final(player).position.y <= SCREEN_HEIGHT - PLAYER_MARGIN,
        old(player).wf() ==> final(player).wf(),
{
    if player.tag == TypeActor::Player {
        let screen_width = SCREEN_WIDTH - PLAYER_MARGIN;
        let screen_height = SCREEN_HEIGHT - PLAYER_MARGIN;
        if player.position.x < 0 {
            player.position.x = 0;
        } else if player.position.x > screen_width {
            player.position.x = screen_width;
        }
        if player.position.y < 0 {
            player.position.y = 0;
        } else if player.position.y > screen_height {
            player.position.y = screen_height;
        }
    }
}

} // verus!

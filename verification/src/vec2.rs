//! Two-dimensional fixed-point vectors: positions, velocities, accelerations.

use vstd::prelude::*;

verus! {

/// A 2-D vector in fixed-point coordinate units.
#[derive(Clone, Copy, PartialEq, Eq, Structural, Debug)]
pub struct Vec2 {
    pub x: i64,
    pub y: i64,
}

impl Vec2 {
    /// Squared Euclidean length, as a mathematical integer.
    pub open spec fn mag_sq(self) -> int {
        self.x * self.x + self.y * self.y
    }

    pub fn new(x: i64, y: i64) -> (r: Vec2)
        ensures
            r.x == x,
            r.y == y,
    {
        Vec2 { x, y }
    }
}

/// Largest `r` with `r * r <= n`.
pub open spec fn floor_sqrt(n: nat) -> nat
    decreases n,
{
    if n == 0 {
        0
    } else {
        let r = floor_sqrt((n - 1) as nat);
        if (r + 1) * (r + 1) <= n {
            r + 1
        } else {
            r
        }
    }
}

/// `floor_sqrt(n)` brackets `n`: its square is at most `n` and the next
/// square is past `n`.
pub proof fn lemma_floor_sqrt_bracket(n: nat)
    ensures
        floor_sqrt(n) * floor_sqrt(n) <= n,
        n < (floor_sqrt(n) + 1) * (floor_sqrt(n) + 1),
    decreases n,
{
    if n > 0 {
        lemma_floor_sqrt_bracket((n - 1) as nat);
        let r = floor_sqrt((n - 1) as nat);
        if (r + 1) * (r + 1) <= n {
            assert(floor_sqrt(n) == r + 1);
            assert((r + 2) * (r + 2) > (r + 1) * (r + 1)) by (nonlinear_arith);
        } else {
            assert(floor_sqrt(n) == r);
        }
    } else {
        assert(floor_sqrt(0) == 0);
        assert(n < (floor_sqrt(n) + 1) * (floor_sqrt(n) + 1)) by (nonlinear_arith)
            requires
                n == 0,
                floor_sqrt(n) == 0,
        ;
    }
}

/// A signed 64-bit value squared is non-negative and fits in 126 bits.
pub proof fn lemma_square_bounds(a: int)
    requires
        -0x8000_0000_0000_0000 <= a <= 0x7FFF_FFFF_FFFF_FFFF,
    ensures
        0 <= a * a <= 0x8000_0000_0000_0000 * 0x8000_0000_0000_0000,
{
    assert(0 <= a * a <= 0x8000_0000_0000_0000 * 0x8000_0000_0000_0000) by (nonlinear_arith)
        requires
            -0x8000_0000_0000_0000 <= a <= 0x7FFF_FFFF_FFFF_FFFF,
    ;
}

/// The bracketing property pins the floor square root down uniquely.
pub proof fn lemma_floor_sqrt_unique(n: nat, r: nat)
    requires
        r * r <= n,
        n < (r + 1) * (r + 1),
    ensures
        r == floor_sqrt(n),
{
    lemma_floor_sqrt_bracket(n);
    let f = floor_sqrt(n);
    if r < f {
        assert((r + 1) * (r + 1) <= f * f) by (nonlinear_arith)
            requires r + 1 <= f,
        ;
    }
    if f < r {
        assert((f + 1) * (f + 1) <= r * r) by (nonlinear_arith)
            requires f + 1 <= r,
        ;
    }
}

/// Integer square root: the exact floor of the real square root.
pub fn isqrt_u128(n: u128) -> (r: u64)
    ensures
        r == floor_sqrt(n as nat),
        (r as nat) * (r as nat) <= n as nat,
        (n as nat) < ((r as nat) + 1) * ((r as nat) + 1),
{
    let mut lo: u128 = 0;
    let mut hi: u128 = 0xFFFF_FFFF_FFFF_FFFF;
    proof {
        assert((hi as nat + 1) * (hi as nat + 1) > n as nat) by (nonlinear_arith)
            requires
                hi as nat + 1 == 0x1_0000_0000_0000_0000,
                (n as nat) < 0x1_0000_0000_0000_0000 * 0x1_0000_0000_0000_0000,
        ;
    }
    while lo < hi
        invariant
            lo <= hi,
            hi <= 0xFFFF_FFFF_FFFF_FFFF,
            (lo as nat) * (lo as nat) <= n as nat,
            (n as nat) < (hi as nat + 1) * (hi as nat + 1),
        decreases hi - lo,
    {
        let mid: u128 = lo + (hi - lo + 1) / 2;
        proof {
            assert(mid * mid <= 0xFFFF_FFFF_FFFF_FFFF * 0xFFFF_FFFF_FFFF_FFFF) by (nonlinear_arith)
                requires mid <= 0xFFFF_FFFF_FFFF_FFFFu128,
            ;
        }
        if mid * mid <= n {
            lo = mid;
        } else {
            hi = mid - 1;
        }
    }
    proof {
        lemma_floor_sqrt_unique(n as nat, lo as nat);
    }
    lo as u64
}

/// Euclidean length of a vector, rounded down to a whole number of units.
pub fn magnitude(v: Vec2) -> (r: u64)
    ensures
        r == floor_sqrt(v.mag_sq() as nat),
{
    proof {
        lemma_square_bounds(v.x as int);
        lemma_square_bounds(v.y as int);
    }
    let xx: u128 = ((v.x as i128) * (v.x as i128)) as u128;
    let yy: u128 = ((v.y as i128) * (v.y as i128)) as u128;
    isqrt_u128(xx + yy)
}

/// `floor_sqrt` is monotone.
pub proof fn lemma_floor_sqrt_mono(a: nat, b: nat)
    requires
        a <= b,
    ensures
        floor_sqrt(a) <= floor_sqrt(b),
{
    lemma_floor_sqrt_bracket(a);
    lemma_floor_sqrt_bracket(b);
    let fa = floor_sqrt(a);
    let fb = floor_sqrt(b);
    if fb < fa {
        assert((fb + 1) * (fb + 1) <= fa * fa) by (nonlinear_arith)
            requires fb + 1 <= fa,
        ;
    }
}

/// The floor square root of a perfect square is its root.
pub proof fn lemma_floor_sqrt_square(a: nat)
    ensures
        floor_sqrt(a * a) == a,
{
    assert(a * a < (a + 1) * (a + 1)) by (nonlinear_arith);
    lemma_floor_sqrt_unique(a * a, a);
}

/// No component of a vector exceeds the vector's magnitude.
pub proof fn lemma_component_le_mag(v: Vec2)
    ensures
        abs_int(v.x as int) <= floor_sqrt(v.mag_sq() as nat),
        abs_int(v.y as int) <= floor_sqrt(v.mag_sq() as nat),
{
    let ax = abs_int(v.x as int) as nat;
    let ay = abs_int(v.y as int) as nat;
    assert(ax * ax == v.x * v.x && ay * ay == v.y * v.y) by (nonlinear_arith)
        requires
            ax == abs_int(v.x as int),
            ay == abs_int(v.y as int),
    ;
    assert(v.x * v.x >= 0 && v.y * v.y >= 0) by (nonlinear_arith);
    lemma_floor_sqrt_square(ax);
    lemma_floor_sqrt_square(ay);
    lemma_floor_sqrt_mono((ax * ax) as nat, v.mag_sq() as nat);
    lemma_floor_sqrt_mono((ay * ay) as nat, v.mag_sq() as nat);
}

/// Absolute value, as a mathematical integer.
pub open spec fn abs_int(a: int) -> int {
    if a >= 0 { a } else { -a }
}

/// Division that truncates toward zero, matching machine division.
pub open spec fn div_trunc(a: int, d: int) -> int
    recommends d > 0,
{
    if a >= 0 { a / d } else { -((-a) / d) }
}

/// What `scale_to_magnitude` returns for one component: the component scaled
/// by `m` and divided by one more than the vector's magnitude, truncated
/// toward zero.  Dividing by `magnitude + 1` rather than the magnitude keeps
/// the result's length at or below `m` in every case.
pub open spec fn spec_scaled_component(c: int, m: int, mag: int) -> int {
    div_trunc(c * m, mag + 1)
}

impl Vec2 {
    /// The zero vector test.
    pub open spec fn is_zero(self) -> bool {
        self.x == 0 && self.y == 0
    }
}

/// Rescale `v` to point the same way with magnitude at most `m` and, up to
/// rounding, equal to `m`.
pub fn scale_to_magnitude(v: Vec2, m: i64) -> (r: Vec2)
    requires
        m >= 0,
    ensures
        r.x == spec_scaled_component(v.x as int, m as int, floor_sqrt(v.mag_sq() as nat) as int),
        r.y == spec_scaled_component(v.y as int, m as int, floor_sqrt(v.mag_sq() as nat) as int),
        r.mag_sq() <= (m as int) * (m as int),
        abs_int(r.x as int) <= m,
        abs_int(r.y as int) <= m,
{
    let mag = magnitude(v);
    let d: u128 = mag as u128 + 1;
    let ax: u128 = abs_u128(v.x);
    let ay: u128 = abs_u128(v.y);
    proof {
        assert(ax * (m as int) < 0x1_0000_0000_0000_0000 * 0x1_0000_0000_0000_0000) by (nonlinear_arith)
            requires
                0 <= ax <= 0x8000_0000_0000_0000,
                0 <= (m as int) < 0x8000_0000_0000_0000,
        ;
        assert(ay * (m as int) < 0x1_0000_0000_0000_0000 * 0x1_0000_0000_0000_0000) by (nonlinear_arith)
            requires
                0 <= ay <= 0x8000_0000_0000_0000,
                0 <= (m as int) < 0x8000_0000_0000_0000,
        ;
    }
    let sx: u128 = ax * (m as u128) / d;
    let sy: u128 = ay * (m as u128) / d;
    proof {
        lemma_component_le_mag(v);
        lemma_floor_sqrt_bracket(v.mag_sq() as nat);
        assert(ax * ax == v.x * v.x && ay * ay == v.y * v.y) by (nonlinear_arith)
            requires
                ax == abs_int(v.x as int),
                ay == abs_int(v.y as int),
        ;
        assert(v.x * v.x >= 0 && v.y * v.y >= 0) by (nonlinear_arith);
        lemma_scaled_fits(ax as int, m as int, mag as int, sx as int);
        lemma_scaled_fits(ay as int, m as int, mag as int, sy as int);
        lemma_scaled_mag_sq(ax as int, ay as int, m as int, mag as int, v.mag_sq(), sx as int, sy as int);
    }
    let rx: i64 = if v.x >= 0 { sx as i64 } else { -(sx as i64) };
    let ry: i64 = if v.y >= 0 { sy as i64 } else { -(sy as i64) };
    proof {
        lemma_signed_scaled(v.x as int, m as int, mag as int, sx as int, rx as int);
        lemma_signed_scaled(v.y as int, m as int, mag as int, sy as int, ry as int);
        assert(rx * rx == sx * sx && ry * ry == sy * sy) by (nonlinear_arith)
            requires
                rx == sx || rx == -sx,
                ry == sy || ry == -sy,
        ;
    }
    Vec2 { x: rx, y: ry }
}

/// Truncating division of a wide signed value by a small positive divisor.
pub fn div_trunc_i128(a: i128, d: u64) -> (r: i128)
    requires
        d >= 1,
        -0x8000_0000_0000_0000_0000_0000_0000_0000 < a,
    ensures
        r == div_trunc(a as int, d as int),
        abs_int(r as int) <= abs_int(a as int),
{
    if a >= 0 {
        ((a as u128) / (d as u128)) as i128
    } else {
        -(((-a) as u128 / (d as u128)) as i128)
    }
}

/// Absolute value of an `i64`, widened so that `i64::MIN` needs no special case.
fn abs_u128(a: i64) -> (r: u128)
    ensures
        r == abs_int(a as int),
{
    if a >= 0 { a as u128 } else { (-(a as i128)) as u128 }
}

/// Reapplying the component's sign matches `spec_scaled_component`.
proof fn lemma_signed_scaled(c: int, m: int, mag: int, s: int, r: int)
    requires
        0 <= m,
        0 <= mag,
        s == (abs_int(c) * m) / (mag + 1),
        r == if c >= 0 { s } else { -s },
    ensures
        r == spec_scaled_component(c, m, mag),
{
    if c >= 0 {
        assert(c * m >= 0) by (nonlinear_arith)
            requires c >= 0 && m >= 0,
        ;
    } else {
        assert(c * m <= 0 && -(c * m) == abs_int(c) * m) by (nonlinear_arith)
            requires c < 0 && m >= 0,
        ;
        if c * m == 0 {
            assert(s == 0);
        }
    }
}

/// A component scaled by `m` and divided by `mag + 1` stays at or below `m`.
proof fn lemma_scaled_fits(a: int, m: int, mag: int, s: int)
    requires
        0 <= a <= mag,
        0 <= m,
        s == (a * m) / (mag + 1),
    ensures
        0 <= s <= m,
{
    assert(0 <= a * m && a * m <= mag * m) by (nonlinear_arith)
        requires 0 <= a <= mag && 0 <= m,
    ;
    assert(s <= m) by (nonlinear_arith)
        requires
            s == (a * m) / (mag + 1),
            0 <= a * m <= mag * m,
            0 <= mag,
            0 <= m,
    ;
    assert(s >= 0) by (nonlinear_arith)
        requires
            s == (a * m) / (mag + 1),
            0 <= a * m,
            0 <= mag,
    ;
}

/// The squared length of the rescaled vector never exceeds `m * m`.
proof fn lemma_scaled_mag_sq(ax: int, ay: int, m: int, mag: int, s: int, sx: int, sy: int)
    requires
        0 <= ax,
        0 <= ay,
        0 <= m,
        0 <= mag,
        s == ax * ax + ay * ay,
        mag * mag <= s,
        s < (mag + 1) * (mag + 1),
        sx == (ax * m) / (mag + 1),
        sy == (ay * m) / (mag + 1),
    ensures
        sx * sx + sy * sy <= m * m,
{
    let d = mag + 1;
    assert(sx * d <= ax * m && sx >= 0) by (nonlinear_arith)
        requires
            sx == (ax * m) / d,
            0 <= ax * m,
            d > 0,
            0 <= ax && 0 <= m,
    ;
    assert(sy * d <= ay * m && sy >= 0) by (nonlinear_arith)
        requires
            sy == (ay * m) / d,
            0 <= ay * m,
            d > 0,
            0 <= ay && 0 <= m,
    ;
    assert((sx * sx + sy * sy) * (d * d) <= (ax * ax + ay * ay) * (m * m)) by (nonlinear_arith)
        requires
            sx * d <= ax * m,
            sy * d <= ay * m,
            sx >= 0 && sy >= 0 && 0 <= ax && 0 <= ay && 0 <= m && d > 0,
    ;
    assert(sx * sx + sy * sy <= m * m) by (nonlinear_arith)
        requires
            (sx * sx + sy * sy) * (d * d) <= s * (m * m),
            s < d * d,
            0 <= s,
            0 <= m,
            d > 0,
            sx * sx + sy * sy >= 0,
    ;
}

} // verus!

//! Collision engine: pairwise detection and response for the ball, the
//! paddles and the play-field boundary.
//!
//! A paddle bounce applies restitution: the velocity is deflected by a random
//! angle drawn from `[-variance * pi/4, +variance * pi/4]` and rescaled to
//! `clamp(speed * restitution_factor, 0, max_velocity)`.  Angles live in
//! milliradians and rotations in per-mille cosine/sine pairs.

use vstd::prelude::*;
use crate::vec2::{
    Vec2, abs_int, div_trunc, div_trunc_i128, floor_sqrt, isqrt_u128, magnitude,
    scale_to_magnitude, spec_scaled_component,
};
use crate::entities::{Ball, Paddle, PlayField, Collider, Kinematic, MILLI, RESTITUTION_FACTOR_LIMIT};
use crate::rect::{Rect, clamp_int, clamp_i64, max_int};
use crate::physics::GEOM_LIMIT;

verus! {

/// Relies on rand::random: a uniformly distributed value of the requested
/// type from the thread-local generator.  Nothing can be promised of the
/// value.
pub assume_specification<T>[ rand::random::<T> ]() -> (r: T)
    where
        rand::distr::StandardUniform: rand::distr::Distribution<T>,
;

/// A plane rotation in per-mille fixed point: cosine and sine scaled by 1000.
#[derive(Clone, Copy, PartialEq, Eq, Structural, Debug)]
pub struct Rot2 {
    pub cos_m: i64,
    pub sin_m: i64,
}

impl Rot2 {
    /// A rotation never lengthens a vector: its scaled cosine/sine pair stays
    /// within the unit circle.
    pub open spec fn wf(self) -> bool {
        &&& -MILLI <= self.cos_m <= MILLI
        &&& -MILLI <= self.sin_m <= MILLI
        &&& self.cos_m * self.cos_m + self.sin_m * self.sin_m <= MILLI * MILLI
    }

    /// The rotation by no angle at all.
    pub open spec fn is_identity(self) -> bool {
        self.cos_m == MILLI && self.sin_m == 0
    }

    pub fn identity() -> (r: Rot2)
        ensures
            r.wf(),
            r.is_identity(),
    {
        Rot2 { cos_m: MILLI, sin_m: 0 }
    }
}

/// Truncating division shrinks the absolute value in proportion.
proof fn lemma_div_trunc_abs_le(a: int, d: int, b: int)
    requires
        d >= 1,
        0 <= b,
        abs_int(a) <= b * d,
    ensures
        abs_int(div_trunc(a, d)) <= b,
{
    if a >= 0 {
        assert(a / d <= b) by (nonlinear_arith)
            requires 0 <= a <= b * d && d >= 1 && b >= 0,
        ;
        assert(a / d >= 0) by (nonlinear_arith)
            requires a >= 0 && d >= 1,
        ;
    } else {
        assert((-a) / d <= b) by (nonlinear_arith)
            requires 0 <= -a <= b * d && d >= 1 && b >= 0,
        ;
        assert((-a) / d >= 0) by (nonlinear_arith)
            requires -a >= 0 && d >= 1,
        ;
    }
}

/// What every drawn restitution deflection satisfies for a ball with the
/// given per-mille angle variance: a forward rotation (non-negative cosine)
/// whose scaled pair lies within one rounding band below the unit circle,
/// whose sine is bounded in proportion to the variance (the angle never
/// exceeds the variance's share of a quarter turn's half), and which is
/// exactly the identity when the variance is zero.
pub open spec fn deflection_ok(rot: Rot2, variance: int) -> bool {
    &&& rot.wf()
    &&& rot.cos_m >= 0
    &&& MILLI * MILLI - 2 * MILLI - 1 <= rot.cos_m * rot.cos_m + rot.sin_m * rot.sin_m
    &&& abs_int(rot.sin_m as int) * (MILLI as int) <= 785 * variance
    &&& (variance == 0 ==> rot.is_identity())
}

/// Dividing scales the absolute value down by the divisor.
proof fn lemma_div_trunc_scaled(a: int, d: int)
    requires
        d >= 1,
    ensures
        abs_int(div_trunc(a, d)) * d <= abs_int(a),
{
    if a >= 0 {
        assert((a / d) * d <= a && a / d >= 0) by (nonlinear_arith)
            requires a >= 0 && d >= 1,
        ;
    } else {
        assert(((-a) / d) * d <= -a && (-a) / d >= 0) by (nonlinear_arith)
            requires -a >= 0 && d >= 1,
        ;
    }
}

/// Subtracting the Taylor cubic term keeps the sine within the angle: the
/// correction has the angle's sign and never exceeds it in size.
proof fn lemma_taylor_sine_shrinks(x: int, x2: int, t: int)
    requires
        abs_int(x) <= 785,
        x2 == x * x,
        t == div_trunc(x2 * x, 6_000_000),
    ensures
        abs_int(x - t) <= abs_int(x),
{
    assert(0 <= x2 <= 785 * 785) by (nonlinear_arith)
        requires
            x2 == x * x,
            abs_int(x) <= 785,
    ;
    if x >= 0 {
        assert(0 <= x2 * x && x2 * x <= 6_000_000 * x) by (nonlinear_arith)
            requires
                x >= 0,
                x2 == x * x,
                0 <= x2 <= 785 * 785,
        ;
        assert(0 <= (x2 * x) / 6_000_000 && (x2 * x) / 6_000_000 <= x) by (nonlinear_arith)
            requires 0 <= x2 * x <= 6_000_000 * x,
        ;
    } else {
        assert(0 <= x2 * (-x) && x2 * (-x) <= 6_000_000 * (-x) && -(x2 * x) == x2 * (-x))
            by (nonlinear_arith)
            requires
                x < 0,
                x2 == x * x,
                0 <= x2 <= 785 * 785,
        ;
        assert(0 <= (x2 * (-x)) / 6_000_000 && (x2 * (-x)) / 6_000_000 <= -x) by (nonlinear_arith)
            requires 0 <= x2 * (-x) <= 6_000_000 * (-x),
        ;
    }
}

/// Draw the random restitution deflection for a ball with the given angle
/// variance (per-mille of a quarter turn's half).  The angle is uniform in
/// about `[-variance * pi/4, +variance * pi/4]`; its sine comes from a
/// third-order Taylor expansion and its cosine from the Pythagorean
/// identity, so the pair always sits in a one-rounding band below the unit
/// circle.  Variance 0 disables the randomness and yields the identity
/// rotation exactly.
pub fn random_deflection(variance: i64) -> (r: Rot2)
    requires
        0 <= variance <= MILLI,
    ensures
        deflection_ok(r, variance as int),
{
    let draw: u32 = rand::random();
    let milli: i64 = (draw % 1000) as i64;
    // offset angle in milliradians (1571 per-mille of pi/2, 785 of pi/4)
    let base: i64 = ((milli as u64 * 1571) / 1000) as i64 - 785;
    proof {
        assert(abs_int((base as int) * (variance as int)) <= 785 * (variance as int)
            && 785 * (variance as int) <= 785 * 1000) by (nonlinear_arith)
            requires
                -785 <= base as int <= 785,
                0 <= variance as int <= 1000,
        ;
    }
    let prod: i128 = (base as i128) * (variance as i128);
    let offset: i64 = div_trunc_i128(prod, 1000) as i64;
    proof {
        lemma_div_trunc_abs_le(prod as int, 1000, 785);
        lemma_div_trunc_scaled(prod as int, 1000);
    }
    let x: i64 = offset;
    proof {
        assert(0 <= (x as int) * (x as int) <= 785 * 785) by (nonlinear_arith)
            requires abs_int(x as int) <= 785,
        ;
    }
    let x2: i64 = x * x;
    proof {
        assert(abs_int((x2 as int) * (x as int)) <= 81 * 6_000_000) by (nonlinear_arith)
            requires
                0 <= x2 as int <= 785 * 785,
                abs_int(x as int) <= 785,
        ;
    }
    let prod3: i128 = (x2 as i128) * (x as i128);
    let t: i64 = div_trunc_i128(prod3, 6_000_000) as i64;
    proof {
        lemma_div_trunc_abs_le(prod3 as int, 6_000_000, 81);
        lemma_taylor_sine_shrinks(x as int, x2 as int, t as int);
    }
    let sin_m: i64 = x - t;
    proof {
        assert(0 <= (sin_m as int) * (sin_m as int) <= 785 * 785) by (nonlinear_arith)
            requires abs_int(sin_m as int) <= 785,
        ;
    }
    let k: u64 = 1_000_000 - ((sin_m * sin_m) as u64);
    let c_u: u64 = isqrt_u128(k as u128);
    proof {
        // the bracket of the square root pins the pair to the unit band
        assert(c_u <= 1000) by (nonlinear_arith)
            requires
                (c_u as int) * (c_u as int) <= k as int,
                (k as int) <= 1_000_000,
        ;
    }
    let cos_m: i64 = c_u as i64;
    proof {
        assert((k as int) < ((cos_m as int) + 1) * ((cos_m as int) + 1));
        assert(((cos_m as int) + 1) * ((cos_m as int) + 1)
            == (cos_m as int) * (cos_m as int) + 2 * (cos_m as int) + 1) by (nonlinear_arith);
        // the sine bound scales with the variance
        assert(abs_int(sin_m as int) * 1000 <= abs_int(x as int) * 1000
            && abs_int(x as int) * 1000 <= 785 * (variance as int)) by (nonlinear_arith)
            requires
                abs_int(sin_m as int) <= abs_int(x as int),
                abs_int(x as int) * 1000 <= abs_int(prod as int),
                abs_int(prod as int) <= 785 * (variance as int),
        ;
        if variance == 0 {
            assert((base as int) * (variance as int) == 0) by (nonlinear_arith)
                requires variance as int == 0,
            ;
            assert(div_trunc(0, 1000) == 0);
            assert(offset == 0);
            assert((x as int) * (x as int) == 0) by (nonlinear_arith)
                requires x as int == 0,
            ;
            assert((x2 as int) * (x as int) == 0) by (nonlinear_arith)
                requires x2 as int == 0 && x as int == 0,
            ;
            assert(div_trunc(0, 6_000_000) == 0);
            assert(sin_m == 0);
            assert(k == 1_000_000);
            crate::vec2::lemma_floor_sqrt_square(1000);
            assert(cos_m == 1000);
        }
    }
    Rot2 { cos_m, sin_m }
}

/// Horizontal component of a vector rotated by `rot`, truncated to units.
pub open spec fn rot_x(v: Vec2, rot: Rot2) -> int {
    div_trunc(v.x * rot.cos_m - v.y * rot.sin_m, MILLI as int)
}

/// Vertical component of a vector rotated by `rot`, truncated to units.
pub open spec fn rot_y(v: Vec2, rot: Rot2) -> int {
    div_trunc(v.x * rot.sin_m + v.y * rot.cos_m, MILLI as int)
}

/// The rotated vector (its components fit `i64` whenever the input is within
/// the geometry range).
pub open spec fn spec_rotated(v: Vec2, rot: Rot2) -> Vec2 {
    Vec2 { x: rot_x(v, rot) as i64, y: rot_y(v, rot) as i64 }
}

/// Rotate a velocity by a per-mille cosine/sine pair.
pub fn rotate_milli(v: Vec2, rot: Rot2) -> (r: Vec2)
    requires
        -GEOM_LIMIT <= v.x <= GEOM_LIMIT,
        -GEOM_LIMIT <= v.y <= GEOM_LIMIT,
        rot.wf(),
    ensures
        r == spec_rotated(v, rot),
        abs_int(r.x as int) <= 2 * GEOM_LIMIT,
        abs_int(r.y as int) <= 2 * GEOM_LIMIT,
{
    proof {
        assert(abs_int((v.x as int) * (rot.cos_m as int)) <= 0x1000_0000_0000 * 1000
            && abs_int((v.y as int) * (rot.sin_m as int)) <= 0x1000_0000_0000 * 1000
            && abs_int((v.x as int) * (rot.sin_m as int)) <= 0x1000_0000_0000 * 1000
            && abs_int((v.y as int) * (rot.cos_m as int)) <= 0x1000_0000_0000 * 1000) by (nonlinear_arith)
            requires
                abs_int(v.x as int) <= 0x1000_0000_0000,
                abs_int(v.y as int) <= 0x1000_0000_0000,
                abs_int(rot.cos_m as int) <= 1000,
                abs_int(rot.sin_m as int) <= 1000,
        ;
    }
    let xn: i128 = (v.x as i128) * (rot.cos_m as i128) - (v.y as i128) * (rot.sin_m as i128);
    let yn: i128 = (v.x as i128) * (rot.sin_m as i128) + (v.y as i128) * (rot.cos_m as i128);
    proof {
        lemma_div_trunc_abs_le(xn as int, 1000, 2 * GEOM_LIMIT as int);
        lemma_div_trunc_abs_le(yn as int, 1000, 2 * GEOM_LIMIT as int);
    }
    let rx: i64 = div_trunc_i128(xn, 1000) as i64;
    let ry: i64 = div_trunc_i128(yn, 1000) as i64;
    Vec2 { x: rx, y: ry }
}

/// The post-bounce target speed: the old speed scaled by the per-mille
/// restitution factor and clamped to `[0, max_velocity]`.
pub open spec fn bounce_target_speed(v: Vec2, factor: int, maxv: int) -> int {
    crate::rect::clamp_int((floor_sqrt(v.mag_sq() as nat) * factor) / (MILLI as int), 0, maxv)
}

/// The post-bounce velocity: the incoming velocity rotated by `rot`, then
/// rescaled to the clamped target speed.
pub open spec fn spec_bounce(v: Vec2, rot: Rot2, factor: int, maxv: int) -> Vec2 {
    let w = spec_rotated(v, rot);
    let m = bounce_target_speed(v, factor, maxv);
    Vec2 {
        x: spec_scaled_component(w.x as int, m, floor_sqrt(w.mag_sq() as nat) as int) as i64,
        y: spec_scaled_component(w.y as int, m, floor_sqrt(w.mag_sq() as nat) as int) as i64,
    }
}

/// Apply restitution to a velocity: rotate by `rot`, rescale the magnitude by
/// the per-mille `factor`, and cap it at `maxv`.  The resulting speed never
/// exceeds `maxv`, whatever the rotation and factor.
pub fn bounce_velocity(v: Vec2, rot: Rot2, factor: i64, maxv: i64) -> (r: Vec2)
    requires
        -GEOM_LIMIT <= v.x <= GEOM_LIMIT,
        -GEOM_LIMIT <= v.y <= GEOM_LIMIT,
        rot.wf(),
        0 <= factor <= RESTITUTION_FACTOR_LIMIT,
        0 <= maxv <= GEOM_LIMIT,
    ensures
        r == spec_bounce(v, rot, factor as int, maxv as int),
        r.mag_sq() <= (maxv as int) * (maxv as int),
        abs_int(r.x as int) <= maxv,
        abs_int(r.y as int) <= maxv,
{
    let w = rotate_milli(v, rot);
    let mag: u64 = magnitude(v);
    proof {
        assert(0 <= (mag as int) * (factor as int)
            && (mag as int) * (factor as int) < 0x1_0000_0000_0000_0000 * 0x1_0000_0000_0000_0000) by (nonlinear_arith)
            requires
                0 <= (mag as int) && (mag as int) < 0x1_0000_0000_0000_0000,
                0 <= (factor as int) && (factor as int) <= 1_000_000,
        ;
        assert((mag as int) * (factor as int) / 1000 >= 0) by (nonlinear_arith)
            requires (mag as int) * (factor as int) >= 0,
        ;
    }
    let scaled: u128 = (mag as u128) * (factor as u128) / 1000;
    let m: i64 = if scaled > maxv as u128 {
        maxv
    } else {
        scaled as i64
    };
    proof {
        assert(m as int == bounce_target_speed(v, factor as int, maxv as int));
    }
    let r = scale_to_magnitude(w, m);
    proof {
        assert(r.mag_sq() <= (maxv as int) * (maxv as int)) by (nonlinear_arith)
            requires
                r.mag_sq() <= (m as int) * (m as int),
                0 <= m as int <= maxv as int,
        ;
    }
    r
}

/// Length of one de-penetration step, in units: one pixel.
pub const DEPENETRATION_STEP: i64 = 1000;

/// How far the ball's center must stay from a play-field edge, in units:
/// one pixel.
pub const FIELD_INSET: i64 = 1000;

/// The velocity after the axis flip a paddle hit applies, chosen by the
/// overlap rectangle's aspect: wider than tall flips the vertical component,
/// taller than wide the horizontal, an exactly square overlap both.
pub open spec fn spec_flip(v: Vec2, inter: Rect) -> Vec2 {
    if inter.w > inter.h {
        Vec2 { x: v.x, y: (-v.y) as i64 }
    } else if inter.h > inter.w {
        Vec2 { x: (-v.x) as i64, y: v.y }
    } else {
        Vec2 { x: (-v.x) as i64, y: (-v.y) as i64 }
    }
}

/// The de-penetration step: the velocity rescaled to one pixel's length.
pub open spec fn spec_step_vec(v: Vec2) -> Vec2 {
    Vec2 {
        x: spec_scaled_component(v.x as int, DEPENETRATION_STEP as int, floor_sqrt(v.mag_sq() as nat) as int) as i64,
        y: spec_scaled_component(v.y as int, DEPENETRATION_STEP as int, floor_sqrt(v.mag_sq() as nat) as int) as i64,
    }
}

/// Whether the ball's collider, moved back `j` steps of `s` from its start,
/// still overlaps the rectangle `prect`.
pub open spec fn shifted_overlaps(b: Ball, prect: Rect, s: Vec2, j: int) -> bool {
    let bl = b.pos.x - b.size / 2 - j * s.x;
    let bt = b.pos.y - b.size / 2 - j * s.y;
    &&& bl < prect.spec_right()
    &&& prect.spec_left() < bl + b.size
    &&& bt < prect.spec_bottom()
    &&& prect.spec_top() < bt + b.size
}

/// The larger of the two component magnitudes of a step.
pub open spec fn dominant_abs(s: Vec2) -> int {
    if abs_int(s.x as int) >= abs_int(s.y as int) {
        abs_int(s.x as int)
    } else {
        abs_int(s.y as int)
    }
}

/// The penetration depth the walk has to clear, measured along the dominant
/// step axis against the direction the ball backs out in.
pub open spec fn walk_depth(b: Ball, prect: Rect, s: Vec2) -> int {
    if abs_int(s.x as int) >= abs_int(s.y as int) {
        if s.x >= 0 {
            (b.pos.x - b.size / 2 + b.size) - prect.spec_left()
        } else {
            prect.spec_right() - (b.pos.x - b.size / 2)
        }
    } else {
        if s.y >= 0 {
            (b.pos.y - b.size / 2 + b.size) - prect.spec_top()
        } else {
            prect.spec_bottom() - (b.pos.y - b.size / 2)
        }
    }
}

/// What the de-penetration walk leaves behind: the ball backed out `k` whole
/// steps, the first position at which the colliders no longer overlap, with
/// `k` proportional to the penetration depth divided by the step length.
pub open spec fn walk_exit(b: Ball, prect: Rect, s: Vec2, k: nat, end: Vec2) -> bool {
    &&& end.x == b.pos.x - k * s.x
    &&& end.y == b.pos.y - k * s.y
    &&& !shifted_overlaps(b, prect, s, k as int)
    &&& (forall|j: int| 0 <= j < k ==> shifted_overlaps(b, prect, s, j))
    &&& k >= 1 ==> k * dominant_abs(s) <= walk_depth(b, prect, s) + dominant_abs(s)
}

/// A nonzero velocity always yields a usable step: both components at most a
/// pixel, the dominant one at least half a pixel.
proof fn lemma_step_vec_props(v: Vec2)
    requires
        !v.is_zero(),
        -GEOM_LIMIT <= v.x <= GEOM_LIMIT,
        -GEOM_LIMIT <= v.y <= GEOM_LIMIT,
    ensures
        abs_int(spec_step_vec(v).x as int) <= DEPENETRATION_STEP,
        abs_int(spec_step_vec(v).y as int) <= DEPENETRATION_STEP,
        dominant_abs(spec_step_vec(v)) >= 500,
{
    let mag = floor_sqrt(v.mag_sq() as nat) as int;
    let m = mag + 1;
    crate::vec2::lemma_component_le_mag(v);
    crate::vec2::lemma_floor_sqrt_bracket(v.mag_sq() as nat);
    assert(v.mag_sq() >= 0) by (nonlinear_arith);
    assert(mag * mag <= v.mag_sq());
    let vd = if abs_int(v.x as int) >= abs_int(v.y as int) { abs_int(v.x as int) } else { abs_int(v.y as int) };
    assert(vd >= 1);
    // the magnitude is below twice the dominant component
    assert(v.mag_sq() <= 2 * vd * vd) by (nonlinear_arith)
        requires
            vd == (if abs_int(v.x as int) >= abs_int(v.y as int) { abs_int(v.x as int) } else { abs_int(v.y as int) }),
            v.mag_sq() == (v.x as int) * (v.x as int) + (v.y as int) * (v.y as int),
    ;
    assert(mag < 2 * vd) by (nonlinear_arith)
        requires
            mag * mag <= 2 * vd * vd,
            0 <= mag,
            1 <= vd,
    ;
    // so the dominant scaled component keeps at least half the step length
    let sd = (vd * 1000) / m;
    assert(sd >= 500) by (nonlinear_arith)
        requires
            1 <= m <= 2 * vd,
            sd == (vd * 1000) / m,
            1 <= vd,
    ;
    // identify sd with the dominant component of the step vector
    let s = spec_step_vec(v);
    if abs_int(v.x as int) >= abs_int(v.y as int) {
        assert(abs_int(s.x as int) == sd && abs_int(s.x as int) <= 1000) by {
            lemma_scaled_component_abs(v.x as int, mag, vd);
        }
        assert(abs_int(s.y as int) <= 1000) by {
            lemma_scaled_component_abs(v.y as int, mag, abs_int(v.y as int));
        }
        assert(dominant_abs(s) >= sd);
    } else {
        assert(abs_int(s.y as int) == sd && abs_int(s.y as int) <= 1000) by {
            lemma_scaled_component_abs(v.y as int, mag, vd);
        }
        assert(abs_int(s.x as int) <= 1000) by {
            lemma_scaled_component_abs(v.x as int, mag, abs_int(v.x as int));
        }
        assert(dominant_abs(s) >= sd);
    }
}

/// The scaled component of `c` with `abs_int(c) == a <= mag` has magnitude
/// `a * 1000 / (mag + 1)`, which is at most the full step.
proof fn lemma_scaled_component_abs(c: int, mag: int, a: int)
    requires
        0 <= mag,
        a == abs_int(c),
        a <= mag,
    ensures
        abs_int(spec_scaled_component(c, DEPENETRATION_STEP as int, mag)) == (a * 1000) / (mag + 1),
        abs_int(spec_scaled_component(c, DEPENETRATION_STEP as int, mag)) <= 1000,
{
    let m = mag + 1;
    if c >= 0 {
        assert(c * 1000 >= 0) by (nonlinear_arith) requires c >= 0;
        assert((c * 1000) / m >= 0) by (nonlinear_arith) requires c * 1000 >= 0 && m >= 1;
    } else {
        assert(c * 1000 < 0 && -(c * 1000) == a * 1000) by (nonlinear_arith)
            requires c < 0 && a == -c,
        ;
        assert((a * 1000) / m >= 0) by (nonlinear_arith)
            requires a * 1000 >= 0 && m >= 1,
        ;
    }
    assert((a * 1000) / m <= 1000) by (nonlinear_arith)
        requires
            0 <= a <= mag,
            m == mag + 1,
    ;
}

/// While the shifted collider still overlaps, the steps taken so far have
/// not yet cleared the penetration depth.
proof fn lemma_overlap_bounds_steps(b: Ball, prect: Rect, s: Vec2, j: int)
    requires
        0 <= j,
        shifted_overlaps(b, prect, s, j),
    ensures
        j * dominant_abs(s) < walk_depth(b, prect, s),
{
    if abs_int(s.x as int) >= abs_int(s.y as int) {
        if s.x >= 0 {
            assert(j * abs_int(s.x as int) == j * s.x) by (nonlinear_arith)
                requires s.x >= 0;
        } else {
            assert(j * abs_int(s.x as int) == -(j * s.x)) by (nonlinear_arith)
                requires s.x < 0;
        }
    } else {
        if s.y >= 0 {
            assert(j * abs_int(s.y as int) == j * s.y) by (nonlinear_arith)
                requires s.y >= 0;
        } else {
            assert(j * abs_int(s.y as int) == -(j * s.y)) by (nonlinear_arith)
                requires s.y < 0;
        }
    }
}

/// The full effect of a ball-paddle collision once the deflection rotation
/// is fixed: untouched without overlap or with a resting ball; otherwise the
/// ball is walked back to the first separating position and its velocity is
/// flipped by the overlap's aspect and restituted.
pub open spec fn paddle_bounce_rel(pre: Ball, p: Paddle, rot: Rot2, post: Ball) -> bool {
    let prect = p.spec_collider();
    let brect = pre.spec_collider();
    if !brect.overlaps(prect) || pre.velocity.is_zero() {
        post == pre
    } else {
        let s = spec_step_vec(pre.velocity);
        let inter = brect.spec_intersection(prect);
        &&& post.size == pre.size
        &&& post.physics == pre.physics
        &&& post.velocity == spec_bounce(
            spec_flip(pre.velocity, inter),
            rot,
            pre.physics.restitution_factor as int,
            pre.physics.max_velocity as int,
        )
        &&& post.velocity.mag_sq() <= pre.physics.max_velocity * pre.physics.max_velocity
        &&& exists|k: nat| walk_exit(pre, prect, s, k, post.pos)
    }
}

/// The play field is wide and tall enough to hold the ball plus the inset
/// margin on each side (the rule's clamp is meaningless otherwise).
pub open spec fn ball_field_fits(b: Ball, f: PlayField) -> bool {
    &&& f.rect.spec_left() + b.size / 2 + FIELD_INSET
        <= f.rect.spec_right() - b.size / 2 - FIELD_INSET
    &&& f.rect.spec_top() + b.size / 2 + FIELD_INSET
        <= f.rect.spec_bottom() - b.size / 2 - FIELD_INSET
}

/// The play field is wide and tall enough to hold the paddle.
pub open spec fn paddle_field_fits(p: Paddle, f: PlayField) -> bool {
    &&& f.rect.spec_left() + p.size.x / 2 <= f.rect.spec_right() - p.size.x / 2
    &&& f.rect.spec_top() + p.size.y / 2 <= f.rect.spec_bottom() - p.size.y / 2
}

/// The full effect of the ball-against-field rule: untouched while the ball
/// sits inside the field; otherwise the velocity flips on each protruding
/// axis and the center is clamped one pixel inside the boundary, per axis.
pub open spec fn field_bounce_rel(pre: Ball, f: PlayField, post: Ball) -> bool {
    let uni = f.rect.spec_union(pre.spec_collider());
    &&& post.size == pre.size
    &&& post.physics == pre.physics
    &&& if uni == f.rect {
        post == pre
    } else {
        &&& post.velocity.x as int == if uni.w > f.rect.w {
            -(pre.velocity.x as int)
        } else {
            pre.velocity.x as int
        }
        &&& post.velocity.y as int == if uni.h > f.rect.h {
            -(pre.velocity.y as int)
        } else {
            pre.velocity.y as int
        }
        &&& post.pos.x as int == clamp_int(
            pre.pos.x as int,
            f.rect.spec_left() + pre.size / 2 + FIELD_INSET,
            f.rect.spec_right() - pre.size / 2 - FIELD_INSET,
        )
        &&& post.pos.y as int == clamp_int(
            pre.pos.y as int,
            f.rect.spec_top() + pre.size / 2 + FIELD_INSET,
            f.rect.spec_bottom() - pre.size / 2 - FIELD_INSET,
        )
    }
}

/// Collision symmetry of the field rule, one axis at a time: a ball whose
/// collider sticks out horizontally but sits vertically between the inset
/// bands comes back with its center exactly one pixel inside the crossed
/// edge, its horizontal velocity sign flipped, and its vertical position and
/// velocity untouched.
pub proof fn lemma_field_bounce_axis_symmetry(pre: Ball, f: PlayField, post: Ball)
    requires
        field_bounce_rel(pre, f, post),
        pre.wf(),
        f.wf(),
        ball_field_fits(pre, f),
        pre.spec_collider().spec_left() < f.rect.spec_left()
            || f.rect.spec_right() < pre.spec_collider().spec_right(),
        f.rect.spec_top() + pre.size / 2 + FIELD_INSET <= pre.pos.y,
        pre.pos.y <= f.rect.spec_bottom() - pre.size / 2 - FIELD_INSET,
    ensures
        post.velocity.x as int == -(pre.velocity.x as int),
        post.velocity.y == pre.velocity.y,
        post.pos.y == pre.pos.y,
        pre.spec_collider().spec_left() < f.rect.spec_left()
            ==> post.pos.x as int == f.rect.spec_left() + pre.size / 2 + FIELD_INSET,
        f.rect.spec_right() < pre.spec_collider().spec_right()
            ==> post.pos.x as int == f.rect.spec_right() - pre.size / 2 - FIELD_INSET,
{
    let uni = f.rect.spec_union(pre.spec_collider());
    assert(uni.w > f.rect.w);
    assert(uni != f.rect);
    assert(pre.size - pre.size / 2 >= pre.size / 2);
    if pre.spec_collider().spec_left() < f.rect.spec_left() {
        assert(pre.pos.x as int <= f.rect.spec_left() + pre.size / 2 + FIELD_INSET);
    } else {
        assert(pre.pos.x as int >= f.rect.spec_right() - pre.size / 2 - FIELD_INSET);
    }
}

/// The vertical twin of `lemma_field_bounce_axis_symmetry`.
pub proof fn lemma_field_bounce_axis_symmetry_vertical(pre: Ball, f: PlayField, post: Ball)
    requires
        field_bounce_rel(pre, f, post),
        pre.wf(),
        f.wf(),
        ball_field_fits(pre, f),
        pre.spec_collider().spec_top() < f.rect.spec_top()
            || f.rect.spec_bottom() < pre.spec_collider().spec_bottom(),
        f.rect.spec_left() + pre.size / 2 + FIELD_INSET <= pre.pos.x,
        pre.pos.x <= f.rect.spec_right() - pre.size / 2 - FIELD_INSET,
    ensures
        post.velocity.y as int == -(pre.velocity.y as int),
        post.velocity.x == pre.velocity.x,
        post.pos.x == pre.pos.x,
        pre.spec_collider().spec_top() < f.rect.spec_top()
            ==> post.pos.y as int == f.rect.spec_top() + pre.size / 2 + FIELD_INSET,
        f.rect.spec_bottom() < pre.spec_collider().spec_bottom()
            ==> post.pos.y as int == f.rect.spec_bottom() - pre.size / 2 - FIELD_INSET,
{
    let uni = f.rect.spec_union(pre.spec_collider());
    assert(uni.h > f.rect.h);
    assert(uni != f.rect);
    assert(pre.size - pre.size / 2 >= pre.size / 2);
    if pre.spec_collider().spec_top() < f.rect.spec_top() {
        assert(pre.pos.y as int <= f.rect.spec_top() + pre.size / 2 + FIELD_INSET);
    } else {
        assert(pre.pos.y as int >= f.rect.spec_bottom() - pre.size / 2 - FIELD_INSET);
    }
}

/// The full effect of the paddle-against-field rule: the center clamped so
/// the edges stay inside the field, nothing else changed.
pub open spec fn paddle_clamp_rel(pre: Paddle, f: PlayField, post: Paddle) -> bool {
    &&& post.size == pre.size
    &&& post.velocity == pre.velocity
    &&& post.acceleration == pre.acceleration
    &&& post.movement_speed == pre.movement_speed
    &&& post.pos.x as int == clamp_int(
        pre.pos.x as int,
        f.rect.spec_left() + pre.size.x / 2,
        f.rect.spec_right() - pre.size.x / 2,
    )
    &&& post.pos.y as int == clamp_int(
        pre.pos.y as int,
        f.rect.spec_top() + pre.size.y / 2,
        f.rect.spec_bottom() - pre.size.y / 2,
    )
}

impl Ball {
    /// Resolve a collision against a paddle with the restitution deflection
    /// supplied by the caller.
    ///
    /// On overlap the ball is pushed backward along its own normalized
    /// velocity one pixel-length step at a time until the colliders separate
    /// (on a corner hit this direction can look wrong on screen; the rule is
    /// kept as the game defines it).  A ball at rest inside a paddle is left
    /// untouched, since it has no direction to back out along.
    pub fn collide_with_paddle_deflected(&mut self, other: &Paddle, rot: Rot2)
        requires
            old(self).wf(),
            other.wf(),
            rot.wf(),
        ensures
            final(self).wf(),
            paddle_bounce_rel(*old(self), *other, rot, *final(self)),
    {
        let prect = other.collider();
        let brect = self.collider();
        let inter_opt = brect.intersection(&prect);
        let inter = match inter_opt {
            Some(i) => i,
            None => {
                return;
            },
        };
        if self.velocity.x == 0 && self.velocity.y == 0 {
            return;
        }
        let s = scale_to_magnitude(self.velocity, DEPENETRATION_STEP);
        proof {
            lemma_step_vec_props(self.velocity);
        }
        let neg_s = Vec2 { x: -s.x, y: -s.y };
        let ghost b0: Ball = *self;
        let ghost mut steps: int = 0;
        loop
            invariant
                0 <= steps,
                b0.wf(),
                other.wf(),
                prect == other.spec_collider(),
                prect.wf(),
                self.size == b0.size,
                self.velocity == b0.velocity,
                self.physics == b0.physics,
                s == spec_step_vec(b0.velocity),
                abs_int(s.x as int) <= DEPENETRATION_STEP,
                abs_int(s.y as int) <= DEPENETRATION_STEP,
                dominant_abs(s) >= 1,
                neg_s.x == -s.x && neg_s.y == -s.y,
                self.pos.x == b0.pos.x - steps * s.x,
                self.pos.y == b0.pos.y - steps * s.y,
                forall|j: int| 0 <= j < steps ==> shifted_overlaps(b0, prect, s, j),
                self.wf(),
            ensures
                !shifted_overlaps(b0, prect, s, steps),
                steps >= 1 ==> steps * dominant_abs(s) <= walk_depth(b0, prect, s) + dominant_abs(s),
            decreases max_int(walk_depth(b0, prect, s) - steps * dominant_abs(s), 0),
        {
            let cur = self.collider();
            if !cur.has_intersection(&prect) {
                proof {
                    if steps >= 1 {
                        lemma_overlap_bounds_steps(b0, prect, s, steps - 1);
                        assert(steps * dominant_abs(s) <= walk_depth(b0, prect, s) + dominant_abs(s)) by (nonlinear_arith)
                            requires
                                (steps - 1) * dominant_abs(s) < walk_depth(b0, prect, s),
                        ;
                    }
                }
                break;
            }
            proof {
                lemma_overlap_bounds_steps(b0, prect, s, steps);
            }
            self.translate(neg_s);
            proof {
                steps = steps + 1;
                assert((steps - 1) * s.x + s.x == steps * s.x
                    && (steps - 1) * s.y + s.y == steps * s.y) by (nonlinear_arith);
                assert(steps * dominant_abs(s) == (steps - 1) * dominant_abs(s) + dominant_abs(s)) by (nonlinear_arith);
            }
        }
        let flipped = if inter.w > inter.h {
            Vec2 { x: self.velocity.x, y: -self.velocity.y }
        } else if inter.h > inter.w {
            Vec2 { x: -self.velocity.x, y: self.velocity.y }
        } else {
            Vec2 { x: -self.velocity.x, y: -self.velocity.y }
        };
        let newv = bounce_velocity(flipped, rot, self.physics.restitution_factor, self.physics.max_velocity);
        self.velocity = newv;
        proof {
            assert(walk_exit(b0, prect, s, steps as nat, final(self).pos));
            assert(final(self).velocity.mag_sq() <= b0.physics.max_velocity * b0.physics.max_velocity) by (nonlinear_arith)
                requires
                    final(self).velocity.mag_sq() <= (b0.physics.max_velocity as int) * (b0.physics.max_velocity as int),
            ;
        }
    }

    /// Resolve a collision against a paddle, drawing the random restitution
    /// deflection from the ball's own angle variance.
    pub fn collide_with_paddle(&mut self, other: &Paddle)
        requires
            old(self).wf(),
            other.wf(),
        ensures
            final(self).wf(),
            exists|rot: Rot2|
                #[trigger] paddle_bounce_rel(*old(self), *other, rot, *final(self))
                && deflection_ok(rot, old(self).physics.restitution_angle_variance as int),
    {
        let rot = random_deflection(self.physics.restitution_angle_variance);
        let ghost pre: Ball = *self;
        self.collide_with_paddle_deflected(other, rot);
        proof {
            assert(paddle_bounce_rel(pre, *other, rot, *final(self))
                && deflection_ok(rot, pre.physics.restitution_angle_variance as int));
        }
    }

    /// Ball-on-ball response: on overlap both velocity components reverse;
    /// no position correction and no restitution.
    pub fn collide_with_other_ball(&mut self, other: &Ball)
        requires
            old(self).wf(),
            other.wf(),
        ensures
            final(self).wf(),
            final(self).pos == old(self).pos,
            final(self).size == old(self).size,
            final(self).physics == old(self).physics,
            if old(self).spec_collider().overlaps(other.spec_collider()) {
                final(self).velocity == (Vec2 {
                    x: (-old(self).velocity.x) as i64,
                    y: (-old(self).velocity.y) as i64,
                })
            } else {
                final(self).velocity == old(self).velocity
            },
    {
        let brect = self.collider();
        let orect = other.collider();
        if brect.left() < orect.right() && brect.right() > orect.left()
            && brect.top() < orect.bottom() && brect.bottom() > orect.top() {
            self.velocity = Vec2 { x: -self.velocity.x, y: -self.velocity.y };
        }
    }

    /// Keep the ball inside the play field: flip the velocity on each axis
    /// the ball protrudes past, then clamp its center back to one pixel
    /// inside the boundary on both axes.
    pub fn collide_with_field(&mut self, other: &PlayField)
        requires
            old(self).wf(),
            other.wf(),
            ball_field_fits(*old(self), *other),
        ensures
            final(self).wf(),
            field_bounce_rel(*old(self), *other, *final(self)),
    {
        let brect = self.collider();
        let uni = other.rect.union(&brect);
        if !(uni.x == other.rect.x && uni.y == other.rect.y && uni.w == other.rect.w
            && uni.h == other.rect.h) {
            if uni.w > other.rect.w {
                self.velocity = Vec2 { x: -self.velocity.x, y: self.velocity.y };
            }
            if uni.h > other.rect.h {
                self.velocity = Vec2 { x: self.velocity.x, y: -self.velocity.y };
            }
            let half: i64 = (self.size as u64 / 2) as i64;
            let lo_x = other.rect.left() + half + FIELD_INSET;
            let hi_x = other.rect.right() - half - FIELD_INSET;
            let lo_y = other.rect.top() + half + FIELD_INSET;
            let hi_y = other.rect.bottom() - half - FIELD_INSET;
            self.pos = Vec2 {
                x: clamp_i64(self.pos.x, lo_x, hi_x),
                y: clamp_i64(self.pos.y, lo_y, hi_y),
            };
        }
    }
}

impl Paddle {
    /// Keep the paddle inside the play field: clamp its center per axis so
    /// its edges stay within the boundary; the velocity is untouched.
    pub fn collide_with_field(&mut self, other: &PlayField)
        requires
            old(self).wf(),
            other.wf(),
            paddle_field_fits(*old(self), *other),
        ensures
            final(self).wf(),
            paddle_clamp_rel(*old(self), *other, *final(self)),
    {
        let half_x: i64 = (self.size.x as u64 / 2) as i64;
        let half_y: i64 = (self.size.y as u64 / 2) as i64;
        let lo_x = other.rect.left() + half_x;
        let hi_x = other.rect.right() - half_x;
        let lo_y = other.rect.top() + half_y;
        let hi_y = other.rect.bottom() - half_y;
        self.pos = Vec2 {
            x: clamp_i64(self.pos.x, lo_x, hi_x),
            y: clamp_i64(self.pos.y, lo_y, hi_y),
        };
    }
}

/// One collision rule: how `Self` reacts to standing against `T`.
pub trait Collide<T: Collider>: Collider {
    /// What the rule asks of the two bodies.
    spec fn collide_req(self, other: T) -> bool;

    /// How the body after the call relates to the two bodies before it.
    spec fn collide_rel(self, other: T, post: Self) -> bool;

    /// Resolve the collision, mutating only `self`.
    fn collide(&mut self, other: &T)
        requires
            old(self).collide_req(*other),
        ensures
            old(self).collide_rel(*other, *final(self)),
    ;
}

impl Collide<Paddle> for Ball {
    open spec fn collide_req(self, other: Paddle) -> bool {
        self.wf() && other.wf()
    }

    open spec fn collide_rel(self, other: Paddle, post: Ball) -> bool {
        &&& post.wf()
        &&& exists|rot: Rot2|
            #[trigger] paddle_bounce_rel(self, other, rot, post)
            && deflection_ok(rot, self.physics.restitution_angle_variance as int)
    }

    fn collide(&mut self, other: &Paddle) {
        self.collide_with_paddle(other);
    }
}

impl Collide<Ball> for Ball {
    open spec fn collide_req(self, other: Ball) -> bool {
        self.wf() && other.wf()
    }

    open spec fn collide_rel(self, other: Ball, post: Ball) -> bool {
        &&& post.wf()
        &&& post.pos == self.pos
        &&& post.size == self.size
        &&& post.physics == self.physics
        &&& if self.spec_collider().overlaps(other.spec_collider()) {
            post.velocity == (Vec2 { x: (-self.velocity.x) as i64, y: (-self.velocity.y) as i64 })
        } else {
            post.velocity == self.velocity
        }
    }

    fn collide(&mut self, other: &Ball) {
        self.collide_with_other_ball(other);
    }
}

impl Collide<PlayField> for Ball {
    open spec fn collide_req(self, other: PlayField) -> bool {
        self.wf() && other.wf() && ball_field_fits(self, other)
    }

    open spec fn collide_rel(self, other: PlayField, post: Ball) -> bool {
        post.wf() && field_bounce_rel(self, other, post)
    }

    fn collide(&mut self, other: &PlayField) {
        self.collide_with_field(other);
    }
}

impl Collide<PlayField> for Paddle {
    open spec fn collide_req(self, other: PlayField) -> bool {
        self.wf() && other.wf() && paddle_field_fits(self, other)
    }

    open spec fn collide_rel(self, other: PlayField, post: Paddle) -> bool {
        post.wf() && paddle_clamp_rel(self, other, post)
    }

    fn collide(&mut self, other: &PlayField) {
        self.collide_with_field(other);
    }
}

} // verus!

//! Kinematic integration: the semi-implicit Euler step shared by the ball and
//! the paddles, and the closed-form law it satisfies under constant
//! acceleration.

use vstd::prelude::*;
use crate::vec2::{Vec2, div_trunc};

verus! {

/// Bound on sizes, velocities, accelerations, commanded speeds and play-field
/// edges, in fixed-point units.
pub const GEOM_LIMIT: i64 = 0x1000_0000_0000;

/// Bound on a paddle's position coordinates.
pub const PADDLE_POS_LIMIT: i64 = 0x4000_0000_0000;

/// Bound on the ball's position coordinates.  It is wider than the paddle
/// bound: the de-penetration walk can push the ball a little past a paddle
/// standing at its own limit.
pub const BALL_POS_LIMIT: i64 = 0x8000_0000_0000;

/// Longest tick the integrator accepts, in milliseconds.
pub const DT_LIMIT: u64 = 65536;

/// One integration step for a position component: the standard kinematic
/// advance `p + v * dt + a * dt^2 / 2`, with the half term truncated toward
/// zero.
pub open spec fn spec_pos_step(p: int, v: int, a: int, dt: int) -> int {
    p + v * dt + div_trunc(a * dt * dt, 2)
}

/// One integration step for a velocity component: `v + a * dt`.
pub open spec fn spec_vel_step(v: int, a: int, dt: int) -> int {
    v + a * dt
}

/// The position component after `n` integration steps of `dt` each.
pub open spec fn iter_pos(p: int, v: int, a: int, dt: int, n: nat) -> int
    decreases n,
{
    if n == 0 {
        p
    } else {
        iter_pos(spec_pos_step(p, v, a, dt), spec_vel_step(v, a, dt), a, dt, (n - 1) as nat)
    }
}

/// The velocity component after `n` integration steps of `dt` each.
pub open spec fn iter_vel(v: int, a: int, dt: int, n: nat) -> int
    decreases n,
{
    if n == 0 {
        v
    } else {
        iter_vel(spec_vel_step(v, a, dt), a, dt, (n - 1) as nat)
    }
}

/// Velocity after `n` steps is the closed form `v + a * (n * dt)`.
pub proof fn lemma_vel_closed_form(v: int, a: int, dt: int, n: nat)
    ensures
        iter_vel(v, a, dt, n) == v + a * (n * dt),
    decreases n,
{
    if n == 0 {
        assert(a * (0 * dt) == 0) by (nonlinear_arith);
    } else {
        let m = (n - 1) as nat;
        lemma_vel_closed_form(v + a * dt, a, dt, m);
        assert(a * dt + a * (m * dt) == a * (n * dt)) by (nonlinear_arith)
            requires n == m + 1,
        ;
    }
}

/// Integration law: under constant acceleration, `n` uniform steps of `dt`
/// land the position exactly on the closed-form kinematic equation
/// `p + v * (n * dt) + a * (n * dt)^2 / 2`, provided the per-step half term
/// `a * dt^2` is even, so that no step rounds.  (With an odd `a * dt^2`, for
/// instance `a == 1, dt == 1`, each step drops a half unit and the iterated
/// position falls behind the closed form.)
pub proof fn lemma_integration_closed_form(p: int, v: int, a: int, dt: int, n: nat)
    requires
        (a * dt * dt) % 2 == 0,
    ensures
        iter_pos(p, v, a, dt, n) == p + v * (n * dt) + (a * (n * dt) * (n * dt)) / 2,
        iter_vel(v, a, dt, n) == v + a * (n * dt),
    decreases n,
{
    lemma_vel_closed_form(v, a, dt, n);
    if n == 0 {
        assert(v * (0 * dt) == 0 && a * (0 * dt) * (0 * dt) == 0) by (nonlinear_arith);
    } else {
        let e = a * dt * dt;
        let p1 = spec_pos_step(p, v, a, dt);
        let v1 = spec_vel_step(v, a, dt);
        let m = (n - 1) as nat;
        lemma_integration_closed_form(p1, v1, a, dt, m);
        assert(div_trunc(e, 2) == e / 2) by {
            if e < 0 {
                assert((-e) % 2 == 0 && -((-e) / 2) == e / 2) by (nonlinear_arith)
                    requires e % 2 == 0 && e < 0,
                ;
            }
        }
        let nd = n * dt;
        let md = m * dt;
        assert(a * md * md == e * (m * m) && a * nd * nd == e * (n * n)) by (nonlinear_arith)
            requires
                e == a * dt * dt,
                md == m * dt,
                nd == n * dt,
        ;
        lemma_even_multiple(e, (m * m) as int);
        lemma_even_multiple(e, (n * n) as int);
        assert(2 * (p1 + v1 * md + (a * md * md) / 2) == 2 * (p + v * nd + (a * nd * nd) / 2))
            by (nonlinear_arith)
            requires
                p1 == p + v * dt + e / 2,
                v1 == v + a * dt,
                e == a * dt * dt,
                e % 2 == 0,
                (a * md * md) % 2 == 0,
                (a * nd * nd) % 2 == 0,
                md == m * dt,
                nd == n * dt,
                n == m + 1,
        ;
    }
}

/// A multiple of an even number is even.
proof fn lemma_even_multiple(e: int, k: int)
    requires
        e % 2 == 0,
    ensures
        (e * k) % 2 == 0,
{
    let j = e / 2;
    assert(e == 2 * j);
    assert(e * k == 2 * (j * k)) by (nonlinear_arith)
        requires e == 2 * j,
    ;
    assert((2 * (j * k)) % 2 == 0) by (nonlinear_arith);
}

/// The position vector after one saturating integration step.
pub open spec fn spec_integrated_pos(pos: Vec2, vel: Vec2, acc: Vec2, dt: int, pos_limit: int) -> Vec2 {
    Vec2 {
        x: crate::rect::clamp_int(spec_pos_step(pos.x as int, vel.x as int, acc.x as int, dt), -pos_limit, pos_limit) as i64,
        y: crate::rect::clamp_int(spec_pos_step(pos.y as int, vel.y as int, acc.y as int, dt), -pos_limit, pos_limit) as i64,
    }
}

/// The velocity vector after one saturating integration step.
pub open spec fn spec_integrated_vel(vel: Vec2, acc: Vec2, dt: int) -> Vec2 {
    Vec2 {
        x: crate::rect::clamp_int(spec_vel_step(vel.x as int, acc.x as int, dt), -GEOM_LIMIT as int, GEOM_LIMIT as int) as i64,
        y: crate::rect::clamp_int(spec_vel_step(vel.y as int, acc.y as int, dt), -GEOM_LIMIT as int, GEOM_LIMIT as int) as i64,
    }
}

/// Advance one position/velocity pair by `dt_ms` under constant acceleration
/// `acc`, in semi-implicit Euler order: the position moves first, using the
/// old velocity plus the half-acceleration term, then the velocity picks up
/// `acc * dt`.  Results saturate at `pos_limit` for the position and
/// `GEOM_LIMIT` for the velocity, so that a well-formed body stays
/// well-formed.
pub fn integrate(pos: Vec2, vel: Vec2, acc: Vec2, dt_ms: u64, pos_limit: i64) -> (r: (Vec2, Vec2))
    requires
        dt_ms <= DT_LIMIT,
        -GEOM_LIMIT <= vel.x <= GEOM_LIMIT,
        -GEOM_LIMIT <= vel.y <= GEOM_LIMIT,
        -GEOM_LIMIT <= acc.x <= GEOM_LIMIT,
        -GEOM_LIMIT <= acc.y <= GEOM_LIMIT,
        -BALL_POS_LIMIT <= pos.x <= BALL_POS_LIMIT,
        -BALL_POS_LIMIT <= pos.y <= BALL_POS_LIMIT,
        0 < pos_limit <= BALL_POS_LIMIT,
    ensures
        r.0 == spec_integrated_pos(pos, vel, acc, dt_ms as int, pos_limit as int),
        r.1 == spec_integrated_vel(vel, acc, dt_ms as int),
{
    let px = integrate_pos_component(pos.x, vel.x, acc.x, dt_ms, pos_limit);
    let py = integrate_pos_component(pos.y, vel.y, acc.y, dt_ms, pos_limit);
    let vx = integrate_vel_component(vel.x, acc.x, dt_ms);
    let vy = integrate_vel_component(vel.y, acc.y, dt_ms);
    (Vec2 { x: px, y: py }, Vec2 { x: vx, y: vy })
}

/// One saturating position component step.
fn integrate_pos_component(p: i64, v: i64, a: i64, dt_ms: u64, pos_limit: i64) -> (r: i64)
    requires
        dt_ms <= DT_LIMIT,
        -GEOM_LIMIT <= v <= GEOM_LIMIT,
        -GEOM_LIMIT <= a <= GEOM_LIMIT,
        -BALL_POS_LIMIT <= p <= BALL_POS_LIMIT,
        0 < pos_limit <= BALL_POS_LIMIT,
    ensures
        r == crate::rect::clamp_int(spec_pos_step(p as int, v as int, a as int, dt_ms as int), -pos_limit as int, pos_limit as int),
{
    let dt: i128 = dt_ms as i128;
    proof {
        assert((v as int) * (dt as int) <= 0x1000_0000_0000 * 65536
            && (v as int) * (dt as int) >= -0x1000_0000_0000 * 65536) by (nonlinear_arith)
            requires
                -0x1000_0000_0000 <= v as int <= 0x1000_0000_0000,
                0 <= dt as int <= 65536,
        ;
        assert((a as int) * (dt as int) <= 0x1000_0000_0000 * 65536
            && (a as int) * (dt as int) >= -0x1000_0000_0000 * 65536
            && (a as int) * (dt as int) * (dt as int) <= 0x1000_0000_0000 * 65536 * 65536
            && (a as int) * (dt as int) * (dt as int) >= -0x1000_0000_0000 * 65536 * 65536) by (nonlinear_arith)
            requires
                -0x1000_0000_0000 <= a as int <= 0x1000_0000_0000,
                0 <= dt as int <= 65536,
        ;
    }
    let vdt: i128 = (v as i128) * dt;
    let adt2: i128 = (a as i128) * dt * dt;
    let half: i128 = if adt2 >= 0 {
        ((adt2 as u128) / 2) as i128
    } else {
        -(((-adt2) as u128 / 2) as i128)
    };
    let sum: i128 = (p as i128) + vdt + half;
    proof {
        assert(half == div_trunc(adt2 as int, 2));
    }
    if sum < -(pos_limit as i128) {
        -pos_limit
    } else if sum > pos_limit as i128 {
        pos_limit
    } else {
        sum as i64
    }
}

/// One saturating velocity component step.
fn integrate_vel_component(v: i64, a: i64, dt_ms: u64) -> (r: i64)
    requires
        dt_ms <= DT_LIMIT,
        -GEOM_LIMIT <= v <= GEOM_LIMIT,
        -GEOM_LIMIT <= a <= GEOM_LIMIT,
    ensures
        r == crate::rect::clamp_int(spec_vel_step(v as int, a as int, dt_ms as int), -GEOM_LIMIT as int, GEOM_LIMIT as int),
{
    let dt: i128 = dt_ms as i128;
    proof {
        assert((a as int) * (dt as int) <= 0x1000_0000_0000 * 65536
            && (a as int) * (dt as int) >= -0x1000_0000_0000 * 65536) by (nonlinear_arith)
            requires
                -0x1000_0000_0000 <= a as int <= 0x1000_0000_0000,
                0 <= dt as int <= 65536,
        ;
    }
    let sum: i128 = (v as i128) + (a as i128) * dt;
    if sum < -(GEOM_LIMIT as i128) {
        -GEOM_LIMIT
    } else if sum > GEOM_LIMIT as i128 {
        GEOM_LIMIT
    } else {
        sum as i64
    }
}

} // verus!

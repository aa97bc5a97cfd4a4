//! Game orchestration: the per-tick update that pins the paddles to their
//! stations, runs the controllers, integrates all bodies and resolves the
//! collisions in fixed order.

use vstd::prelude::*;
use crate::vec2::Vec2;
use crate::rect::Rect;
use crate::entities::{Ball, Paddle, PlayField, PangGameState, Kinematic};
use crate::controllers::{PaddleController, InputEvent};
use crate::collide::{
    Rot2, deflection_ok, paddle_bounce_rel, field_bounce_rel, paddle_clamp_rel, ball_field_fits,
    paddle_field_fits,
};
use crate::physics::{
    spec_integrated_pos, spec_integrated_vel, PADDLE_POS_LIMIT, BALL_POS_LIMIT, DT_LIMIT,
};

verus! {

/// Horizontal distance of each paddle's center from its field edge: 20 px.
pub const PADDLE_X_OFFSET: i64 = 20 * 1000;

/// The left paddle pinned to its fixed horizontal station.
pub open spec fn spec_pinned_left(p: Paddle, canvas: Rect) -> Paddle {
    Paddle { pos: Vec2 { x: (canvas.x + PADDLE_X_OFFSET) as i64, y: p.pos.y }, ..p }
}

/// The right paddle pinned to its fixed horizontal station.
pub open spec fn spec_pinned_right(p: Paddle, canvas: Rect) -> Paddle {
    Paddle {
        pos: Vec2 { x: (canvas.x + canvas.w - PADDLE_X_OFFSET) as i64, y: p.pos.y },
        ..p
    }
}

/// The ball after one integration tick.
pub open spec fn spec_ball_integrated(b: Ball, dt: int) -> Ball {
    let acc = Vec2 { x: b.physics.horizontal_acc, y: b.physics.vertical_acc };
    Ball {
        pos: spec_integrated_pos(b.pos, b.velocity, acc, dt, BALL_POS_LIMIT as int),
        velocity: spec_integrated_vel(b.velocity, acc, dt),
        ..b
    }
}

/// A paddle after one integration tick.
pub open spec fn spec_paddle_integrated(p: Paddle, dt: int) -> Paddle {
    Paddle {
        pos: spec_integrated_pos(p.pos, p.velocity, p.acceleration, dt, PADDLE_POS_LIMIT as int),
        velocity: spec_integrated_vel(p.velocity, p.acceleration, dt),
        ..p
    }
}

/// Everything one tick needs of a snapshot: well-formed, with a field large
/// enough to hold the ball (plus the boundary insets) and both paddles.
pub open spec fn can_update(state: PangGameState) -> bool {
    let field = PlayField { rect: state.canvas };
    &&& state.wf()
    &&& ball_field_fits(state.ball, field)
    &&& paddle_field_fits(state.paddle_left, field)
    &&& paddle_field_fits(state.paddle_right, field)
}

/// Orchestrates the per-tick update; owns the two paddle strategies.
pub struct PangGameController<L, R> {
    pub paddle_controller_left: L,
    pub paddle_controller_right: R,
}

/// The per-tick pipeline with the two restitution deflections fixed: the
/// paddles are pinned to their stations, the controllers absorb the event
/// and command velocities, all bodies integrate, and the collision rules run
/// in fixed order — ball against left paddle, against right paddle, against
/// the field, then each paddle against the field.  `b4` and `b5` are the
/// ball between those rules.
pub open spec fn update_rel<L: PaddleController, R: PaddleController>(
    ctl: PangGameController<L, R>,
    state: PangGameState,
    dt: int,
    event: InputEvent,
    rot1: Rot2,
    rot2: Rot2,
    b4: Ball,
    b5: Ball,
    ctl_post: PangGameController<L, R>,
    post: PangGameState,
) -> bool {
    let field = PlayField { rect: state.canvas };
    let cl = ctl.paddle_controller_left.spec_after_event(event);
    let cr = ctl.paddle_controller_right.spec_after_event(event);
    let pl1 = spec_pinned_left(state.paddle_left, state.canvas);
    let pr1 = spec_pinned_right(state.paddle_right, state.canvas);
    let pl2 = Paddle { velocity: cl.spec_command(state, pl1), ..pl1 };
    let pr2 = Paddle { velocity: cr.spec_command(state, pr1), ..pr1 };
    let ball3 = spec_ball_integrated(state.ball, dt);
    let pl3 = spec_paddle_integrated(pl2, dt);
    let pr3 = spec_paddle_integrated(pr2, dt);
    &&& ctl_post.paddle_controller_left == cl
    &&& ctl_post.paddle_controller_right == cr
    &&& paddle_bounce_rel(ball3, pl3, rot1, b4)
    &&& paddle_bounce_rel(b4, pr3, rot2, b5)
    &&& field_bounce_rel(b5, field, post.ball)
    &&& paddle_clamp_rel(pl3, field, post.paddle_left)
    &&& paddle_clamp_rel(pr3, field, post.paddle_right)
    &&& post.canvas == state.canvas
}

impl<L: PaddleController, R: PaddleController> PangGameController<L, R> {
    /// One simulation tick over a snapshot: returns the next snapshot and
    /// never mutates the caller's.  The update itself has no failure mode
    /// (only drawing, which lives outside the library, can fail), so the
    /// result is always `Ok`, and it satisfies `can_update` again, so ticks
    /// chain.  The two quantified rotations are the random restitution
    /// deflections of the two possible paddle bounces; with an angle
    /// variance of zero they are the identity and the tick is deterministic.
    pub fn update(&mut self, game_state: &PangGameState, delta_t_ms: u64, event: &InputEvent)
        -> (r: Result<PangGameState, String>)
        requires
            can_update(*game_state),
            delta_t_ms <= DT_LIMIT,
        ensures
            r.is_ok(),
            can_update(r.unwrap()),
            exists|rot1: Rot2, rot2: Rot2, b4: Ball, b5: Ball|
                #[trigger] update_rel(
                    *old(self), *game_state, delta_t_ms as int, *event,
                    rot1, rot2, b4, b5, *final(self), r.unwrap(),
                )
                && deflection_ok(rot1, game_state.ball.physics.restitution_angle_variance as int)
                && deflection_ok(rot2, game_state.ball.physics.restitution_angle_variance as int),
    {
        let mut gs: PangGameState = *game_state;
        gs.paddle_left.pos.x = gs.canvas.x + PADDLE_X_OFFSET;
        gs.paddle_right.pos.x = gs.canvas.x + gs.canvas.w - PADDLE_X_OFFSET;
        proof {
            assert(gs.paddle_left == spec_pinned_left(game_state.paddle_left, game_state.canvas));
            assert(gs.paddle_right == spec_pinned_right(game_state.paddle_right, game_state.canvas));
        }
        self.paddle_controller_left.update_paddle(game_state, event, &mut gs.paddle_left);
        self.paddle_controller_right.update_paddle(game_state, event, &mut gs.paddle_right);
        gs.ball.update(delta_t_ms);
        gs.paddle_left.update(delta_t_ms);
        gs.paddle_right.update(delta_t_ms);
        let play_field = PlayField::from_rect(gs.canvas);
        let pl = gs.paddle_left;
        let ghost ball3 = gs.ball;
        gs.ball.collide_with_paddle(&pl);
        let ghost b4 = gs.ball;
        let pr = gs.paddle_right;
        gs.ball.collide_with_paddle(&pr);
        let ghost b5 = gs.ball;
        gs.ball.collide_with_field(&play_field);
        gs.paddle_left.collide_with_field(&play_field);
        gs.paddle_right.collide_with_field(&play_field);
        proof {
            let rot1 = choose|rot: Rot2|
                #[trigger] paddle_bounce_rel(ball3, pl, rot, b4)
                && deflection_ok(rot, ball3.physics.restitution_angle_variance as int);
            let rot2 = choose|rot: Rot2|
                #[trigger] paddle_bounce_rel(b4, pr, rot, b5)
                && deflection_ok(rot, b4.physics.restitution_angle_variance as int);
            assert(ball3.physics == game_state.ball.physics);
            assert(b4.physics == ball3.physics);
            assert(update_rel(
                *old(self), *game_state, delta_t_ms as int, *event,
                rot1, rot2, b4, b5, *final(self), gs,
            )
                && rot1.wf() && rot2.wf()
                && (game_state.ball.physics.restitution_angle_variance == 0
                    ==> rot1.is_identity() && rot2.is_identity()));
        }
        let result: Result<PangGameState, String> = Ok(gs);
        proof {
            assert(result.unwrap() == gs);
            assert(exists|r1: Rot2, r2: Rot2, m4: Ball, m5: Ball|
                #[trigger] update_rel(
                    *old(self), *game_state, delta_t_ms as int, *event,
                    r1, r2, m4, m5, *final(self), result.unwrap(),
                )
                && r1.wf() && r2.wf()
                && (game_state.ball.physics.restitution_angle_variance == 0
                    ==> r1.is_identity() && r2.is_identity()));
        }
        result
    }
}

/// Run-time test of `can_update`, for callers outside the library that must
/// validate a snapshot before handing it to `update`.
pub fn can_update_check(state: &PangGameState) -> (r: bool)
    ensures
        r == can_update(*state),
{
    let b = &state.ball;
    let pl = &state.paddle_left;
    let pr = &state.paddle_right;
    let c = &state.canvas;
    let g = crate::physics::GEOM_LIMIT;
    let wf_ball = 0 <= b.size && b.size <= g
        && -BALL_POS_LIMIT <= b.pos.x && b.pos.x <= BALL_POS_LIMIT
        && -BALL_POS_LIMIT <= b.pos.y && b.pos.y <= BALL_POS_LIMIT
        && -g <= b.velocity.x && b.velocity.x <= g
        && -g <= b.velocity.y && b.velocity.y <= g
        && physics_wf_check(&b.physics);
    if !wf_ball {
        return false;
    }
    if !paddle_wf_check(pl) {
        return false;
    }
    if !paddle_wf_check(pr) {
        return false;
    }
    let wf_canvas = 0 <= c.w && 0 <= c.h
        && -g <= c.x && c.x <= g - c.w
        && -g <= c.y && c.y <= g - c.h;
    if !wf_canvas {
        return false;
    }
    let half: i64 = (b.size as u64 / 2) as i64;
    let fits_ball =
        c.x + half + crate::collide::FIELD_INSET <= c.x + c.w - half - crate::collide::FIELD_INSET
        && c.y + half + crate::collide::FIELD_INSET
            <= c.y + c.h - half - crate::collide::FIELD_INSET;
    let fits_left = paddle_fits_check(pl, c);
    let fits_right = paddle_fits_check(pr, c);
    fits_ball && fits_left && fits_right
}

/// Run-time test of `BallPhysics::wf`.
fn physics_wf_check(p: &crate::entities::BallPhysics) -> (r: bool)
    ensures
        r == p.wf(),
{
    let g = crate::physics::GEOM_LIMIT;
    -g <= p.horizontal_acc && p.horizontal_acc <= g
        && -g <= p.vertical_acc && p.vertical_acc <= g
        && 0 <= p.restitution_factor && p.restitution_factor <= crate::entities::RESTITUTION_FACTOR_LIMIT
        && 0 <= p.restitution_angle_variance && p.restitution_angle_variance <= crate::entities::MILLI
        && -g <= p.inherited_velocity && p.inherited_velocity <= g
        && 0 <= p.max_velocity && p.max_velocity <= g
}

/// Run-time test of `Paddle::wf`.
fn paddle_wf_check(p: &Paddle) -> (r: bool)
    ensures
        r == p.wf(),
{
    let g = crate::physics::GEOM_LIMIT;
    0 <= p.size.x && p.size.x <= g && 0 <= p.size.y && p.size.y <= g
        && -PADDLE_POS_LIMIT <= p.pos.x && p.pos.x <= PADDLE_POS_LIMIT
        && -PADDLE_POS_LIMIT <= p.pos.y && p.pos.y <= PADDLE_POS_LIMIT
        && -g <= p.velocity.x && p.velocity.x <= g
        && -g <= p.velocity.y && p.velocity.y <= g
        && -g <= p.acceleration.x && p.acceleration.x <= g
        && -g <= p.acceleration.y && p.acceleration.y <= g
        && 0 <= p.movement_speed && p.movement_speed <= g
}

/// Run-time test of `paddle_field_fits`.
fn paddle_fits_check(p: &Paddle, c: &Rect) -> (r: bool)
    requires
        p.wf(),
        c.wf(),
    ensures
        r == paddle_field_fits(*p, PlayField { rect: *c }),
{
    let half_x: i64 = (p.size.x as u64 / 2) as i64;
    let half_y: i64 = (p.size.y as u64 / 2) as i64;
    c.x + half_x <= c.x + c.w - half_x && c.y + half_y <= c.y + c.h - half_y
}

} // verus!

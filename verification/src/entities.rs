//! The simulated bodies: ball, paddles and the play field, with the shared
//! kinematic behaviour and their colliders.

use vstd::prelude::*;
use crate::vec2::Vec2;
use crate::rect::Rect;
use crate::physics::{
    integrate, spec_integrated_pos, spec_integrated_vel, GEOM_LIMIT, PADDLE_POS_LIMIT,
    BALL_POS_LIMIT, DT_LIMIT,
};

verus! {

/// Physical parameters of a ball, fixed for the session.
///
/// Accelerations are units per squared millisecond; `restitution_factor` is a
/// per-mille speed multiplier applied on a paddle bounce (1000 keeps the
/// speed); `restitution_angle_variance` is per-mille of the maximum random
/// deflection of a quarter-turn's half (0 disables randomness);
/// `max_velocity` caps the post-bounce speed.
#[derive(Clone, Copy, PartialEq, Eq, Structural, Debug)]
pub struct BallPhysics {
    pub horizontal_acc: i64,
    pub vertical_acc: i64,
    pub restitution_factor: i64,
    pub restitution_angle_variance: i64,
    pub inherited_velocity: i64,
    pub max_velocity: i64,
}

/// Largest per-mille restitution factor: a thousandfold speed-up.
pub const RESTITUTION_FACTOR_LIMIT: i64 = 1_000_000;

/// Per-mille scale of the restitution factor and the angle variance.
pub const MILLI: i64 = 1000;

impl BallPhysics {
    pub open spec fn wf(self) -> bool {
        &&& -GEOM_LIMIT <= self.horizontal_acc <= GEOM_LIMIT
        &&& -GEOM_LIMIT <= self.vertical_acc <= GEOM_LIMIT
        &&& 0 <= self.restitution_factor <= RESTITUTION_FACTOR_LIMIT
        &&& 0 <= self.restitution_angle_variance <= MILLI
        &&& -GEOM_LIMIT <= self.inherited_velocity <= GEOM_LIMIT
        &&& 0 <= self.max_velocity <= GEOM_LIMIT
    }
}

/// The ball: a square collider of side `size` centered on `pos`.
#[derive(Clone, Copy, PartialEq, Eq, Structural, Debug)]
pub struct Ball {
    pub size: i64,
    pub pos: Vec2,
    pub velocity: Vec2,
    pub physics: BallPhysics,
}

impl Ball {
    pub open spec fn wf(self) -> bool {
        &&& 0 <= self.size <= GEOM_LIMIT
        &&& -BALL_POS_LIMIT <= self.pos.x <= BALL_POS_LIMIT
        &&& -BALL_POS_LIMIT <= self.pos.y <= BALL_POS_LIMIT
        &&& -GEOM_LIMIT <= self.velocity.x <= GEOM_LIMIT
        &&& -GEOM_LIMIT <= self.velocity.y <= GEOM_LIMIT
        &&& self.physics.wf()
    }
}

/// A paddle: a rectangular collider of `size` centered on `pos`, moving at a
/// controller-commanded velocity of at most `movement_speed`.
#[derive(Clone, Copy, PartialEq, Eq, Structural, Debug)]
pub struct Paddle {
    pub size: Vec2,
    pub pos: Vec2,
    pub velocity: Vec2,
    pub acceleration: Vec2,
    pub movement_speed: i64,
}

impl Paddle {
    pub open spec fn wf(self) -> bool {
        &&& 0 <= self.size.x <= GEOM_LIMIT
        &&& 0 <= self.size.y <= GEOM_LIMIT
        &&& -PADDLE_POS_LIMIT <= self.pos.x <= PADDLE_POS_LIMIT
        &&& -PADDLE_POS_LIMIT <= self.pos.y <= PADDLE_POS_LIMIT
        &&& -GEOM_LIMIT <= self.velocity.x <= GEOM_LIMIT
        &&& -GEOM_LIMIT <= self.velocity.y <= GEOM_LIMIT
        &&& -GEOM_LIMIT <= self.acceleration.x <= GEOM_LIMIT
        &&& -GEOM_LIMIT <= self.acceleration.y <= GEOM_LIMIT
        &&& 0 <= self.movement_speed <= GEOM_LIMIT
    }
}

/// The arena rectangle.
#[derive(Clone, Copy, PartialEq, Eq, Structural, Debug)]
pub struct PlayField {
    pub rect: Rect,
}

impl PlayField {
    /// A well-formed field keeps its edges within the geometry range, so that
    /// bodies clamped into it stay well-formed.
    pub open spec fn wf(self) -> bool {
        &&& self.rect.wf()
        &&& -GEOM_LIMIT <= self.rect.x
        &&& self.rect.x + self.rect.w <= GEOM_LIMIT
        &&& -GEOM_LIMIT <= self.rect.y
        &&& self.rect.y + self.rect.h <= GEOM_LIMIT
    }

    pub fn from_rect(rect: Rect) -> (r: PlayField)
        ensures
            r.rect == rect,
    {
        PlayField { rect }
    }
}

/// One snapshot of the whole game: the ball, the two paddles and the current
/// play-field rectangle, produced fresh each tick.
#[derive(Clone, Copy, PartialEq, Eq, Structural, Debug)]
pub struct PangGameState {
    pub ball: Ball,
    pub paddle_left: Paddle,
    pub paddle_right: Paddle,
    pub canvas: Rect,
}

impl PangGameState {
    pub open spec fn wf(self) -> bool {
        &&& self.ball.wf()
        &&& self.paddle_left.wf()
        &&& self.paddle_right.wf()
        &&& (PlayField { rect: self.canvas }).wf()
    }
}

/// Shared kinematic behaviour: integration, direct velocity commands, and
/// translation.
pub trait Kinematic: Sized {
    spec fn kin_wf(self) -> bool;

    spec fn kin_pos(self) -> Vec2;

    spec fn kin_vel(self) -> Vec2;

    /// The constant acceleration the body integrates under.
    spec fn kin_acc(self) -> Vec2;

    /// Where the body's position saturates.
    spec fn kin_pos_limit(self) -> int;

    /// The body with position and velocity replaced, everything else kept.
    spec fn with_motion(self, pos: Vec2, vel: Vec2) -> Self;

    /// Advance position then velocity by one tick of `dt_ms` milliseconds,
    /// in semi-implicit Euler order.
    fn update(&mut self, dt_ms: u64)
        requires
            old(self).kin_wf(),
            dt_ms <= DT_LIMIT,
        ensures
            final(self).kin_wf(),
            *final(self) == old(self).with_motion(
                spec_integrated_pos(
                    old(self).kin_pos(),
                    old(self).kin_vel(),
                    old(self).kin_acc(),
                    dt_ms as int,
                    old(self).kin_pos_limit(),
                ),
                spec_integrated_vel(old(self).kin_vel(), old(self).kin_acc(), dt_ms as int),
            ),
    ;

    /// Replace the body's velocity.
    fn set_velocity(&mut self, velocity: Vec2)
        requires
            -GEOM_LIMIT <= velocity.x <= GEOM_LIMIT,
            -GEOM_LIMIT <= velocity.y <= GEOM_LIMIT,
        ensures
            *final(self) == old(self).with_motion(old(self).kin_pos(), velocity),
    ;

    /// Move the body by `translation`, which must keep it in range.
    fn translate(&mut self, translation: Vec2)
        requires
            -old(self).kin_pos_limit() <= old(self).kin_pos().x + translation.x <= old(self).kin_pos_limit(),
            -old(self).kin_pos_limit() <= old(self).kin_pos().y + translation.y <= old(self).kin_pos_limit(),
            -BALL_POS_LIMIT <= translation.x <= BALL_POS_LIMIT,
            -BALL_POS_LIMIT <= translation.y <= BALL_POS_LIMIT,
        ensures
            *final(self) == old(self).with_motion(
                Vec2 {
                    x: (old(self).kin_pos().x + translation.x) as i64,
                    y: (old(self).kin_pos().y + translation.y) as i64,
                },
                old(self).kin_vel(),
            ),
    ;
}

impl Kinematic for Ball {
    open spec fn kin_wf(self) -> bool {
        self.wf()
    }

    open spec fn kin_pos(self) -> Vec2 {
        self.pos
    }

    open spec fn kin_vel(self) -> Vec2 {
        self.velocity
    }

    open spec fn kin_acc(self) -> Vec2 {
        Vec2 { x: self.physics.horizontal_acc, y: self.physics.vertical_acc }
    }

    open spec fn kin_pos_limit(self) -> int {
        BALL_POS_LIMIT as int
    }

    open spec fn with_motion(self, pos: Vec2, vel: Vec2) -> Ball {
        Ball { pos, velocity: vel, ..self }
    }

    fn update(&mut self, dt_ms: u64) {
        let acc = Vec2 { x: self.physics.horizontal_acc, y: self.physics.vertical_acc };
        let (pos, vel) = integrate(self.pos, self.velocity, acc, dt_ms, BALL_POS_LIMIT);
        self.pos = pos;
        self.velocity = vel;
    }

    fn set_velocity(&mut self, velocity: Vec2) {
        self.velocity = velocity;
    }

    fn translate(&mut self, translation: Vec2) {
        self.pos = Vec2 { x: self.pos.x + translation.x, y: self.pos.y + translation.y };
    }
}

impl Kinematic for Paddle {
    open spec fn kin_wf(self) -> bool {
        self.wf()
    }

    open spec fn kin_pos(self) -> Vec2 {
        self.pos
    }

    open spec fn kin_vel(self) -> Vec2 {
        self.velocity
    }

    open spec fn kin_acc(self) -> Vec2 {
        self.acceleration
    }

    open spec fn kin_pos_limit(self) -> int {
        PADDLE_POS_LIMIT as int
    }

    open spec fn with_motion(self, pos: Vec2, vel: Vec2) -> Paddle {
        Paddle { pos, velocity: vel, ..self }
    }

    fn update(&mut self, dt_ms: u64) {
        let (pos, vel) = integrate(self.pos, self.velocity, self.acceleration, dt_ms, PADDLE_POS_LIMIT);
        self.pos = pos;
        self.velocity = vel;
    }

    fn set_velocity(&mut self, velocity: Vec2) {
        self.velocity = velocity;
    }

    fn translate(&mut self, translation: Vec2) {
        self.pos = Vec2 { x: self.pos.x + translation.x, y: self.pos.y + translation.y };
    }
}

/// An entity with an axis-aligned collider rectangle.
pub trait Collider: Sized {
    /// The collider as a function of the entity's state.
    spec fn spec_collider(self) -> Rect;

    /// Whether the collider arithmetic is in range.
    spec fn collider_wf(self) -> bool;

    fn collider(&self) -> (r: Rect)
        requires
            self.collider_wf(),
        ensures
            r == self.spec_collider(),
            r.wf(),
    ;
}

impl Collider for Ball {
    open spec fn spec_collider(self) -> Rect {
        Rect {
            x: (self.pos.x - self.size / 2) as i64,
            y: (self.pos.y - self.size / 2) as i64,
            w: self.size,
            h: self.size,
        }
    }

    open spec fn collider_wf(self) -> bool {
        self.wf()
    }

    fn collider(&self) -> (r: Rect) {
        Rect::from_center(self.pos, self.size, self.size)
    }
}

impl Collider for Paddle {
    open spec fn spec_collider(self) -> Rect {
        Rect {
            x: (self.pos.x - self.size.x / 2) as i64,
            y: (self.pos.y - self.size.y / 2) as i64,
            w: self.size.x,
            h: self.size.y,
        }
    }

    open spec fn collider_wf(self) -> bool {
        self.wf()
    }

    fn collider(&self) -> (r: Rect) {
        Rect::from_center(self.pos, self.size.x, self.size.y)
    }
}

impl Collider for PlayField {
    open spec fn spec_collider(self) -> Rect {
        self.rect
    }

    open spec fn collider_wf(self) -> bool {
        self.wf()
    }

    fn collider(&self) -> (r: Rect) {
        self.rect
    }
}

} // verus!

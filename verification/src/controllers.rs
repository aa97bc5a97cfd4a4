//! Paddle controllers: the per-tick strategies that command a paddle's
//! velocity, driven either by held keys or by a simple ball-tracking AI.

use vstd::prelude::*;
use crate::vec2::Vec2;
use crate::entities::{Paddle, PangGameState};
use crate::physics::GEOM_LIMIT;

verus! {

/// A discrete input event, as the controllers see it: a request to quit, a
/// key going down or up (by its key code), or anything else.
#[derive(Clone, Copy, PartialEq, Eq, Structural, Debug)]
pub enum InputEvent {
    Quit,
    KeyDown { keycode: i32 },
    KeyUp { keycode: i32 },
    Other,
}

/// The sign convention of the controllers: zero counts as positive, the way
/// the sign of a non-negative float does.
pub open spec fn sign_pos(a: int) -> int {
    if a >= 0 { 1 } else { -1 }
}

/// A per-tick strategy that commands a paddle's velocity.  A controller may
/// keep private state (held keys); it updates that state from the event and
/// then writes the commanded velocity, touching nothing else on the paddle.
pub trait PaddleController: Sized {
    /// The controller's own state after it sees `event`.
    spec fn spec_after_event(self, event: InputEvent) -> Self;

    /// The velocity the updated controller commands for `paddle` in `state`.
    spec fn spec_command(self, state: PangGameState, paddle: Paddle) -> Vec2;

    /// Absorb the event, then command a velocity: only `paddle.velocity`
    /// changes.
    fn update_paddle(&mut self, state: &PangGameState, event: &InputEvent, paddle: &mut Paddle)
        requires
            state.wf(),
            old(paddle).wf(),
        ensures
            *final(self) == old(self).spec_after_event(*event),
            *final(paddle) == (Paddle {
                velocity: old(self).spec_after_event(*event).spec_command(*state, *old(paddle)),
                ..*old(paddle)
            }),
            final(paddle).wf(),
    ;
}

/// A human-driven controller: two bound key codes, and the memory of which
/// of them are currently held.
#[derive(Clone, Copy, PartialEq, Eq, Structural, Debug)]
pub struct PlayerPaddleController {
    pub down_btn_pressed: bool,
    pub up_btn_pressed: bool,
    pub keycode_up: i32,
    pub keycode_down: i32,
}

impl PlayerPaddleController {
    pub fn new(keycode_up: i32, keycode_down: i32) -> (r: PlayerPaddleController)
        ensures
            r == (PlayerPaddleController {
                down_btn_pressed: false,
                up_btn_pressed: false,
                keycode_up,
                keycode_down,
            }),
    {
        PlayerPaddleController {
            down_btn_pressed: false,
            up_btn_pressed: false,
            keycode_up,
            keycode_down,
        }
    }

    pub fn pressed_down(&mut self)
        ensures
            *final(self) == (PlayerPaddleController { down_btn_pressed: true, ..*old(self) }),
    {
        self.down_btn_pressed = true;
    }

    pub fn pressed_up(&mut self)
        ensures
            *final(self) == (PlayerPaddleController { up_btn_pressed: true, ..*old(self) }),
    {
        self.up_btn_pressed = true;
    }

    pub fn released_down(&mut self)
        ensures
            *final(self) == (PlayerPaddleController { down_btn_pressed: false, ..*old(self) }),
    {
        self.down_btn_pressed = false;
    }

    pub fn released_up(&mut self)
        ensures
            *final(self) == (PlayerPaddleController { up_btn_pressed: false, ..*old(self) }),
    {
        self.up_btn_pressed = false;
    }
}

impl PaddleController for PlayerPaddleController {
    /// Key-down and key-up events on the bound codes set and clear the held
    /// flags; when one code is bound to both directions, up wins.
    open spec fn spec_after_event(self, event: InputEvent) -> PlayerPaddleController {
        match event {
            InputEvent::KeyDown { keycode } => {
                if keycode == self.keycode_up {
                    PlayerPaddleController { up_btn_pressed: true, ..self }
                } else if keycode == self.keycode_down {
                    PlayerPaddleController { down_btn_pressed: true, ..self }
                } else {
                    self
                }
            },
            InputEvent::KeyUp { keycode } => {
                if keycode == self.keycode_up {
                    PlayerPaddleController { up_btn_pressed: false, ..self }
                } else if keycode == self.keycode_down {
                    PlayerPaddleController { down_btn_pressed: false, ..self }
                } else {
                    self
                }
            },
            _ => self,
        }
    }

    /// Still with both or neither key held; otherwise full speed in the held
    /// direction (down is positive).
    open spec fn spec_command(self, state: PangGameState, paddle: Paddle) -> Vec2 {
        if self.down_btn_pressed == self.up_btn_pressed {
            Vec2 { x: 0, y: 0 }
        } else if self.down_btn_pressed {
            Vec2 { x: 0, y: paddle.movement_speed }
        } else {
            Vec2 { x: 0, y: (-paddle.movement_speed) as i64 }
        }
    }

    fn update_paddle(&mut self, state: &PangGameState, event: &InputEvent, paddle: &mut Paddle) {
        match event {
            InputEvent::KeyDown { keycode } => {
                if *keycode == self.keycode_up {
                    self.pressed_up();
                } else if *keycode == self.keycode_down {
                    self.pressed_down();
                }
            },
            InputEvent::KeyUp { keycode } => {
                if *keycode == self.keycode_up {
                    self.released_up();
                } else if *keycode == self.keycode_down {
                    self.released_down();
                }
            },
            _ => {},
        }
        if self.down_btn_pressed == self.up_btn_pressed {
            paddle.velocity = Vec2 { x: 0, y: 0 };
        } else if self.down_btn_pressed {
            paddle.velocity = Vec2 { x: 0, y: paddle.movement_speed };
        } else {
            paddle.velocity = Vec2 { x: 0, y: -paddle.movement_speed };
        }
    }
}

/// The ball-tracking AI: stateless, it reads the game state fresh each tick.
#[derive(Clone, Copy, PartialEq, Eq, Structural, Debug)]
pub struct PaddleAIController {
}

impl PaddleAIController {
    pub fn new() -> (r: PaddleAIController)
        ensures
            r == (PaddleAIController {  }),
    {
        PaddleAIController {  }
    }
}

/// Where the AI steers: the ball's height while the ball approaches the
/// paddle's side, the field's vertical center once it moves away.
pub open spec fn ai_target_y(state: PangGameState, paddle: Paddle) -> int {
    if ai_ball_approaching(state, paddle) {
        state.ball.pos.y as int
    } else {
        state.canvas.y + state.canvas.h / 2
    }
}

/// The vertical speed the AI matches when it is already on target.
pub open spec fn ai_target_speed_y(state: PangGameState, paddle: Paddle) -> int {
    if ai_ball_approaching(state, paddle) {
        state.ball.velocity.y as int
    } else {
        0
    }
}

/// The ball approaches the paddle when its horizontal velocity points to the
/// paddle's side of it.
pub open spec fn ai_ball_approaching(state: PangGameState, paddle: Paddle) -> bool {
    sign_pos(state.ball.velocity.x as int) == sign_pos(paddle.pos.x - state.ball.pos.x)
}

/// The paddle counts as on target within a quarter of its own height.
pub open spec fn ai_on_target(state: PangGameState, paddle: Paddle) -> bool {
    crate::vec2::abs_int(paddle.pos.y - ai_target_y(state, paddle)) < paddle.size.y / 4
}

impl PaddleController for PaddleAIController {
    /// The AI keeps no state.
    open spec fn spec_after_event(self, event: InputEvent) -> PaddleAIController {
        self
    }

    /// Match the target's vertical speed when on target, else run at full
    /// speed toward it.
    open spec fn spec_command(self, state: PangGameState, paddle: Paddle) -> Vec2 {
        if ai_on_target(state, paddle) {
            Vec2 { x: 0, y: ai_target_speed_y(state, paddle) as i64 }
        } else {
            Vec2 {
                x: 0,
                y: (sign_pos(ai_target_y(state, paddle) - paddle.pos.y)
                    * paddle.movement_speed) as i64,
            }
        }
    }

    fn update_paddle(&mut self, state: &PangGameState, event: &InputEvent, paddle: &mut Paddle) {
        let target_y: i64;
        let target_speed_y: i64;
        let dx: i64 = paddle.pos.x - state.ball.pos.x;
        let approaching: bool = (state.ball.velocity.x >= 0) == (dx >= 0);
        if approaching {
            target_y = state.ball.pos.y;
            target_speed_y = state.ball.velocity.y;
        } else {
            target_y = state.canvas.y + state.canvas.h / 2;
            target_speed_y = 0;
        }
        let dy: i64 = paddle.pos.y - target_y;
        let dy_abs: i64 = if dy >= 0 { dy } else { -dy };
        let quarter: i64 = (paddle.size.y as u64 / 4) as i64;
        if dy_abs < quarter {
            paddle.velocity = Vec2 { x: 0, y: target_speed_y };
        } else {
            let dir: i64 = if target_y - paddle.pos.y >= 0 { 1 } else { -1 };
            paddle.velocity = Vec2 { x: 0, y: dir * paddle.movement_speed };
        }
    }
}

/// When the ball moves away from the paddle's side, the AI's commanded
/// velocity drives the paddle toward the field's vertical center: downward
/// below it, upward above it, and matching a standstill inside the dead
/// zone around it.
pub proof fn lemma_ai_tracks_center(ai: PaddleAIController, state: PangGameState, paddle: Paddle)
    requires
        state.wf(),
        paddle.wf(),
        !ai_ball_approaching(state, paddle),
    ensures
        ai_target_y(state, paddle) == state.canvas.y + state.canvas.h / 2,
        ai.spec_command(state, paddle).x == 0,
        ai_on_target(state, paddle) ==> ai.spec_command(state, paddle).y == 0,
        !ai_on_target(state, paddle) && paddle.pos.y < state.canvas.y + state.canvas.h / 2
            ==> ai.spec_command(state, paddle).y == paddle.movement_speed,
        !ai_on_target(state, paddle) && paddle.pos.y > state.canvas.y + state.canvas.h / 2
            ==> ai.spec_command(state, paddle).y == (-paddle.movement_speed) as i64,
{
    let c = state.canvas.y + state.canvas.h / 2;
    if !ai_on_target(state, paddle) {
        if paddle.pos.y < c {
            assert(sign_pos(c - paddle.pos.y) == 1);
            assert(1 * paddle.movement_speed == paddle.movement_speed) by (nonlinear_arith);
        } else if paddle.pos.y > c {
            assert(sign_pos(c - paddle.pos.y) == -1);
            assert(-1 * paddle.movement_speed == -(paddle.movement_speed as int)) by (nonlinear_arith);
        }
    }
}

} // verus!

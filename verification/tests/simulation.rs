use peng::vec2::{Vec2, isqrt_u128, magnitude};
use peng::rect::Rect;
use peng::entities::{Ball, BallPhysics, Paddle, PlayField, PangGameState, Kinematic, Collider};
use peng::collide::{Collide, Rot2};
use peng::controllers::{InputEvent, PaddleController, PlayerPaddleController, PaddleAIController};
use peng::game::{PangGameController, can_update_check};

fn test_physics() -> BallPhysics {
    BallPhysics {
        horizontal_acc: 0,
        vertical_acc: 0,
        restitution_factor: 1100,
        restitution_angle_variance: 0,
        inherited_velocity: 0,
        max_velocity: 1_000_000,
    }
}

fn test_ball() -> Ball {
    Ball {
        size: 50_000,
        pos: Vec2 { x: 400_000, y: 300_000 },
        velocity: Vec2 { x: 250, y: 0 },
        physics: test_physics(),
    }
}

fn test_field() -> PlayField {
    PlayField::from_rect(Rect { x: 0, y: 0, w: 800_000, h: 600_000 })
}

fn test_paddle(x: i64, y: i64) -> Paddle {
    Paddle {
        size: Vec2 { x: 20_000, y: 100_000 },
        pos: Vec2 { x, y },
        velocity: Vec2 { x: 0, y: 0 },
        acceleration: Vec2 { x: 0, y: 0 },
        movement_speed: 500,
    }
}

#[test]
fn isqrt_exact_values() {
    assert_eq!(isqrt_u128(0), 0);
    assert_eq!(isqrt_u128(1), 1);
    assert_eq!(isqrt_u128(10), 3);
    assert_eq!(isqrt_u128(25), 5);
    assert_eq!(isqrt_u128(24), 4);
    assert_eq!(isqrt_u128(u64::MAX as u128 * u64::MAX as u128), u64::MAX);
}

#[test]
fn magnitude_exact_values() {
    assert_eq!(magnitude(Vec2 { x: 3, y: 4 }), 5);
    assert_eq!(magnitude(Vec2 { x: -3, y: 4 }), 5);
    assert_eq!(magnitude(Vec2 { x: 0, y: 0 }), 0);
    assert_eq!(magnitude(Vec2 { x: 250, y: 0 }), 250);
}

#[test]
fn rect_intersection_and_union() {
    let a = Rect { x: 0, y: 0, w: 5, h: 5 };
    assert_eq!(a.intersection(&a), Some(a));
    assert_eq!(
        a.intersection(&Rect { x: 2, y: 2, w: 5, h: 5 }),
        Some(Rect { x: 2, y: 2, w: 3, h: 3 })
    );
    assert_eq!(a.intersection(&Rect { x: 5, y: 0, w: 5, h: 5 }), None);
    assert_eq!(a.union(&Rect { x: 2, y: 2, w: 5, h: 5 }), Rect { x: 0, y: 0, w: 7, h: 7 });
    assert_eq!(a.union(&Rect { x: 5, y: 0, w: 5, h: 5 }), Rect { x: 0, y: 0, w: 10, h: 5 });
}

// Integration matches the closed-form kinematic equation after many uniform
// ticks of constant acceleration.
#[test]
fn integration_closed_form() {
    let mut ball = Ball {
        size: 50_000,
        pos: Vec2 { x: 1_000, y: 2_000 },
        velocity: Vec2 { x: 30, y: -20 },
        physics: BallPhysics {
            horizontal_acc: 2,
            vertical_acc: -4,
            ..test_physics()
        },
    };
    let dt: u64 = 10;
    let n: i64 = 5;
    for _ in 0..n {
        ball.update(dt);
    }
    let t = n * dt as i64;
    // p + v * t + a * t^2 / 2, and v + a * t
    assert_eq!(ball.pos.x, 1_000 + 30 * t + 2 * t * t / 2);
    assert_eq!(ball.pos.y, 2_000 - 20 * t - 4 * t * t / 2);
    assert_eq!(ball.velocity.x, 30 + 2 * t);
    assert_eq!(ball.velocity.y, -20 - 4 * t);
}

// Integration order is semi-implicit: the position step uses the old
// velocity, so one tick from rest under acceleration moves by a*dt^2/2 only.
#[test]
fn integration_uses_old_velocity() {
    let mut ball = Ball {
        size: 50_000,
        pos: Vec2 { x: 0, y: 0 },
        velocity: Vec2 { x: 0, y: 0 },
        physics: BallPhysics { horizontal_acc: 2, ..test_physics() },
    };
    ball.update(10);
    assert_eq!(ball.pos.x, 100); // 2 * 10 * 10 / 2, not (0 + 2*10) * 10
    assert_eq!(ball.velocity.x, 20);
}

// Collision symmetry against the play field: a ball pushed just outside one
// axis comes back clamped exactly to the edge minus the inset, with that
// velocity component's sign flipped and the other axis untouched.
#[test]
fn field_collision_clamps_and_flips_each_axis() {
    let field = test_field();
    // out on the right
    let mut ball = test_ball();
    ball.pos = Vec2 { x: 790_000, y: 300_000 };
    ball.velocity = Vec2 { x: 250, y: 40 };
    ball.collide_with_field(&field);
    assert_eq!(ball.pos, Vec2 { x: 774_000, y: 300_000 });
    assert_eq!(ball.velocity, Vec2 { x: -250, y: 40 });
    // out on the left
    let mut ball = test_ball();
    ball.pos = Vec2 { x: 10_000, y: 300_000 };
    ball.velocity = Vec2 { x: -250, y: 40 };
    ball.collide_with_field(&field);
    assert_eq!(ball.pos, Vec2 { x: 26_000, y: 300_000 });
    assert_eq!(ball.velocity, Vec2 { x: 250, y: 40 });
    // out at the bottom
    let mut ball = test_ball();
    ball.pos = Vec2 { x: 400_000, y: 590_000 };
    ball.velocity = Vec2 { x: 100, y: 250 };
    ball.collide_with_field(&field);
    assert_eq!(ball.pos, Vec2 { x: 400_000, y: 574_000 });
    assert_eq!(ball.velocity, Vec2 { x: 100, y: -250 });
    // fully inside: untouched
    let mut ball = test_ball();
    let before = ball;
    ball.collide_with_field(&field);
    assert_eq!(ball, before);
}

// Scenario: ball at field center, velocity 250 px/s rightward, field 800 px
// wide — once the ball reaches the boundary, the next collision call flips
// the horizontal velocity and clamps the center to the exact boundary value.
#[test]
fn rightward_ball_bounces_at_exact_boundary() {
    let field = test_field();
    let mut ball = test_ball();
    let mut guard = 0;
    while ball.pos.x + ball.size / 2 <= 800_000 {
        ball.update(16);
        guard += 1;
        assert!(guard < 10_000);
    }
    ball.collide_with_field(&field);
    assert_eq!(ball.pos.x, 800_000 - ball.size / 2 - 1000);
    assert_eq!(ball.pos.x, 774_000);
    assert_eq!(ball.velocity.x, -250);
    assert_eq!(ball.pos.y, 300_000);
    assert_eq!(ball.velocity.y, 0);
}

// De-penetration: an overlapping ball with nonzero velocity separates from
// the paddle in finitely many backward steps, then bounces.
#[test]
fn paddle_collision_depenetrates_and_bounces() {
    let mut ball = Ball {
        size: 50_000,
        pos: Vec2 { x: 100_000, y: 100_000 },
        velocity: Vec2 { x: 1000, y: 0 },
        physics: BallPhysics {
            restitution_factor: 5000,
            max_velocity: 2000,
            ..test_physics()
        },
    };
    let paddle = test_paddle(130_000, 100_000);
    ball.collide_with_paddle_deflected(&paddle, Rot2::identity());
    // separated: colliders no longer intersect
    assert!(!ball.collider().has_intersection(&paddle.collider()));
    // walked back along the incoming direction in 999-unit steps: 6 of them
    assert_eq!(ball.pos, Vec2 { x: 94_006, y: 100_000 });
    // overlap was taller than wide, so the horizontal component flipped;
    // restitution scaled the speed and capped it at max_velocity
    assert!(ball.velocity.x < 0);
    assert_eq!(ball.velocity.y, 0);
    let speed_sq = ball.velocity.x as i128 * ball.velocity.x as i128
        + ball.velocity.y as i128 * ball.velocity.y as i128;
    assert!(speed_sq <= 2000 * 2000);
    assert_eq!(ball.velocity.x, -1998);
}

// Restitution bounds: however large the restitution factor, the post-bounce
// speed never exceeds max_velocity.
#[test]
fn restitution_caps_speed_at_max_velocity() {
    for factor in [0i64, 500, 1000, 5000, 1_000_000] {
        let mut ball = Ball {
            size: 50_000,
            pos: Vec2 { x: 100_000, y: 100_000 },
            velocity: Vec2 { x: 900, y: 700 },
            physics: BallPhysics {
                restitution_factor: factor,
                max_velocity: 1500,
                ..test_physics()
            },
        };
        let paddle = test_paddle(130_000, 100_000);
        ball.collide_with_paddle_deflected(&paddle, Rot2::identity());
        let speed_sq = ball.velocity.x as i128 * ball.velocity.x as i128
            + ball.velocity.y as i128 * ball.velocity.y as i128;
        assert!(speed_sq <= 1500 * 1500);
    }
}

// A ball not touching the paddle is left exactly as it was.
#[test]
fn paddle_collision_without_overlap_is_a_no_op() {
    let mut ball = test_ball();
    let before = ball;
    let paddle = test_paddle(700_000, 300_000);
    ball.collide_with_paddle_deflected(&paddle, Rot2::identity());
    assert_eq!(ball, before);
}

// The randomized entry point with variance 0 behaves exactly like the
// deflection-free rule: the drawn rotation must be the identity.
#[test]
fn zero_variance_random_bounce_is_deterministic() {
    let paddle = test_paddle(130_000, 100_000);
    let mut a = Ball {
        size: 50_000,
        pos: Vec2 { x: 100_000, y: 100_000 },
        velocity: Vec2 { x: 1000, y: 0 },
        physics: BallPhysics { restitution_factor: 5000, max_velocity: 2000, ..test_physics() },
    };
    let mut b = a;
    a.collide_with_paddle(&paddle);
    b.collide_with_paddle_deflected(&paddle, Rot2::identity());
    assert_eq!(a, b);
}

// The randomized deflection never turns the bounce around: even at full
// angle variance it stays within a quarter turn, so the flipped horizontal
// direction keeps its sign, and the speed stays within the cap.
#[test]
fn random_deflection_stays_within_quarter_turn() {
    for _ in 0..50 {
        let mut ball = Ball {
            size: 50_000,
            pos: Vec2 { x: 100_000, y: 100_000 },
            velocity: Vec2 { x: 1000, y: 0 },
            physics: BallPhysics {
                restitution_factor: 1000,
                restitution_angle_variance: 1000,
                max_velocity: 2000,
                ..test_physics()
            },
        };
        let paddle = test_paddle(130_000, 100_000);
        ball.collide_with_paddle(&paddle);
        assert!(ball.velocity.x < 0);
        let speed_sq = ball.velocity.x as i128 * ball.velocity.x as i128
            + ball.velocity.y as i128 * ball.velocity.y as i128;
        assert!(speed_sq <= 2000 * 2000);
    }
}

// Ball against ball: overlap reverses both components, nothing else.
#[test]
fn ball_ball_collision_reverses_velocity() {
    let mut a = test_ball();
    a.velocity = Vec2 { x: 120, y: -30 };
    let mut b = test_ball();
    b.pos = Vec2 { x: 420_000, y: 310_000 };
    a.collide_with_other_ball(&b);
    assert_eq!(a.velocity, Vec2 { x: -120, y: 30 });
    assert_eq!(a.pos, Vec2 { x: 400_000, y: 300_000 });
    // far apart: untouched
    let mut c = test_ball();
    c.velocity = Vec2 { x: 120, y: -30 };
    let mut far = test_ball();
    far.pos = Vec2 { x: 100_000, y: 100_000 };
    c.collide_with_other_ball(&far);
    assert_eq!(c.velocity, Vec2 { x: 120, y: -30 });
}

// Paddle against the field: the center is clamped so the edges stay inside;
// the velocity is untouched.
#[test]
fn paddle_field_collision_clamps_position() {
    let field = test_field();
    let mut paddle = test_paddle(20_000, -30_000);
    paddle.velocity = Vec2 { x: 0, y: -500 };
    paddle.collide_with_field(&field);
    assert_eq!(paddle.pos, Vec2 { x: 20_000, y: 50_000 });
    assert_eq!(paddle.velocity, Vec2 { x: 0, y: -500 });
}

#[test]
fn player_controller_tracks_held_keys() {
    let state = PangGameState {
        ball: test_ball(),
        paddle_left: test_paddle(20_000, 300_000),
        paddle_right: test_paddle(780_000, 300_000),
        canvas: Rect { x: 0, y: 0, w: 800_000, h: 600_000 },
    };
    let mut ctl = PlayerPaddleController::new(119, 115);
    let mut paddle = test_paddle(20_000, 300_000);
    // up pressed: full speed upward
    ctl.update_paddle(&state, &InputEvent::KeyDown { keycode: 119 }, &mut paddle);
    assert_eq!(paddle.velocity, Vec2 { x: 0, y: -500 });
    // down pressed too: both held cancel out
    ctl.update_paddle(&state, &InputEvent::KeyDown { keycode: 115 }, &mut paddle);
    assert_eq!(paddle.velocity, Vec2 { x: 0, y: 0 });
    // up released: down remains, full speed downward
    ctl.update_paddle(&state, &InputEvent::KeyUp { keycode: 119 }, &mut paddle);
    assert_eq!(paddle.velocity, Vec2 { x: 0, y: 500 });
    // the held state persists across unrelated events
    ctl.update_paddle(&state, &InputEvent::Other, &mut paddle);
    assert_eq!(paddle.velocity, Vec2 { x: 0, y: 500 });
    // unknown key codes are ignored
    ctl.update_paddle(&state, &InputEvent::KeyDown { keycode: 42 }, &mut paddle);
    assert_eq!(paddle.velocity, Vec2 { x: 0, y: 500 });
}

// AI tracking: when the ball moves away from the paddle's side, the
// commanded motion heads for the field's vertical center, not the ball.
#[test]
fn ai_controller_returns_to_center_when_ball_leaves() {
    let mut state = PangGameState {
        ball: test_ball(),
        paddle_left: test_paddle(20_000, 300_000),
        paddle_right: test_paddle(780_000, 100_000),
        canvas: Rect { x: 0, y: 0, w: 800_000, h: 600_000 },
    };
    state.ball.pos = Vec2 { x: 400_000, y: 50_000 };
    state.ball.velocity = Vec2 { x: -100, y: 0 }; // moving away from the right paddle
    let mut ai = PaddleAIController::new();
    let mut paddle = state.paddle_right;
    ai.update_paddle(&state, &InputEvent::Other, &mut paddle);
    // center (300 px) is below the paddle (100 px): full speed downward,
    // not upward toward the ball at 50 px
    assert_eq!(paddle.velocity, Vec2 { x: 0, y: 500 });
    // once within a quarter height of the center, it matches speed 0
    let mut near = state.paddle_right;
    near.pos = Vec2 { x: 780_000, y: 290_000 };
    ai.update_paddle(&state, &InputEvent::Other, &mut near);
    assert_eq!(near.velocity, Vec2 { x: 0, y: 0 });
}

// AI tracking: an approaching ball is followed at full speed, and matched in
// speed once the paddle is lined up.
#[test]
fn ai_controller_follows_approaching_ball() {
    let mut state = PangGameState {
        ball: test_ball(),
        paddle_left: test_paddle(20_000, 300_000),
        paddle_right: test_paddle(780_000, 300_000),
        canvas: Rect { x: 0, y: 0, w: 800_000, h: 600_000 },
    };
    state.ball.pos = Vec2 { x: 400_000, y: 50_000 };
    state.ball.velocity = Vec2 { x: 200, y: -75 }; // heading for the right paddle
    let mut ai = PaddleAIController::new();
    let mut paddle = state.paddle_right;
    ai.update_paddle(&state, &InputEvent::Other, &mut paddle);
    // ball (50 px) is above the paddle (300 px): full speed upward
    assert_eq!(paddle.velocity, Vec2 { x: 0, y: -500 });
    let mut near = state.paddle_right;
    near.pos = Vec2 { x: 780_000, y: 60_000 };
    ai.update_paddle(&state, &InputEvent::Other, &mut near);
    assert_eq!(near.velocity, Vec2 { x: 0, y: -75 });
}

// One full tick through the game controller: paddles pinned to their
// stations, ball advanced by its velocity, no collisions in the way; a tick
// never fails and its output is ready for the next tick.
#[test]
fn game_update_advances_one_tick() {
    let state = PangGameState {
        ball: Ball { velocity: Vec2 { x: 250, y: 100 }, ..test_ball() },
        paddle_left: test_paddle(20_000, 300_000),
        paddle_right: test_paddle(780_000, 300_000),
        canvas: Rect { x: 0, y: 0, w: 800_000, h: 600_000 },
    };
    assert!(can_update_check(&state));
    let mut controller = PangGameController {
        paddle_controller_left: PaddleAIController::new(),
        paddle_controller_right: PaddleAIController::new(),
    };
    let result = controller.update(&state, 16, &InputEvent::Other);
    assert!(result.is_ok());
    let next = result.unwrap();
    assert_eq!(next.ball.pos, Vec2 { x: 404_000, y: 301_600 });
    assert_eq!(next.ball.velocity, Vec2 { x: 250, y: 100 });
    assert_eq!(next.paddle_left.pos.x, 20_000);
    assert_eq!(next.paddle_right.pos.x, 780_000);
    assert_eq!(next.canvas, state.canvas);
    assert!(can_update_check(&next));
    // the caller's snapshot is untouched
    assert_eq!(state.ball.pos, Vec2 { x: 400_000, y: 300_000 });
}

// The collision rules are reachable through the Collide capability too.
#[test]
fn collide_trait_dispatches_field_rule() {
    let field = test_field();
    let mut ball = test_ball();
    ball.pos = Vec2 { x: 790_000, y: 300_000 };
    Collide::collide(&mut ball, &field);
    assert_eq!(ball.pos, Vec2 { x: 774_000, y: 300_000 });
    assert_eq!(ball.velocity, Vec2 { x: -250, y: 0 });
    let mut paddle = test_paddle(20_000, -30_000);
    Collide::collide(&mut paddle, &field);
    assert_eq!(paddle.pos, Vec2 { x: 20_000, y: 50_000 });
}

// Colliders are centered rectangles.
#[test]
fn colliders_are_centered() {
    let ball = test_ball();
    assert_eq!(ball.collider(), Rect { x: 375_000, y: 275_000, w: 50_000, h: 50_000 });
    let paddle = test_paddle(100_000, 200_000);
    assert_eq!(paddle.collider(), Rect { x: 90_000, y: 150_000, w: 20_000, h: 100_000 });
    let field = test_field();
    assert_eq!(field.collider(), Rect { x: 0, y: 0, w: 800_000, h: 600_000 });
}

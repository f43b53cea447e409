use pong_core::ball::{Ball, BALL_SPEED};
use pong_core::collision::{collide, Collision};
use pong_core::direction::{Direction, Vec2};
use pong_core::fixed::{fx_mul, FX_ONE};
use pong_core::game::{game_level, BOUNDS_X, BOUNDS_Y, PADDLE_SPEED, PADDLE_WIDTH, WALL_THICKNESS};
use pong_core::input::InputState;
use pong_core::player::{KEY_UP, KEY_W};
use pong_core::paddle::Paddle;
use pong_core::player::{Player, PlayerCode};
use pong_core::world::{
    ball_movement, ball_paddle_collision, ball_wall_collision, paddle_movement, tick, BallEntity,
    Obstacle, PaddleEntity, World,
};

fn units(n: i64) -> i64 {
    n * FX_ONE
}

#[test]
fn fx_mul_exact_and_truncating() {
    assert_eq!(fx_mul(units(3), units(2)), units(6));
    assert_eq!(fx_mul(1_500_000, 2_000_000), 3_000_000);
    assert_eq!(fx_mul(-1_500_000, 2_000_000), -3_000_000);
    assert_eq!(fx_mul(1, 1), 0);
    assert_eq!(fx_mul(-1, 1), 0);
}

#[test]
fn collide_reports_shallower_horizontal_edge() {
    let r = collide(
        Vec2 { x: 0, y: 0 },
        Vec2 { x: units(10), y: units(10) },
        Vec2 { x: units(5), y: 0 },
        Vec2 { x: units(10), y: units(10) },
    );
    assert_eq!(r, Some(Collision::Right));
}

#[test]
fn collide_disjoint_is_none() {
    let r = collide(
        Vec2 { x: 0, y: 0 },
        Vec2 { x: units(10), y: units(10) },
        Vec2 { x: units(100), y: units(100) },
        Vec2 { x: units(10), y: units(10) },
    );
    assert_eq!(r, None);
}

#[test]
fn collide_touching_edges_is_none() {
    let r = collide(
        Vec2 { x: 0, y: 0 },
        Vec2 { x: units(10), y: units(10) },
        Vec2 { x: units(10), y: 0 },
        Vec2 { x: units(10), y: units(10) },
    );
    assert_eq!(r, None);
}

#[test]
fn collide_wall_left_flips_only_into_wall() {
    let mut b = Ball { direction: Vec2 { x: -FX_ONE / 2, y: 0 }, speed: BALL_SPEED };
    b.collide_wall(Collision::Left);
    assert_eq!(b.direction.x, FX_ONE / 2);

    let mut away = Ball { direction: Vec2 { x: FX_ONE / 2, y: 0 }, speed: BALL_SPEED };
    away.collide_wall(Collision::Left);
    assert_eq!(away.direction.x, FX_ONE / 2);
}

#[test]
fn collide_wall_each_edge_guarded() {
    let mut b = Ball { direction: Vec2 { x: FX_ONE, y: -FX_ONE }, speed: BALL_SPEED };
    b.collide_wall(Collision::Right);
    assert_eq!(b.direction, Vec2 { x: -FX_ONE, y: -FX_ONE });
    b.collide_wall(Collision::Bottom);
    assert_eq!(b.direction, Vec2 { x: -FX_ONE, y: FX_ONE });
    b.collide_wall(Collision::Top);
    assert_eq!(b.direction, Vec2 { x: -FX_ONE, y: -FX_ONE });
    b.collide_wall(Collision::Left);
    assert_eq!(b.direction, Vec2 { x: FX_ONE, y: -FX_ONE });
}

#[test]
fn collide_paddle_outcome_deterministic_branches() {
    let mut normal = Ball { direction: Vec2 { x: -FX_ONE, y: 0 }, speed: BALL_SPEED };
    normal.collide_paddle_outcome(Collision::Left, true, 0);
    assert_eq!(normal.direction, Vec2 { x: FX_ONE, y: 0 });

    let spin_y = [-FX_ONE, -FX_ONE, 0, FX_ONE, FX_ONE];
    for (i, expected_y) in spin_y.iter().enumerate() {
        let mut b = Ball { direction: Vec2 { x: FX_ONE, y: 0 }, speed: BALL_SPEED };
        b.collide_paddle_outcome(Collision::Left, false, i as u8);
        assert_eq!(b.direction, Vec2 { x: -FX_ONE, y: *expected_y });
    }
}

#[test]
fn collide_paddle_distribution() {
    let trials = 10_000;
    let mut normal = 0u32;
    let mut spin_down = 0u32;
    let mut spin_zero = 0u32;
    let mut spin_up = 0u32;
    for _ in 0..trials {
        let mut b = Ball { direction: Vec2 { x: FX_ONE, y: 0 }, speed: BALL_SPEED };
        b.collide_paddle(Collision::Left);
        if b.direction == (Vec2 { x: FX_ONE, y: 0 }) {
            normal += 1;
        } else {
            assert_eq!(b.direction.x, -FX_ONE);
            match b.direction.y {
                y if y == -FX_ONE => spin_down += 1,
                0 => spin_zero += 1,
                y if y == FX_ONE => spin_up += 1,
                y => panic!("unexpected spin deflection {}", y),
            }
        }
    }
    assert!(
        (6600..=7400).contains(&normal),
        "normal reflections: {} of {}",
        normal,
        trials
    );
    let spins = spin_down + spin_zero + spin_up;
    let down_share = spin_down as f64 / spins as f64;
    let up_share = spin_up as f64 / spins as f64;
    let zero_share = spin_zero as f64 / spins as f64;
    assert!((0.3..=0.5).contains(&down_share), "down share {}", down_share);
    assert!((0.3..=0.5).contains(&up_share), "up share {}", up_share);
    assert!((0.1..=0.3).contains(&zero_share), "zero share {}", zero_share);
}

#[test]
fn tick_without_collision_moves_ball() {
    let mut w = World {
        balls: vec![BallEntity {
            ball: Ball { direction: Vec2 { x: FX_ONE, y: 0 }, speed: units(300) },
            pos: Vec2 { x: 0, y: 0 },
            size: Vec2 { x: units(20), y: units(20) },
        }],
        paddles: Vec::new(),
        walls: Vec::new(),
    };
    let input = InputState::new();
    tick(&mut w, &input, 100_000);
    assert_eq!(w.balls[0].pos, Vec2 { x: units(30), y: 0 });
    assert_eq!(w.balls[0].ball.direction, Vec2 { x: FX_ONE, y: 0 });
}

#[test]
fn tick_flips_on_top_wall_once() {
    let diag = Direction::UpRight.to_vector();
    let mut w = World {
        balls: vec![BallEntity {
            ball: Ball { direction: diag, speed: units(300) },
            pos: Vec2 { x: 0, y: 0 },
            size: Vec2 { x: units(20), y: units(20) },
        }],
        paddles: Vec::new(),
        walls: vec![Obstacle {
            pos: Vec2 { x: 0, y: units(12) },
            size: Vec2 { x: units(40), y: units(10) },
        }],
    };
    let input = InputState::new();
    tick(&mut w, &input, 10_000);
    assert!(w.balls[0].ball.direction.y < 0, "upward component must flip");
    assert_eq!(w.balls[0].ball.direction.x, diag.x);
    let flipped = w.balls[0].ball.direction;

    tick(&mut w, &input, 10_000);
    assert_eq!(
        w.balls[0].ball.direction, flipped,
        "a ball moving away must not be re-reflected"
    );
}

#[test]
fn ball_movement_advances_all_balls() {
    let mut w = World {
        balls: vec![
            BallEntity {
                ball: Ball { direction: Vec2 { x: FX_ONE, y: 0 }, speed: units(100) },
                pos: Vec2 { x: 0, y: 0 },
                size: Vec2 { x: units(20), y: units(20) },
            },
            BallEntity {
                ball: Ball { direction: Vec2 { x: 0, y: -FX_ONE }, speed: units(200) },
                pos: Vec2 { x: units(5), y: units(5) },
                size: Vec2 { x: units(20), y: units(20) },
            },
        ],
        paddles: Vec::new(),
        walls: Vec::new(),
    };
    ball_movement(&mut w, 500_000);
    assert_eq!(w.balls[0].pos, Vec2 { x: units(50), y: 0 });
    assert_eq!(w.balls[1].pos, Vec2 { x: units(5), y: units(5) - units(100) });
}

#[test]
fn wall_collision_leaves_clear_ball_alone() {
    let mut w = World {
        balls: vec![BallEntity {
            ball: Ball { direction: Vec2 { x: 0, y: FX_ONE }, speed: units(300) },
            pos: Vec2 { x: 0, y: 0 },
            size: Vec2 { x: units(20), y: units(20) },
        }],
        paddles: Vec::new(),
        walls: vec![Obstacle {
            pos: Vec2 { x: 0, y: units(300) },
            size: Vec2 { x: units(900), y: units(30) },
        }],
    };
    ball_wall_collision(&mut w);
    assert_eq!(w.balls[0].ball.direction, Vec2 { x: 0, y: FX_ONE });
}

fn one_paddle_world(ball_direction: Vec2, paddle_x: i64) -> World {
    World {
        balls: vec![BallEntity {
            ball: Ball { direction: ball_direction, speed: BALL_SPEED },
            pos: Vec2 { x: 0, y: 0 },
            size: Vec2 { x: units(20), y: units(20) },
        }],
        paddles: vec![PaddleEntity {
            paddle: Paddle {
                player: Player { code: PlayerCode::One, move_up: KEY_W, move_down: pong_core::player::KEY_S },
                speed: PADDLE_SPEED,
            },
            pos: Vec2 { x: paddle_x, y: 0 },
            size: Vec2 { x: units(10), y: units(100) },
        }],
        walls: Vec::new(),
    }
}

#[test]
fn paddle_collision_leaves_clear_ball_alone() {
    for _ in 0..100 {
        let mut w = one_paddle_world(Vec2 { x: -FX_ONE, y: 0 }, units(200));
        ball_paddle_collision(&mut w);
        assert_eq!(w.balls[0].ball.direction, Vec2 { x: -FX_ONE, y: 0 });
        assert_eq!(w.balls[0].ball.speed, BALL_SPEED);
    }
}

#[test]
fn paddle_collision_always_bounces_back_when_moving_in() {
    for _ in 0..100 {
        // the paddle straddles the ball's left edge; the ball moves left,
        // so the guarded reflection and every spin flip it rightward
        let mut w = one_paddle_world(Vec2 { x: -FX_ONE, y: 0 }, units(-12));
        ball_paddle_collision(&mut w);
        let dir = w.balls[0].ball.direction;
        assert_eq!(dir.x, FX_ONE);
        assert!(dir.y == 0 || dir.y == FX_ONE || dir.y == -FX_ONE);
        assert_eq!(w.balls[0].ball.speed, BALL_SPEED);
    }
}

#[test]
fn paddle_movement_from_held_keys() {
    let mut w = game_level();
    let mut input = InputState::new();
    input.press(KEY_W);
    input.press(KEY_UP);
    paddle_movement(&mut w, &input, 100_000);
    let expected = Vec2 { x: -BOUNDS_X / 2, y: units(60) };
    assert_eq!(w.paddles[0].pos, expected);
    assert_eq!(w.paddles[1].pos, Vec2 { x: BOUNDS_X / 2 - PADDLE_WIDTH, y: units(60) });
    assert_eq!(w.paddles[0].paddle.speed, PADDLE_SPEED);
}

#[test]
fn paddle_movement_both_keys_cancel() {
    let mut w = game_level();
    let mut input = InputState::new();
    input.press(KEY_W);
    input.press(pong_core::player::KEY_S);
    paddle_movement(&mut w, &input, 100_000);
    assert_eq!(w.paddles[0].pos, Vec2 { x: -BOUNDS_X / 2, y: 0 });
}

#[test]
fn game_level_layout() {
    let w = game_level();
    assert_eq!(w.walls.len(), 2);
    assert_eq!(w.walls[0].pos, Vec2 { x: 0, y: BOUNDS_Y / 2 });
    assert_eq!(w.walls[0].size, Vec2 { x: BOUNDS_X + WALL_THICKNESS, y: WALL_THICKNESS });
    assert_eq!(w.walls[1].pos, Vec2 { x: 0, y: -BOUNDS_Y / 2 });
    assert_eq!(w.paddles.len(), 2);
    assert_eq!(w.paddles[0].pos, Vec2 { x: -BOUNDS_X / 2, y: 0 });
    assert_eq!(w.paddles[1].pos, Vec2 { x: BOUNDS_X / 2 - PADDLE_WIDTH, y: 0 });
    assert_eq!(w.balls.len(), 1);
    assert_eq!(w.balls[0].pos, Vec2 { x: 0, y: 0 });
    assert_eq!(w.balls[0].ball.speed, BALL_SPEED);
    assert_ne!(w.balls[0].ball.direction.x, 0);
}

#[test]
fn input_press_and_query() {
    let mut input = InputState::new();
    assert!(!input.pressed(KEY_W));
    input.press(KEY_W);
    assert!(input.pressed(KEY_W));
    assert!(!input.pressed(KEY_UP));
}

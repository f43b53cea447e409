//! The standard level: a field bounded by a top and a bottom wall, one
//! paddle per player at the left and right edges, and one ball in the
//! center with a random non-vertical heading.

use vstd::prelude::*;

use crate::ball::Ball;
use crate::direction::{spec_to_vector, Direction, Vec2};
use crate::paddle::Paddle;
use crate::player::{Player, PlayerCode, KEY_DOWN, KEY_S, KEY_UP, KEY_W};
use crate::world::{BallEntity, Obstacle, PaddleEntity, World};

verus! {

/// Width of the playing field: 900 units.
pub const BOUNDS_X: i64 = 900_000_000;

/// Height of the playing field: 600 units.
pub const BOUNDS_Y: i64 = 600_000_000;

/// Thickness of the top and bottom walls: 30 units.
pub const WALL_THICKNESS: i64 = 30_000_000;

/// Width of a paddle: 30 units.
pub const PADDLE_WIDTH: i64 = 30_000_000;

/// Height of a paddle: 100 units.
pub const PADDLE_HEIGHT: i64 = 100_000_000;

/// Speed of a paddle while a key is held: 600 units per second.
pub const PADDLE_SPEED: i64 = 600_000_000;

/// Width and height of the ball: 20 units.
pub const BALL_SIZE: i64 = 20_000_000;

/// Build the standard level. The walls sit half a field above and below
/// the center and span the field plus one wall thickness; player one's
/// paddle sits at the left edge bound to the W and S keys, player two's at
/// the right edge bound to the up and down keys; the ball starts at the
/// center with the starting speed and a random non-vertical heading.
pub fn game_level() -> (w: World)
    ensures
        w.wf(),
        w.walls@.len() == 2,
        w.walls@[0] == (Obstacle {
            pos: Vec2 { x: 0, y: (BOUNDS_Y / 2) as i64 },
            size: Vec2 { x: (BOUNDS_X + WALL_THICKNESS) as i64, y: WALL_THICKNESS },
        }),
        w.walls@[1] == (Obstacle {
            pos: Vec2 { x: 0, y: (-BOUNDS_Y / 2) as i64 },
            size: Vec2 { x: (BOUNDS_X + WALL_THICKNESS) as i64, y: WALL_THICKNESS },
        }),
        w.paddles@.len() == 2,
        w.paddles@[0] == (PaddleEntity {
            paddle: Paddle {
                player: Player { code: PlayerCode::One, move_up: KEY_W, move_down: KEY_S },
                speed: PADDLE_SPEED,
            },
            pos: Vec2 { x: (-BOUNDS_X / 2) as i64, y: 0 },
            size: Vec2 { x: PADDLE_WIDTH, y: PADDLE_HEIGHT },
        }),
        w.paddles@[1] == (PaddleEntity {
            paddle: Paddle {
                player: Player { code: PlayerCode::Two, move_up: KEY_UP, move_down: KEY_DOWN },
                speed: PADDLE_SPEED,
            },
            pos: Vec2 { x: (BOUNDS_X / 2 - PADDLE_WIDTH) as i64, y: 0 },
            size: Vec2 { x: PADDLE_WIDTH, y: PADDLE_HEIGHT },
        }),
        w.balls@.len() == 1,
        w.balls@[0].pos == (Vec2 { x: 0, y: 0 }),
        w.balls@[0].size == (Vec2 { x: BALL_SIZE, y: BALL_SIZE }),
        w.balls@[0].ball.speed == crate::ball::BALL_SPEED,
        w.balls@[0].ball.direction.x != 0,
        exists|d: Direction|
            d != Direction::Up && d != Direction::Down && w.balls@[0].ball.direction
                == spec_to_vector(d),
{
    let mut walls: Vec<Obstacle> = Vec::new();
    walls.push(Obstacle {
        pos: Vec2 { x: 0, y: BOUNDS_Y / 2 },
        size: Vec2 { x: BOUNDS_X + WALL_THICKNESS, y: WALL_THICKNESS },
    });
    walls.push(Obstacle {
        pos: Vec2 { x: 0, y: -BOUNDS_Y / 2 },
        size: Vec2 { x: BOUNDS_X + WALL_THICKNESS, y: WALL_THICKNESS },
    });
    let mut paddles: Vec<PaddleEntity> = Vec::new();
    paddles.push(PaddleEntity {
        paddle: Paddle {
            player: Player { code: PlayerCode::One, move_up: KEY_W, move_down: KEY_S },
            speed: PADDLE_SPEED,
        },
        pos: Vec2 { x: -BOUNDS_X / 2, y: 0 },
        size: Vec2 { x: PADDLE_WIDTH, y: PADDLE_HEIGHT },
    });
    paddles.push(PaddleEntity {
        paddle: Paddle {
            player: Player { code: PlayerCode::Two, move_up: KEY_UP, move_down: KEY_DOWN },
            speed: PADDLE_SPEED,
        },
        pos: Vec2 { x: BOUNDS_X / 2 - PADDLE_WIDTH, y: 0 },
        size: Vec2 { x: PADDLE_WIDTH, y: PADDLE_HEIGHT },
    });
    let mut balls: Vec<BallEntity> = Vec::new();
    balls.push(BallEntity {
        ball: Ball::new(),
        pos: Vec2 { x: 0, y: 0 },
        size: Vec2 { x: BALL_SIZE, y: BALL_SIZE },
    });
    World { balls, paddles, walls }
}

} // verus!

use pong_core::ball::Ball;
use pong_core::direction::{random_direction, Direction, Vec2, FX_DIAG};
use pong_core::fixed::FX_ONE;

const ALL_DIRECTIONS: [Direction; 8] = [
    Direction::Up,
    Direction::Down,
    Direction::Left,
    Direction::Right,
    Direction::UpRight,
    Direction::DownRight,
    Direction::DownLeft,
    Direction::UpLeft,
];

#[test]
fn from_vec3() {}

#[test]
fn to_vector_exact_values() {
    assert_eq!(Direction::Up.to_vector(), Vec2 { x: 0, y: FX_ONE });
    assert_eq!(Direction::Down.to_vector(), Vec2 { x: 0, y: -FX_ONE });
    assert_eq!(Direction::Left.to_vector(), Vec2 { x: -FX_ONE, y: 0 });
    assert_eq!(Direction::Right.to_vector(), Vec2 { x: FX_ONE, y: 0 });
    assert_eq!(Direction::UpRight.to_vector(), Vec2 { x: FX_DIAG, y: FX_DIAG });
    assert_eq!(Direction::DownRight.to_vector(), Vec2 { x: FX_DIAG, y: -FX_DIAG });
    assert_eq!(Direction::DownLeft.to_vector(), Vec2 { x: -FX_DIAG, y: -FX_DIAG });
    assert_eq!(Direction::UpLeft.to_vector(), Vec2 { x: -FX_DIAG, y: FX_DIAG });
}

#[test]
fn to_vector_unit_magnitude() {
    for d in ALL_DIRECTIONS {
        let v = d.to_vector();
        let x = v.x as f64 / FX_ONE as f64;
        let y = v.y as f64 / FX_ONE as f64;
        let magnitude = (x * x + y * y).sqrt();
        assert!(
            (magnitude - 1.0).abs() < 1e-3,
            "direction {:?} has magnitude {}",
            d,
            magnitude
        );
    }
}

#[test]
fn random_direction_roughly_uniform() {
    let draws = 10_000;
    let mut counts = [0u32; 8];
    for _ in 0..draws {
        let slot = match random_direction() {
            Direction::Up => 0,
            Direction::Down => 1,
            Direction::Left => 2,
            Direction::Right => 3,
            Direction::UpRight => 4,
            Direction::DownRight => 5,
            Direction::DownLeft => 6,
            Direction::UpLeft => 7,
        };
        counts[slot] += 1;
    }
    for (slot, count) in counts.iter().enumerate() {
        assert!(
            (1000..=1500).contains(count),
            "direction slot {} drawn {} times out of {}",
            slot,
            count,
            draws
        );
    }
}

#[test]
fn ball_seeded_direction_never_vertical() {
    for _ in 0..2_000 {
        let b = Ball::new();
        assert_ne!(b.direction.x, 0);
        assert_ne!(b.direction, Direction::Up.to_vector());
        assert_ne!(b.direction, Direction::Down.to_vector());
        let expected = [
            Direction::Left,
            Direction::Right,
            Direction::UpRight,
            Direction::DownRight,
            Direction::DownLeft,
            Direction::UpLeft,
        ];
        assert!(expected.iter().any(|d| d.to_vector() == b.direction));
    }
}

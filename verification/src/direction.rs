//! Directions and vectors: the eight compass headings, their unit vectors in
//! the fixed-point scale, and the random draws that seed a ball's heading.

use vstd::prelude::*;

use crate::fixed::FX_ONE;
use crate::rng::rand_below;

verus! {

/// A 2-D vector in the fixed-point scale.
#[derive(Clone, Copy, Debug, PartialEq, Eq, Structural)]
pub struct Vec2 {
    pub x: i64,
    pub y: i64,
}

/// The squared magnitude of a vector, exact over the mathematical integers.
pub open spec fn spec_mag2(v: Vec2) -> int {
    v.x * v.x + v.y * v.y
}

/// The component of a unit diagonal vector: `FX_ONE / sqrt(2)`, rounded to
/// the nearest representable value.
pub const FX_DIAG: i64 = 707_107;

/// The eight compass headings.
#[derive(Clone, Copy, Debug, PartialEq, Eq, Structural)]
pub enum Direction {
    Up,
    Down,
    Left,
    Right,
    UpRight,
    DownRight,
    DownLeft,
    UpLeft,
}

/// The unit vector of a heading: cardinals map to a whole unit on one axis,
/// diagonals to the normalized sum of their two adjacent cardinals.
pub open spec fn spec_to_vector(d: Direction) -> Vec2 {
    match d {
        Direction::Up => Vec2 { x: 0, y: FX_ONE },
        Direction::Down => Vec2 { x: 0, y: (-FX_ONE) as i64 },
        Direction::Left => Vec2 { x: (-FX_ONE) as i64, y: 0 },
        Direction::Right => Vec2 { x: FX_ONE, y: 0 },
        Direction::UpRight => Vec2 { x: FX_DIAG, y: FX_DIAG },
        Direction::DownRight => Vec2 { x: FX_DIAG, y: (-FX_DIAG) as i64 },
        Direction::DownLeft => Vec2 { x: (-FX_DIAG) as i64, y: (-FX_DIAG) as i64 },
        Direction::UpLeft => Vec2 { x: (-FX_DIAG) as i64, y: FX_DIAG },
    }
}

impl Direction {
    /// Convert a heading to its unit vector.
    pub fn to_vector(self) -> (v: Vec2)
        ensures
            v == spec_to_vector(self),
    {
        match self {
            Direction::Up => Vec2 { x: 0, y: FX_ONE },
            Direction::Down => Vec2 { x: 0, y: -FX_ONE },
            Direction::Left => Vec2 { x: -FX_ONE, y: 0 },
            Direction::Right => Vec2 { x: FX_ONE, y: 0 },
            Direction::UpRight => Vec2 { x: FX_DIAG, y: FX_DIAG },
            Direction::DownRight => Vec2 { x: FX_DIAG, y: -FX_DIAG },
            Direction::DownLeft => Vec2 { x: -FX_DIAG, y: -FX_DIAG },
            Direction::UpLeft => Vec2 { x: -FX_DIAG, y: FX_DIAG },
        }
    }
}

/// The heading a uniform draw from `[0, 8)` stands for.
pub open spec fn spec_direction_from_index(i: int) -> Direction {
    if i == 0 {
        Direction::Up
    } else if i == 1 {
        Direction::Down
    } else if i == 2 {
        Direction::Left
    } else if i == 3 {
        Direction::Right
    } else if i == 4 {
        Direction::UpRight
    } else if i == 5 {
        Direction::DownRight
    } else if i == 6 {
        Direction::DownLeft
    } else {
        Direction::UpLeft
    }
}

/// Map a draw from `[0, 8)` onto the eight headings.
pub fn direction_from_index(i: u8) -> (d: Direction)
    requires
        i < 8,
    ensures
        d == spec_direction_from_index(i as int),
{
    if i == 0 {
        Direction::Up
    } else if i == 1 {
        Direction::Down
    } else if i == 2 {
        Direction::Left
    } else if i == 3 {
        Direction::Right
    } else if i == 4 {
        Direction::UpRight
    } else if i == 5 {
        Direction::DownRight
    } else if i == 6 {
        Direction::DownLeft
    } else {
        Direction::UpLeft
    }
}

/// The heading a uniform draw from `[0, 6)` stands for, skipping the two
/// vertical headings.
pub open spec fn spec_non_vertical_from_index(i: int) -> Direction {
    spec_direction_from_index(i + 2)
}

/// Map a draw from `[0, 6)` onto the six headings that are not straight up
/// or down.
pub fn non_vertical_from_index(i: u8) -> (d: Direction)
    requires
        i < 6,
    ensures
        d == spec_non_vertical_from_index(i as int),
        d != Direction::Up,
        d != Direction::Down,
{
    direction_from_index(i + 2)
}

/// Draw one of the eight headings uniformly at random.
pub fn random_direction() -> Direction {
    let i = rand_below(8);
    direction_from_index(i as u8)
}

/// Draw a heading uniformly from the six that are not straight up or down:
/// the distribution a rejection loop over all eight headings would reach,
/// without its unbounded retries.
pub fn random_non_vertical_direction() -> (d: Direction)
    ensures
        d != Direction::Up,
        d != Direction::Down,
{
    let i = rand_below(6);
    non_vertical_from_index(i as u8)
}

/// Every heading's vector stays within one whole unit on each axis.
pub proof fn lemma_to_vector_bounded(d: Direction)
    ensures
        -FX_ONE <= spec_to_vector(d).x <= FX_ONE,
        -FX_ONE <= spec_to_vector(d).y <= FX_ONE,
{
}

/// Every heading's vector has magnitude one, up to the fixed-point scale's
/// rounding: its squared magnitude lies between the squares of one unit and
/// one unit plus one smallest step.
pub proof fn lemma_to_vector_unit(d: Direction)
    ensures
        FX_ONE * FX_ONE <= spec_mag2(spec_to_vector(d)),
        spec_mag2(spec_to_vector(d)) <= (FX_ONE + 1) * (FX_ONE + 1),
{
    let v = spec_to_vector(d);
    assert(v.x == 0 || v.x == FX_ONE || v.x == -(FX_ONE as int) || v.x == FX_DIAG || v.x == -(
    FX_DIAG as int));
    assert((0 as int) * (0 as int) == 0) by (nonlinear_arith);
    assert((1_000_000 as int) * (1_000_000 as int) == 1_000_000_000_000) by (nonlinear_arith);
    assert((-1_000_000 as int) * (-1_000_000 as int) == 1_000_000_000_000) by (nonlinear_arith);
    assert((707_107 as int) * (707_107 as int) == 500_000_309_449) by (nonlinear_arith);
    assert((-707_107 as int) * (-707_107 as int) == 500_000_309_449) by (nonlinear_arith);
    assert((1_000_001 as int) * (1_000_001 as int) == 1_000_002_000_001) by (nonlinear_arith);
}

/// A heading that is not straight up or down moves horizontally: its
/// vector's `x` component is not zero.
pub proof fn lemma_non_vertical_moves_horizontally(d: Direction)
    requires
        d != Direction::Up,
        d != Direction::Down,
    ensures
        spec_to_vector(d).x != 0,
{
}

} // verus!

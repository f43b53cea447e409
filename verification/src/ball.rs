//! The ball and its reflection policy.
//!
//! A ball owns a direction vector (unit length up to fixed-point rounding,
//! except after a spin bounce) and a scalar speed. Collision responses
//! mutate the direction: a wall reflects only the component that still
//! points into it (an overlap can persist across ticks near a corner, and a
//! ball already moving away must not be re-reflected); a paddle mostly does
//! the same, but sometimes answers with a spin that always sends the ball
//! back horizontally and redraws the vertical component.

use vstd::prelude::*;

use crate::collision::Collision;
use crate::direction::{
    lemma_non_vertical_moves_horizontally,
    lemma_to_vector_bounded,
    random_non_vertical_direction,
    spec_mag2,
    spec_to_vector,
    Direction,
    Vec2,
};
use crate::fixed::FX_ONE;
use crate::rng::{rand_below, rand_chance};

verus! {

/// The speed a new ball starts with: 500 units per second.
pub const BALL_SPEED: i64 = 500_000_000;

/// Largest speed the simulation accepts: one million units per second.
pub const SPEED_LIMIT: i64 = 1_000_000_000_000;

/// A moving ball: a direction vector and a scalar speed. Its position and
/// bounding size live on the entity that carries it (see [`crate::world`]).
#[derive(Clone, Copy, Debug, PartialEq, Eq, Structural)]
pub struct Ball {
    pub direction: Vec2,
    pub speed: i64,
}

/// A guarded reflection: flip the component of `dir` that points into the
/// struck edge, and only that one; a ball already moving away from the edge
/// keeps its direction.
pub open spec fn spec_reflect(dir: Vec2, collision: Collision) -> Vec2 {
    match collision {
        Collision::Left => if dir.x < 0 {
            Vec2 { x: (-dir.x) as i64, y: dir.y }
        } else {
            dir
        },
        Collision::Right => if dir.x > 0 {
            Vec2 { x: (-dir.x) as i64, y: dir.y }
        } else {
            dir
        },
        Collision::Top => if dir.y > 0 {
            Vec2 { x: dir.x, y: (-dir.y) as i64 }
        } else {
            dir
        },
        Collision::Bottom => if dir.y < 0 {
            Vec2 { x: dir.x, y: (-dir.y) as i64 }
        } else {
            dir
        },
    }
}

/// The vertical component a spin bounce draws: a draw from `[0, 5)` maps
/// onto `{-1, -1, 0, 1, 1}` whole units, so a full vertical deflection is
/// twice as likely as none in either sense.
pub open spec fn spec_spin_y(i: int) -> i64 {
    if i <= 1 {
        (-FX_ONE) as i64
    } else if i == 2 {
        0
    } else {
        FX_ONE
    }
}

impl Ball {
    /// A ball's direction components never exceed one whole unit on either
    /// axis, and its speed is a bounded non-negative scalar.
    pub open spec fn wf(self) -> bool {
        &&& -FX_ONE <= self.direction.x <= FX_ONE
        &&& -FX_ONE <= self.direction.y <= FX_ONE
        &&& 0 <= self.speed <= SPEED_LIMIT
    }

    /// Create a ball with the starting speed and a uniformly random
    /// non-vertical heading: a new ball never moves straight up or down.
    pub fn new() -> (b: Ball)
        ensures
            b.wf(),
            b.speed == BALL_SPEED,
            b.direction.x != 0,
            exists|d: Direction|
                d != Direction::Up && d != Direction::Down && b.direction == spec_to_vector(d),
    {
        let d = random_non_vertical_direction();
        proof {
            lemma_to_vector_bounded(d);
            lemma_non_vertical_moves_horizontally(d);
        }
        let b = Ball { direction: d.to_vector(), speed: BALL_SPEED };
        assert(d != Direction::Up && d != Direction::Down && b.direction == spec_to_vector(d));
        b
    }

    /// Reflect the direction component that points into the struck edge.
    fn reflect_normal(&mut self, collision: Collision)
        requires
            old(self).wf(),
        ensures
            final(self).wf(),
            final(self).direction == spec_reflect(old(self).direction, collision),
            final(self).speed == old(self).speed,
    {
        match collision {
            Collision::Left => {
                if self.direction.x < 0 {
                    self.direction.x = -self.direction.x;
                }
            },
            Collision::Right => {
                if self.direction.x > 0 {
                    self.direction.x = -self.direction.x;
                }
            },
            Collision::Top => {
                if self.direction.y > 0 {
                    self.direction.y = -self.direction.y;
                }
            },
            Collision::Bottom => {
                if self.direction.y < 0 {
                    self.direction.y = -self.direction.y;
                }
            },
        }
    }

    /// Respond to hitting a wall: the guarded reflection, nothing more.
    pub fn collide_wall(&mut self, collision: Collision)
        requires
            old(self).wf(),
        ensures
            final(self).wf(),
            final(self).direction == spec_reflect(old(self).direction, collision),
            final(self).speed == old(self).speed,
    {
        self.reflect_normal(collision);
    }

    /// The deterministic core of the paddle response, with the two random
    /// draws handed in: a normal draw applies the guarded reflection; a spin
    /// draw always flips the horizontal component and replaces the vertical
    /// one with the drawn whole-unit deflection, without renormalizing.
    pub fn collide_paddle_outcome(&mut self, collision: Collision, normal: bool, spin: u8)
        requires
            old(self).wf(),
            spin < 5,
        ensures
            final(self).wf(),
            final(self).speed == old(self).speed,
            normal ==> final(self).direction == spec_reflect(old(self).direction, collision),
            !normal ==> final(self).direction == (Vec2 {
                x: (-old(self).direction.x) as i64,
                y: spec_spin_y(spin as int),
            }),
    {
        if normal {
            self.reflect_normal(collision);
        } else {
            let y = if spin <= 1 {
                -FX_ONE
            } else if spin == 2 {
                0
            } else {
                FX_ONE
            };
            self.direction = Vec2 { x: -self.direction.x, y };
        }
    }

    /// Respond to hitting a paddle: with seven chances in ten the guarded
    /// reflection, else a spin. Whatever was drawn, the speed scalar is
    /// kept, the horizontal component keeps its magnitude, and the vertical
    /// component keeps its magnitude or becomes a whole-unit deflection or
    /// zero.
    pub fn collide_paddle(&mut self, collision: Collision)
        requires
            old(self).wf(),
        ensures
            final(self).wf(),
            final(self).speed == old(self).speed,
            final(self).direction.x == old(self).direction.x
                || final(self).direction.x == -old(self).direction.x,
            final(self).direction.y == old(self).direction.y
                || final(self).direction.y == -old(self).direction.y
                || final(self).direction.y == -FX_ONE
                || final(self).direction.y == 0
                || final(self).direction.y == FX_ONE,
            final(self).direction == spec_reflect(old(self).direction, collision)
                || (final(self).direction.x == -old(self).direction.x
                    && (final(self).direction.y == -FX_ONE
                        || final(self).direction.y == 0
                        || final(self).direction.y == FX_ONE)),
    {
        let normal_reflection = rand_chance(7, 10);
        if normal_reflection {
            self.collide_paddle_outcome(collision, true, 0);
        } else {
            let spin = rand_below(5);
            self.collide_paddle_outcome(collision, false, spin as u8);
        }
    }
}

/// A guarded reflection is idempotent: once an edge's answer has turned the
/// ball away from it, answering the same edge again changes nothing, even
/// while the overlap persists into later ticks.
pub proof fn lemma_reflect_idempotent(dir: Vec2, collision: Collision)
    requires
        -FX_ONE <= dir.x <= FX_ONE,
        -FX_ONE <= dir.y <= FX_ONE,
    ensures
        spec_reflect(spec_reflect(dir, collision), collision) == spec_reflect(dir, collision),
{
}

/// A guarded reflection preserves the squared magnitude of the direction
/// vector: sign flips do not change a ball's effective speed.
pub proof fn lemma_reflect_preserves_magnitude(dir: Vec2, collision: Collision)
    requires
        -FX_ONE <= dir.x <= FX_ONE,
        -FX_ONE <= dir.y <= FX_ONE,
    ensures
        spec_mag2(spec_reflect(dir, collision)) == spec_mag2(dir),
{
    assert((-dir.x) as int * ((-dir.x) as int) == dir.x * dir.x) by (nonlinear_arith)
        requires
            -FX_ONE <= dir.x <= FX_ONE,
    ;
    assert((-dir.y) as int * ((-dir.y) as int) == dir.y * dir.y) by (nonlinear_arith)
        requires
            -FX_ONE <= dir.y <= FX_ONE,
    ;
}

} // verus!

//! The simulation world and its per-tick systems.
//!
//! The world is an explicit arena: every ball, paddle and wall carries its
//! own center position and bounding size. Each tick, in this order, paddles
//! move from input, balls move from their stored direction and speed, every
//! ball answers every overlapping wall, and every ball answers every
//! overlapping paddle. Simultaneous overlaps are each applied independently
//! in collider order, as the reflection policy's guard expects.

use vstd::prelude::*;

use crate::ball::{spec_reflect, Ball, SPEED_LIMIT};
use crate::collision::{collide, spec_collide, Collision, COORD_LIMIT};
use crate::direction::Vec2;
use crate::fixed::{
    fx_mul,
    fx_mul_spec,
    lemma_fx_mul_one,
    lemma_fx_mul_neg,
    lemma_fx_mul_spec_bound,
    FX_ONE,
};
use crate::input::InputState;
use crate::paddle::Paddle;

verus! {

/// Largest position magnitude a well-formed entity may sit at.
pub const POS_LIMIT: i64 = 1_000_000_000_000_000;

/// Largest bounding size a well-formed entity may have.
pub const SIZE_LIMIT: i64 = 1_000_000_000_000_000;

/// Longest elapsed time one tick may cover: ten seconds.
pub const DT_LIMIT: i64 = 10_000_000;

/// A ball together with its place in the world.
#[derive(Clone, Copy, Debug, PartialEq, Eq, Structural)]
pub struct BallEntity {
    pub ball: Ball,
    pub pos: Vec2,
    pub size: Vec2,
}

/// A paddle together with its place in the world.
#[derive(Clone, Copy, Debug, PartialEq, Eq, Structural)]
pub struct PaddleEntity {
    pub paddle: Paddle,
    pub pos: Vec2,
    pub size: Vec2,
}

/// A wall collider: a stationary rectangle.
#[derive(Clone, Copy, Debug, PartialEq, Eq, Structural)]
pub struct Obstacle {
    pub pos: Vec2,
    pub size: Vec2,
}

/// A position within the well-formed bound and a positive bounded size.
pub open spec fn geom_wf(pos: Vec2, size: Vec2) -> bool {
    &&& -POS_LIMIT <= pos.x <= POS_LIMIT
    &&& -POS_LIMIT <= pos.y <= POS_LIMIT
    &&& 0 < size.x <= SIZE_LIMIT
    &&& 0 < size.y <= SIZE_LIMIT
}

/// A rectangle the collision detector accepts: the well-formed bound plus
/// the headroom one tick's movement can use up.
pub open spec fn geom_ok(pos: Vec2, size: Vec2) -> bool {
    &&& -COORD_LIMIT <= pos.x <= COORD_LIMIT
    &&& -COORD_LIMIT <= pos.y <= COORD_LIMIT
    &&& 0 < size.x <= COORD_LIMIT
    &&& 0 < size.y <= COORD_LIMIT
}

/// The world: every entity the simulation tick touches.
pub struct World {
    pub balls: Vec<BallEntity>,
    pub paddles: Vec<PaddleEntity>,
    pub walls: Vec<Obstacle>,
}

impl World {
    /// Every ball carries a well-formed direction and speed and sits on a
    /// well-formed rectangle.
    pub open spec fn balls_wf(self) -> bool {
        forall|i: int|
            0 <= i < self.balls@.len() ==> {
                &&& (#[trigger] self.balls@[i]).ball.wf()
                &&& geom_wf(self.balls@[i].pos, self.balls@[i].size)
            }
    }

    /// Every paddle carries a well-formed speed and sits on a well-formed
    /// rectangle.
    pub open spec fn paddles_wf(self) -> bool {
        forall|i: int|
            0 <= i < self.paddles@.len() ==> {
                &&& (#[trigger] self.paddles@[i]).paddle.wf()
                &&& geom_wf(self.paddles@[i].pos, self.paddles@[i].size)
            }
    }

    /// Every wall is a well-formed rectangle.
    pub open spec fn walls_wf(self) -> bool {
        forall|i: int|
            0 <= i < self.walls@.len() ==> geom_wf(
                (#[trigger] self.walls@[i]).pos,
                self.walls@[i].size,
            )
    }

    /// Every entity is well-formed: balls and paddles carry bounded state,
    /// and every rectangle has a positive size and a bounded position.
    pub open spec fn wf(self) -> bool {
        self.balls_wf() && self.paddles_wf() && self.walls_wf()
    }
}

/// Where a movement step ends: the position advanced by direction times
/// speed times elapsed time, with each product rescaled and truncated.
pub open spec fn spec_step(pos: int, dir_c: int, speed: int, dt: int) -> int {
    pos + fx_mul_spec(fx_mul_spec(speed, dir_c), dt)
}

/// One ball entity after a movement step over `dt`: the ball itself and the
/// bounding size are kept, the position advances on both axes.
pub open spec fn spec_ball_moved(e0: BallEntity, e1: BallEntity, dt: int) -> bool {
    &&& e1.ball == e0.ball
    &&& e1.size == e0.size
    &&& e1.pos.x == spec_step(e0.pos.x as int, e0.ball.direction.x as int, e0.ball.speed as int, dt)
    &&& e1.pos.y == spec_step(e0.pos.y as int, e0.ball.direction.y as int, e0.ball.speed as int, dt)
}

/// Advance every ball's position by its velocity times the elapsed time.
#[verifier::loop_isolation(false)]
pub fn ball_movement(world: &mut World, dt: i64)
    requires
        old(world).balls_wf(),
        0 <= dt <= DT_LIMIT,
    ensures
        final(world).balls@.len() == old(world).balls@.len(),
        forall|i: int|
            0 <= i < old(world).balls@.len() ==> spec_ball_moved(
                old(world).balls@[i],
                #[trigger] final(world).balls@[i],
                dt as int,
            ),
        forall|i: int|
            0 <= i < old(world).balls@.len() ==> geom_ok(
                (#[trigger] final(world).balls@[i]).pos,
                final(world).balls@[i].size,
            ),
        final(world).paddles == old(world).paddles,
        final(world).walls == old(world).walls,
{
    let n = world.balls.len();
    let mut i: usize = 0;
    while i < n
        invariant
            n == world.balls@.len(),
            0 <= i <= n,
            world.paddles == old(world).paddles,
            world.walls == old(world).walls,
            forall|j: int| i <= j < n ==> world.balls@[j] == old(world).balls@[j],
            forall|j: int|
                0 <= j < i ==> spec_ball_moved(
                    old(world).balls@[j],
                    #[trigger] world.balls@[j],
                    dt as int,
                ),
            forall|j: int|
                0 <= j < i ==> geom_ok(
                    (#[trigger] world.balls@[j]).pos,
                    world.balls@[j].size,
                ),
        decreases n - i,
    {
        let mut e = world.balls[i];
        proof {
            lemma_fx_mul_spec_bound(
                e.ball.speed as int,
                e.ball.direction.x as int,
                SPEED_LIMIT as int,
                FX_ONE as int,
            );
            lemma_fx_mul_spec_bound(
                e.ball.speed as int,
                e.ball.direction.y as int,
                SPEED_LIMIT as int,
                FX_ONE as int,
            );
        }
        let vx = fx_mul(e.ball.speed, e.ball.direction.x);
        let vy = fx_mul(e.ball.speed, e.ball.direction.y);
        proof {
            lemma_fx_mul_spec_bound(vx as int, dt as int, SPEED_LIMIT as int, DT_LIMIT as int);
            lemma_fx_mul_spec_bound(vy as int, dt as int, SPEED_LIMIT as int, DT_LIMIT as int);
        }
        let dx = fx_mul(vx, dt);
        let dy = fx_mul(vy, dt);
        e.pos.x = e.pos.x + dx;
        e.pos.y = e.pos.y + dy;
        world.balls[i] = e;
        i = i + 1;
    }
}

/// A ball after answering one wall: the guarded reflection when the ball's
/// rectangle overlaps the wall's, else unchanged.
pub open spec fn spec_wall_step(b: Ball, pos: Vec2, size: Vec2, wall: Obstacle) -> Ball {
    match spec_collide(pos, size, wall.pos, wall.size) {
        Some(c) => Ball { direction: spec_reflect(b.direction, c), speed: b.speed },
        None => b,
    }
}

/// A ball after answering every wall in order, each overlap applied
/// independently: near a corner two walls may both reflect the ball in one
/// tick, and the guard in the reflection keeps the second answer from
/// undoing the first.
pub open spec fn spec_wall_pass(b: Ball, pos: Vec2, size: Vec2, walls: Seq<Obstacle>) -> Ball
    decreases walls.len(),
{
    if walls.len() == 0 {
        b
    } else {
        spec_wall_pass(spec_wall_step(b, pos, size, walls[0]), pos, size, walls.drop_first())
    }
}

/// Answering walls never changes the speed scalar, keeps the direction
/// well-formed, and at most flips the sign of each direction component.
pub proof fn lemma_wall_pass_preserves(b: Ball, pos: Vec2, size: Vec2, walls: Seq<Obstacle>)
    requires
        b.wf(),
    ensures
        spec_wall_pass(b, pos, size, walls).speed == b.speed,
        spec_wall_pass(b, pos, size, walls).wf(),
        spec_wall_pass(b, pos, size, walls).direction.x == b.direction.x || spec_wall_pass(
            b,
            pos,
            size,
            walls,
        ).direction.x == -b.direction.x,
        spec_wall_pass(b, pos, size, walls).direction.y == b.direction.y || spec_wall_pass(
            b,
            pos,
            size,
            walls,
        ).direction.y == -b.direction.y,
    decreases walls.len(),
{
    if walls.len() > 0 {
        lemma_wall_pass_preserves(spec_wall_step(b, pos, size, walls[0]), pos, size,
            walls.drop_first());
    }
}

/// Run every ball against every wall collider and apply the guarded wall
/// reflection on each overlap, in collider order.
#[verifier::loop_isolation(false)]
pub fn ball_wall_collision(world: &mut World)
    requires
        forall|i: int|
            0 <= i < old(world).balls@.len() ==> {
                &&& (#[trigger] old(world).balls@[i]).ball.wf()
                &&& geom_ok(old(world).balls@[i].pos, old(world).balls@[i].size)
            },
        forall|i: int|
            0 <= i < old(world).walls@.len() ==> geom_ok(
                (#[trigger] old(world).walls@[i]).pos,
                old(world).walls@[i].size,
            ),
    ensures
        final(world).balls@.len() == old(world).balls@.len(),
        forall|i: int|
            0 <= i < old(world).balls@.len() ==> {
                &&& (#[trigger] final(world).balls@[i]).pos == old(world).balls@[i].pos
                &&& final(world).balls@[i].size == old(world).balls@[i].size
                &&& final(world).balls@[i].ball == spec_wall_pass(
                    old(world).balls@[i].ball,
                    old(world).balls@[i].pos,
                    old(world).balls@[i].size,
                    old(world).walls@,
                )
                &&& final(world).balls@[i].ball.wf()
            },
        final(world).paddles == old(world).paddles,
        final(world).walls == old(world).walls,
{
    let nb = world.balls.len();
    let mut i: usize = 0;
    while i < nb
        invariant
            nb == world.balls@.len(),
            0 <= i <= nb,
            world.paddles == old(world).paddles,
            world.walls == old(world).walls,
            forall|j: int| i <= j < nb ==> world.balls@[j] == old(world).balls@[j],
            forall|j: int|
                0 <= j < i ==> {
                    &&& (#[trigger] world.balls@[j]).pos == old(world).balls@[j].pos
                    &&& world.balls@[j].size == old(world).balls@[j].size
                    &&& world.balls@[j].ball == spec_wall_pass(
                        old(world).balls@[j].ball,
                        old(world).balls@[j].pos,
                        old(world).balls@[j].size,
                        old(world).walls@,
                    )
                    &&& world.balls@[j].ball.wf()
                },
        decreases nb - i,
    {
        let pos = world.balls[i].pos;
        let size = world.balls[i].size;
        let mut b = world.balls[i].ball;
        let nw = world.walls.len();
        let mut j: usize = 0;
        proof {
            assert(old(world).walls@.skip(0) =~= old(world).walls@);
        }
        while j < nw
            invariant
                nw == world.walls@.len(),
                0 <= j <= nw,
                i < nb,
                b.wf(),
                spec_wall_pass(b, pos, size, old(world).walls@.skip(j as int)) == spec_wall_pass(
                    old(world).balls@[i as int].ball,
                    pos,
                    size,
                    old(world).walls@,
                ),
            decreases nw - j,
        {
            let wall = world.walls[j];
            let ghost b_before = b;
            if let Some(c) = collide(pos, size, wall.pos, wall.size) {
                b.collide_wall(c);
            }
            proof {
                let s = old(world).walls@;
                assert(b == spec_wall_step(b_before, pos, size, s[j as int]));
                assert(s.skip(j as int)[0] == s[j as int]);
                assert(s.skip(j as int).drop_first() =~= s.skip(j as int + 1));
            }
            j = j + 1;
        }
        proof {
            assert(old(world).walls@.skip(nw as int).len() == 0);
        }
        let mut e = world.balls[i];
        e.ball = b;
        world.balls[i] = e;
        i = i + 1;
    }
}

/// What one or more paddle answers leave of a ball's direction: each
/// horizontal component keeps its magnitude, and the vertical component
/// keeps its magnitude or was redrawn as a whole-unit deflection or zero.
pub open spec fn spec_paddle_outcome(dir0: Vec2, dir1: Vec2) -> bool {
    &&& dir1.x == dir0.x || dir1.x == -dir0.x
    &&& dir1.y == dir0.y || dir1.y == -dir0.y || dir1.y == -FX_ONE || dir1.y == 0 || dir1.y
        == FX_ONE
}

/// How one paddle relates a ball before its answer to the ball after it:
/// where the ball's rectangle overlaps the paddle's, the speed is kept and
/// the direction is the guarded reflection of the struck edge or a spin
/// (horizontal flipped, vertical a whole-unit deflection or zero); where
/// they do not overlap, the ball is exactly unchanged.
pub open spec fn spec_paddle_step_ok(
    b0: Ball,
    b1: Ball,
    pos: Vec2,
    size: Vec2,
    p: PaddleEntity,
) -> bool {
    match spec_collide(pos, size, p.pos, p.size) {
        Some(c) => b1.speed == b0.speed && (b1.direction == spec_reflect(b0.direction, c) || (
        b1.direction.x == -b0.direction.x && (b1.direction.y == -FX_ONE || b1.direction.y == 0
            || b1.direction.y == FX_ONE))),
        None => b1 == b0,
    }
}

/// The paddle pass as a relation: the ball answered each paddle of the list
/// in order, through some chain of intermediate states each linked to the
/// next by [`spec_paddle_step_ok`]. Which admissible answer each overlap
/// drew is random; that the response was applied exactly to the overlapping
/// pairs, in collider order, is not.
pub open spec fn spec_paddle_pass_ok(
    b0: Ball,
    b1: Ball,
    pos: Vec2,
    size: Vec2,
    paddles: Seq<PaddleEntity>,
) -> bool
    decreases paddles.len(),
{
    if paddles.len() == 0 {
        b1 == b0
    } else {
        exists|m: Ball|
            #[trigger] spec_paddle_step_ok(b0, m, pos, size, paddles[0])
                && spec_paddle_pass_ok(m, b1, pos, size, paddles.drop_first())
    }
}

/// Extending a chained paddle pass by one more answered paddle.
proof fn lemma_paddle_pass_extend(
    b0: Ball,
    m: Ball,
    b1: Ball,
    pos: Vec2,
    size: Vec2,
    s: Seq<PaddleEntity>,
    j: int,
)
    requires
        0 <= j < s.len(),
        spec_paddle_pass_ok(b0, m, pos, size, s.take(j)),
        spec_paddle_step_ok(m, b1, pos, size, s[j]),
    ensures
        spec_paddle_pass_ok(b0, b1, pos, size, s.take(j + 1)),
    decreases j,
{
    if j == 0 {
        assert(s.take(0).len() == 0);
        assert(m == b0);
        assert(s.take(1)[0] == s[0]);
        assert(s.take(1).drop_first() =~= s.take(0));
        assert(spec_paddle_step_ok(b0, b1, pos, size, s.take(1)[0]));
        assert(spec_paddle_pass_ok(b1, b1, pos, size, s.take(1).drop_first()));
    } else {
        let t = s.take(j);
        assert(t.len() == j);
        assert(t[0] == s[0]);
        let mid = choose|mm: Ball|
            #[trigger] spec_paddle_step_ok(b0, mm, pos, size, t[0]) && spec_paddle_pass_ok(
                mm,
                m,
                pos,
                size,
                t.drop_first(),
            );
        assert(t.drop_first() =~= s.drop_first().take(j - 1));
        assert(s.drop_first()[j - 1] == s[j]);
        lemma_paddle_pass_extend(mid, m, b1, pos, size, s.drop_first(), j - 1);
        assert(s.take(j + 1)[0] == s[0]);
        assert(s.take(j + 1).drop_first() =~= s.drop_first().take(j));
        assert(spec_paddle_step_ok(b0, mid, pos, size, s.take(j + 1)[0]));
        assert(spec_paddle_pass_ok(mid, b1, pos, size, s.take(j + 1).drop_first()));
    }
}

/// A ball whose rectangle overlaps no paddle of the list comes out of the
/// paddle pass exactly unchanged: no response is applied to a
/// non-overlapping pair.
pub proof fn lemma_paddle_pass_clear(
    b0: Ball,
    b1: Ball,
    pos: Vec2,
    size: Vec2,
    paddles: Seq<PaddleEntity>,
)
    requires
        spec_paddle_pass_ok(b0, b1, pos, size, paddles),
        forall|k: int|
            0 <= k < paddles.len() ==> spec_collide(
                pos,
                size,
                (#[trigger] paddles[k]).pos,
                paddles[k].size,
            ) is None,
    ensures
        b1 == b0,
    decreases paddles.len(),
{
    if paddles.len() > 0 {
        let mid = choose|mm: Ball|
            #[trigger] spec_paddle_step_ok(b0, mm, pos, size, paddles[0]) && spec_paddle_pass_ok(
                mm,
                b1,
                pos,
                size,
                paddles.drop_first(),
            );
        assert(spec_collide(pos, size, paddles[0].pos, paddles[0].size) is None);
        assert(mid == b0);
        assert forall|k: int| 0 <= k < paddles.drop_first().len() implies spec_collide(
            pos,
            size,
            (#[trigger] paddles.drop_first()[k]).pos,
            paddles.drop_first()[k].size,
        ) is None by {
            assert(paddles.drop_first()[k] == paddles[k + 1]);
        }
        lemma_paddle_pass_clear(mid, b1, pos, size, paddles.drop_first());
    }
}

/// Run every ball against every paddle collider and apply the paddle
/// response on each overlap, in collider order. Which response was drawn is
/// random; whatever came back, the chain of answers relates each old ball
/// to its final ball ([`spec_paddle_pass_ok`]): overlapping pairs got an
/// admissible answer in order, non-overlapping pairs changed nothing, speed
/// scalars are kept, and the direction stays within the paddle outcome
/// envelope.
#[verifier::loop_isolation(false)]
pub fn ball_paddle_collision(world: &mut World)
    requires
        forall|i: int|
            0 <= i < old(world).balls@.len() ==> {
                &&& (#[trigger] old(world).balls@[i]).ball.wf()
                &&& geom_ok(old(world).balls@[i].pos, old(world).balls@[i].size)
            },
        forall|i: int|
            0 <= i < old(world).paddles@.len() ==> geom_ok(
                (#[trigger] old(world).paddles@[i]).pos,
                old(world).paddles@[i].size,
            ),
    ensures
        final(world).balls@.len() == old(world).balls@.len(),
        forall|i: int|
            0 <= i < old(world).balls@.len() ==> {
                &&& (#[trigger] final(world).balls@[i]).pos == old(world).balls@[i].pos
                &&& final(world).balls@[i].size == old(world).balls@[i].size
                &&& final(world).balls@[i].ball.speed == old(world).balls@[i].ball.speed
                &&& final(world).balls@[i].ball.wf()
                &&& spec_paddle_outcome(
                    old(world).balls@[i].ball.direction,
                    final(world).balls@[i].ball.direction,
                )
                &&& spec_paddle_pass_ok(
                    old(world).balls@[i].ball,
                    final(world).balls@[i].ball,
                    old(world).balls@[i].pos,
                    old(world).balls@[i].size,
                    old(world).paddles@,
                )
            },
        final(world).paddles == old(world).paddles,
        final(world).walls == old(world).walls,
{
    let nb = world.balls.len();
    let mut i: usize = 0;
    while i < nb
        invariant
            nb == world.balls@.len(),
            0 <= i <= nb,
            world.paddles == old(world).paddles,
            world.walls == old(world).walls,
            forall|j: int| i <= j < nb ==> world.balls@[j] == old(world).balls@[j],
            forall|j: int|
                0 <= j < i ==> {
                    &&& (#[trigger] world.balls@[j]).pos == old(world).balls@[j].pos
                    &&& world.balls@[j].size == old(world).balls@[j].size
                    &&& world.balls@[j].ball.speed == old(world).balls@[j].ball.speed
                    &&& world.balls@[j].ball.wf()
                    &&& spec_paddle_outcome(
                        old(world).balls@[j].ball.direction,
                        world.balls@[j].ball.direction,
                    )
                    &&& spec_paddle_pass_ok(
                        old(world).balls@[j].ball,
                        world.balls@[j].ball,
                        old(world).balls@[j].pos,
                        old(world).balls@[j].size,
                        old(world).paddles@,
                    )
                },
        decreases nb - i,
    {
        let pos = world.balls[i].pos;
        let size = world.balls[i].size;
        let mut b = world.balls[i].ball;
        let np = world.paddles.len();
        let mut j: usize = 0;
        proof {
            assert(old(world).paddles@.take(0).len() == 0);
        }
        while j < np
            invariant
                np == world.paddles@.len(),
                0 <= j <= np,
                i < nb,
                b.wf(),
                b.speed == old(world).balls@[i as int].ball.speed,
                spec_paddle_outcome(old(world).balls@[i as int].ball.direction, b.direction),
                spec_paddle_pass_ok(
                    old(world).balls@[i as int].ball,
                    b,
                    pos,
                    size,
                    old(world).paddles@.take(j as int),
                ),
            decreases np - j,
        {
            let paddle = world.paddles[j];
            let ghost b_before = b;
            if let Some(c) = collide(pos, size, paddle.pos, paddle.size) {
                b.collide_paddle(c);
            }
            proof {
                let s = old(world).paddles@;
                assert(spec_paddle_step_ok(b_before, b, pos, size, s[j as int]));
                lemma_paddle_pass_extend(
                    old(world).balls@[i as int].ball,
                    b_before,
                    b,
                    pos,
                    size,
                    s,
                    j as int,
                );
            }
            j = j + 1;
        }
        proof {
            assert(old(world).paddles@.take(np as int) =~= old(world).paddles@);
        }
        let mut e = world.balls[i];
        e.ball = b;
        world.balls[i] = e;
        i = i + 1;
    }
}

/// Move every paddle from the pressed state of its two bound keys: a held
/// up key translates it by the up vector times speed times elapsed time,
/// and a held down key likewise; both keys held cancel out.
#[verifier::loop_isolation(false)]
pub fn paddle_movement(world: &mut World, input: &InputState, dt: i64)
    requires
        old(world).paddles_wf(),
        0 <= dt <= DT_LIMIT,
    ensures
        final(world).paddles@.len() == old(world).paddles@.len(),
        forall|i: int|
            0 <= i < old(world).paddles@.len() ==> {
                &&& (#[trigger] final(world).paddles@[i]).paddle == old(world).paddles@[i].paddle
                &&& final(world).paddles@[i].size == old(world).paddles@[i].size
                &&& final(world).paddles@[i].pos.x == old(world).paddles@[i].pos.x
                &&& final(world).paddles@[i].pos.y == old(world).paddles@[i].pos.y + (
                if input.spec_pressed(old(world).paddles@[i].paddle.player.move_up) {
                    fx_mul_spec(old(world).paddles@[i].paddle.speed as int, dt as int)
                } else {
                    0
                }) - (
                if input.spec_pressed(old(world).paddles@[i].paddle.player.move_down) {
                    fx_mul_spec(old(world).paddles@[i].paddle.speed as int, dt as int)
                } else {
                    0
                })
                &&& geom_ok(final(world).paddles@[i].pos, final(world).paddles@[i].size)
            },
        final(world).balls == old(world).balls,
        final(world).walls == old(world).walls,
{
    let n = world.paddles.len();
    let mut i: usize = 0;
    while i < n
        invariant
            n == world.paddles@.len(),
            0 <= i <= n,
            world.balls == old(world).balls,
            world.walls == old(world).walls,
            forall|j: int| i <= j < n ==> world.paddles@[j] == old(world).paddles@[j],
            forall|j: int|
                0 <= j < i ==> {
                    &&& (#[trigger] world.paddles@[j]).paddle == old(world).paddles@[j].paddle
                    &&& world.paddles@[j].size == old(world).paddles@[j].size
                    &&& world.paddles@[j].pos.x == old(world).paddles@[j].pos.x
                    &&& world.paddles@[j].pos.y == old(world).paddles@[j].pos.y + (
                    if input.spec_pressed(old(world).paddles@[j].paddle.player.move_up) {
                        fx_mul_spec(old(world).paddles@[j].paddle.speed as int, dt as int)
                    } else {
                        0
                    }) - (
                    if input.spec_pressed(old(world).paddles@[j].paddle.player.move_down) {
                        fx_mul_spec(old(world).paddles@[j].paddle.speed as int, dt as int)
                    } else {
                        0
                    })
                    &&& geom_ok(world.paddles@[j].pos, world.paddles@[j].size)
                },
        decreases n - i,
    {
        let mut e = world.paddles[i];
        proof {
            lemma_fx_mul_one(e.paddle.speed as int);
            lemma_fx_mul_neg(e.paddle.speed as int, dt as int);
            lemma_fx_mul_spec_bound(e.paddle.speed as int, dt as int, SPEED_LIMIT as int,
                DT_LIMIT as int);
        }
        if input.pressed(e.paddle.player.move_up) {
            let v = crate::direction::Direction::Up.to_vector();
            let vx = fx_mul(e.paddle.speed, v.x);
            let vy = fx_mul(e.paddle.speed, v.y);
            let dx = fx_mul(vx, dt);
            let dy = fx_mul(vy, dt);
            e.pos.x = e.pos.x + dx;
            e.pos.y = e.pos.y + dy;
        }
        if input.pressed(e.paddle.player.move_down) {
            let v = crate::direction::Direction::Down.to_vector();
            let vx = fx_mul(e.paddle.speed, v.x);
            let vy = fx_mul(e.paddle.speed, v.y);
            let dx = fx_mul(vx, dt);
            let dy = fx_mul(vy, dt);
            e.pos.x = e.pos.x + dx;
            e.pos.y = e.pos.y + dy;
        }
        world.paddles[i] = e;
        i = i + 1;
    }
}

/// Advance the whole world by one tick: paddles move from input, balls move
/// from their stored velocity, then every ball answers the walls and the
/// paddles it overlaps. Positions advance by exactly one movement step; a
/// ball's new state is its wall answer (exactly), carried through the
/// paddle pass as a chain of per-paddle answers ([`spec_paddle_pass_ok`]):
/// in particular a ball that overlaps no paddle keeps its wall answer
/// unchanged.
pub fn tick(world: &mut World, input: &InputState, dt: i64)
    requires
        old(world).wf(),
        0 <= dt <= DT_LIMIT,
    ensures
        final(world).walls == old(world).walls,
        final(world).paddles@.len() == old(world).paddles@.len(),
        forall|i: int|
            0 <= i < old(world).paddles@.len() ==> {
                &&& (#[trigger] final(world).paddles@[i]).paddle == old(world).paddles@[i].paddle
                &&& final(world).paddles@[i].size == old(world).paddles@[i].size
                &&& final(world).paddles@[i].pos.x == old(world).paddles@[i].pos.x
                &&& final(world).paddles@[i].pos.y == old(world).paddles@[i].pos.y + (
                if input.spec_pressed(old(world).paddles@[i].paddle.player.move_up) {
                    fx_mul_spec(old(world).paddles@[i].paddle.speed as int, dt as int)
                } else {
                    0
                }) - (
                if input.spec_pressed(old(world).paddles@[i].paddle.player.move_down) {
                    fx_mul_spec(old(world).paddles@[i].paddle.speed as int, dt as int)
                } else {
                    0
                })
            },
        final(world).balls@.len() == old(world).balls@.len(),
        forall|i: int|
            0 <= i < old(world).balls@.len() ==> {
                &&& (#[trigger] final(world).balls@[i]).size == old(world).balls@[i].size
                &&& final(world).balls@[i].pos.x == spec_step(
                    old(world).balls@[i].pos.x as int,
                    old(world).balls@[i].ball.direction.x as int,
                    old(world).balls@[i].ball.speed as int,
                    dt as int,
                )
                &&& final(world).balls@[i].pos.y == spec_step(
                    old(world).balls@[i].pos.y as int,
                    old(world).balls@[i].ball.direction.y as int,
                    old(world).balls@[i].ball.speed as int,
                    dt as int,
                )
                &&& final(world).balls@[i].ball.speed == old(world).balls@[i].ball.speed
                &&& final(world).balls@[i].ball.wf()
                &&& spec_paddle_outcome(
                    spec_wall_pass(
                        old(world).balls@[i].ball,
                        final(world).balls@[i].pos,
                        old(world).balls@[i].size,
                        old(world).walls@,
                    ).direction,
                    final(world).balls@[i].ball.direction,
                )
                &&& spec_paddle_pass_ok(
                    spec_wall_pass(
                        old(world).balls@[i].ball,
                        final(world).balls@[i].pos,
                        old(world).balls@[i].size,
                        old(world).walls@,
                    ),
                    final(world).balls@[i].ball,
                    final(world).balls@[i].pos,
                    old(world).balls@[i].size,
                    final(world).paddles@,
                )
            },
{
    paddle_movement(world, input, dt);
    ball_movement(world, dt);
    let ghost w2 = *world;
    proof {
        assert forall|i: int| 0 <= i < w2.balls@.len() implies (#[trigger] w2.balls@[i]).ball.wf()
            && geom_ok(w2.balls@[i].pos, w2.balls@[i].size) by {
            assert(spec_ball_moved(old(world).balls@[i], w2.balls@[i], dt as int));
        }
    }
    ball_wall_collision(world);
    let ghost w3 = *world;
    ball_paddle_collision(world);
    proof {
        assert forall|i: int| 0 <= i < old(world).balls@.len() implies {
            &&& (#[trigger] world.balls@[i]).ball.speed == old(world).balls@[i].ball.speed
            &&& spec_paddle_outcome(
                spec_wall_pass(
                    old(world).balls@[i].ball,
                    world.balls@[i].pos,
                    old(world).balls@[i].size,
                    old(world).walls@,
                ).direction,
                world.balls@[i].ball.direction,
            )
            &&& spec_paddle_pass_ok(
                spec_wall_pass(
                    old(world).balls@[i].ball,
                    world.balls@[i].pos,
                    old(world).balls@[i].size,
                    old(world).walls@,
                ),
                world.balls@[i].ball,
                world.balls@[i].pos,
                old(world).balls@[i].size,
                world.paddles@,
            )
        } by {
            assert(spec_ball_moved(old(world).balls@[i], w2.balls@[i], dt as int));
            lemma_wall_pass_preserves(
                old(world).balls@[i].ball,
                w2.balls@[i].pos,
                old(world).balls@[i].size,
                old(world).walls@,
            );
            assert(world.balls@[i].pos == w2.balls@[i].pos);
            assert(w3.balls@[i].ball == spec_wall_pass(
                old(world).balls@[i].ball,
                w2.balls@[i].pos,
                old(world).balls@[i].size,
                old(world).walls@,
            ));
            assert(spec_paddle_pass_ok(
                w3.balls@[i].ball,
                world.balls@[i].ball,
                w3.balls@[i].pos,
                w3.balls@[i].size,
                w3.paddles@,
            ));
            assert(w3.paddles@ == world.paddles@);
            assert(w3.balls@[i].pos == world.balls@[i].pos);
            assert(w3.balls@[i].size == old(world).balls@[i].size);
        }
    }
}

} // verus!

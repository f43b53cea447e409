//! The paddle: a player binding and a movement speed.
//!
//! A paddle stores no direction; its movement is computed fresh each tick
//! from the pressed state of its two bound keys (see
//! [`crate::world::paddle_movement`]).

use vstd::prelude::*;

use crate::ball::SPEED_LIMIT;
use crate::player::Player;

verus! {

/// A paddle: who steers it, and how fast it moves while a key is held.
#[derive(Clone, Copy, Debug, PartialEq, Eq, Structural)]
pub struct Paddle {
    pub player: Player,
    pub speed: i64,
}

impl Paddle {
    /// A paddle's speed is a bounded non-negative scalar.
    pub open spec fn wf(self) -> bool {
        0 <= self.speed <= SPEED_LIMIT
    }
}

} // verus!

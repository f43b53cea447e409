//! Players and their key bindings.
//!
//! A key is carried as a plain identifier; the host layer maps the physical
//! key codes of its input device onto these identifiers.

use vstd::prelude::*;

verus! {

/// The key the first player moves up with.
pub const KEY_W: u32 = 1;

/// The key the first player moves down with.
pub const KEY_S: u32 = 2;

/// The key the second player moves up with.
pub const KEY_UP: u32 = 3;

/// The key the second player moves down with.
pub const KEY_DOWN: u32 = 4;

/// Which of the two players a paddle belongs to.
#[derive(Clone, Copy, Debug, PartialEq, Eq, Structural)]
pub enum PlayerCode {
    One,
    Two,
}

/// A player: a code and the two keys bound to paddle movement.
#[derive(Clone, Copy, Debug, PartialEq, Eq, Structural)]
pub struct Player {
    pub code: PlayerCode,
    pub move_up: u32,
    pub move_down: u32,
}

} // verus!

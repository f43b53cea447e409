//! Simulation core of a two-player Pong-style game: ball motion, paddle
//! motion, and collision-driven direction changes.
//!
//! All geometry is carried in a fixed-point scale (see [`fixed::FX_ONE`]):
//! positions, sizes, speeds and elapsed seconds are `i64` counts of
//! millionths of a unit. The host layer (rendering, input devices, the
//! frame clock) converts to and from this scale at the boundary.

pub mod ball;
pub mod collision;
pub mod direction;
pub mod fixed;
pub mod game;
pub mod input;
pub mod paddle;
pub mod player;
pub mod world;
mod rng;

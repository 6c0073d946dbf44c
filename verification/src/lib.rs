//! The rules of a small platform game, verified with Verus.
//!
//! A character runs and jumps through a fixed level, lands on platforms and
//! picks up bombs. The crate holds the simulation only: one tick of physics
//! and collection per accepted update, the key state that drives it, and the
//! list of sprites to draw afterwards. Windowing and the GPU live elsewhere.
//!
//! World lengths are fixed-point integers, [`shapes::UNIT`] steps to one world
//! unit, so every rule is exact integer arithmetic.

pub mod clock;
pub mod game;
pub mod input;
pub mod shapes;

//! Plain geometric values shared by the game and by whoever draws it.

use vstd::prelude::*;

verus! {

/// Fixed-point steps in one world unit: a length of 2.5 units is stored as 25.
pub const UNIT: i64 = 10;

/// A point or displacement in the world, in fixed-point steps.
#[derive(Clone, Copy, Debug, PartialEq, Eq, Structural)]
pub struct Vector2 {
    pub x: i64,
    pub y: i64,
}

/// The extent of a box in the world, in fixed-point steps.
#[derive(Clone, Copy, Debug, PartialEq, Eq, Structural)]
pub struct Size {
    pub width: i64,
    pub height: i64,
}

/// The exact fraction `num / den`. Nothing is divided here: whoever needs a
/// floating-point value divides at the very end.
#[derive(Clone, Copy, Debug, PartialEq, Eq, Structural)]
pub struct Ratio {
    pub num: i64,
    pub den: i64,
}

/// A rectangle of a texture atlas in normalised coordinates: `(u0, v0)` is one
/// corner and `(u1, v1)` the opposite one, each a fraction of the atlas width
/// or height.
#[derive(Clone, Copy, Debug, PartialEq, Eq, Structural)]
pub struct UvRect {
    pub u0: Ratio,
    pub v0: Ratio,
    pub u1: Ratio,
    pub v1: Ratio,
}

/// A textured box: where it stands, how large it is, and which part of the
/// atlas covers it.
#[derive(Clone, Copy, Debug, PartialEq, Eq, Structural)]
pub struct Sprite {
    pub position: Vector2,
    pub size: Size,
    pub texture: UvRect,
}

} // verus!

//! Integer 2D vectors and their mathematical model.

use vstd::prelude::*;

verus! {

/// Greatest magnitude a world coordinate handed to the simulation may take.
/// Keeping positions, window sizes and shapes within this bound keeps every
/// intermediate product of the simulation well inside `i64`.
pub const WORLD_MAX: i64 = 1_000_000;

/// Greatest magnitude a velocity component handed to the simulation may
/// take. The game itself only ever uses components in `-1 ..= 1`.
pub const VEL_MAX: i64 = 1_000;

/// Mathematical model of a 2D vector: unbounded integer components.
pub struct V2 {
    pub x: int,
    pub y: int,
}

/// A 2D vector in world space, with integer components.
#[derive(Clone, Copy, PartialEq, Eq, Structural, Debug)]
pub struct Vec2i {
    pub x: i64,
    pub y: i64,
}

impl View for Vec2i {
    type V = V2;

    open spec fn view(&self) -> V2 {
        V2 { x: self.x as int, y: self.y as int }
    }
}

impl Vec2i {
    pub fn new(x: i64, y: i64) -> (r: Vec2i)
        ensures
            r@ == (V2 { x: x as int, y: y as int }),
    {
        Vec2i { x, y }
    }
}

/// Absolute value of a model integer.
pub open spec fn abs_i(x: int) -> int {
    if x < 0 {
        -x
    } else {
        x
    }
}

/// Both components of `v` have magnitude at most `b`.
pub open spec fn within(v: V2, b: int) -> bool {
    abs_i(v.x) <= b && abs_i(v.y) <= b
}

} // verus!

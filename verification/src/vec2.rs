//! Plain fixed-point vectors for layout positions, sizes and pointer
//! coordinates, in millionths of a unit.

use vstd::prelude::*;

verus! {

/// Largest coordinate magnitude the geometry accepts; far beyond any
/// normalized pointer position, it only keeps every intermediate product
/// inside the machine integers.
pub const COORD_LIMIT: i64 = 1_000_000_000_000;

/// A two-component fixed-point vector.
#[derive(Clone, Copy, Debug, PartialEq, Eq, Structural)]
pub struct Vec2 {
    pub x: i64,
    pub y: i64,
}

/// A three-component fixed-point vector; `z` orders draw primitives
/// back-to-front.
#[derive(Clone, Copy, Debug, PartialEq, Eq, Structural)]
pub struct Vec3 {
    pub x: i64,
    pub y: i64,
    pub z: i64,
}

/// Both components within [`COORD_LIMIT`].
pub open spec fn bounded(v: Vec2) -> bool {
    -COORD_LIMIT <= v.x <= COORD_LIMIT && -COORD_LIMIT <= v.y <= COORD_LIMIT
}

/// A two-component vector from its parts.
pub fn vec2(x: i64, y: i64) -> (v: Vec2)
    ensures
        v == (Vec2 { x, y }),
{
    Vec2 { x, y }
}

/// A three-component vector from its parts.
pub fn vec3(x: i64, y: i64, z: i64) -> (v: Vec3)
    ensures
        v == (Vec3 { x, y, z }),
{
    Vec3 { x, y, z }
}

} // verus!

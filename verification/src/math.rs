//! 2D/3D geometry carried as IEEE-754 single-precision bit patterns.
//!
//! The rendering core never performs floating-point arithmetic itself: every
//! coordinate is held as the `u32` bit pattern of its `f32` value, so byte
//! layouts and buffer contents are exact. The driver that owns the
//! floating-point math converts at the boundary with `f32::to_bits` /
//! `f32::from_bits`.

use vstd::prelude::*;

verus! {

/// Bit pattern of the `f32` value `0.0`.
pub const F32_ZERO_BITS: u32 = 0x0000_0000;

/// Bit pattern of the `f32` value `1.0`.
pub const F32_ONE_BITS: u32 = 0x3F80_0000;

/// A 2D point or vector, coordinates as `f32` bit patterns.
#[derive(Clone, Copy, PartialEq, Eq, Structural, Debug)]
pub struct Vec2Bits {
    pub x: u32,
    pub y: u32,
}

/// A 3D point or vector, coordinates as `f32` bit patterns.
#[derive(Clone, Copy, PartialEq, Eq, Structural, Debug)]
pub struct Vec3Bits {
    pub x: u32,
    pub y: u32,
    pub z: u32,
}

/// An axis-aligned rectangle in world units, given by its minimum and
/// maximum corners.
#[derive(Clone, Copy, PartialEq, Eq, Structural, Debug)]
pub struct Rect {
    pub min: Vec2Bits,
    pub max: Vec2Bits,
}

impl Rect {
    /// Builds the rectangle with the given corner coordinates. The driver,
    /// which owns the floating-point arithmetic, derives the maximum corner
    /// from an origin and a width/height before calling in.
    pub fn new(min_x: u32, min_y: u32, max_x: u32, max_y: u32) -> (r: Rect)
        ensures
            r == (Rect {
                min: Vec2Bits { x: min_x, y: min_y },
                max: Vec2Bits { x: max_x, y: max_y },
            }),
    {
        Rect { min: Vec2Bits { x: min_x, y: min_y }, max: Vec2Bits { x: max_x, y: max_y } }
    }
}

} // verus!

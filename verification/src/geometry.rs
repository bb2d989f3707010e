//! Plain geometry values that draw commands carry.
//!
//! The recording layer never computes with coordinates; the engine behind it
//! does.  A coordinate is therefore an opaque 32-bit scalar pattern, captured
//! and replayed bit-for-bit.

use vstd::prelude::*;

verus! {

/// One coordinate or length, as the 32-bit pattern the engine interprets.
#[derive(Clone, Copy, Debug, PartialEq, Eq, Hash, Structural)]
pub struct Scalar {
    pub bits: u32,
}

impl Scalar {
    /// The scalar with the given 32-bit pattern.
    pub fn from_bits(bits: u32) -> (r: Self)
        ensures
            r.bits == bits,
    {
        Scalar { bits }
    }

    /// The all-zero pattern, the engine's zero.
    pub fn zero() -> (r: Self)
        ensures
            r.bits == 0,
    {
        Scalar { bits: 0 }
    }
}

/// A point in the plane.
#[derive(Clone, Copy, Debug, PartialEq, Eq, Structural)]
pub struct Point {
    pub x: Scalar,
    pub y: Scalar,
}

impl Point {
    /// The point with the given coordinates.
    pub fn new(x: Scalar, y: Scalar) -> (r: Self)
        ensures
            r == (Point { x, y }),
    {
        Point { x, y }
    }
}

/// A size in the plane.
#[derive(Clone, Copy, Debug, PartialEq, Eq, Structural)]
pub struct Size {
    pub width: Scalar,
    pub height: Scalar,
}

/// An integer size, as framebuffer extents are reported.
#[derive(Clone, Copy, Debug, PartialEq, Eq, Structural)]
pub struct ISize {
    pub width: i64,
    pub height: i64,
}

impl ISize {
    /// The integer size with the given extents.
    pub fn new(width: i64, height: i64) -> (r: Self)
        ensures
            r == (ISize { width, height }),
    {
        ISize { width, height }
    }
}

/// An axis-aligned rectangle, by origin and extent.
#[derive(Clone, Copy, Debug, PartialEq, Eq, Structural)]
pub struct Rect {
    pub x: Scalar,
    pub y: Scalar,
    pub width: Scalar,
    pub height: Scalar,
}

impl Rect {
    /// The rectangle with the given origin and extent.
    pub fn new(x: Scalar, y: Scalar, width: Scalar, height: Scalar) -> (r: Self)
        ensures
            r == (Rect { x, y, width, height }),
    {
        Rect { x, y, width, height }
    }
}

/// Per-corner radii of a rounded rectangle.
#[derive(Clone, Copy, Debug, PartialEq, Eq, Structural)]
pub struct RoundingRadii {
    pub top_left: Point,
    pub bottom_left: Point,
    pub top_right: Point,
    pub bottom_right: Point,
}

/// A 4x4 transformation matrix, in column-major order as the engine takes it.
#[derive(Clone, Copy, Debug)]
pub struct Matrix {
    pub m: [Scalar; 16],
}

/// A 4x5 color matrix, applied row-major to an RGBA column.
#[derive(Clone, Copy, Debug)]
pub struct ColorMatrix {
    pub m: [Scalar; 20],
}

} // verus!

//! Plain geometric values: vectors, sizes and axis-aligned rectangles.

use vstd::prelude::*;
use crate::units::{clamp, from_pixels, pixels, saturate};

verus! {

/// A pair of horizontal and vertical quantities, in units.
///
/// Positions are the top-left corner of a body; velocities are units per
/// frame.
#[derive(Clone, Copy, Debug, PartialEq, Eq)]
pub struct Vector {
    pub x: i64,
    pub y: i64,
}

impl View for Vector {
    type V = (int, int);

    open spec fn view(&self) -> (int, int) {
        (self.x as int, self.y as int)
    }
}

impl Vector {
    /// The vector with the given components, in units.
    pub fn new(x: i64, y: i64) -> (v: Vector)
        ensures
            v@ == (x as int, y as int),
    {
        Vector { x, y }
    }

    /// The zero vector.
    pub fn zero() -> (v: Vector)
        ensures
            v@ == (0int, 0int),
    {
        Vector { x: 0, y: 0 }
    }

    /// The vector with the given components, in whole pixels.
    pub fn from_pixels(x: i32, y: i32) -> (v: Vector)
        ensures
            v@ == (pixels(x as int), pixels(y as int)),
    {
        Vector { x: from_pixels(x), y: from_pixels(y) }
    }

    /// The component-wise sum, each component clamped to the representable
    /// range.
    pub fn saturating_add(self, other: Vector) -> (v: Vector)
        ensures
            v@ == (saturate(self.x + other.x), saturate(self.y + other.y)),
    {
        Vector {
            x: clamp(self.x as i128 + other.x as i128),
            y: clamp(self.y as i128 + other.y as i128),
        }
    }
}

/// The dimensions of a body's image, in whole pixels.
#[derive(Clone, Copy, Debug, PartialEq, Eq)]
pub struct Size {
    pub width: i32,
    pub height: i32,
}

impl Size {
    /// The size with the given dimensions.
    pub fn new(width: i32, height: i32) -> (s: Size)
        ensures
            s.width == width,
            s.height == height,
    {
        Size { width, height }
    }
}

/// The mathematical value of a [`Rect`]: corner and extent, in units.
pub struct RectModel {
    pub x: int,
    pub y: int,
    pub width: int,
    pub height: int,
}

impl RectModel {
    /// Whether the two rectangles overlap. Rectangles that merely share an
    /// edge do not.
    pub open spec fn intersects(self, other: RectModel) -> bool {
        &&& self.x < other.x + other.width
        &&& self.x + self.width > other.x
        &&& self.y < other.y + other.height
        &&& self.y + self.height > other.y
    }
}

/// An axis-aligned rectangle: top-left corner and extent, in units.
#[derive(Clone, Copy, Debug, PartialEq, Eq)]
pub struct Rect {
    pub x: i64,
    pub y: i64,
    pub width: i64,
    pub height: i64,
}

impl View for Rect {
    type V = RectModel;

    open spec fn view(&self) -> RectModel {
        RectModel {
            x: self.x as int,
            y: self.y as int,
            width: self.width as int,
            height: self.height as int,
        }
    }
}

impl Rect {
    /// The rectangle with the given corner and extent.
    pub fn new(x: i64, y: i64, width: i64, height: i64) -> (r: Rect)
        ensures
            r@ == (RectModel { x: x as int, y: y as int, width: width as int, height: height as int }),
    {
        Rect { x, y, width, height }
    }

    /// Whether `self` and `other` overlap.
    pub fn intersects(&self, other: &Rect) -> (hit: bool)
        ensures
            hit == self@.intersects(other@),
    {
        (self.x as i128) < other.x as i128 + other.width as i128
            && self.x as i128 + self.width as i128 > other.x as i128
            && (self.y as i128) < other.y as i128 + other.height as i128
            && self.y as i128 + self.height as i128 > other.y as i128
    }
}

} // verus!

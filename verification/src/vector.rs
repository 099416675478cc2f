//! Planar vectors: lengths in nanopixels, headings in millionths.

use vstd::prelude::*;
use crate::units::{clamp_to_i64, clamped};

verus! {

/// A point or displacement of the plane over the mathematical integers.
pub struct Vector {
    pub x: int,
    pub y: int,
}

impl Vector {
    /// The sum of two vectors.
    pub open spec fn plus(self, other: Vector) -> Vector {
        Vector { x: self.x + other.x, y: self.y + other.y }
    }

    /// The difference of two vectors.
    pub open spec fn minus(self, other: Vector) -> Vector {
        Vector { x: self.x - other.x, y: self.y - other.y }
    }

    /// The vector stretched by the whole factor `k`.
    pub open spec fn times(self, k: int) -> Vector {
        Vector { x: k * self.x, y: k * self.y }
    }

    /// Each component clamped to the range of `i64`.
    pub open spec fn clamped(self) -> Vector {
        Vector { x: clamped(self.x), y: clamped(self.y) }
    }

    /// Whether both components fit in an `i64`.
    pub open spec fn fits(self) -> bool {
        &&& i64::MIN <= self.x <= i64::MAX
        &&& i64::MIN <= self.y <= i64::MAX
    }

    /// The square of the vector's length.
    pub open spec fn norm_squared(self) -> int {
        self.x * self.x + self.y * self.y
    }
}

/// A point or displacement of the plane, in nanopixels.
#[derive(Clone, Copy, Debug, PartialEq, Eq)]
pub struct Vec2d {
    pub x: i64,
    pub y: i64,
}

impl View for Vec2d {
    type V = Vector;

    open spec fn view(&self) -> Vector {
        Vector { x: self.x as int, y: self.y as int }
    }
}

impl Vec2d {
    /// The vector with the given components.
    pub fn new(x: i64, y: i64) -> (v: Vec2d)
        ensures
            v@ == (Vector { x: x as int, y: y as int }),
    {
        Vec2d { x, y }
    }

    /// The sum of two vectors, each component clamped to the range of `i64`.
    pub fn saturating_add(self, other: Vec2d) -> (sum: Vec2d)
        ensures
            sum@ == self@.plus(other@).clamped(),
    {
        Vec2d {
            x: clamp_to_i64(self.x as i128 + other.x as i128),
            y: clamp_to_i64(self.y as i128 + other.y as i128),
        }
    }
}

/// The direction a ship points in: the cosine and the sine of its rotation,
/// in millionths. A heading of unit length has `cos² + sin²` equal to the
/// square of `HEADING_UNIT`, up to rounding.
#[derive(Clone, Copy, Debug, PartialEq, Eq)]
pub struct Heading {
    pub cos: i32,
    pub sin: i32,
}

impl View for Heading {
    type V = Vector;

    open spec fn view(&self) -> Vector {
        Vector { x: self.cos as int, y: self.sin as int }
    }
}

impl Heading {
    /// The heading with the given cosine and sine, in millionths.
    pub fn new(cos: i32, sin: i32) -> (h: Heading)
        ensures
            h@ == (Vector { x: cos as int, y: sin as int }),
    {
        Heading { cos, sin }
    }
}

} // verus!

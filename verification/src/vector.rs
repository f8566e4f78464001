//! Planar vectors: the mathematical model [`Vec2`] that contracts speak of,
//! and the fixed-point [`Vector`] that the executable code holds.

use vstd::prelude::*;
use crate::units::{in_range, magnitude, LIMIT, SCALE};

verus! {

/// A vector of the integer plane.
pub struct Vec2 {
    pub x: int,
    pub y: int,
}

impl Vec2 {
    /// The null vector.
    pub open spec fn zero() -> Vec2 {
        Vec2 { x: 0, y: 0 }
    }

    /// Both components are representable.
    pub open spec fn wf(self) -> bool {
        in_range(self.x) && in_range(self.y)
    }

    /// Square of the Euclidean length.
    pub open spec fn norm2(self) -> int {
        self.x * self.x + self.y * self.y
    }

    /// Sum of the components' magnitudes.
    pub open spec fn speed(self) -> int {
        magnitude(self.x) + magnitude(self.y)
    }

    /// Componentwise difference.
    pub open spec fn minus(self, other: Vec2) -> Vec2 {
        Vec2 { x: self.x - other.x, y: self.y - other.y }
    }

    /// The same vector seen with the vertical axis pointing the other way.
    pub open spec fn flipped(self) -> Vec2 {
        Vec2 { x: self.x, y: -self.y }
    }
}

/// A fixed-point vector: a position, an extent or a velocity.
#[derive(Clone, Copy, Debug, PartialEq, Eq)]
pub struct Vector {
    pub x: i64,
    pub y: i64,
}

impl View for Vector {
    type V = Vec2;

    open spec fn view(&self) -> Vec2 {
        Vec2 { x: self.x as int, y: self.y as int }
    }
}

impl Vector {
    /// Both components are representable.
    pub open spec fn wf(self) -> bool {
        self@.wf()
    }

    /// The vector with the given components, in fixed-point steps.
    pub fn new(x: i64, y: i64) -> (v: Vector)
        ensures
            v@ == (Vec2 { x: x as int, y: y as int }),
    {
        Vector { x, y }
    }

    /// The null vector.
    pub fn zero() -> (v: Vector)
        ensures
            v@ == Vec2::zero(),
            v.wf(),
    {
        Vector { x: 0, y: 0 }
    }

    /// The vector of whole world units `(x, y)`.
    pub fn from_units(x: i32, y: i32) -> (v: Vector)
        ensures
            v@ == (Vec2 { x: x * SCALE, y: y * SCALE }),
    {
        Vector { x: (x as i64) * SCALE, y: (y as i64) * SCALE }
    }

    /// Tells whether both components are representable.
    pub fn is_valid(&self) -> (ok: bool)
        ensures
            ok == self.wf(),
    {
        -LIMIT <= self.x && self.x <= LIMIT && -LIMIT <= self.y && self.y <= LIMIT
    }

    /// The same vector seen with the vertical axis pointing the other way.
    pub fn flipped(&self) -> (v: Vector)
        requires
            self.wf(),
        ensures
            v@ == self@.flipped(),
            v.wf(),
    {
        Vector { x: self.x, y: -self.y }
    }
}

} // verus!

//! Plain 2D value types over the fixed-point scalar: vectors and
//! axis-aligned rectangles, with the component-wise arithmetic the collision
//! queries use.

use vstd::prelude::*;
use crate::fp::{add_raw, div_raw, mul_raw, sub_raw, Fp, SCALE};

verus! {

/// The raw value of minus one.
pub const NEG_SCALE: i32 = -65536;

/// The raw value of two.
pub const TWO_SCALE: i32 = 131072;

/// A 2D vector of fixed-point components.
#[derive(Clone, Copy, Debug, PartialEq, Eq, Structural)]
pub struct Vector {
    /// Component along the horizontal axis.
    pub x: Fp,
    /// Component along the vertical axis.
    pub y: Fp,
}

/// An axis-aligned rectangle: `pos` is the lower-left corner, `size` its
/// extent, so it spans `[pos, pos + size)` on each axis.
#[derive(Clone, Copy, Debug, PartialEq, Eq, Structural)]
pub struct Rect {
    /// Lower-left corner.
    pub pos: Vector,
    /// Width and height.
    pub size: Vector,
}

/// The zero vector.
pub open spec fn v_zero() -> Vector {
    Vector { x: Fp { raw: 0 }, y: Fp { raw: 0 } }
}

/// The unit vector pointing up (positive y).
pub open spec fn v_up() -> Vector {
    Vector { x: Fp { raw: 0 }, y: Fp { raw: SCALE } }
}

/// The unit vector pointing down (negative y).
pub open spec fn v_down() -> Vector {
    Vector { x: Fp { raw: 0 }, y: Fp { raw: NEG_SCALE } }
}

/// The unit vector pointing left (negative x).
pub open spec fn v_left() -> Vector {
    Vector { x: Fp { raw: NEG_SCALE }, y: Fp { raw: 0 } }
}

/// The unit vector pointing right (positive x).
pub open spec fn v_right() -> Vector {
    Vector { x: Fp { raw: SCALE }, y: Fp { raw: 0 } }
}

impl Vector {
    /// Build a vector from its components.
    pub fn new(x: Fp, y: Fp) -> (r: Vector)
        ensures
            r == (Vector { x, y }),
    {
        Vector { x, y }
    }

    /// The zero vector.
    pub fn zero() -> (r: Vector)
        ensures
            r == v_zero(),
    {
        Vector { x: Fp { raw: 0 }, y: Fp { raw: 0 } }
    }

    /// The unit vector pointing up.
    pub fn up() -> (r: Vector)
        ensures
            r == v_up(),
    {
        Vector { x: Fp { raw: 0 }, y: Fp { raw: SCALE } }
    }

    /// The unit vector pointing down.
    pub fn down() -> (r: Vector)
        ensures
            r == v_down(),
    {
        Vector { x: Fp { raw: 0 }, y: Fp { raw: -SCALE } }
    }

    /// The unit vector pointing left.
    pub fn left() -> (r: Vector)
        ensures
            r == v_left(),
    {
        Vector { x: Fp { raw: -SCALE }, y: Fp { raw: 0 } }
    }

    /// The unit vector pointing right.
    pub fn right() -> (r: Vector)
        ensures
            r == v_right(),
    {
        Vector { x: Fp { raw: SCALE }, y: Fp { raw: 0 } }
    }

    /// Component-wise saturating addition.
    pub fn add(self, rhs: Vector) -> (r: Vector)
        ensures
            r.x.raw == add_raw(self.x.raw, rhs.x.raw),
            r.y.raw == add_raw(self.y.raw, rhs.y.raw),
    {
        Vector { x: self.x.add(rhs.x), y: self.y.add(rhs.y) }
    }

    /// Component-wise saturating subtraction.
    pub fn sub(self, rhs: Vector) -> (r: Vector)
        ensures
            r.x.raw == sub_raw(self.x.raw, rhs.x.raw),
            r.y.raw == sub_raw(self.y.raw, rhs.y.raw),
    {
        Vector { x: self.x.sub(rhs.x), y: self.y.sub(rhs.y) }
    }

    /// Both components multiplied by the scalar `factor`.
    pub fn scaled_by(self, factor: Fp) -> (r: Vector)
        ensures
            r.x.raw == mul_raw(factor.raw, self.x.raw),
            r.y.raw == mul_raw(factor.raw, self.y.raw),
    {
        Vector { x: factor.mul(self.x), y: factor.mul(self.y) }
    }

    /// Both components divided by two, truncating toward zero.
    pub fn halved(self) -> (r: Vector)
        ensures
            r.x.raw == div_raw(self.x.raw, TWO_SCALE),
            r.y.raw == div_raw(self.y.raw, TWO_SCALE),
    {
        let two = Fp::from_int(2);
        Vector { x: self.x.div(two), y: self.y.div(two) }
    }
}

impl Rect {
    /// Build a rectangle from its lower-left corner and size.
    pub fn new(pos: Vector, size: Vector) -> (r: Rect)
        ensures
            r == (Rect { pos, size }),
    {
        Rect { pos, size }
    }
}

} // verus!

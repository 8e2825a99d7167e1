//! Two-component vectors.

use crate::binary32::{truncation, Binary32};
use vstd::prelude::*;

verus! {

/// A pair of signed 32-bit integers.
#[derive(Clone, Copy, Debug, PartialEq, Eq, Structural)]
pub struct IVec2 {
    pub x: i32,
    pub y: i32,
}

/// A pair of single-precision numbers.
#[derive(Clone, Copy, Debug, PartialEq, Eq, Structural)]
pub struct Vec2 {
    pub x: Binary32,
    pub y: Binary32,
}

impl IVec2 {
    /// The vector with both components zero.
    pub fn zero() -> (v: IVec2)
        ensures
            v == (IVec2 { x: 0, y: 0 }),
    {
        IVec2 { x: 0, y: 0 }
    }

    /// The vector with the given components.
    pub fn new(x: i32, y: i32) -> (v: IVec2)
        ensures
            v == (IVec2 { x, y }),
    {
        IVec2 { x, y }
    }
}

impl Vec2 {
    /// The vector with the given components.
    pub fn new(x: Binary32, y: Binary32) -> (v: Vec2)
        ensures
            v == (Vec2 { x, y }),
    {
        Vec2 { x, y }
    }

    /// The vector with both components zero.
    pub fn zero() -> (v: Vec2)
        ensures
            v.x.spec_bits() == 0,
            v.y.spec_bits() == 0,
    {
        Vec2 { x: Binary32::zero(), y: Binary32::zero() }
    }

    /// The integer vector that truncating each component gives.
    pub open spec fn spec_as_ivec2(self) -> IVec2 {
        IVec2 {
            x: truncation(self.x.spec_bits()) as i32,
            y: truncation(self.y.spec_bits()) as i32,
        }
    }

    /// Rounds each component toward zero, saturating at the ends of the
    /// `i32` range and turning NaN into 0.
    pub fn as_ivec2(self) -> (v: IVec2)
        ensures
            v == self.spec_as_ivec2(),
    {
        IVec2 { x: self.x.to_i32(), y: self.y.to_i32() }
    }
}

} // verus!

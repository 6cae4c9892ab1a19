//! Fixed-point vectors.
//!
//! A length is an `i64` counting millionths of a world unit; a velocity counts millionths
//! of a world unit per second. A span of time is a `u32` of microseconds.

use vstd::prelude::*;
use crate::algebra::Vec3;

verus! {

/// Raw units in one world unit.
pub const UNIT: i64 = 1_000_000;

/// Microseconds in one second.
pub const SECOND: u32 = 1_000_000;

/// The largest absolute value of a coordinate that the controller computes with:
/// `2^40` raw units, a little over a million world units.
pub const COORDINATE_LIMIT: i64 = 0x100_0000_0000;

/// A point, a displacement or a velocity in fixed point.
#[derive(Clone, Copy, Debug, PartialEq, Eq, Structural)]
pub struct Vector3 {
    pub x: i64,
    pub y: i64,
    pub z: i64,
}

impl View for Vector3 {
    type V = Vec3;

    open spec fn view(&self) -> Vec3 {
        Vec3 { x: self.x as int, y: self.y as int, z: self.z as int }
    }
}

impl Vector3 {
    /// Whether every coordinate is within `COORDINATE_LIMIT` of zero.
    pub open spec fn in_range(self) -> bool {
        self@.within(COORDINATE_LIMIT as int)
    }

    pub fn new(x: i64, y: i64, z: i64) -> (v: Vector3)
        ensures
            v == (Vector3 { x, y, z }),
    {
        Vector3 { x, y, z }
    }

    pub fn zeros() -> (v: Vector3)
        ensures
            v@ == Vec3::zero(),
    {
        Vector3 { x: 0, y: 0, z: 0 }
    }

    pub fn is_zero(&self) -> (b: bool)
        ensures
            b == (self@ == Vec3::zero()),
    {
        self.x == 0 && self.y == 0 && self.z == 0
    }

    /// The executable test for `in_range`.
    pub fn is_in_range(&self) -> (b: bool)
        ensures
            b == self.in_range(),
    {
        -COORDINATE_LIMIT <= self.x && self.x <= COORDINATE_LIMIT && -COORDINATE_LIMIT <= self.y
            && self.y <= COORDINATE_LIMIT && -COORDINATE_LIMIT <= self.z && self.z
            <= COORDINATE_LIMIT
    }
}

} // verus!

//! Fixed-point orientations.

use vstd::prelude::*;
use crate::algebra::Quat;

verus! {

/// The raw value that stands for one in a component of a quaternion.
pub const QUATERNION_ONE: i32 = 1_000_000_000;

/// An orientation: a quaternion whose components count billionths.
///
/// A quaternion `q` has unit length when `q@.norm2()` is the square of `QUATERNION_ONE`.
/// Nothing here enforces that; what a quaternion of another length does to a vector is
/// stated where it is used.
#[derive(Clone, Copy, Debug, PartialEq, Eq, Structural)]
pub struct Quaternion {
    pub w: i32,
    pub x: i32,
    pub y: i32,
    pub z: i32,
}

impl View for Quaternion {
    type V = Quat;

    open spec fn view(&self) -> Quat {
        Quat { w: self.w as int, x: self.x as int, y: self.y as int, z: self.z as int }
    }
}

impl Quaternion {
    /// Whether the quaternion has exactly unit length.
    pub open spec fn is_unit(self) -> bool {
        self@.norm2() == QUATERNION_ONE * QUATERNION_ONE
    }

    pub fn new(w: i32, x: i32, y: i32, z: i32) -> (q: Quaternion)
        ensures
            q == (Quaternion { w, x, y, z }),
    {
        Quaternion { w, x, y, z }
    }

    /// The orientation that turns nothing.
    pub fn identity() -> (q: Quaternion)
        ensures
            q == (Quaternion { w: QUATERNION_ONE, x: 0, y: 0, z: 0 }),
            q.is_unit(),
    {
        Quaternion { w: QUATERNION_ONE, x: 0, y: 0, z: 0 }
    }
}

} // verus!

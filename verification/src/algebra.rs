//! Mathematical models of the values the controller computes with: three-dimensional
//! vectors and quaternions over the unbounded integers, and the rounding that brings an
//! exact quotient back to an integer.
//!
//! Everything here is ghost code: the contracts of the executable types in the other
//! modules are stated over these models through their views.

use vstd::prelude::*;

verus! {

/// Absolute value of an integer.
pub open spec fn magnitude(a: int) -> int {
    if a >= 0 {
        a
    } else {
        -a
    }
}

/// Quotient of `a` by a positive `d`, rounded toward zero.
///
/// Rounding toward zero keeps the rounding symmetric: `quot(-a, d) == -quot(a, d)`, and it
/// never enlarges a value.
pub open spec fn quot(a: int, d: int) -> int
    recommends
        d > 0,
{
    if a >= 0 {
        a / d
    } else {
        -((-a) / d)
    }
}

/// `a` limited to the closed interval from `lo` to `hi`.
pub open spec fn limit(a: int, lo: int, hi: int) -> int
    recommends
        lo <= hi,
{
    if a < lo {
        lo
    } else if a > hi {
        hi
    } else {
        a
    }
}

/// A vector of three integers.
pub struct Vec3 {
    pub x: int,
    pub y: int,
    pub z: int,
}

impl Vec3 {
    pub open spec fn zero() -> Vec3 {
        Vec3 { x: 0, y: 0, z: 0 }
    }

    pub open spec fn plus(self, other: Vec3) -> Vec3 {
        Vec3 { x: self.x + other.x, y: self.y + other.y, z: self.z + other.z }
    }

    pub open spec fn minus(self, other: Vec3) -> Vec3 {
        Vec3 { x: self.x - other.x, y: self.y - other.y, z: self.z - other.z }
    }

    pub open spec fn negated(self) -> Vec3 {
        Vec3 { x: -self.x, y: -self.y, z: -self.z }
    }

    /// Every component multiplied by `k`.
    pub open spec fn scaled(self, k: int) -> Vec3 {
        Vec3 { x: self.x * k, y: self.y * k, z: self.z * k }
    }

    /// Every component divided by `d`, each quotient rounded toward zero.
    pub open spec fn quot(self, d: int) -> Vec3
        recommends
            d > 0,
    {
        Vec3 { x: quot(self.x, d), y: quot(self.y, d), z: quot(self.z, d) }
    }

    pub open spec fn dot(self, other: Vec3) -> int {
        self.x * other.x + self.y * other.y + self.z * other.z
    }

    pub open spec fn cross(self, other: Vec3) -> Vec3 {
        Vec3 {
            x: self.y * other.z - self.z * other.y,
            y: self.z * other.x - self.x * other.z,
            z: self.x * other.y - self.y * other.x,
        }
    }

    /// Square of the Euclidean length.
    pub open spec fn norm2(self) -> int {
        self.dot(self)
    }

    /// Sum of the absolute values of the components.
    pub open spec fn norm1(self) -> int {
        magnitude(self.x) + magnitude(self.y) + magnitude(self.z)
    }

    /// Every component lies within `bound` of zero.
    pub open spec fn within(self, bound: int) -> bool {
        &&& -bound <= self.x <= bound
        &&& -bound <= self.y <= bound
        &&& -bound <= self.z <= bound
    }
}

/// A quaternion over the integers: scalar part `w`, vector part `(x, y, z)`.
pub struct Quat {
    pub w: int,
    pub x: int,
    pub y: int,
    pub z: int,
}

impl Quat {
    /// The vector part.
    pub open spec fn vector(self) -> Vec3 {
        Vec3 { x: self.x, y: self.y, z: self.z }
    }

    /// The scalar part.
    pub open spec fn scalar(self) -> int {
        self.w
    }

    /// Square of the length of the quaternion.
    pub open spec fn norm2(self) -> int {
        self.w * self.w + self.vector().norm2()
    }

    /// The vector `v` carried through the quaternion by the closed form
    /// `v (s^2 - |u|^2) + 2 u (u . v) + 2 s (u x v)`, with `s` the scalar and `u` the vector
    /// part. Nothing is divided: for a quaternion of length `n` the result is the rotated
    /// vector stretched by `n^2`.
    pub open spec fn rotate(self, v: Vec3) -> Vec3 {
        let u = self.vector();
        let s = self.scalar();
        v.scaled(s * s - u.norm2()).plus(u.scaled(2 * u.dot(v))).plus(u.cross(v).scaled(2 * s))
    }
}

} // verus!

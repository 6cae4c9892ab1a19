//! Rotation of a vector by an orientation, and the laws of that rotation.

use vstd::prelude::*;
use crate::algebra::{Quat, Vec3};
use crate::quaternion::Quaternion;
use crate::rounding::{lemma_product_bounded, lemma_quot_shortens};
use crate::vector::Vector3;

verus! {

/// The divisor that brings an exact rotation back to the scale of the vector: the square of
/// `QUATERNION_ONE`.
pub const ROTATION_SCALE: i128 = 1_000_000_000_000_000_000;

/// What `rotate` returns for a vector and an orientation: the exact closed form, brought
/// back to the scale of the vector with rounding toward zero.
pub open spec fn rotated(vector: Vec3, orientation: Quat) -> Vec3 {
    orientation.rotate(vector).quot(ROTATION_SCALE as int)
}

/// The components of an orientation are 32-bit numbers.
pub open spec fn is_orientation(q: Quat) -> bool {
    &&& -0x8000_0000 <= q.w <= 0x8000_0000
    &&& -0x8000_0000 <= q.x <= 0x8000_0000
    &&& -0x8000_0000 <= q.y <= 0x8000_0000
    &&& -0x8000_0000 <= q.z <= 0x8000_0000
}

/// How large the terms of the closed form can get, for a vector whose components are within
/// `m` of zero: every product that `rotate` forms, and the exact result.
proof fn lemma_rotation_terms_within(q: Quat, v: Vec3, m: int)
    requires
        is_orientation(q),
        m >= 0,
        v.within(m),
    ensures
        ({
            let ll = 0x4000_0000_0000_0000int;
            let lm = 0x8000_0000 * m;
            let k = 0x4000_0000_0000_0000 * m;
            let a = q.w * q.w - (q.x * q.x + q.y * q.y + q.z * q.z);
            let b = 2 * (q.x * v.x + q.y * v.y + q.z * v.z);
            let c = 2 * q.w;
            let wx = q.y * v.z - q.z * v.y;
            let wy = q.z * v.x - q.x * v.z;
            let wz = q.x * v.y - q.y * v.x;
            &&& 0 <= q.w * q.w <= ll
            &&& 0 <= q.x * q.x <= ll
            &&& 0 <= q.y * q.y <= ll
            &&& 0 <= q.z * q.z <= ll
            &&& -lm <= q.x * v.x <= lm
            &&& -lm <= q.y * v.y <= lm
            &&& -lm <= q.z * v.z <= lm
            &&& -lm <= q.y * v.z <= lm
            &&& -lm <= q.z * v.y <= lm
            &&& -lm <= q.z * v.x <= lm
            &&& -lm <= q.x * v.z <= lm
            &&& -lm <= q.x * v.y <= lm
            &&& -lm <= q.y * v.x <= lm
            &&& -(3 * k) <= v.x * a <= 3 * k
            &&& -(3 * k) <= v.y * a <= 3 * k
            &&& -(3 * k) <= v.z * a <= 3 * k
            &&& -(6 * k) <= q.x * b <= 6 * k
            &&& -(6 * k) <= q.y * b <= 6 * k
            &&& -(6 * k) <= q.z * b <= 6 * k
            &&& -(4 * k) <= wx * c <= 4 * k
            &&& -(4 * k) <= wy * c <= 4 * k
            &&& -(4 * k) <= wz * c <= 4 * k
            &&& q.rotate(v).within(13 * k)
        }),
{
    let l = 0x8000_0000int;
    let ll = 0x4000_0000_0000_0000int;
    let lm = 0x8000_0000 * m;
    let k = 0x4000_0000_0000_0000 * m;
    let a = q.w * q.w - (q.x * q.x + q.y * q.y + q.z * q.z);
    let b = 2 * (q.x * v.x + q.y * v.y + q.z * v.z);
    let c = 2 * q.w;
    let wx = q.y * v.z - q.z * v.y;
    let wy = q.z * v.x - q.x * v.z;
    let wz = q.x * v.y - q.y * v.x;
    lemma_product_bounded(q.w, q.w, l, l);
    lemma_product_bounded(q.x, q.x, l, l);
    lemma_product_bounded(q.y, q.y, l, l);
    lemma_product_bounded(q.z, q.z, l, l);
    assert(q.w * q.w >= 0 && q.x * q.x >= 0 && q.y * q.y >= 0 && q.z * q.z >= 0)
        by (nonlinear_arith);
    lemma_product_bounded(q.x, v.x, l, m);
    lemma_product_bounded(q.y, v.y, l, m);
    lemma_product_bounded(q.z, v.z, l, m);
    lemma_product_bounded(q.y, v.z, l, m);
    lemma_product_bounded(q.z, v.y, l, m);
    lemma_product_bounded(q.z, v.x, l, m);
    lemma_product_bounded(q.x, v.z, l, m);
    lemma_product_bounded(q.x, v.y, l, m);
    lemma_product_bounded(q.y, v.x, l, m);
    lemma_product_bounded(v.x, a, m, 3 * ll);
    lemma_product_bounded(v.y, a, m, 3 * ll);
    lemma_product_bounded(v.z, a, m, 3 * ll);
    lemma_product_bounded(q.x, b, l, 6 * lm);
    lemma_product_bounded(q.y, b, l, 6 * lm);
    lemma_product_bounded(q.z, b, l, 6 * lm);
    lemma_product_bounded(wx, c, 2 * lm, 2 * l);
    lemma_product_bounded(wy, c, 2 * lm, 2 * l);
    lemma_product_bounded(wz, c, 2 * lm, 2 * l);
    let u = q.vector();
    assert(u.norm2() == q.x * q.x + q.y * q.y + q.z * q.z);
    assert(q.scalar() * q.scalar() - u.norm2() == a);
    assert(2 * u.dot(v) == b);
    assert(u.cross(v) == (Vec3 { x: wx, y: wy, z: wz }));
    assert(q.rotate(v).x == v.x * a + q.x * b + wx * c);
    assert(q.rotate(v).y == v.y * a + q.y * b + wy * c);
    assert(q.rotate(v).z == v.z * a + q.z * b + wz * c);
}

/// Rotates `vector` into the frame that `orientation` describes.
///
/// The result is the closed form `v (s^2 - |u|^2) + 2 u (u . v) + 2 s (u x v)`, computed
/// exactly and then divided by `ROTATION_SCALE`, each component rounded toward zero. The
/// orientation is not normalised here: one of length `n` (in units of `QUATERNION_ONE`)
/// gives the rotated vector stretched by `n^2`.
pub fn rotate(vector: &Vector3, orientation: &Quaternion) -> (rotated: Vector3)
    requires
        vector.in_range(),
    ensures
        rotated@ == self::rotated(vector@, orientation@),
        orientation.is_unit() ==> rotated@.norm2() <= vector@.norm2() < rotated@.norm2() + 2
            * rotated@.norm1() + 3,
{
    proof {
        if orientation.is_unit() {
            lemma_rotate_keeps_length(*vector, *orientation);
        }
    }
    let s: i128 = orientation.w as i128;
    let ux: i128 = orientation.x as i128;
    let uy: i128 = orientation.y as i128;
    let uz: i128 = orientation.z as i128;
    let vx: i128 = vector.x as i128;
    let vy: i128 = vector.y as i128;
    let vz: i128 = vector.z as i128;
    proof {
        lemma_rotation_terms_within(orientation@, vector@, 0x100_0000_0000);
    }
    let a: i128 = s * s - (ux * ux + uy * uy + uz * uz);
    let b: i128 = 2 * (ux * vx + uy * vy + uz * vz);
    let c: i128 = 2 * s;
    let wx: i128 = uy * vz - uz * vy;
    let wy: i128 = uz * vx - ux * vz;
    let wz: i128 = ux * vy - uy * vx;
    let nx: i128 = vx * a + ux * b + wx * c;
    let ny: i128 = vy * a + uy * b + wy * c;
    let nz: i128 = vz * a + uz * b + wz * c;
    let rx: i128 = nx / ROTATION_SCALE;
    let ry: i128 = ny / ROTATION_SCALE;
    let rz: i128 = nz / ROTATION_SCALE;
    Vector3 { x: rx as i64, y: ry as i64, z: rz as i64 }
}

/// A vector of at most one world unit along each axis stays within the range of
/// coordinates when it is rotated, whatever the orientation.
pub proof fn lemma_rotated_unit_in_range(vector: Vec3, orientation: Quaternion)
    requires
        vector.within(1_000_000),
    ensures
        rotated(vector, orientation@).within(0x100_0000_0000),
{
    lemma_rotation_terms_within(orientation@, vector, 1_000_000);
}

proof fn lemma_square_of_difference(p: int, q: int)
    by (nonlinear_arith)
    ensures
        (p - q) * (p - q) == p * p - 2 * (p * q) + q * q,
{
}

proof fn lemma_square_of_sum3(x: int, y: int, z: int)
    by (nonlinear_arith)
    ensures
        (x + y + z) * (x + y + z) == x * x + y * y + z * z + 2 * (x * y) + 2 * (x * z) + 2 * (y
            * z),
{
}

proof fn lemma_product_of_sums3(a: int, b: int, c: int, d: int, e: int, f: int)
    by (nonlinear_arith)
    ensures
        (a + b + c) * (d + e + f) == a * d + a * e + a * f + b * d + b * e + b * f + c * d + c * e
            + c * f,
{
}

proof fn lemma_product_of_squares(a: int, d: int)
    by (nonlinear_arith)
    ensures
        (a * a) * (d * d) == (a * d) * (a * d),
{
}

proof fn lemma_exchange(a: int, b: int, c: int, d: int)
    by (nonlinear_arith)
    ensures
        (a * b) * (c * d) == (a * d) * (c * b),
{
}

/// The cross product of two vectors is orthogonal to both.
pub proof fn lemma_cross_orthogonal(u: Vec3, v: Vec3)
    ensures
        u.cross(v).dot(u) == 0,
        u.cross(v).dot(v) == 0,
{
    let (a, b, c) = (u.x, u.y, u.z);
    let (d, e, f) = (v.x, v.y, v.z);
    assert((b * f - c * e) * a + (c * d - a * f) * b + (a * e - b * d) * c == 0)
        by (nonlinear_arith);
    assert((b * f - c * e) * d + (c * d - a * f) * e + (a * e - b * d) * f == 0)
        by (nonlinear_arith);
}

/// Lagrange's identity: `|u x v|^2 == |u|^2 |v|^2 - (u . v)^2`.
pub proof fn lemma_cross_norm(u: Vec3, v: Vec3)
    ensures
        u.cross(v).norm2() == u.norm2() * v.norm2() - u.dot(v) * u.dot(v),
{
    let (a, b, c) = (u.x, u.y, u.z);
    let (d, e, f) = (v.x, v.y, v.z);
    lemma_square_of_difference(b * f, c * e);
    lemma_square_of_difference(c * d, a * f);
    lemma_square_of_difference(a * e, b * d);
    lemma_exchange(b, f, c, e);
    lemma_exchange(c, d, a, f);
    lemma_exchange(a, e, b, d);
    lemma_product_of_sums3(a * a, b * b, c * c, d * d, e * e, f * f);
    lemma_product_of_squares(a, d);
    lemma_product_of_squares(a, e);
    lemma_product_of_squares(a, f);
    lemma_product_of_squares(b, d);
    lemma_product_of_squares(b, e);
    lemma_product_of_squares(b, f);
    lemma_product_of_squares(c, d);
    lemma_product_of_squares(c, e);
    lemma_product_of_squares(c, f);
    lemma_square_of_sum3(a * d, b * e, c * f);
}

proof fn lemma_distribute3(k: int, x: int, y: int, z: int)
    by (nonlinear_arith)
    ensures
        k * (x + y + z) == k * x + k * y + k * z,
{
}

proof fn lemma_regroup(p: int, a: int, q: int, b: int)
    by (nonlinear_arith)
    ensures
        (p * a) * (q * b) == (a * b) * (p * q),
        2 * ((p * a) * (q * b)) == (2 * (a * b)) * (p * q),
{
}

/// Square of one component of `p a + q b + r c`.
proof fn lemma_square_of_combination(p: int, q: int, r: int, a: int, b: int, c: int)
    ensures
        (p * a + q * b + r * c) * (p * a + q * b + r * c) == (a * a) * (p * p) + (b * b) * (q * q)
            + (c * c) * (r * r) + (2 * (a * b)) * (p * q) + (2 * (a * c)) * (p * r) + (2 * (b
            * c)) * (q * r),
{
    lemma_square_of_sum3(p * a, q * b, r * c);
    lemma_regroup(p, a, p, a);
    lemma_regroup(q, b, q, b);
    lemma_regroup(r, c, r, c);
    lemma_regroup(p, a, q, b);
    lemma_regroup(p, a, r, c);
    lemma_regroup(q, b, r, c);
}

/// Square of the length of `v a + u b + w c`, by the six dot products of `v`, `u` and `w`.
proof fn lemma_norm_of_combination(v: Vec3, u: Vec3, w: Vec3, a: int, b: int, c: int)
    ensures
        v.scaled(a).plus(u.scaled(b)).plus(w.scaled(c)).norm2() == (a * a) * v.norm2() + (b * b)
            * u.norm2() + (c * c) * w.norm2() + (2 * (a * b)) * v.dot(u) + (2 * (a * c)) * v.dot(
            w,
        ) + (2 * (b * c)) * u.dot(w),
{
    lemma_square_of_combination(v.x, u.x, w.x, a, b, c);
    lemma_square_of_combination(v.y, u.y, w.y, a, b, c);
    lemma_square_of_combination(v.z, u.z, w.z, a, b, c);
    lemma_distribute3(a * a, v.x * v.x, v.y * v.y, v.z * v.z);
    lemma_distribute3(b * b, u.x * u.x, u.y * u.y, u.z * u.z);
    lemma_distribute3(c * c, w.x * w.x, w.y * w.y, w.z * w.z);
    lemma_distribute3(2 * (a * b), v.x * u.x, v.y * u.y, v.z * u.z);
    lemma_distribute3(2 * (a * c), v.x * w.x, v.y * w.y, v.z * w.z);
    lemma_distribute3(2 * (b * c), u.x * w.x, u.y * w.y, u.z * w.z);
}

proof fn lemma_mixed_terms_cancel(t: int, uu: int, w: int, k: int)
    by (nonlinear_arith)
    ensures
        (4 * w) * uu + (4 * t) * (k - w) + 4 * ((t - uu) * w) == (4 * t) * k,
{
}

proof fn lemma_square_completes(t: int, uu: int, vv: int)
    by (nonlinear_arith)
    ensures
        ((t - uu) * (t - uu)) * vv + (4 * t) * (uu * vv) == (vv * (t + uu)) * (t + uu),
{
}

proof fn lemma_rotation_reduced(t: int, uu: int, vv: int, w: int)
    ensures
        ((t - uu) * (t - uu)) * vv + (4 * w) * uu + (4 * t) * (uu * vv - w) + 4 * ((t - uu) * w)
            == (vv * (t + uu)) * (t + uu),
{
    lemma_mixed_terms_cancel(t, uu, w, uu * vv);
    lemma_square_completes(t, uu, vv);
}

proof fn lemma_doubles(a: int, s: int, k: int)
    by (nonlinear_arith)
    ensures
        (2 * k) * (2 * k) == 4 * (k * k),
        (2 * s) * (2 * s) == 4 * (s * s),
        (2 * (a * (2 * k))) * k == 4 * (a * (k * k)),
{
}

/// The scalar identity behind the rotation law, with `uu = |u|^2`, `vv = |v|^2` and
/// `uv = u . v`.
proof fn lemma_rotation_scalars(s: int, uu: int, vv: int, uv: int)
    ensures
        ({
            let a = s * s - uu;
            let b = 2 * uv;
            let c = 2 * s;
            (a * a) * vv + (b * b) * uu + (c * c) * (uu * vv - uv * uv) + (2 * (a * b)) * uv == (vv
                * (s * s + uu)) * (s * s + uu)
        }),
{
    lemma_doubles(s * s - uu, s, uv);
    lemma_rotation_reduced(s * s, uu, vv, uv * uv);
}

/// A quaternion stretches every vector by the square of its own length:
/// `|q.rotate(v)|^2 == |v|^2 |q|^4`. For a quaternion of unit length the rotation therefore
/// keeps the length of the vector.
pub proof fn lemma_rotation_scales_length(q: Quat, v: Vec3)
    ensures
        q.rotate(v).norm2() == v.norm2() * q.norm2() * q.norm2(),
{
    let u = q.vector();
    let s = q.scalar();
    let w = u.cross(v);
    let a = s * s - u.norm2();
    let b = 2 * u.dot(v);
    let c = 2 * s;
    lemma_norm_of_combination(v, u, w, a, b, c);
    lemma_cross_orthogonal(u, v);
    lemma_cross_norm(u, v);
    assert(v.dot(u) == u.dot(v)) by (nonlinear_arith);
    assert(v.dot(w) == w.dot(v)) by (nonlinear_arith);
    assert(u.dot(w) == w.dot(u)) by (nonlinear_arith);
    lemma_rotation_scalars(s, u.norm2(), v.norm2(), u.dot(v));
}

/// Rotation by an orientation of unit length keeps the length of the vector, up to the
/// rounding of the result: the rotated vector is never longer than the vector was, and it is
/// shorter by less than one raw unit in each component.
pub proof fn lemma_rotate_keeps_length(vector: Vector3, orientation: Quaternion)
    requires
        orientation.is_unit(),
    ensures
        rotated(vector@, orientation@).norm2() <= vector@.norm2(),
        vector@.norm2() < rotated(vector@, orientation@).norm2() + 2 * rotated(
            vector@,
            orientation@,
        ).norm1() + 3,
{
    let d = ROTATION_SCALE as int;
    let exact = orientation@.rotate(vector@);
    let short = exact.quot(d);
    lemma_rotation_scales_length(orientation@, vector@);
    lemma_quot_shortens(exact, d);
    assert(orientation@.norm2() == d);
    assert(exact.norm2() == vector@.norm2() * d * d);
    assert(vector@.norm2() * d * d == vector@.norm2() * (d * d)) by (nonlinear_arith);
    assert(short.norm2() <= vector@.norm2() < short.norm2() + 2 * short.norm1() + 3)
        by (nonlinear_arith)
        requires
            d * d > 0,
            short.norm2() * (d * d) <= vector@.norm2() * (d * d),
            vector@.norm2() * (d * d) < (short.norm2() + 2 * short.norm1() + 3) * (d * d),
    ;
}

/// Only the zero vector is rotated to zero by the exact closed form, unless the orientation
/// is itself zero.
pub proof fn lemma_rotation_of_nonzero(q: Quat, v: Vec3)
    requires
        q.norm2() != 0,
        v != Vec3::zero(),
    ensures
        q.rotate(v) != Vec3::zero(),
{
    lemma_rotation_scales_length(q, v);
    let n = v.norm2();
    let m = q.norm2();
    assert(n > 0) by (nonlinear_arith)
        requires
            n == v.x * v.x + v.y * v.y + v.z * v.z,
            v.x != 0 || v.y != 0 || v.z != 0,
    ;
    assert(n * m * m != 0) by (nonlinear_arith)
        requires
            n > 0,
            m != 0,
    ;
}

} // verus!

//! How thrust becomes velocity: the two integration policies and the rules they follow.
//!
//! Under the velocity policy the controller steers the linear velocity of a body that the
//! physics of the host moves; under the direct policy the controller keeps a momentum of
//! its own and moves the body by it once a tick.

use vstd::prelude::*;
use crate::algebra::{quot, Vec3};
use crate::root::{ceil_sqrt, ceil_sqrt_of, lemma_ceil_sqrt_exists};
use crate::rounding::{
    lemma_product_bounded, lemma_quot_bounds, lemma_quot_shortens, lemma_scaled_norm,
    lemma_square_monotone, scale_quot,
};
use crate::vector::{Vector3, SECOND};

verus! {

/// Acceleration under full thrust along one axis, in world units per second squared.
pub const K_ACCEL: i64 = 150;

/// The speed that thrust cannot exceed, in raw units per second.
pub const V_MAX: i64 = 150_000_000;

/// The speed above which a body without thrust is slowed, in raw units per second.
pub const V_FLOOR: i64 = 25_000_000;

/// The share of the velocity that drag takes away per second.
pub const K_DRAG: i64 = 4;

/// Under the direct policy a quarter of the thrust of each second goes into the momentum:
/// the thrust of a tick, in raw units times microseconds, is divided by four million.
pub const DIRECT_SCALE: i64 = 4_000_000;

/// How a body is integrated.
#[derive(Clone, Copy, Debug, PartialEq, Eq, Structural)]
pub enum IntegrationPolicy {
    /// The controller owns a momentum and adds it to the position every tick.
    Direct,
    /// The controller sets the linear velocity of a body that the host moves.
    Velocity,
}

/// What the controller is doing in a tick under the velocity policy.
#[derive(Clone, Copy, Debug, PartialEq, Eq, Structural)]
pub enum Phase {
    /// No thrust, and too slow for drag to act.
    Idle,
    /// Thrust acts.
    Thrusting,
    /// No thrust; drag slows the body.
    Coasting,
}

/// The thrust that acts over a span of time: `thrust` in raw units, times `dt` in
/// microseconds.
pub open spec fn impulse(thrust: Vec3, dt: int) -> Vec3 {
    thrust.scaled(dt)
}

/// `velocity` after `thrust` has accelerated it for `dt` microseconds.
pub open spec fn accelerated(velocity: Vec3, thrust: Vec3, dt: int) -> Vec3 {
    velocity.plus(thrust.scaled(dt * K_ACCEL).quot(SECOND as int))
}

/// `velocity` cut back to the length `max` where it is longer, keeping its direction: each
/// component is multiplied by `max` and divided by the length, which is rounded up, so the
/// result is never longer than `max`.
pub open spec fn capped(velocity: Vec3, max: int) -> Vec3 {
    if velocity.norm2() > max * max {
        velocity.scaled(max).quot(ceil_sqrt(velocity.norm2()))
    } else {
        velocity
    }
}

/// `velocity` after drag has acted for `dt` microseconds.
pub open spec fn damped(velocity: Vec3, dt: int) -> Vec3 {
    velocity.minus(velocity.scaled(K_DRAG * dt).quot(SECOND as int))
}

/// The phase of a tick of `dt` microseconds with the given velocity and thrust.
pub open spec fn phase(velocity: Vec3, thrust: Vec3, dt: int) -> Phase {
    if impulse(thrust, dt) != Vec3::zero() {
        Phase::Thrusting
    } else if velocity.norm2() > V_FLOOR * V_FLOOR {
        Phase::Coasting
    } else {
        Phase::Idle
    }
}

/// The velocity after a tick under the velocity policy.
pub open spec fn next_velocity(velocity: Vec3, thrust: Vec3, dt: int) -> Vec3 {
    match phase(velocity, thrust, dt) {
        Phase::Thrusting => capped(accelerated(velocity, thrust, dt), V_MAX as int),
        Phase::Coasting => damped(velocity, dt),
        Phase::Idle => velocity,
    }
}

/// The momentum after a tick under the direct policy. Nothing limits it and nothing slows
/// it down.
pub open spec fn next_momentum(momentum: Vec3, thrust: Vec3, dt: int) -> Vec3 {
    momentum.plus(thrust.scaled(dt).quot(DIRECT_SCALE as int))
}

/// The square of the length of `v`.
fn norm2_of(v: &Vector3) -> (n: u128)
    ensures
        n == v@.norm2(),
        n <= 3 * 0x4000_0000_0000_0000_0000_0000_0000_0000,
{
    proof {
        lemma_product_bounded(v.x as int, v.x as int, 0x8000_0000_0000_0000, 0x8000_0000_0000_0000);
        lemma_product_bounded(v.y as int, v.y as int, 0x8000_0000_0000_0000, 0x8000_0000_0000_0000);
        lemma_product_bounded(v.z as int, v.z as int, 0x8000_0000_0000_0000, 0x8000_0000_0000_0000);
        assert(v.x * v.x >= 0 && v.y * v.y >= 0 && v.z * v.z >= 0) by (nonlinear_arith);
    }
    let x: i128 = v.x as i128;
    let y: i128 = v.y as i128;
    let z: i128 = v.z as i128;
    let xx: u128 = (x * x) as u128;
    let yy: u128 = (y * y) as u128;
    let zz: u128 = (z * z) as u128;
    xx + yy + zz
}

/// Whether `v` is longer than `length`, by the squares of the two.
pub fn exceeds(v: &Vector3, length: i64) -> (b: bool)
    ensures
        b == (v@.norm2() > length * length),
{
    proof {
        lemma_product_bounded(
            length as int,
            length as int,
            0x8000_0000_0000_0000,
            0x8000_0000_0000_0000,
        );
        assert(length * length >= 0) by (nonlinear_arith);
    }
    let l: i128 = length as i128;
    norm2_of(v) > (l * l) as u128
}

/// A scaled vector is zero only where the vector or the factor is.
pub proof fn lemma_scaled_zero(v: Vec3, k: int)
    ensures
        v.scaled(k) == Vec3::zero() <==> (k == 0 || v == Vec3::zero()),
{
    assert(v.x * k == 0 <==> (v.x == 0 || k == 0)) by (nonlinear_arith);
    assert(v.y * k == 0 <==> (v.y == 0 || k == 0)) by (nonlinear_arith);
    assert(v.z * k == 0 <==> (v.z == 0 || k == 0)) by (nonlinear_arith);
}

/// The phase of a tick of `dt` microseconds with the given velocity and thrust.
pub fn phase_of(velocity: &Vector3, thrust: &Vector3, dt: u32) -> (p: Phase)
    ensures
        p == phase(velocity@, thrust@, dt as int),
{
    proof {
        lemma_scaled_zero(thrust@, dt as int);
    }
    if dt != 0 && !thrust.is_zero() {
        Phase::Thrusting
    } else if exceeds(velocity, V_FLOOR) {
        Phase::Coasting
    } else {
        Phase::Idle
    }
}

/// `velocity` after `thrust` has accelerated it for `dt` microseconds.
pub fn accelerate(velocity: &Vector3, thrust: &Vector3, dt: u32) -> (next: Vector3)
    requires
        velocity.in_range(),
        thrust.in_range(),
    ensures
        next@ == accelerated(velocity@, thrust@, dt as int),
        next@.within(0x1000_0000_0000_0000),
{
    let k: i64 = (dt as i64) * K_ACCEL;
    proof {
        lemma_product_bounded(thrust.x as int, k as int, 0x100_0000_0000, 0x96_0000_0000);
        lemma_product_bounded(thrust.y as int, k as int, 0x100_0000_0000, 0x96_0000_0000);
        lemma_product_bounded(thrust.z as int, k as int, 0x100_0000_0000, 0x96_0000_0000);
    }
    let dx: i128 = scale_quot(thrust.x, k, SECOND as i64);
    let dy: i128 = scale_quot(thrust.y, k, SECOND as i64);
    let dz: i128 = scale_quot(thrust.z, k, SECOND as i64);
    Vector3 {
        x: (velocity.x as i128 + dx) as i64,
        y: (velocity.y as i128 + dy) as i64,
        z: (velocity.z as i128 + dz) as i64,
    }
}

/// A capped velocity is never longer than the cap.
pub proof fn lemma_capped_within(velocity: Vec3, max: int)
    requires
        max >= 0,
    ensures
        capped(velocity, max).norm2() <= max * max,
{
    let n = velocity.norm2();
    if n > max * max {
        let root = ceil_sqrt(n);
        lemma_ceil_sqrt_exists(n);
        assert(max * max >= 0) by (nonlinear_arith);
        assert(root > 0) by (nonlinear_arith)
            requires
                root >= 0,
                root * root >= n,
                n > 0,
        ;
        let out = velocity.scaled(max).quot(root);
        lemma_quot_shortens(velocity.scaled(max), root);
        lemma_scaled_norm(velocity, max);
        let rr = root * root;
        let mm = max * max;
        assert(out.norm2() <= mm) by (nonlinear_arith)
            requires
                out.norm2() * rr <= n * mm,
                n <= rr,
                rr > 0,
                mm >= 0,
        ;
    }
}

/// One component of `cap`: `a * max / root` stays within `max` where `a` is no larger than
/// `root`.
proof fn lemma_capped_component(a: int, max: int, root: int)
    requires
        max >= 0,
        root > 0,
        -root <= a <= root,
    ensures
        -max <= quot(a * max, root) <= max,
{
    let q = quot(a * max, root);
    lemma_quot_bounds(a * max, root);
    lemma_product_bounded(a, max, root, max);
    assert(-max <= q <= max) by (nonlinear_arith)
        requires
            root > 0,
            max >= 0,
            (if q >= 0 {
                q
            } else {
                -q
            }) * root <= root * max,
    ;
}

/// Where the square of `a` is at most `n` and the square of `root` at least `n`, `a` is no
/// larger than `root`.
proof fn lemma_component_below_root(a: int, n: int, root: int)
    requires
        a * a <= n,
        root >= 0,
        root * root >= n,
    ensures
        -root <= a <= root,
{
    if a > root {
        lemma_square_monotone(root, a);
    } else if -a > root {
        lemma_square_monotone(root, -a);
        assert((-a) * (-a) == a * a) by (nonlinear_arith);
    }
}

/// `velocity` cut back to the length `max` where it is longer.
pub fn cap(velocity: &Vector3, max: i64) -> (capped_velocity: Vector3)
    requires
        max >= 0,
        velocity@.within(0x1000_0000_0000_0000),
    ensures
        capped_velocity@ == capped(velocity@, max as int),
        capped_velocity@.norm2() <= max * max,
{
    proof {
        lemma_capped_within(velocity@, max as int);
    }
    if !exceeds(velocity, max) {
        return *velocity;
    }
    let n: u128 = norm2_of(velocity);
    proof {
        lemma_product_bounded(
            velocity.x as int,
            velocity.x as int,
            0x1000_0000_0000_0000,
            0x1000_0000_0000_0000,
        );
        lemma_product_bounded(
            velocity.y as int,
            velocity.y as int,
            0x1000_0000_0000_0000,
            0x1000_0000_0000_0000,
        );
        lemma_product_bounded(
            velocity.z as int,
            velocity.z as int,
            0x1000_0000_0000_0000,
            0x1000_0000_0000_0000,
        );
        assert(max * max >= 0) by (nonlinear_arith);
    }
    let root: u128 = ceil_sqrt_of(n);
    proof {
        // The root of a number below 2^122 is at most 2^61.
        if root > 0x2000_0000_0000_0000 {
            lemma_square_monotone(0x2000_0000_0000_0000, root - 1);
        }
        assert(velocity.x * velocity.x >= 0 && velocity.y * velocity.y >= 0 && velocity.z
            * velocity.z >= 0) by (nonlinear_arith);
        lemma_component_below_root(velocity.x as int, n as int, root as int);
        lemma_component_below_root(velocity.y as int, n as int, root as int);
        lemma_component_below_root(velocity.z as int, n as int, root as int);
        lemma_capped_component(velocity.x as int, max as int, root as int);
        lemma_capped_component(velocity.y as int, max as int, root as int);
        lemma_capped_component(velocity.z as int, max as int, root as int);
    }
    let r: i64 = root as i64;
    let x: i128 = scale_quot(velocity.x, max, r);
    let y: i128 = scale_quot(velocity.y, max, r);
    let z: i128 = scale_quot(velocity.z, max, r);
    Vector3 { x: x as i64, y: y as i64, z: z as i64 }
}

/// `velocity` after drag has acted for `dt` microseconds.
pub fn damp(velocity: &Vector3, dt: u32) -> (next: Vector3)
    requires
        velocity.in_range(),
    ensures
        next@ == damped(velocity@, dt as int),
{
    let k: i64 = K_DRAG * (dt as i64);
    proof {
        lemma_product_bounded(velocity.x as int, k as int, 0x100_0000_0000, 0x4_0000_0000);
        lemma_product_bounded(velocity.y as int, k as int, 0x100_0000_0000, 0x4_0000_0000);
        lemma_product_bounded(velocity.z as int, k as int, 0x100_0000_0000, 0x4_0000_0000);
    }
    let dx: i128 = scale_quot(velocity.x, k, SECOND as i64);
    let dy: i128 = scale_quot(velocity.y, k, SECOND as i64);
    let dz: i128 = scale_quot(velocity.z, k, SECOND as i64);
    Vector3 {
        x: (velocity.x as i128 - dx) as i64,
        y: (velocity.y as i128 - dy) as i64,
        z: (velocity.z as i128 - dz) as i64,
    }
}

/// One tick of the velocity policy: thrust accelerates up to `V_MAX`; without thrust, drag
/// slows a body that is faster than `V_FLOOR`; a slower body keeps its velocity.
pub fn integrate_velocity(velocity: &Vector3, thrust: &Vector3, dt: u32) -> (next: Vector3)
    requires
        velocity.in_range(),
        thrust.in_range(),
    ensures
        next@ == next_velocity(velocity@, thrust@, dt as int),
        phase(velocity@, thrust@, dt as int) == Phase::Thrusting ==> next@.norm2() <= V_MAX * V_MAX,
{
    match phase_of(velocity, thrust, dt) {
        Phase::Thrusting => {
            let faster = accelerate(velocity, thrust, dt);
            cap(&faster, V_MAX)
        },
        Phase::Coasting => damp(velocity, dt),
        Phase::Idle => *velocity,
    }
}

/// One tick of the direct policy: the thrust of the tick is added to the momentum.
pub fn integrate_momentum(momentum: &Vector3, thrust: &Vector3, dt: u32) -> (next: Vector3)
    requires
        momentum.in_range(),
        thrust.in_range(),
    ensures
        next@ == next_momentum(momentum@, thrust@, dt as int),
        next@.within(0x8_0000_0000_0000),
{
    let k: i64 = dt as i64;
    proof {
        lemma_product_bounded(thrust.x as int, k as int, 0x100_0000_0000, 0x1_0000_0000);
        lemma_product_bounded(thrust.y as int, k as int, 0x100_0000_0000, 0x1_0000_0000);
        lemma_product_bounded(thrust.z as int, k as int, 0x100_0000_0000, 0x1_0000_0000);
    }
    let dx: i128 = scale_quot(thrust.x, k, DIRECT_SCALE);
    let dy: i128 = scale_quot(thrust.y, k, DIRECT_SCALE);
    let dz: i128 = scale_quot(thrust.z, k, DIRECT_SCALE);
    Vector3 {
        x: (momentum.x as i128 + dx) as i64,
        y: (momentum.y as i128 + dy) as i64,
        z: (momentum.z as i128 + dz) as i64,
    }
}

} // verus!

//! What holds of the integration policies over every input: the speed limit under thrust,
//! the slowing under drag, and what a tick of no time does.

use vstd::prelude::*;
use crate::algebra::{magnitude, quot, Vec3};
use crate::integration::{
    accelerated, capped, damped, impulse, lemma_capped_within, lemma_scaled_zero, next_momentum,
    next_velocity, phase, Phase, K_DRAG, V_FLOOR, V_MAX,
};
use crate::root::{ceil_sqrt, lemma_ceil_sqrt_exists};
use crate::rounding::{lemma_quot_bounds, lemma_square_monotone};
use crate::vector::SECOND;

verus! {

/// One component of `lemma_capped_keeps_direction`.
proof fn lemma_capped_component_keeps_sign(a: int, max: int, root: int)
    requires
        0 <= max <= root,
        root > 0,
    ensures
        magnitude(quot(a * max, root)) <= magnitude(a),
        a >= 0 ==> quot(a * max, root) >= 0,
        a <= 0 ==> quot(a * max, root) <= 0,
{
    let q = magnitude(quot(a * max, root));
    let m = magnitude(a);
    lemma_quot_bounds(a * max, root);
    assert(magnitude(a * max) == m * max && (a >= 0 ==> a * max >= 0) && (a <= 0 ==> a * max <= 0))
        by (nonlinear_arith)
        requires
            max >= 0,
            m == magnitude(a),
    ;
    assert(q <= m) by (nonlinear_arith)
        requires
            q * root <= m * max,
            0 <= max <= root,
            root > 0,
            m >= 0,
            q >= 0,
    ;
}

/// Capping keeps the direction of a velocity: no component changes its sign, and none
/// grows.
pub proof fn lemma_capped_keeps_direction(velocity: Vec3, max: int)
    requires
        max >= 0,
    ensures
        ({
            let slower = capped(velocity, max);
            &&& magnitude(slower.x) <= magnitude(velocity.x)
            &&& magnitude(slower.y) <= magnitude(velocity.y)
            &&& magnitude(slower.z) <= magnitude(velocity.z)
            &&& velocity.x >= 0 ==> slower.x >= 0
            &&& velocity.x <= 0 ==> slower.x <= 0
            &&& velocity.y >= 0 ==> slower.y >= 0
            &&& velocity.y <= 0 ==> slower.y <= 0
            &&& velocity.z >= 0 ==> slower.z >= 0
            &&& velocity.z <= 0 ==> slower.z <= 0
        }),
{
    let n = velocity.norm2();
    if n > max * max {
        let root = ceil_sqrt(n);
        lemma_ceil_sqrt_exists(n);
        if root < max {
            lemma_square_monotone(root, max);
        }
        assert(root > 0) by (nonlinear_arith)
            requires
                root >= 0,
                root * root >= n,
                n > max * max,
        ;
        lemma_capped_component_keeps_sign(velocity.x, max, root);
        lemma_capped_component_keeps_sign(velocity.y, max, root);
        lemma_capped_component_keeps_sign(velocity.z, max, root);
    }
}

/// Under thrust the velocity policy never lets the speed pass `V_MAX`, whatever the
/// velocity was before.
pub proof fn lemma_thrust_keeps_speed_limit(velocity: Vec3, thrust: Vec3, dt: int)
    requires
        phase(velocity, thrust, dt) == Phase::Thrusting,
    ensures
        next_velocity(velocity, thrust, dt).norm2() <= V_MAX * V_MAX,
{
    lemma_capped_within(accelerated(velocity, thrust, dt), V_MAX as int);
}

/// Drag on one component, for a component that is not negative.
proof fn lemma_drag_component_positive(a: int, k: int, s: int)
    requires
        a >= 0,
        s > 0,
        0 < k < 2 * s,
    ensures
        -a <= a - quot(a * k, s) <= a,
        a * k >= s ==> -a < a - quot(a * k, s) < a,
{
    let q = quot(a * k, s);
    assert(a * k >= 0) by (nonlinear_arith)
        requires
            a >= 0,
            k > 0,
    ;
    lemma_quot_bounds(a * k, s);
    assert(q >= 0);
    if a == 0 {
        assert(a * k == 0) by (nonlinear_arith)
            requires
                a == 0,
        ;
        assert(q == 0) by (nonlinear_arith)
            requires
                q >= 0,
                q * s <= 0,
                s > 0,
        ;
    } else {
        assert(q < 2 * a) by (nonlinear_arith)
            requires
                q * s <= a * k,
                0 < k < 2 * s,
                a > 0,
                s > 0,
        ;
        if a * k >= s {
            assert(q >= 1) by (nonlinear_arith)
                requires
                    a * k < (q + 1) * s,
                    a * k >= s,
                    s > 0,
            ;
        }
    }
}

/// Drag on one component: it never grows, and it shrinks where the drag of the tick
/// amounts to a whole raw unit.
proof fn lemma_drag_component(a: int, k: int, s: int)
    requires
        s > 0,
        0 < k < 2 * s,
    ensures
        (a - quot(a * k, s)) * (a - quot(a * k, s)) <= a * a,
        magnitude(a) * k >= s ==> (a - quot(a * k, s)) * (a - quot(a * k, s)) < a * a,
{
    let m = magnitude(a);
    let b = a - quot(a * k, s);
    lemma_drag_component_positive(m, k, s);
    let c = m - quot(m * k, s);
    if a < 0 {
        assert(a * k == -(m * k)) by (nonlinear_arith)
            requires
                m == -a,
        ;
        lemma_quot_bounds(m * k, s);
        assert(b == -c);
    } else {
        assert(b == c);
    }
    assert(b * b == magnitude(c) * magnitude(c)) by (nonlinear_arith)
        requires
            b == c || b == -c,
            magnitude(c) == c || magnitude(c) == -c,
    ;
    assert(m * m == a * a) by (nonlinear_arith)
        requires
            m == a || m == -a,
    ;
    lemma_square_monotone(magnitude(c), m);
}

/// Drag never lengthens a velocity, over a tick shorter than the time in which drag alone
/// would turn the velocity round.
pub proof fn lemma_drag_never_speeds_up(velocity: Vec3, dt: int)
    requires
        0 < K_DRAG * dt < 2 * SECOND,
    ensures
        damped(velocity, dt).norm2() <= velocity.norm2(),
{
    let k = K_DRAG * dt;
    lemma_drag_component(velocity.x, k, SECOND as int);
    lemma_drag_component(velocity.y, k, SECOND as int);
    lemma_drag_component(velocity.z, k, SECOND as int);
}

/// Without thrust, a body faster than `V_FLOOR` is strictly slower after the tick, for
/// every tick that takes time and is shorter than half a second (the time in which drag
/// alone would turn the velocity round).
pub proof fn lemma_drag_slows(velocity: Vec3, thrust: Vec3, dt: int)
    requires
        0 < K_DRAG * dt < 2 * SECOND,
        thrust == Vec3::zero(),
        velocity.norm2() > V_FLOOR * V_FLOOR,
    ensures
        phase(velocity, thrust, dt) == Phase::Coasting,
        next_velocity(velocity, thrust, dt).norm2() < velocity.norm2(),
{
    lemma_scaled_zero(thrust, dt);
    let k = K_DRAG * dt;
    let s = SECOND as int;
    lemma_drag_component(velocity.x, k, s);
    lemma_drag_component(velocity.y, k, s);
    lemma_drag_component(velocity.z, k, s);
    // A velocity above the floor has a component of at least a world unit, on which the drag
    // of even the shortest tick amounts to a whole raw unit.
    let (x, y, z) = (magnitude(velocity.x), magnitude(velocity.y), magnitude(velocity.z));
    if x < s && y < s && z < s {
        lemma_square_monotone(x, s);
        lemma_square_monotone(y, s);
        lemma_square_monotone(z, s);
        assert(x * x == velocity.x * velocity.x && y * y == velocity.y * velocity.y && z * z
            == velocity.z * velocity.z) by (nonlinear_arith)
            requires
                x == velocity.x || x == -velocity.x,
                y == velocity.y || y == -velocity.y,
                z == velocity.z || z == -velocity.z,
        ;
        assert(false);
    }
    if x >= s {
        assert(x * k >= s) by (nonlinear_arith)
            requires
                x >= s,
                k >= 1,
                s > 0,
        ;
    } else if y >= s {
        assert(y * k >= s) by (nonlinear_arith)
            requires
                y >= s,
                k >= 1,
                s > 0,
        ;
    } else {
        assert(z * k >= s) by (nonlinear_arith)
            requires
                z >= s,
                k >= 1,
                s > 0,
        ;
    }
}

/// Without thrust, a body no faster than `V_FLOOR` keeps its velocity.
pub proof fn lemma_rest_is_held(velocity: Vec3, thrust: Vec3, dt: int)
    requires
        impulse(thrust, dt) == Vec3::zero(),
        velocity.norm2() <= V_FLOOR * V_FLOOR,
    ensures
        phase(velocity, thrust, dt) == Phase::Idle,
        next_velocity(velocity, thrust, dt) == velocity,
{
}

/// A tick that takes no time changes neither a velocity nor a momentum.
pub proof fn lemma_no_time_no_change(vector: Vec3, thrust: Vec3)
    ensures
        next_velocity(vector, thrust, 0) == vector,
        next_momentum(vector, thrust, 0) == vector,
{
    lemma_scaled_zero(thrust, 0);
    assert(thrust.scaled(0) == Vec3::zero());
    assert(vector.scaled(K_DRAG * 0) == Vec3::zero()) by {
        lemma_scaled_zero(vector, 0);
    }
}

/// One tick as the velocity policy sees it: the thrust in the world and the time it acts.
pub struct Step {
    pub thrust: Vec3,
    pub dt: int,
}

/// The velocity after a sequence of ticks, first to last, each starting from the velocity
/// that the one before it left.
pub open spec fn velocity_after(velocity: Vec3, steps: Seq<Step>) -> Vec3
    decreases steps.len(),
{
    if steps.len() == 0 {
        velocity
    } else {
        next_velocity(
            velocity_after(velocity, steps.drop_last()),
            steps.last().thrust,
            steps.last().dt,
        )
    }
}

/// After any sequence of ticks with thrust, at least one, the speed is at most `V_MAX`,
/// whatever it was at the start.
pub proof fn lemma_sustained_thrust_keeps_speed_limit(velocity: Vec3, steps: Seq<Step>)
    requires
        steps.len() > 0,
        forall|i: int|
            0 <= i < steps.len() ==> impulse((#[trigger] steps[i]).thrust, steps[i].dt)
                != Vec3::zero(),
    ensures
        velocity_after(velocity, steps).norm2() <= V_MAX * V_MAX,
{
    let last = steps.last();
    let before = velocity_after(velocity, steps.drop_last());
    lemma_thrust_keeps_speed_limit(before, last.thrust, last.dt);
}

/// Without thrust the speed never rises, over any sequence of ticks that are each shorter
/// than half a second.
pub proof fn lemma_coasting_never_speeds_up(velocity: Vec3, steps: Seq<Step>)
    requires
        forall|i: int|
            0 <= i < steps.len() ==> (#[trigger] steps[i]).thrust == Vec3::zero() && 0 <= K_DRAG
                * steps[i].dt < 2 * SECOND,
    ensures
        velocity_after(velocity, steps).norm2() <= velocity.norm2(),
    decreases steps.len(),
{
    if steps.len() > 0 {
        let before = velocity_after(velocity, steps.drop_last());
        let last = steps.last();
        lemma_coasting_never_speeds_up(velocity, steps.drop_last());
        lemma_scaled_zero(last.thrust, last.dt);
        if last.dt == 0 {
            lemma_no_time_no_change(before, last.thrust);
        } else {
            lemma_drag_never_speeds_up(before, last.dt);
        }
    }
}

} // verus!

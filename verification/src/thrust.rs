//! The thrust that the pressed movement keys ask for.

use vstd::prelude::*;
use crate::algebra::Vec3;
use crate::input::VirtualKeyCode;
use crate::quaternion::Quaternion;
use crate::rotation::{lemma_rotated_unit_in_range, rotate, rotated};
use crate::vector::{Vector3, UNIT};

verus! {

/// The six directions of thrust, in the frame of the body.
#[derive(Clone, Copy, Debug, PartialEq, Eq, Structural)]
pub enum Direction {
    Forward,
    Back,
    Up,
    Down,
    Left,
    Right,
}

/// Which of the six directions are held at the moment. Opposite directions may be held
/// together; they cancel.
#[derive(Clone, Copy, Debug, PartialEq, Eq, Structural)]
pub struct Thrust {
    pub forward: bool,
    pub back: bool,
    pub up: bool,
    pub down: bool,
    pub left: bool,
    pub right: bool,
}

/// The part of the thrust along one axis: one for the positive direction alone, minus one
/// for the negative direction alone, zero for neither or both.
pub open spec fn axis(positive: bool, negative: bool) -> int {
    (if positive {
        1int
    } else {
        0int
    }) - (if negative {
        1int
    } else {
        0int
    })
}

/// The direction that a key stands for, if any.
pub open spec fn key_direction(key: VirtualKeyCode) -> Option<Direction> {
    match key {
        VirtualKeyCode::W => Some(Direction::Forward),
        VirtualKeyCode::S => Some(Direction::Back),
        VirtualKeyCode::A => Some(Direction::Left),
        VirtualKeyCode::D => Some(Direction::Right),
        VirtualKeyCode::LShift => Some(Direction::Up),
        VirtualKeyCode::LControl => Some(Direction::Down),
        VirtualKeyCode::Other => None,
    }
}

impl Thrust {
    /// No direction held.
    pub open spec fn none() -> Thrust {
        Thrust { forward: false, back: false, up: false, down: false, left: false, right: false }
    }

    /// The state with `direction` set to `active` and the other five as they are.
    pub open spec fn with(self, direction: Direction, active: bool) -> Thrust {
        match direction {
            Direction::Forward => Thrust { forward: active, ..self },
            Direction::Back => Thrust { back: active, ..self },
            Direction::Up => Thrust { up: active, ..self },
            Direction::Down => Thrust { down: active, ..self },
            Direction::Left => Thrust { left: active, ..self },
            Direction::Right => Thrust { right: active, ..self },
        }
    }

    /// The thrust in the frame of the body: left minus right, up minus down, forward minus
    /// back, each a whole number of world units. The vector is not normalised, so thrust
    /// along two axes at once is longer than thrust along one.
    pub open spec fn local(self) -> Vec3 {
        Vec3 {
            x: axis(self.left, self.right) * UNIT,
            y: axis(self.up, self.down) * UNIT,
            z: axis(self.forward, self.back) * UNIT,
        }
    }

    pub fn new() -> (thrust: Thrust)
        ensures
            thrust == Thrust::none(),
    {
        Thrust { forward: false, back: false, up: false, down: false, left: false, right: false }
    }

    /// Records that `direction` is held (`active`) or released.
    pub fn set_direction(&mut self, direction: Direction, active: bool)
        ensures
            *final(self) == old(self).with(direction, active),
    {
        match direction {
            Direction::Forward => self.forward = active,
            Direction::Back => self.back = active,
            Direction::Up => self.up = active,
            Direction::Down => self.down = active,
            Direction::Left => self.left = active,
            Direction::Right => self.right = active,
        }
    }

    /// The direction that `key` stands for: W and S forward and back, A and D left and
    /// right, left shift and left control up and down.
    pub fn direction_of(key: VirtualKeyCode) -> (direction: Option<Direction>)
        ensures
            direction == key_direction(key),
    {
        match key {
            VirtualKeyCode::W => Some(Direction::Forward),
            VirtualKeyCode::S => Some(Direction::Back),
            VirtualKeyCode::A => Some(Direction::Left),
            VirtualKeyCode::D => Some(Direction::Right),
            VirtualKeyCode::LShift => Some(Direction::Up),
            VirtualKeyCode::LControl => Some(Direction::Down),
            VirtualKeyCode::Other => None,
        }
    }

    /// The thrust in the frame of the body.
    pub fn to_vector(&self) -> (vector: Vector3)
        ensures
            vector@ == self.local(),
            vector.in_range(),
    {
        let x: i64 = Self::axis_of(self.left, self.right);
        let y: i64 = Self::axis_of(self.up, self.down);
        let z: i64 = Self::axis_of(self.forward, self.back);
        Vector3 { x: x * UNIT, y: y * UNIT, z: z * UNIT }
    }

    /// The thrust in the frame of the world, for a body that faces along `rotation`.
    pub fn to_rotated_vector(&self, rotation: Quaternion) -> (vector: Vector3)
        ensures
            vector@ == rotated(self.local(), rotation@),
            vector.in_range(),
    {
        let local = self.to_vector();
        proof {
            lemma_rotated_unit_in_range(self.local(), rotation);
        }
        rotate(&local, &rotation)
    }

    fn axis_of(positive: bool, negative: bool) -> (a: i64)
        ensures
            a == axis(positive, negative),
    {
        let p: i64 = if positive {
            1
        } else {
            0
        };
        let n: i64 = if negative {
            1
        } else {
            0
        };
        p - n
    }
}

impl Default for Thrust {
    fn default() -> (thrust: Thrust)
        ensures
            thrust == Thrust::none(),
    {
        Thrust::new()
    }
}

/// With no direction held there is no thrust.
pub proof fn lemma_no_thrust_at_rest()
    ensures
        Thrust::none().local() == Vec3::zero(),
{
}

/// Opposite directions held together cancel along their axis, whatever else is held.
pub proof fn lemma_opposites_cancel(thrust: Thrust)
    ensures
        thrust.forward && thrust.back ==> thrust.local().z == 0,
        thrust.left && thrust.right ==> thrust.local().x == 0,
        thrust.up && thrust.down ==> thrust.local().y == 0,
{
}

/// Each component of the thrust is minus one, zero or one world unit, and the square of its
/// length is the number of axes with thrust: thrust along two axes has length `sqrt(2)`.
pub proof fn lemma_thrust_length(thrust: Thrust)
    ensures
        ({
            let v = thrust.local();
            &&& v.x == -UNIT || v.x == 0 || v.x == UNIT
            &&& v.y == -UNIT || v.y == 0 || v.y == UNIT
            &&& v.z == -UNIT || v.z == 0 || v.z == UNIT
            &&& v.norm2() == (magnitude_of_axis(thrust.left, thrust.right) + magnitude_of_axis(
                thrust.up,
                thrust.down,
            ) + magnitude_of_axis(thrust.forward, thrust.back)) * (UNIT * UNIT)
        }),
{
    lemma_axis_square(thrust.left, thrust.right);
    lemma_axis_square(thrust.up, thrust.down);
    lemma_axis_square(thrust.forward, thrust.back);
    let u = UNIT * UNIT;
    let (a, b, c) = (
        magnitude_of_axis(thrust.left, thrust.right),
        magnitude_of_axis(thrust.up, thrust.down),
        magnitude_of_axis(thrust.forward, thrust.back),
    );
    assert((a + b + c) * u == a * u + b * u + c * u) by (nonlinear_arith);
}

proof fn lemma_axis_square(positive: bool, negative: bool)
    ensures
        (axis(positive, negative) * UNIT) * (axis(positive, negative) * UNIT) == magnitude_of_axis(
            positive,
            negative,
        ) * (UNIT * UNIT),
{
    let a = axis(positive, negative);
    assert((a * UNIT) * (a * UNIT) == (a * a) * (UNIT * UNIT)) by (nonlinear_arith);
    assert(a * a == magnitude_of_axis(positive, negative)) by (nonlinear_arith)
        requires
            a == -1 || a == 0 || a == 1,
            magnitude_of_axis(positive, negative) == (if a == 0 {
                0int
            } else {
                1int
            }),
    ;
}

/// One where exactly one of the two opposite directions is held, else zero.
pub open spec fn magnitude_of_axis(positive: bool, negative: bool) -> int {
    if positive != negative {
        1
    } else {
        0
    }
}

/// Setting a direction twice to the same state is the same as setting it once.
pub proof fn lemma_set_direction_idempotent(thrust: Thrust, direction: Direction, active: bool)
    ensures
        thrust.with(direction, active).with(direction, active) == thrust.with(direction, active),
{
}

} // verus!

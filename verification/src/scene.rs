//! What the controller knows of the scene of its host: handles that name nodes, and the
//! transform of a node as plain values.

use vstd::prelude::*;
use crate::quaternion::Quaternion;
use crate::vector::Vector3;

verus! {

/// The name of a node in the scene of the host: a slot and the generation of its occupant.
/// The controller never follows a handle; it keeps handles and hands them back.
#[derive(Clone, Copy, Debug, PartialEq, Eq, Structural)]
pub struct Handle {
    pub index: u32,
    pub generation: u32,
}

impl Handle {
    /// Whether the handle names nothing.
    pub open spec fn names_nothing(self) -> bool {
        self.index == 0 && self.generation == 0
    }

    pub fn new(index: u32, generation: u32) -> (handle: Handle)
        ensures
            handle == (Handle { index, generation }),
    {
        Handle { index, generation }
    }

    /// The handle that names nothing.
    pub fn none() -> (handle: Handle)
        ensures
            handle == (Handle { index: 0, generation: 0 }),
            handle.names_nothing(),
    {
        Handle { index: 0, generation: 0 }
    }

    pub fn is_none(&self) -> (b: bool)
        ensures
            b == self.names_nothing(),
    {
        self.index == 0 && self.generation == 0
    }

    pub fn is_some(&self) -> (b: bool)
        ensures
            b == !self.names_nothing(),
    {
        !self.is_none()
    }
}

/// The local transform of a node: where it is and how it is turned.
#[derive(Clone, Copy, Debug, PartialEq, Eq, Structural)]
pub struct Transform {
    pub position: Vector3,
    pub rotation: Quaternion,
}

} // verus!

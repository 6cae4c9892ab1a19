//! The input events that the host hands to the controller, already decoded.

use vstd::prelude::*;

verus! {

/// Whether a key went down or came up.
#[derive(Clone, Copy, Debug, PartialEq, Eq, Structural)]
pub enum ElementState {
    Pressed,
    Released,
}

/// The keys that the controller tells apart.
#[derive(Clone, Copy, Debug, PartialEq, Eq, Structural)]
pub enum VirtualKeyCode {
    W,
    S,
    A,
    D,
    LShift,
    LControl,
    /// Any key without a meaning for the controller.
    Other,
}

/// One transition of one key. The key code is absent where the host could not name the key.
#[derive(Clone, Copy, Debug, PartialEq, Eq, Structural)]
pub struct KeyboardInput {
    pub virtual_keycode: Option<VirtualKeyCode>,
    pub state: ElementState,
}

/// An event of a raw input device.
#[derive(Clone, Copy, Debug, PartialEq, Eq, Structural)]
pub enum DeviceEvent {
    /// The pointer moved by `dx` to the right and `dy` downwards, both in millionths of a
    /// device unit.
    MouseMotion { dx: i64, dy: i64 },
    /// Any other event.
    Other,
}

} // verus!

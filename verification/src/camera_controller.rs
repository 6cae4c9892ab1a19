//! The camera rig: yaw, pitch and roll gathered from the pointer, and the pivot that
//! carries them.
//!
//! Angles are `i64` counts of microradians. The rig does not turn its angles into a
//! quaternion, which takes the sine and cosine of each: it hands out the three angles in
//! the order in which they compose, and takes the orientation of the pivot as the host
//! gives it.

use vstd::prelude::*;
use crate::algebra::{limit, quot};
use crate::input::DeviceEvent;
use crate::quaternion::Quaternion;
use crate::rounding::scale_quot;
use crate::scene::{Handle, Transform};
use crate::vector::Vector3;

verus! {

/// The largest pitch under the clamped policy, up or down: a quarter turn, rounded down to
/// a whole number of microradians.
pub const PITCH_LIMIT: i64 = 1_570_796;

/// The divisor that turns pointer travel times sensitivity into an angle: travel and
/// sensitivity both count millionths, a thousandth of their product is the angle in
/// radians, and the angle is kept in microradians.
pub const TURN_SCALE: i64 = 1_000_000_000;

/// How the rig treats its angles.
#[derive(Clone, Copy, Debug, PartialEq, Eq, Structural)]
pub enum RotationPolicy {
    /// Pitch stays within a quarter turn of level; yaw and pitch compose, roll does not.
    ClampedPivot,
    /// Yaw, pitch and roll are summed without limit and all three compose.
    FreeQuaternion,
}

/// Three angles in microradians. They compose in this order: yaw about the vertical axis,
/// then pitch about the side axis, then roll about the forward axis.
#[derive(Clone, Copy, Debug, PartialEq, Eq, Structural)]
pub struct EulerAngles {
    pub yaw: i64,
    pub pitch: i64,
    pub roll: i64,
}

/// The angle that pointer travel `delta` stands for at `sensitivity`: a thousandth of
/// their product, rounded toward zero.
pub open spec fn turn(delta: int, sensitivity: int) -> int {
    quot(delta * sensitivity, TURN_SCALE as int)
}

/// The state of a camera rig, with unbounded angles.
pub struct CameraModel {
    pub mouse_sensitivity: int,
    pub pivot: Handle,
    pub camera: Handle,
    pub yaw: int,
    pub pitch: int,
    pub roll: int,
    pub policy: RotationPolicy,
}

impl CameraModel {
    /// The pitch after `pitch` is added to it, under the policy of the rig.
    pub open spec fn pitch_after(self, pitch: int) -> int {
        match self.policy {
            RotationPolicy::ClampedPivot => limit(
                self.pitch + pitch,
                -PITCH_LIMIT as int,
                PITCH_LIMIT as int,
            ),
            RotationPolicy::FreeQuaternion => self.pitch + pitch,
        }
    }

    /// The rig after the three angles are added to it.
    pub open spec fn rotated_by(self, yaw: int, pitch: int, roll: int) -> CameraModel {
        CameraModel {
            yaw: self.yaw + yaw,
            pitch: self.pitch_after(pitch),
            roll: self.roll + roll,
            ..self
        }
    }

    /// The rig after an event of the pointer. Travel to the right lowers the yaw; travel
    /// downwards raises the pitch; the roll is never driven.
    pub open spec fn after(self, event: DeviceEvent) -> CameraModel {
        match event {
            DeviceEvent::MouseMotion { dx, dy } => self.rotated_by(
                -turn(dx as int, self.mouse_sensitivity),
                turn(dy as int, self.mouse_sensitivity),
                0,
            ),
            DeviceEvent::Other => self,
        }
    }

    /// The rig after a sequence of events, first to last.
    pub open spec fn after_all(self, events: Seq<DeviceEvent>) -> CameraModel
        decreases events.len(),
    {
        if events.len() == 0 {
            self
        } else {
            self.after_all(events.drop_last()).after(events.last())
        }
    }

    /// Whether the three angles fit the numbers that the rig keeps them in.
    pub open spec fn representable(self) -> bool {
        &&& i64::MIN <= self.yaw <= i64::MAX
        &&& i64::MIN <= self.pitch <= i64::MAX
        &&& i64::MIN <= self.roll <= i64::MAX
    }

    /// Under the clamped policy the pitch is within a quarter turn of level.
    pub open spec fn pitch_bounded(self) -> bool {
        self.policy == RotationPolicy::ClampedPivot ==> -PITCH_LIMIT <= self.pitch <= PITCH_LIMIT
    }

    /// The three angles that compose to the orientation of the rig. Under the clamped
    /// policy the roll does not take part.
    pub open spec fn angles(self) -> (int, int, int) {
        match self.policy {
            RotationPolicy::ClampedPivot => (self.yaw, self.pitch, 0),
            RotationPolicy::FreeQuaternion => (self.yaw, self.pitch, self.roll),
        }
    }
}

/// A camera rig.
#[derive(Clone, Copy, Debug)]
pub struct CameraController {
    mouse_sensitivity: i64,
    pivot: Handle,
    camera: Handle,
    yaw: i64,
    pitch: i64,
    roll: i64,
    policy: RotationPolicy,
}

impl View for CameraController {
    type V = CameraModel;

    closed spec fn view(&self) -> CameraModel {
        CameraModel {
            mouse_sensitivity: self.mouse_sensitivity as int,
            pivot: self.pivot,
            camera: self.camera,
            yaw: self.yaw as int,
            pitch: self.pitch as int,
            roll: self.roll as int,
            policy: self.policy,
        }
    }
}

impl CameraController {
    #[verifier::type_invariant]
    spec fn pitch_is_bounded(self) -> bool {
        self@.pitch_bounded()
    }

    /// A rig that looks straight ahead, for the pivot and the camera that the host has
    /// built. `mouse_sensitivity` counts millionths.
    pub fn new(
        pivot: Handle,
        camera: Handle,
        mouse_sensitivity: i64,
        policy: RotationPolicy,
    ) -> (rig: CameraController)
        ensures
            rig@ == (CameraModel {
                mouse_sensitivity: mouse_sensitivity as int,
                pivot,
                camera,
                yaw: 0,
                pitch: 0,
                roll: 0,
                policy,
            }),
            rig@.representable(),
            rig@.pitch_bounded(),
    {
        CameraController { mouse_sensitivity, pivot, camera, yaw: 0, pitch: 0, roll: 0, policy }
    }

    pub fn pivot(&self) -> (handle: Handle)
        ensures
            handle == self@.pivot,
    {
        self.pivot
    }

    pub fn camera(&self) -> (handle: Handle)
        ensures
            handle == self@.camera,
    {
        self.camera
    }

    pub fn mouse_sensitivity(&self) -> (sensitivity: i64)
        ensures
            sensitivity == self@.mouse_sensitivity,
    {
        self.mouse_sensitivity
    }

    pub fn policy(&self) -> (policy: RotationPolicy)
        ensures
            policy == self@.policy,
    {
        self.policy
    }

    pub fn yaw(&self) -> (yaw: i64)
        ensures
            yaw == self@.yaw,
    {
        self.yaw
    }

    /// The pitch. Under the clamped policy it is within a quarter turn of level at every
    /// moment of the life of a rig.
    pub fn pitch(&self) -> (pitch: i64)
        ensures
            pitch == self@.pitch,
            self@.pitch_bounded(),
    {
        proof {
            use_type_invariant(self);
        }
        self.pitch
    }

    pub fn roll(&self) -> (roll: i64)
        ensures
            roll == self@.roll,
    {
        self.roll
    }

    /// Whether `rotate_by` can take the three angles: whether the sums fit.
    pub fn can_rotate_by(&self, yaw: i64, pitch: i64, roll: i64) -> (fits: bool)
        ensures
            fits == self@.rotated_by(yaw as int, pitch as int, roll as int).representable(),
    {
        self.can_turn_by(yaw as i128, pitch as i128, roll as i128)
    }

    /// Whether `handle_device_event` can take the event: whether the angles after it fit.
    pub fn accepts(&self, device_event: &DeviceEvent) -> (fits: bool)
        ensures
            fits == self@.after(*device_event).representable(),
    {
        match device_event {
            DeviceEvent::MouseMotion { dx, dy } => {
                let yaw: i128 = scale_quot(*dx, self.mouse_sensitivity, TURN_SCALE);
                let pitch: i128 = scale_quot(*dy, self.mouse_sensitivity, TURN_SCALE);
                self.can_turn_by(-yaw, pitch, 0)
            },
            DeviceEvent::Other => true,
        }
    }

    /// Adds to the three angles. Under the clamped policy the pitch stops at a quarter turn
    /// up or down.
    pub fn rotate_by(&mut self, yaw: i64, pitch: i64, roll: i64)
        requires
            old(self)@.rotated_by(yaw as int, pitch as int, roll as int).representable(),
        ensures
            final(self)@ == old(self)@.rotated_by(yaw as int, pitch as int, roll as int),
            final(self)@.pitch_bounded(),
    {
        self.turn_by(yaw as i128, pitch as i128, roll as i128);
    }

    /// Takes an event of the pointer into the angles: travel to the right lowers the yaw,
    /// travel downwards raises the pitch. Any other event changes nothing.
    pub fn handle_device_event(&mut self, device_event: &DeviceEvent)
        requires
            old(self)@.after(*device_event).representable(),
        ensures
            final(self)@ == old(self)@.after(*device_event),
            final(self)@.pitch_bounded(),
    {
        proof {
            use_type_invariant(&*self);
        }
        match device_event {
            DeviceEvent::MouseMotion { dx, dy } => {
                let yaw: i128 = scale_quot(*dx, self.mouse_sensitivity, TURN_SCALE);
                let pitch: i128 = scale_quot(*dy, self.mouse_sensitivity, TURN_SCALE);
                self.turn_by(-yaw, pitch, 0);
            },
            DeviceEvent::Other => {},
        }
    }

    /// The angles to compose into the rotation of the pivot.
    pub fn update(&self) -> (angles: EulerAngles)
        ensures
            (angles.yaw as int, angles.pitch as int, angles.roll as int) == self@.angles(),
            self@.pitch_bounded(),
    {
        proof {
            use_type_invariant(self);
        }
        match self.policy {
            RotationPolicy::ClampedPivot => EulerAngles {
                yaw: self.yaw,
                pitch: self.pitch,
                roll: 0,
            },
            RotationPolicy::FreeQuaternion => EulerAngles {
                yaw: self.yaw,
                pitch: self.pitch,
                roll: self.roll,
            },
        }
    }

    /// The orientation of the pivot.
    pub fn get_rotation(&self, pivot: &Transform) -> (rotation: Quaternion)
        ensures
            rotation == pivot.rotation,
    {
        pivot.rotation
    }

    /// Turns the pivot to `rotation`; its position and the angles of the rig stay.
    pub fn set_rotation(&mut self, pivot: &mut Transform, rotation: Quaternion)
        ensures
            *final(pivot) == (Transform { rotation, ..*old(pivot) }),
            *final(self) == *old(self),
    {
        pivot.rotation = rotation;
    }

    /// Moves the pivot to `position`, so that a camera that is no child of the body stays
    /// with it; the rotation of the pivot and the angles of the rig stay.
    pub fn set_position(&mut self, pivot: &mut Transform, position: Vector3)
        ensures
            *final(pivot) == (Transform { position, ..*old(pivot) }),
            *final(self) == *old(self),
    {
        pivot.position = position;
    }

    fn can_turn_by(&self, yaw: i128, pitch: i128, roll: i128) -> (fits: bool)
        requires
            -0x4000_0000_0000_0000_0000_0000_0000_0000 <= yaw
                <= 0x4000_0000_0000_0000_0000_0000_0000_0000,
            -0x4000_0000_0000_0000_0000_0000_0000_0000 <= pitch
                <= 0x4000_0000_0000_0000_0000_0000_0000_0000,
            -0x4000_0000_0000_0000_0000_0000_0000_0000 <= roll
                <= 0x4000_0000_0000_0000_0000_0000_0000_0000,
        ensures
            fits == self@.rotated_by(yaw as int, pitch as int, roll as int).representable(),
    {
        let new_yaw: i128 = self.yaw as i128 + yaw;
        let new_roll: i128 = self.roll as i128 + roll;
        let new_pitch: i128 = self.pitch as i128 + pitch;
        let pitch_fits = match self.policy {
            RotationPolicy::ClampedPivot => true,
            RotationPolicy::FreeQuaternion => i64::MIN as i128 <= new_pitch && new_pitch
                <= i64::MAX as i128,
        };
        i64::MIN as i128 <= new_yaw && new_yaw <= i64::MAX as i128 && i64::MIN as i128 <= new_roll
            && new_roll <= i64::MAX as i128 && pitch_fits
    }

    fn turn_by(&mut self, yaw: i128, pitch: i128, roll: i128)
        requires
            -0x4000_0000_0000_0000_0000_0000_0000_0000 <= yaw
                <= 0x4000_0000_0000_0000_0000_0000_0000_0000,
            -0x4000_0000_0000_0000_0000_0000_0000_0000 <= pitch
                <= 0x4000_0000_0000_0000_0000_0000_0000_0000,
            -0x4000_0000_0000_0000_0000_0000_0000_0000 <= roll
                <= 0x4000_0000_0000_0000_0000_0000_0000_0000,
            old(self)@.rotated_by(yaw as int, pitch as int, roll as int).representable(),
        ensures
            final(self)@ == old(self)@.rotated_by(yaw as int, pitch as int, roll as int),
            final(self)@.pitch_bounded(),
    {
        proof {
            use_type_invariant(&*self);
        }
        let new_yaw: i128 = self.yaw as i128 + yaw;
        let new_roll: i128 = self.roll as i128 + roll;
        let sum: i128 = self.pitch as i128 + pitch;
        let new_pitch: i128 = match self.policy {
            RotationPolicy::ClampedPivot => if sum < -(PITCH_LIMIT as i128) {
                -(PITCH_LIMIT as i128)
            } else if sum > PITCH_LIMIT as i128 {
                PITCH_LIMIT as i128
            } else {
                sum
            },
            RotationPolicy::FreeQuaternion => sum,
        };
        self.yaw = new_yaw as i64;
        self.pitch = new_pitch as i64;
        self.roll = new_roll as i64;
    }
}

/// Under the clamped policy the pitch is within a quarter turn of level after every event
/// of the pointer, whatever it was before.
pub proof fn lemma_pitch_clamped(rig: CameraModel, event: DeviceEvent)
    requires
        rig.policy == RotationPolicy::ClampedPivot,
        event is MouseMotion || rig.pitch_bounded(),
    ensures
        rig.after(event).pitch_bounded(),
{
}

/// Under the clamped policy the pitch is within a quarter turn of level after any sequence
/// of events, for a rig that began within it.
pub proof fn lemma_pitch_always_clamped(rig: CameraModel, events: Seq<DeviceEvent>)
    requires
        rig.policy == RotationPolicy::ClampedPivot,
        rig.pitch_bounded(),
    ensures
        rig.after_all(events).policy == RotationPolicy::ClampedPivot,
        rig.after_all(events).pitch_bounded(),
    decreases events.len(),
{
    if events.len() > 0 {
        lemma_pitch_always_clamped(rig, events.drop_last());
        lemma_pitch_clamped(rig.after_all(events.drop_last()), events.last());
    }
}

/// No event reaches the roll.
pub proof fn lemma_roll_never_driven(rig: CameraModel, events: Seq<DeviceEvent>)
    ensures
        rig.after_all(events).roll == rig.roll,
    decreases events.len(),
{
    if events.len() > 0 {
        lemma_roll_never_driven(rig, events.drop_last());
    }
}

} // verus!

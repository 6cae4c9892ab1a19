//! The player: thrust from the keys, a camera rig, and the tick that turns both into a
//! command for the body.
//!
//! The player does not reach into the scene. Each tick the host hands over what it read
//! there (where the body is, how fast it moves, what it touches, how the camera pivot is
//! turned) and carries out the command that comes back.

use vstd::prelude::*;
use crate::algebra::{Quat, Vec3};
use crate::camera_controller::{CameraController, CameraModel};
use crate::collision::{bounces, lemma_bounce_turns_inward, resolve, Contact};
use crate::input::{DeviceEvent, ElementState, KeyboardInput};
use crate::integration::{
    integrate_momentum, integrate_velocity, lemma_scaled_zero, next_momentum, next_velocity,
    IntegrationPolicy, V_MAX,
};
use crate::integration_laws::{lemma_no_time_no_change, lemma_thrust_keeps_speed_limit};
use crate::quaternion::Quaternion;
use crate::rotation::{lemma_rotate_keeps_length, rotated};
use crate::scene::Handle;
use crate::thrust::{key_direction, lemma_thrust_length, Thrust};
use crate::vector::{Vector3, COORDINATE_LIMIT};

verus! {

/// What the host read of the body at the start of a tick.
#[derive(Clone, Copy, Debug, PartialEq, Eq, Structural)]
pub struct BodyState {
    pub position: Vector3,
    /// The linear velocity; read under the velocity policy only.
    pub velocity: Vector3,
}

/// The one write to the body that a tick asks for.
#[derive(Clone, Copy, Debug, PartialEq, Eq, Structural)]
pub enum BodyCommand {
    /// Move the body here.
    SetPosition(Vector3),
    /// Give the body this linear velocity.
    SetVelocity(Vector3),
}

/// What a tick asks of the host.
#[derive(Clone, Copy, Debug, PartialEq, Eq, Structural)]
pub struct TickOutput {
    pub body: BodyCommand,
    /// Where to move the camera pivot, where the controller and not the scene keeps the
    /// camera with the body.
    pub camera_position: Option<Vector3>,
}

/// The state of a player, with an unbounded momentum.
pub struct PlayerModel {
    pub body: Handle,
    pub collider: Handle,
    pub thrust: Thrust,
    pub momentum: Vec3,
    pub policy: IntegrationPolicy,
    pub camera: CameraModel,
}

impl PlayerModel {
    /// The player after a transition of a key: a key that stands for a direction sets that
    /// direction, held while the key is down; any other key, and a key without a code,
    /// changes nothing.
    pub open spec fn after_key(self, key: KeyboardInput) -> PlayerModel {
        match key.virtual_keycode {
            Some(code) => match key_direction(code) {
                Some(direction) => PlayerModel {
                    thrust: self.thrust.with(direction, key.state == ElementState::Pressed),
                    ..self
                },
                None => self,
            },
            None => self,
        }
    }

    /// The momentum that a tick starts from: the player's own under the direct policy, the
    /// velocity of the body under the velocity policy.
    pub open spec fn current(self, body: BodyState) -> Vec3 {
        match self.policy {
            IntegrationPolicy::Direct => self.momentum,
            IntegrationPolicy::Velocity => body.velocity@,
        }
    }

    /// The thrust in the frame of the world, for a camera turned to `orientation`.
    pub open spec fn world_thrust(self, orientation: Quat) -> Vec3 {
        rotated(self.thrust.local(), orientation)
    }

    /// Whether the numbers that a tick starts from are within the range of coordinates.
    pub open spec fn can_tick(self, body: BodyState) -> bool {
        &&& body.position.in_range()
        &&& self.current(body).within(COORDINATE_LIMIT as int)
    }

    /// The momentum after a tick of `dt` microseconds: turned round on a bounce, with no
    /// thrust taken in; else integrated under the policy of the player.
    pub open spec fn momentum_after(
        self,
        dt: int,
        orientation: Quat,
        body: BodyState,
        contacts: Seq<Contact>,
    ) -> Vec3 {
        let current = self.current(body);
        if bounces(current, body.position@, contacts) {
            current.negated()
        } else {
            match self.policy {
                IntegrationPolicy::Direct => next_momentum(
                    current,
                    self.world_thrust(orientation),
                    dt,
                ),
                IntegrationPolicy::Velocity => next_velocity(
                    current,
                    self.world_thrust(orientation),
                    dt,
                ),
            }
        }
    }

    /// Where the body is after a tick: moved by the new momentum under the direct policy,
    /// left to the host under the velocity policy.
    pub open spec fn position_after(
        self,
        dt: int,
        orientation: Quat,
        body: BodyState,
        contacts: Seq<Contact>,
    ) -> Vec3 {
        match self.policy {
            IntegrationPolicy::Direct => body.position@.plus(
                self.momentum_after(dt, orientation, body, contacts),
            ),
            IntegrationPolicy::Velocity => body.position@,
        }
    }
}

/// The player.
#[derive(Clone, Copy, Debug)]
pub struct Player {
    body: Handle,
    collider: Handle,
    thrust: Thrust,
    momentum: Vector3,
    policy: IntegrationPolicy,
    camera: CameraController,
}

impl View for Player {
    type V = PlayerModel;

    closed spec fn view(&self) -> PlayerModel {
        PlayerModel {
            body: self.body,
            collider: self.collider,
            thrust: self.thrust,
            momentum: self.momentum@,
            policy: self.policy,
            camera: self.camera@,
        }
    }
}

impl Player {
    /// A player at rest with no key held, for the body, the collider and the camera rig
    /// that the host has built.
    pub fn new(
        camera: CameraController,
        body: Handle,
        collider: Handle,
        policy: IntegrationPolicy,
    ) -> (player: Player)
        ensures
            player@ == (PlayerModel {
                body,
                collider,
                thrust: Thrust::none(),
                momentum: Vec3::zero(),
                policy,
                camera: camera@,
            }),
    {
        Player { body, collider, thrust: Thrust::new(), momentum: Vector3::zeros(), policy, camera }
    }

    pub fn body(&self) -> (handle: Handle)
        ensures
            handle == self@.body,
    {
        self.body
    }

    pub fn collider(&self) -> (handle: Handle)
        ensures
            handle == self@.collider,
    {
        self.collider
    }

    /// The pivot of the camera rig.
    pub fn camera_pivot(&self) -> (handle: Handle)
        ensures
            handle == self@.camera.pivot,
    {
        self.camera.pivot()
    }

    pub fn camera(&self) -> (camera: &CameraController)
        ensures
            camera@ == self@.camera,
    {
        &self.camera
    }

    pub fn thrust(&self) -> (thrust: Thrust)
        ensures
            thrust == self@.thrust,
    {
        self.thrust
    }

    pub fn momentum(&self) -> (momentum: Vector3)
        ensures
            momentum@ == self@.momentum,
    {
        self.momentum
    }

    pub fn policy(&self) -> (policy: IntegrationPolicy)
        ensures
            policy == self@.policy,
    {
        self.policy
    }

    /// Gives the player the keys that are held, as a host does that restores a saved game.
    pub fn set_thrust(&mut self, thrust: Thrust)
        ensures
            final(self)@ == (PlayerModel { thrust, ..old(self)@ }),
    {
        self.thrust = thrust;
    }

    /// Gives the player a momentum, as a host does that restores a saved game.
    pub fn set_momentum(&mut self, momentum: Vector3)
        ensures
            final(self)@ == (PlayerModel { momentum: momentum@, ..old(self)@ }),
    {
        self.momentum = momentum;
    }

    /// Takes a transition of a key into the thrust: W and S forward and back, A and D left
    /// and right, left shift and left control up and down.
    pub fn handle_key_event(&mut self, key: &KeyboardInput)
        ensures
            final(self)@ == old(self)@.after_key(*key),
    {
        if let Some(code) = key.virtual_keycode {
            if let Some(direction) = Thrust::direction_of(code) {
                let pressed = match key.state {
                    ElementState::Pressed => true,
                    ElementState::Released => false,
                };
                self.thrust.set_direction(direction, pressed);
            }
        }
    }

    /// Takes travel of the pointer into the camera rig.
    pub fn handle_mouse_delta(&mut self, dx: i64, dy: i64)
        requires
            old(self)@.camera.after(DeviceEvent::MouseMotion { dx, dy }).representable(),
        ensures
            final(self)@ == (PlayerModel {
                camera: old(self)@.camera.after(DeviceEvent::MouseMotion { dx, dy }),
                ..old(self)@
            }),
    {
        self.camera.handle_device_event(&DeviceEvent::MouseMotion { dx, dy });
    }

    /// The executable test for `can_tick`.
    pub fn is_ready(&self, body: &BodyState) -> (ready: bool)
        ensures
            ready == self@.can_tick(*body),
    {
        let current = match self.policy {
            IntegrationPolicy::Direct => &self.momentum,
            IntegrationPolicy::Velocity => &body.velocity,
        };
        body.position.is_in_range() && current.is_in_range()
    }

    /// One tick of `dt` microseconds, for a camera pivot turned to `orientation`.
    ///
    /// The thrust of the keys is rotated into the frame of the world. Where the body
    /// bounces off the boundary its momentum is turned round and the thrust of this tick is
    /// dropped; else the thrust is integrated under the policy of the player. Under the
    /// direct policy the body and the camera pivot are moved by the new momentum; under the
    /// velocity policy the body is given the new velocity and the camera is left alone.
    pub fn tick(
        &mut self,
        dt: u32,
        orientation: &Quaternion,
        body: &BodyState,
        contacts: &Vec<Contact>,
    ) -> (output: TickOutput)
        requires
            old(self)@.can_tick(*body),
        ensures
            final(self)@ == (PlayerModel {
                momentum: old(self)@.momentum_after(dt as int, orientation@, *body, contacts@),
                ..old(self)@
            }),
            old(self)@.policy == IntegrationPolicy::Direct ==> {
                &&& output.body matches BodyCommand::SetPosition(position)
                &&& position@ == old(self)@.position_after(
                    dt as int,
                    orientation@,
                    *body,
                    contacts@,
                )
                &&& output.camera_position == Some(position)
            },
            old(self)@.policy == IntegrationPolicy::Velocity ==> {
                &&& output.body matches BodyCommand::SetVelocity(velocity)
                &&& velocity@ == final(self)@.momentum
                &&& output.camera_position is None
            },
    {
        let current = match self.policy {
            IntegrationPolicy::Direct => self.momentum,
            IntegrationPolicy::Velocity => body.velocity,
        };
        let thrust = self.thrust.to_rotated_vector(*orientation);
        let resolution = resolve(&current, &body.position, contacts);
        let next = if resolution.bounced {
            resolution.momentum
        } else {
            match self.policy {
                IntegrationPolicy::Direct => integrate_momentum(&current, &thrust, dt),
                IntegrationPolicy::Velocity => integrate_velocity(&current, &thrust, dt),
            }
        };
        self.momentum = next;
        match self.policy {
            IntegrationPolicy::Direct => {
                let position = Vector3 {
                    x: body.position.x + next.x,
                    y: body.position.y + next.y,
                    z: body.position.z + next.z,
                };
                TickOutput {
                    body: BodyCommand::SetPosition(position),
                    camera_position: Some(position),
                }
            },
            IntegrationPolicy::Velocity => TickOutput {
                body: BodyCommand::SetVelocity(next),
                camera_position: None,
            },
        }
    }
}

/// A transition of a key that comes twice changes no more than it did the first time.
pub proof fn lemma_key_event_idempotent(player: PlayerModel, key: KeyboardInput)
    ensures
        player.after_key(key).after_key(key) == player.after_key(key),
{
}

/// A tick that takes no time and meets no bounce leaves the momentum as it is, and the
/// position too where the player is at rest or the host moves the body.
///
/// Under the direct policy a player with momentum moves in every tick, whatever its length:
/// that momentum is a step per tick, not a speed.
pub proof fn lemma_tick_of_no_time(
    player: PlayerModel,
    orientation: Quat,
    body: BodyState,
    contacts: Seq<Contact>,
)
    requires
        !bounces(player.current(body), body.position@, contacts),
        player.policy == IntegrationPolicy::Velocity || player.momentum == Vec3::zero(),
    ensures
        player.momentum_after(0, orientation, body, contacts) == player.current(body),
        player.position_after(0, orientation, body, contacts) == body.position@,
{
    lemma_no_time_no_change(player.current(body), player.world_thrust(orientation));
}

/// Keys that ask for thrust give thrust in the world, for a camera turned to an orientation
/// of unit length.
pub proof fn lemma_thrust_reaches_world(player: PlayerModel, orientation: Quaternion)
    requires
        orientation.is_unit(),
        player.thrust.local() != Vec3::zero(),
    ensures
        player.world_thrust(orientation@) != Vec3::zero(),
{
    let local = Vector3 {
        x: player.thrust.local().x as i64,
        y: player.thrust.local().y as i64,
        z: player.thrust.local().z as i64,
    };
    assert(local@ == player.thrust.local());
    lemma_rotate_keeps_length(local, orientation);
    lemma_thrust_length(player.thrust);
}

/// Under the velocity policy the speed after a tick is at most `V_MAX`, for every tick with
/// thrust that takes time, whatever the speed was before; and a bounce, which takes in no
/// thrust, keeps a speed that was within the limit.
pub proof fn lemma_tick_keeps_speed_limit(
    player: PlayerModel,
    dt: int,
    orientation: Quat,
    body: BodyState,
    contacts: Seq<Contact>,
)
    requires
        player.policy == IntegrationPolicy::Velocity,
        dt != 0,
        player.world_thrust(orientation) != Vec3::zero(),
        bounces(player.current(body), body.position@, contacts) ==> player.current(body).norm2()
            <= V_MAX * V_MAX,
    ensures
        player.momentum_after(dt, orientation, body, contacts).norm2() <= V_MAX * V_MAX,
{
    let current = player.current(body);
    if bounces(current, body.position@, contacts) {
        lemma_bounce_turns_inward(current, body.position@, contacts);
    } else {
        lemma_scaled_zero(player.world_thrust(orientation), dt);
        lemma_thrust_keeps_speed_limit(current, player.world_thrust(orientation), dt);
    }
}

} // verus!

//! Player locomotion and camera rig for a game hosted by an engine, over fixed-point
//! integers.
//!
//! The keys of the player give a thrust in the frame of the body (`thrust`). The camera rig
//! gathers yaw and pitch from the pointer (`camera_controller`). Once a tick the thrust is
//! rotated into the frame of the world by the orientation of the camera (`rotation`),
//! integrated into a velocity or a momentum (`integration`), set against the contacts of the
//! body with the edge of the world (`collision`), and handed back to the host as one
//! command for the body (`player`).
//!
//! The library keeps no floating-point number. A length counts millionths of a world unit
//! in an `i64`, a span of time counts microseconds in a `u32`, an angle counts
//! microradians in an `i64`, and the components of an orientation count billionths in an
//! `i32`. Every division rounds toward zero and is stated where it happens. The host
//! converts at its edge, and does what takes a sine or a cosine.
//!
//! The contracts are stated over the models of `algebra`: vectors and quaternions of
//! unbounded integers, which the executable types reach through their views.

pub mod algebra;
pub mod camera_controller;
pub mod collision;
pub mod game;
pub mod input;
pub mod integration;
pub mod integration_laws;
pub mod player;
pub mod quaternion;
pub mod root;
pub mod rotation;
pub mod rounding;
pub mod scene;
pub mod thrust;
pub mod vector;

//! A first-person character controller: keyboard and mouse state in, rigid-body
//! velocity and camera orientation out, with a jump state machine in between.
//!
//! Every quantity is a fixed-point integer counted in millionths (see
//! [`vector::UNIT`]), so that each rule of the controller is exact arithmetic.
//!
//! The scene stays with the caller. Between frames it feeds each
//! [`input::InputEvent`] to [`player::Player::process_input_event`]; once per
//! logic step it reads the rigid body into a [`player::BodyState`], runs
//! [`player::Player::update_player`] on it and writes the
//! [`player::FrameUpdate`] that comes back to the body and the camera.

pub mod input;
pub mod jump;
pub mod keyboard;
pub mod mouse;
pub mod player;
pub mod vector;

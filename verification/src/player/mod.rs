//! Player input and the movement it causes.
//!
//! Each tick a player goes through four stages, in this order: the device in
//! use is detected, the input is sampled from it, the movement state is
//! judged from input and velocity, and the velocity is adjusted for walking,
//! sprinting and jumping.
pub mod component;
pub mod controller;
pub mod theorems;

pub use self::controller::{
    animate, check_controller, handle_movement, update_input, update_movement_state,
};

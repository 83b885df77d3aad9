//! The rules of a 2D platformer.
//!
//! At the centre is the simulation of axis-aligned boxes: gravity, collision
//! detection and resolution, motion and friction ([`physics`]), and the
//! player's movement on top of it ([`player`]). [`game`] puts the two
//! together into one frame. Around them stand the rules of the game that does
//! not move: items and inventories ([`items`]), the level ([`levels`]), the
//! camera ([`camera`]) and the states that the game goes through ([`state`],
//! [`startup`], [`assets`], [`gameplay`], [`debug`]).
//!
//! All numbers are saturating fixed-point numbers ([`fixed`]): the same
//! inputs give the same frame on every machine.
pub mod assets;
pub mod camera;
pub mod debug;
pub mod fixed;
pub mod game;
pub mod gameplay;
pub mod items;
pub mod levels;
pub mod physics;
pub mod player;
pub mod prelude;
pub mod startup;
pub mod state;
pub mod vector;

//! Gravity, collision resolution, integration and friction.
//!
//! Every tick runs four passes over the table of bodies, in this order:
//! gravity, collisions, motion, friction. Each pass reads what the one before
//! it wrote.
pub mod collision;
pub mod component;
pub mod contact_theorems;
pub mod grounding;
pub mod induction;
pub mod integrator;
pub mod pass_theorems;
pub mod registry;
pub mod resolver;
pub mod simulation;
pub mod theorems;

pub use self::integrator::{apply_friction, apply_gravity, apply_velocity};
pub use self::registry::BodyRegistry;
pub use self::resolver::handle_collisions;
pub use self::simulation::PhysicsConfig;

//! Everything a game built on this library needs, in one place.
pub use crate::assets::AssetLoadingState;
pub use crate::camera::{CameraOffset, CameraSpeed, CameraTarget, GameCameraConfig};
pub use crate::debug::DebugMenuState;
pub use crate::fixed::Fixed;
pub use crate::game::PlayerSlot;
pub use crate::items::descriptor::{ItemCategory, ItemDescriptor, RepresentingItem};
pub use crate::items::inventory::Inventory;
pub use crate::items::registry::ItemRegistry;
pub use crate::items::world::{InventoryHolder, SpawnItemEvent};
pub use crate::levels::{DestroyLevelsEvent, LevelObject, SpawnLevelEvent, SpawnedLevel};
pub use crate::physics::collision::Contact;
pub use crate::physics::component::{
    Body, Collider, CollidingDirections, CollidingEntities, Entity, Friction, GravityScale,
    PhysicsBody, PhysicsBodyBundle, Velocity,
};
pub use crate::physics::registry::BodyRegistry;
pub use crate::physics::simulation::PhysicsConfig;
pub use crate::player::component::{
    ControllerState, Player, PlayerBundle, PlayerInputState, PlayerMovementState,
    PlayerMovementStats, PlayerState,
};
pub use crate::player::controller::InputSample;
pub use crate::startup::StartupState;
pub use crate::state::GameState;
pub use crate::vector::Vec2;

//! Items: what they are, where they are kept, and how they are picked up.
pub mod descriptor;
pub mod inventory;
pub mod registry;
pub mod world;

pub use self::descriptor::{ItemCategory, ItemDescriptor, RepresentingItem};
pub use self::registry::{register_items, ItemRegistry};
pub use self::world::{handle_item_collisions, handle_item_spawning, SpawnItemEvent};

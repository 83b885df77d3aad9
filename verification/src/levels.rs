//! The level: which bodies it is made of, and how it is put up and taken
//! down.
use crate::camera::CameraTarget;
use crate::fixed::Fixed;
use crate::items::inventory::{Inventory, InventoryView};
use crate::items::world::SpawnItemEvent;
use crate::physics::component::{
    BodyView, Collider, ColliderView, Entity, Friction, GravityScale, PhysicsBody,
    PhysicsBodyBundle, Velocity,
};
use crate::physics::registry::{alive, lemma_place_is_unique, place_of, BodyRegistry};
use crate::player::component::{
    spec_default_state, Player, PlayerBundle, PlayerMovementStats, PlayerState,
};
use crate::vector::Vec2;
use vstd::prelude::*;

verus! {

/// Marks a body as part of the level.
#[derive(Clone, Copy, Debug, PartialEq, Eq, Structural)]
pub struct LevelObject;

/// Asks for the level found at the given path to be put up.
#[derive(Clone, Debug)]
pub struct SpawnLevelEvent(pub String);

/// Asks for everything that belongs to a level to be taken down.
#[derive(Clone, Copy, Debug, PartialEq, Eq, Structural)]
pub struct DestroyLevelsEvent;

/// What putting up the level has made.
#[derive(Debug)]
pub struct SpawnedLevel {
    /// The player's body.
    pub player: Entity,
    /// What the player carries besides its body.
    pub player_bundle: PlayerBundle,
    /// The player's inventory.
    pub inventory: Inventory,
    /// The bodies of the level, the player's among them, in spawning order.
    pub objects: Vec<Entity>,
    /// The items that are to be spawned next.
    pub items: Vec<SpawnItemEvent>,
}

/// A request for an item as a mathematical value.
pub struct SpawnItemEventView {
    pub item: Seq<char>,
    pub position: Vec2,
    pub velocity: Vec2,
}

impl View for SpawnItemEvent {
    type V = SpawnItemEventView;

    open spec fn view(&self) -> SpawnItemEventView {
        SpawnItemEventView { item: self.item@, position: self.position, velocity: self.velocity }
    }
}

/// The requests of a list as mathematical values.
pub open spec fn event_views(events: Seq<SpawnItemEvent>) -> Seq<SpawnItemEventView> {
    Seq::new(events.len(), |k: int| events[k]@)
}

/// The point with the given coordinates in whole units.
pub open spec fn spec_point(x: int, y: int) -> Vec2 {
    Vec2 { x: Fixed::of(x * 1_000_000), y: Fixed::of(y * 1_000_000) }
}

/// The player's tuning.
pub open spec fn spec_player_stats() -> PlayerMovementStats {
    PlayerMovementStats {
        walking_accel: Fixed::from_raw(325_000_000),
        sprint_accel: Fixed::from_raw(450_000_000),
        walking_friction: Fixed::from_raw(6_400_000),
        jump_force: Fixed::from_raw(1_250_000_000),
        jump_time: Fixed::from_raw(80_000),
    }
}

/// The player's body when it is spawned: a dynamic body at the origin, at
/// rest, under twice the gravity, in a box of ten by twenty that the ground
/// blocks, keeping both its directions and its contacts.
pub open spec fn spec_player_body(entity: Entity) -> BodyView {
    BodyView {
        entity,
        position: Vec2::zero(),
        body: PhysicsBody::Dynamic,
        velocity: Vec2::zero(),
        friction: Vec2::zero(),
        gravity_scale: Fixed::from_raw(2_000_000),
        collider: ColliderView {
            tags: seq!["player"@],
            colliding_tags: seq!["ground"@],
            half_extents: spec_point(5, 10),
        },
        colliding_directions: Some(Seq::empty()),
        colliding_entities: Some(Seq::empty()),
    }
}

/// A platform: a static piece of ground that keeps no collision state.
pub open spec fn spec_platform(entity: Entity, position: Vec2, half_extents: Vec2) -> BodyView {
    BodyView {
        entity,
        position,
        body: PhysicsBody::Static,
        velocity: Vec2::zero(),
        friction: Vec2::zero(),
        gravity_scale: Fixed::one(),
        collider: ColliderView {
            tags: seq!["ground"@],
            colliding_tags: seq!["ground"@],
            half_extents,
        },
        colliding_directions: None,
        colliding_entities: None,
    }
}

/// The identity that follows `entity` by `steps`.
pub open spec fn spec_later(entity: Entity, steps: int) -> Entity {
    Entity { id: (entity.id + steps) as u64 }
}

/// The bodies of the level, given the identity of the first: the player, the
/// wide platform below it and the narrow platform to its left.
pub open spec fn spec_level_bodies(first: Entity) -> Seq<BodyView> {
    seq![
        spec_player_body(first),
        spec_platform(spec_later(first, 1), spec_point(0, -64), spec_point(64, 8)),
        spec_platform(spec_later(first, 2), spec_point(-164, -48), spec_point(48, 8)),
    ]
}

/// A request for the item of the given name, at rest at the given place.
pub open spec fn spec_item_at(name: Seq<char>, x: int, y: int) -> SpawnItemEventView {
    SpawnItemEventView { item: name, position: spec_point(x, y), velocity: Vec2::zero() }
}

/// The items of the level.
pub open spec fn spec_level_items() -> Seq<SpawnItemEventView> {
    seq![
        spec_item_at("mirror"@, -64, 20),
        spec_item_at("monocle"@, -32, 20),
        spec_item_at("bean"@, 64, 20),
        spec_item_at("bean"@, 48, 20),
        spec_item_at("bean"@, 32, 20),
    ]
}

/// The point with the given coordinates in whole units.
pub fn point(x: i32, y: i32) -> (p: Vec2)
    ensures
        p == spec_point(x as int, y as int),
{
    Vec2 { x: Fixed::from_int(x as i64), y: Fixed::from_int(y as i64) }
}

/// The player's tuning.
#[verifier::when_used_as_spec(spec_player_stats)]
pub fn player_stats() -> (stats: PlayerMovementStats)
    ensures
        stats == spec_player_stats(),
{
    PlayerMovementStats {
        walking_accel: Fixed::from_raw(325_000_000),
        sprint_accel: Fixed::from_raw(450_000_000),
        walking_friction: Fixed::from_raw(6_400_000),
        jump_force: Fixed::from_raw(1_250_000_000),
        jump_time: Fixed::from_raw(80_000),
    }
}

/// A request for the item of the given name, at rest at the given place.
pub fn item_at(name: &str, x: i32, y: i32) -> (event: SpawnItemEvent)
    ensures
        event@ == spec_item_at(name@, x as int, y as int),
{
    SpawnItemEvent { item: name.to_owned(), position: point(x, y), velocity: Vec2::zero() }
}

/// A platform's attributes and box.
fn platform(position: Vec2, half_extents: Vec2) -> (parts: (PhysicsBodyBundle, Collider))
    ensures
        parts.0 == (PhysicsBodyBundle {
            position,
            body: PhysicsBody::Static,
            velocity: Velocity(Vec2::zero()),
            friction: Friction(Vec2::zero()),
            gravity_scale: GravityScale(Fixed::one()),
        }),
        parts.1@ == (ColliderView {
            tags: seq!["ground"@],
            colliding_tags: seq!["ground"@],
            half_extents,
        }),
{
    let bundle = PhysicsBodyBundle {
        position,
        body: PhysicsBody::Static,
        velocity: Velocity(Vec2::zero()),
        friction: Friction(Vec2::zero()),
        gravity_scale: GravityScale(Fixed::one()),
    };
    let collider = Collider {
        tags: vec!["ground".to_owned()],
        colliding_tags: vec!["ground".to_owned()],
        half_extents,
    };
    assert(collider@.tags =~= seq!["ground"@]);
    assert(collider@.colliding_tags =~= seq!["ground"@]);
    (bundle, collider)
}

/// Puts up the level: spawns the player and the two platforms, points every
/// camera at the player, and says which items are to be spawned next.
///
/// Returns `None`, and changes nothing, if the registry has fewer than three
/// identities left to give.
pub fn spawn_level_event(bodies: &mut BodyRegistry, camera_targets: &mut Vec<CameraTarget>) -> (level:
    Option<SpawnedLevel>)
    ensures
        final(bodies).wf(),
        level is Some == (old(bodies).next_entity().id + 3 <= u64::MAX),
        final(camera_targets).len() == old(camera_targets).len(),
        match level {
            Some(level) => {
                &&& level.player == old(bodies).next_entity()
                &&& final(bodies)@ == old(bodies)@ + spec_level_bodies(level.player)
                &&& final(bodies).next_entity() == spec_later(level.player, 3)
                &&& level.objects@ == seq![
                    level.player,
                    spec_later(level.player, 1),
                    spec_later(level.player, 2),
                ]
                &&& level.player_bundle == (PlayerBundle {
                    player: Player,
                    player_state: spec_default_state(),
                    player_movement_stats: spec_player_stats(),
                })
                &&& level.inventory@ == (InventoryView { capacity: 10, items: Seq::empty() })
                &&& event_views(level.items@) == spec_level_items()
                &&& forall|k: int|
                    0 <= k < final(camera_targets).len() ==> #[trigger] final(camera_targets)[k]
                        == CameraTarget(Some(level.player))
            },
            None => {
                &&& final(bodies)@ == old(bodies)@
                &&& final(bodies).next_entity() == old(bodies).next_entity()
                &&& final(camera_targets)@ == old(camera_targets)@
            },
        },
{
    proof {
        use_type_invariant(&*bodies);
    }
    if bodies.identities_left() < 3 {
        return None;
    }
    let ghost before = bodies@;
    let ghost first = bodies.next_entity();

    let player_collider = Collider {
        tags: vec!["player".to_owned()],
        colliding_tags: vec!["ground".to_owned()],
        half_extents: point(5, 10),
    };
    proof {
        assert(player_collider@.tags =~= seq!["player"@]);
        assert(player_collider@.colliding_tags =~= seq!["ground"@]);
    }
    let player_attributes = PhysicsBodyBundle {
        position: Vec2::zero(),
        body: PhysicsBody::Dynamic,
        velocity: Velocity(Vec2::zero()),
        friction: Friction(Vec2::zero()),
        gravity_scale: GravityScale(Fixed::from_raw(2_000_000)),
    };
    let player = match bodies.spawn(player_attributes, player_collider) {
        Some(player) => player,
        None => {
            return None;
        },
    };
    proof {
        lemma_place_is_unique(bodies@, bodies.next_entity(), before.len() as int);
    }
    let _ = bodies.track_directions(player);
    proof {
        lemma_place_is_unique(bodies@, bodies.next_entity(), before.len() as int);
    }
    let _ = bodies.track_contacts(player);
    proof {
        assert(bodies@ =~= before.push(spec_player_body(first)));
    }

    let (wide_attributes, wide_collider) = platform(point(0, -64), point(64, 8));
    let wide = match bodies.spawn(wide_attributes, wide_collider) {
        Some(wide) => wide,
        None => {
            return None;
        },
    };
    let (narrow_attributes, narrow_collider) = platform(point(-164, -48), point(48, 8));
    let narrow = match bodies.spawn(narrow_attributes, narrow_collider) {
        Some(narrow) => narrow,
        None => {
            return None;
        },
    };
    proof {
        assert(bodies@ =~= before + spec_level_bodies(first));
    }

    let mut k: usize = 0;
    while k < camera_targets.len()
        invariant
            k <= camera_targets.len(),
            camera_targets.len() == old(camera_targets).len(),
            forall|m: int| 0 <= m < k ==> #[trigger] camera_targets[m] == CameraTarget(Some(player)),
        decreases camera_targets.len() - k,
    {
        camera_targets[k] = CameraTarget(Some(player));
        k += 1;
    }

    let items = vec![
        item_at("mirror", -64, 20),
        item_at("monocle", -32, 20),
        item_at("bean", 64, 20),
        item_at("bean", 48, 20),
        item_at("bean", 32, 20),
    ];
    proof {
        assert(event_views(items@) =~= spec_level_items());
    }
    Some(
        SpawnedLevel {
            player,
            player_bundle: PlayerBundle {
                player: Player,
                player_state: PlayerState::default(),
                player_movement_stats: player_stats(),
            },
            inventory: Inventory::with_capacity(10),
            objects: vec![player, wide, narrow],
            items,
        },
    )
}

/// The table without the bodies of the given identities.
pub open spec fn spec_without(bodies: Seq<BodyView>, objects: Seq<Entity>) -> Seq<BodyView>
    decreases objects.len(),
{
    if objects.len() == 0 {
        bodies
    } else {
        let rest = spec_without(bodies, objects.drop_last());
        if alive(rest, objects.last()) {
            rest.remove(place_of(rest, objects.last()))
        } else {
            rest
        }
    }
}

/// Takes the level down: destroys each of its bodies that still lives and
/// leaves every camera without a target.
pub fn destroy_levels_event(
    bodies: &mut BodyRegistry,
    objects: &Vec<Entity>,
    camera_targets: &mut Vec<CameraTarget>,
)
    ensures
        final(bodies).wf(),
        final(bodies).next_entity() == old(bodies).next_entity(),
        final(bodies)@ == spec_without(old(bodies)@, objects@),
        final(camera_targets).len() == old(camera_targets).len(),
        forall|k: int|
            0 <= k < final(camera_targets).len() ==> #[trigger] final(camera_targets)[k]
                == CameraTarget(None),
{
    proof {
        use_type_invariant(&*bodies);
    }
    let mut k: usize = 0;
    while k < camera_targets.len()
        invariant
            k <= camera_targets.len(),
            camera_targets.len() == old(camera_targets).len(),
            forall|m: int| 0 <= m < k ==> #[trigger] camera_targets[m] == CameraTarget(None),
        decreases camera_targets.len() - k,
    {
        camera_targets[k] = CameraTarget(None);
        k += 1;
    }
    let mut n: usize = 0;
    while n < objects.len()
        invariant
            n <= objects.len(),
            bodies.wf(),
            bodies.next_entity() == old(bodies).next_entity(),
            bodies@ == spec_without(old(bodies)@, objects@.take(n as int)),
        decreases objects.len() - n,
    {
        proof {
            assert(objects@.take(n as int + 1).drop_last() =~= objects@.take(n as int));
        }
        let _ = bodies.destroy(objects[n]);
        n += 1;
    }
    proof {
        assert(objects@.take(objects@.len() as int) =~= objects@);
    }
}

} // verus!

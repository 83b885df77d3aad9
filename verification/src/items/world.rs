//! Items as bodies of the world: how they are spawned and picked up.
use crate::fixed::Fixed;
use crate::items::descriptor::{ItemDescriptorView, RepresentingItem};
use crate::items::inventory::{Inventory, InventoryView};
use crate::items::registry::{registered, ItemRegistry};
use crate::physics::component::{
    BodyView, Collider, ColliderView, CollidingEntities, Entity, Friction, GravityScale,
    PhysicsBody, PhysicsBodyBundle, Velocity,
};
use crate::physics::registry::{lemma_place_is_unique, BodyRegistry};
use crate::vector::Vec2;
use vstd::prelude::*;

verus! {

/// Asks for an item to be put into the world.
#[derive(Clone, Debug)]
pub struct SpawnItemEvent {
    /// The name under which the item is registered.
    pub item: String,
    pub position: Vec2,
    pub velocity: Vec2,
}

/// A body that carries an inventory.
#[derive(Clone, Debug)]
pub struct InventoryHolder {
    pub entity: Entity,
    pub inventory: Inventory,
}

/// A body that carries an inventory, as a mathematical value.
pub struct InventoryHolderView {
    pub entity: Entity,
    pub inventory: InventoryView,
}

impl View for InventoryHolder {
    type V = InventoryHolderView;

    open spec fn view(&self) -> InventoryHolderView {
        InventoryHolderView { entity: self.entity, inventory: self.inventory@ }
    }
}

/// The holders of a list as mathematical values.
pub open spec fn holder_views(holders: Seq<InventoryHolder>) -> Seq<InventoryHolderView> {
    Seq::new(holders.len(), |k: int| holders[k]@)
}

/// The friction of an item lying in the world.
pub open spec fn spec_item_friction() -> Vec2 {
    Vec2 { x: Fixed::from_raw(3_000_000), y: Fixed::zero() }
}

/// The half extents of an item's box.
pub open spec fn spec_item_half_extents() -> Vec2 {
    Vec2 { x: Fixed::from_raw(6_000_000), y: Fixed::from_raw(6_000_000) }
}

/// The box of an item: tagged as an item and blocked by the ground.
pub open spec fn spec_item_collider() -> ColliderView {
    ColliderView {
        tags: seq!["item"@],
        colliding_tags: seq!["ground"@],
        half_extents: spec_item_half_extents(),
    }
}

/// The body of an item that has just been spawned at the given place with
/// the given velocity: a dynamic body under the full gravity that keeps its
/// contacts but not its directions.
pub open spec fn spec_item_body(entity: Entity, position: Vec2, velocity: Vec2) -> BodyView {
    BodyView {
        entity,
        position,
        body: PhysicsBody::Dynamic,
        velocity,
        friction: spec_item_friction(),
        gravity_scale: Fixed::one(),
        collider: spec_item_collider(),
        colliding_directions: None,
        colliding_entities: Some(Seq::empty()),
    }
}

/// Whether one of the holders is the body with the given identity.
pub open spec fn holds(holders: Seq<InventoryHolderView>, entity: Entity) -> bool {
    exists|k: int| 0 <= k < holders.len() && (#[trigger] holders[k]).entity == entity
}

/// Whether the holder at `k` is the first one with the given identity.
pub open spec fn first_holder_at(holders: Seq<InventoryHolderView>, entity: Entity, k: int) -> bool {
    &&& 0 <= k < holders.len()
    &&& holders[k].entity == entity
    &&& forall|m: int| 0 <= m < k ==> (#[trigger] holders[m]).entity != entity
}

/// The place of the first holder with the given identity.
pub open spec fn first_holder(holders: Seq<InventoryHolderView>, entity: Entity) -> int {
    choose|k: int| first_holder_at(holders, entity, k)
}

/// The holders after the item has been handed to the body with the given
/// identity: if that body is a holder, the item is added to its inventory
/// unless that is full.
pub open spec fn handed_to(
    holders: Seq<InventoryHolderView>,
    entity: Entity,
    item: ItemDescriptorView,
) -> Seq<InventoryHolderView> {
    if holds(holders, entity) {
        let k = first_holder(holders, entity);
        holders.update(
            k,
            InventoryHolderView { inventory: holders[k].inventory.added(item), ..holders[k] },
        )
    } else {
        holders
    }
}

/// The holders after the item has been handed to each of the contacts in
/// turn. A contact that is listed twice is handed the item twice.
pub open spec fn handed_out(
    holders: Seq<InventoryHolderView>,
    contacts: Seq<Entity>,
    item: ItemDescriptorView,
) -> Seq<InventoryHolderView>
    decreases contacts.len(),
{
    if contacts.len() == 0 {
        holders
    } else {
        handed_to(handed_out(holders, contacts.drop_last(), item), contacts.last(), item)
    }
}

/// Whether one of the contacts is a holder.
pub open spec fn reaches_holder(holders: Seq<InventoryHolderView>, contacts: Seq<Entity>) -> bool {
    exists|k: int| 0 <= k < contacts.len() && holds(holders, #[trigger] contacts[k])
}

/// The first holder with a given identity is determined.
proof fn lemma_first_holder(holders: Seq<InventoryHolderView>, entity: Entity, k: int)
    requires
        first_holder_at(holders, entity, k),
    ensures
        holds(holders, entity),
        first_holder(holders, entity) == k,
{
    let chosen = first_holder(holders, entity);
    assert(first_holder_at(holders, entity, chosen));
    if chosen < k {
        assert(holders[chosen].entity != entity);
    } else if k < chosen {
        assert(holders[k].entity != entity);
    }
}

/// The place of the first holder with the given identity, if there is one.
pub fn find_holder(holders: &Vec<InventoryHolder>, entity: Entity) -> (place: Option<usize>)
    ensures
        place is Some == holds(holder_views(holders@), entity),
        place is Some ==> place->0 == first_holder(holder_views(holders@), entity) && place->0
            < holders.len(),
{
    let mut k: usize = 0;
    while k < holders.len()
        invariant
            k <= holders.len(),
            forall|m: int| 0 <= m < k ==> (#[trigger] holder_views(holders@)[m]).entity != entity,
        decreases holders.len() - k,
    {
        if holders[k].entity == entity {
            proof {
                assert(holder_views(holders@)[k as int].entity == entity);
                lemma_first_holder(holder_views(holders@), entity, k as int);
            }
            return Some(k);
        }
        k += 1;
    }
    None
}

/// Puts the item that the event names into the world, as a body that keeps
/// its contacts, and returns the body's identity together with the item.
///
/// Returns `None`, and spawns nothing, if no item is registered under the
/// name or if the registry of bodies has no identity left to give.
pub fn handle_item_spawning(
    registry: &ItemRegistry,
    bodies: &mut BodyRegistry,
    event: &SpawnItemEvent,
) -> (spawned: Option<(Entity, RepresentingItem)>)
    ensures
        final(bodies).wf(),
        spawned is Some == (registered(*registry).contains_key(event.item@) && old(
            bodies,
        ).next_entity().id != u64::MAX),
        match spawned {
            Some((entity, item)) => {
                &&& entity == old(bodies).next_entity()
                &&& item@ == registered(*registry)[event.item@]
                &&& final(bodies)@ == old(bodies)@.push(
                    spec_item_body(entity, event.position, event.velocity),
                )
            },
            None => final(bodies)@ == old(bodies)@,
        },
{
    proof {
        use_type_invariant(&*bodies);
    }
    let item = match registry.find(&event.item) {
        Some(item) => item.duplicate(),
        None => {
            return None;
        },
    };
    let bundle = PhysicsBodyBundle {
        position: event.position,
        body: PhysicsBody::Dynamic,
        velocity: Velocity(event.velocity),
        friction: Friction(Vec2 { x: Fixed::from_raw(3_000_000), y: Fixed::zero() }),
        gravity_scale: GravityScale(Fixed::one()),
    };
    let collider = Collider {
        tags: vec!["item".to_owned()],
        colliding_tags: vec!["ground".to_owned()],
        half_extents: Vec2 { x: Fixed::from_raw(6_000_000), y: Fixed::from_raw(6_000_000) },
    };
    proof {
        assert(collider@.tags =~= seq!["item"@]);
        assert(collider@.colliding_tags =~= seq!["ground"@]);
    }
    let ghost before = bodies@;
    match bodies.spawn(bundle, collider) {
        Some(entity) => {
            proof {
                lemma_place_is_unique(bodies@, bodies.next_entity(), before.len() as int);
            }
            let _ = bodies.track_contacts(entity);
            proof {
                assert(bodies@ =~= before.push(
                    spec_item_body(entity, event.position, event.velocity),
                ));
            }
            Some((entity, RepresentingItem(item)))
        },
        None => None,
    }
}

/// Hands an item lying in the world to every inventory holder that it is in
/// contact with. Returns whether the item has to leave the world: it has to
/// when one of its contacts is a holder, whether or not the holder had room
/// for it.
pub fn handle_item_collisions(
    item: &RepresentingItem,
    contacts: &CollidingEntities,
    holders: &mut Vec<InventoryHolder>,
) -> (taken: bool)
    ensures
        taken == reaches_holder(holder_views(old(holders)@), contacts@),
        holder_views(final(holders)@) == handed_out(
            holder_views(old(holders)@),
            contacts@,
            item@,
        ),
{
    let ghost start = holder_views(holders@);
    let mut taken = false;
    let mut k: usize = 0;
    while k < contacts.0.len()
        invariant
            k <= contacts.0.len(),
            holder_views(holders@).len() == start.len(),
            forall|m: int|
                0 <= m < start.len() ==> (#[trigger] holder_views(holders@)[m]).entity
                    == start[m].entity,
            holder_views(holders@) == handed_out(start, contacts@.take(k as int), item@),
            taken == reaches_holder(start, contacts@.take(k as int)),
        decreases contacts.0.len() - k,
    {
        let ghost before = holder_views(holders@);
        let ghost seen = contacts@.take(k as int);
        let ghost next = contacts@.take(k as int + 1);
        let contact = contacts.0[k];
        proof {
            assert(next.drop_last() =~= seen);
            assert(next.last() == contact);
            lemma_same_holders(start, before, contact);
            if reaches_holder(start, seen) {
                let m = choose|m: int| 0 <= m < seen.len() && holds(start, #[trigger] seen[m]);
                assert(next[m] == seen[m]);
            }
            if holds(start, contact) {
                assert(next[k as int] == contact);
            }
            if reaches_holder(start, next) {
                let m = choose|m: int| 0 <= m < next.len() && holds(start, #[trigger] next[m]);
                if m < k {
                    assert(seen[m] == next[m]);
                }
            }
        }
        match find_holder(holders, contact) {
            Some(place) => {
                let _ = holders[place].inventory.add_item(item.0.duplicate());
                taken = true;
                proof {
                    assert(holder_views(holders@) =~= handed_to(before, contact, item@));
                }
            },
            None => {},
        }
        k += 1;
    }
    proof {
        assert(contacts@.take(contacts@.len() as int) =~= contacts@);
    }
    taken
}

/// Two lists of holders with the same identities at the same places have a
/// holder for the same identities.
proof fn lemma_same_holders(
    start: Seq<InventoryHolderView>,
    now: Seq<InventoryHolderView>,
    entity: Entity,
)
    requires
        now.len() == start.len(),
        forall|m: int| 0 <= m < start.len() ==> (#[trigger] now[m]).entity == start[m].entity,
    ensures
        holds(now, entity) == holds(start, entity),
{
    if holds(now, entity) {
        let k = choose|k: int| 0 <= k < now.len() && (#[trigger] now[k]).entity == entity;
        assert(start[k].entity == entity);
    }
    if holds(start, entity) {
        let k = choose|k: int| 0 <= k < start.len() && (#[trigger] start[k]).entity == entity;
        assert(now[k].entity == entity);
    }
}

} // verus!

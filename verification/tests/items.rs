use island_project::fixed::Fixed;
use island_project::items::descriptor::{ItemCategory, ItemDescriptor, RepresentingItem};
use island_project::items::inventory::Inventory;
use island_project::items::registry::{register_items, ItemRegistry};
use island_project::items::world::{
    find_holder, handle_item_collisions, handle_item_spawning, InventoryHolder, SpawnItemEvent,
};
use island_project::physics::component::{CollidingEntities, Entity, PhysicsBody};
use island_project::physics::registry::BodyRegistry;
use island_project::vector::Vec2;

fn fx(value: f64) -> Fixed {
    Fixed::from_raw((value * 1_000_000.0).round() as i64)
}

fn vec2(x: f64, y: f64) -> Vec2 {
    Vec2::new(fx(x), fx(y))
}

fn item(name: &str) -> ItemDescriptor {
    ItemDescriptor::new(name, "for testing", "sprites/test.png", ItemCategory::Key)
}

fn names(inventory: &Inventory) -> Vec<&str> {
    inventory.items.iter().map(|item| item.name.as_str()).collect()
}

#[test]
fn an_inventory_takes_items_up_to_its_capacity() {
    let mut inventory = Inventory::with_capacity(2);
    assert_eq!(inventory.capacity, 2);
    assert!(inventory.items.is_empty());
    assert_eq!(inventory.add_item(item("a")), Some(()));
    assert_eq!(inventory.add_item(item("b")), Some(()));
    assert_eq!(inventory.add_item(item("c")), None);
    assert_eq!(names(&inventory), vec!["a", "b"]);

    let mut none = Inventory::with_capacity(0);
    assert_eq!(none.add_item(item("a")), None);
    assert!(none.items.is_empty());
}

#[test]
fn the_default_inventory_has_room_for_ten() {
    let mut inventory = Inventory::default();
    assert_eq!(inventory.capacity, 10);
    for k in 0..10 {
        assert_eq!(inventory.add_item(item(&format!("item {}", k))), Some(()));
    }
    assert_eq!(inventory.add_item(item("one too many")), None);
    assert_eq!(inventory.items.len(), 10);
}

#[test]
fn items_are_removed_and_got_by_index() {
    let mut inventory = Inventory::with_capacity(5);
    for name in ["a", "b", "c"] {
        inventory.add_item(item(name));
    }
    assert_eq!(inventory.get_item(1).map(|item| item.name.as_str()), Some("b"));
    assert!(inventory.get_item(3).is_none());
    assert_eq!(inventory.remove_item(3), None);
    assert_eq!(names(&inventory), vec!["a", "b", "c"]);
    assert_eq!(inventory.remove_item(0), Some(()));
    assert_eq!(names(&inventory), vec!["b", "c"]);
    assert_eq!(inventory.remove_item(1), Some(()));
    assert_eq!(names(&inventory), vec!["b"]);
    assert_eq!(inventory.remove_item(0), Some(()));
    assert_eq!(inventory.remove_item(0), None);
    assert!(inventory.get_item(0).is_none());
}

#[test]
fn items_are_inserted_before_an_existing_item_only() {
    let mut inventory = Inventory::with_capacity(2);
    assert_eq!(inventory.insert_item(0, item("x")), None);
    assert!(inventory.items.is_empty());
    inventory.add_item(item("a"));
    inventory.add_item(item("b"));
    assert_eq!(inventory.insert_item(2, item("x")), None);
    assert_eq!(inventory.insert_item(1, item("x")), Some(()));
    assert_eq!(names(&inventory), vec!["a", "x", "b"]);
    // Inserting does not look at the capacity.
    assert_eq!(inventory.insert_item(0, item("y")), Some(()));
    assert_eq!(names(&inventory), vec!["y", "a", "x", "b"]);
    assert_eq!(inventory.capacity, 2);
}

#[test]
fn a_description_is_copied_field_by_field() {
    let bean = ItemDescriptor::new("Bean", "A bean.", "bean.png", ItemCategory::Food);
    assert_eq!(bean.name, "Bean");
    assert_eq!(bean.description, "A bean.");
    assert_eq!(bean.icon, "bean.png");
    assert_eq!(bean.category, ItemCategory::Food);
    assert_eq!(bean.duplicate(), bean);
    assert_eq!(ItemCategory::default(), ItemCategory::Misc);
}

#[test]
fn the_game_registers_three_items() {
    let mut registry = ItemRegistry::new();
    assert!(registry.find(&"mirror".to_string()).is_none());
    register_items(&mut registry);
    assert_eq!(
        registry.find(&"mirror".to_string()),
        Some(&ItemDescriptor {
            name: "Mirror".into(),
            description: "A cute little mirror, in the impractical shape of a circle".into(),
            icon: "sprites/items/misc/mirror.png".into(),
            category: ItemCategory::Misc,
        })
    );
    assert_eq!(
        registry.find(&"monocle".to_string()),
        Some(&ItemDescriptor {
            name: "Monocle".into(),
            description: "For people who are only half sightless.".into(),
            icon: "sprites/items/misc/monocle.png".into(),
            category: ItemCategory::Misc,
        })
    );
    assert_eq!(
        registry.find(&"bean".to_string()),
        Some(&ItemDescriptor {
            name: "Bean".into(),
            description: "A bean, for those who like beans.".into(),
            icon: "sprites/items/food/bean.png".into(),
            category: ItemCategory::Food,
        })
    );
    assert!(registry.find(&"Bean".to_string()).is_none());
    assert!(registry.find(&"".to_string()).is_none());
}

#[test]
fn registering_under_a_name_again_replaces_the_item() {
    let mut registry = ItemRegistry::default();
    registry.register("key".to_string(), item("old"));
    registry.register("door".to_string(), item("door"));
    registry.register("key".to_string(), item("new"));
    assert_eq!(registry.find(&"key".to_string()), Some(&item("new")));
    assert_eq!(registry.find(&"door".to_string()), Some(&item("door")));
    assert!(registry.find(&"new".to_string()).is_none());
}

#[test]
fn a_registered_item_is_spawned_as_a_body() {
    let mut items = ItemRegistry::new();
    register_items(&mut items);
    let mut bodies = BodyRegistry::new();
    let event = SpawnItemEvent {
        item: "bean".to_string(),
        position: vec2(64.0, 20.0),
        velocity: vec2(-1.0, 2.0),
    };
    let (entity, carried) = handle_item_spawning(&items, &mut bodies, &event).unwrap();
    assert_eq!(entity, Entity { id: 0 });
    assert_eq!(carried.0.name, "Bean");
    assert_eq!(carried.0.category, ItemCategory::Food);
    assert_eq!(bodies.len(), 1);
    let body = bodies.get(entity).unwrap();
    assert_eq!(body.position, vec2(64.0, 20.0));
    assert_eq!(body.velocity.0, vec2(-1.0, 2.0));
    assert_eq!(body.body, PhysicsBody::Dynamic);
    assert_eq!(body.friction.0, vec2(3.0, 0.0));
    assert_eq!(body.gravity_scale.0, fx(1.0));
    assert_eq!(body.collider.tags, vec!["item".to_string()]);
    assert_eq!(body.collider.colliding_tags, vec!["ground".to_string()]);
    assert_eq!(body.collider.half_extents, vec2(6.0, 6.0));
    assert!(body.colliding_directions.is_none());
    assert!(body.colliding_entities.as_ref().unwrap().0.is_empty());
}

#[test]
fn an_unknown_item_is_not_spawned() {
    let mut items = ItemRegistry::new();
    register_items(&mut items);
    let mut bodies = BodyRegistry::new();
    let event = SpawnItemEvent {
        item: "sword".to_string(),
        position: vec2(0.0, 0.0),
        velocity: vec2(0.0, 0.0),
    };
    assert!(handle_item_spawning(&items, &mut bodies, &event).is_none());
    assert_eq!(bodies.len(), 0);
    assert_eq!(bodies.identities_left(), u64::MAX);
}

fn holder(id: u64, capacity: usize) -> InventoryHolder {
    InventoryHolder { entity: Entity { id }, inventory: Inventory::with_capacity(capacity) }
}

fn contacts(ids: &[u64]) -> CollidingEntities {
    CollidingEntities(ids.iter().map(|&id| Entity { id }).collect())
}

#[test]
fn an_item_goes_to_the_holders_it_touches() {
    let bean = RepresentingItem(item("bean"));
    let mut holders = vec![holder(1, 5), holder(2, 5), holder(3, 5)];
    assert!(handle_item_collisions(&bean, &contacts(&[3, 7, 1]), &mut holders));
    assert_eq!(names(&holders[0].inventory), vec!["bean"]);
    assert!(holders[1].inventory.items.is_empty());
    assert_eq!(names(&holders[2].inventory), vec!["bean"]);
    assert_eq!(find_holder(&holders, Entity { id: 2 }), Some(1));
    assert_eq!(find_holder(&holders, Entity { id: 7 }), None);
}

#[test]
fn an_item_that_touches_no_holder_stays() {
    let bean = RepresentingItem(item("bean"));
    let mut holders = vec![holder(1, 5)];
    assert!(!handle_item_collisions(&bean, &contacts(&[]), &mut holders));
    assert!(!handle_item_collisions(&bean, &contacts(&[7, 8]), &mut holders));
    assert!(holders[0].inventory.items.is_empty());
    let mut nobody: Vec<InventoryHolder> = vec![];
    assert!(!handle_item_collisions(&bean, &contacts(&[1]), &mut nobody));
}

#[test]
fn a_contact_listed_twice_is_handed_the_item_twice() {
    let bean = RepresentingItem(item("bean"));
    let mut holders = vec![holder(1, 5)];
    assert!(handle_item_collisions(&bean, &contacts(&[1, 1]), &mut holders));
    assert_eq!(names(&holders[0].inventory), vec!["bean", "bean"]);
}

#[test]
fn an_item_is_taken_even_by_a_full_inventory() {
    let bean = RepresentingItem(item("bean"));
    let mut holders = vec![holder(1, 1)];
    holders[0].inventory.add_item(item("stone"));
    assert!(handle_item_collisions(&bean, &contacts(&[1]), &mut holders));
    assert_eq!(names(&holders[0].inventory), vec!["stone"]);
}

#[test]
fn the_first_holder_of_an_identity_gets_the_item() {
    let bean = RepresentingItem(item("bean"));
    let mut holders = vec![holder(1, 5), holder(1, 5)];
    assert!(handle_item_collisions(&bean, &contacts(&[1]), &mut holders));
    assert_eq!(names(&holders[0].inventory), vec!["bean"]);
    assert!(holders[1].inventory.items.is_empty());
}

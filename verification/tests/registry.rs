use island_project::fixed::Fixed;
use island_project::physics::component::{
    Collider, Entity, Friction, GravityScale, PhysicsBody, PhysicsBodyBundle, Velocity,
};
use island_project::physics::registry::BodyRegistry;
use island_project::physics::simulation::PhysicsConfig;
use island_project::player::component::{PlayerBundle, PlayerMovementState, PlayerMovementStats};
use island_project::player::controller::{down, InputSample};
use island_project::state::GameState;
use island_project::vector::Vec2;

fn fx(value: f64) -> Fixed {
    Fixed::from_raw((value * 1_000_000.0).round() as i64)
}

fn vec2(x: f64, y: f64) -> Vec2 {
    Vec2::new(fx(x), fx(y))
}

fn tags(names: &[&str]) -> Vec<String> {
    names.iter().map(|name| name.to_string()).collect()
}

fn crate_at(x: f64) -> (PhysicsBodyBundle, Collider) {
    (
        PhysicsBodyBundle {
            position: vec2(x, 0.0),
            body: PhysicsBody::Dynamic,
            velocity: Velocity(vec2(0.0, 0.0)),
            friction: Friction(vec2(0.0, 0.0)),
            gravity_scale: GravityScale(fx(1.0)),
        },
        Collider { tags: tags(&["crate"]), colliding_tags: tags(&["ground"]), half_extents: vec2(1.0, 1.0) },
    )
}

fn spawn(registry: &mut BodyRegistry, x: f64) -> Entity {
    let (bundle, collider) = crate_at(x);
    registry.spawn(bundle, collider).unwrap()
}

fn held(jump: bool, right: bool) -> InputSample {
    InputSample {
        keyboard_active: jump || right,
        gamepad_active: false,
        key_jump: jump,
        key_sprint: false,
        key_left: false,
        key_right: right,
        pad_jump: false,
        pad_sprint: false,
        pad_horizontal: fx(0.0),
    }
}

#[test]
fn identities_are_given_out_in_order_and_never_twice() {
    let mut registry = BodyRegistry::new();
    assert_eq!(registry.len(), 0);
    assert_eq!(registry.identities_left(), u64::MAX);
    let a = spawn(&mut registry, 0.0);
    let b = spawn(&mut registry, 10.0);
    assert_eq!(a, Entity { id: 0 });
    assert_eq!(b, Entity { id: 1 });
    assert!(registry.destroy(a));
    assert_eq!(registry.len(), 1);
    let c = spawn(&mut registry, 20.0);
    assert_eq!(c, Entity { id: 2 });
    assert_eq!(registry.identities_left(), u64::MAX - 3);
    assert_eq!(registry.index_of(b), Some(0));
    assert_eq!(registry.index_of(c), Some(1));
    assert_eq!(registry.index_of(a), None);
}

#[test]
fn a_spawned_body_has_what_it_was_given() {
    let mut registry = BodyRegistry::new();
    let (mut bundle, collider) = crate_at(3.0);
    bundle.velocity = Velocity(vec2(1.0, 2.0));
    bundle.body = PhysicsBody::Static;
    let entity = registry.spawn(bundle, collider).unwrap();
    let body = registry.get(entity).unwrap();
    assert_eq!(body.entity, entity);
    assert_eq!(body.position, vec2(3.0, 0.0));
    assert_eq!(body.body, PhysicsBody::Static);
    assert_eq!(body.velocity, Velocity(vec2(1.0, 2.0)));
    assert_eq!(body.collider.tags, tags(&["crate"]));
    assert_eq!(body.collider.colliding_tags, tags(&["ground"]));
    assert!(body.colliding_directions.is_none());
    assert!(body.colliding_entities.is_none());
    assert_eq!(registry.position(entity), Some(vec2(3.0, 0.0)));
    assert_eq!(registry.velocity(entity), Some(Velocity(vec2(1.0, 2.0))));
}

#[test]
fn a_missing_body_is_skipped_silently() {
    let mut registry = BodyRegistry::new();
    let kept = spawn(&mut registry, 0.0);
    let gone = spawn(&mut registry, 10.0);
    assert!(registry.destroy(gone));
    assert!(!registry.destroy(gone));
    assert!(!registry.destroy(Entity { id: 77 }));
    assert!(registry.get(gone).is_none());
    assert!(registry.position(gone).is_none());
    assert!(registry.velocity(gone).is_none());
    assert!(registry.colliding_directions(gone).is_none());
    assert!(registry.colliding_entities(gone).is_none());
    assert!(!registry.track_directions(gone));
    assert!(!registry.track_contacts(gone));
    assert!(!registry.set_velocity(gone, Velocity(vec2(1.0, 1.0))));
    assert_eq!(registry.len(), 1);
    assert_eq!(registry.position(kept), Some(vec2(0.0, 0.0)));
    assert_eq!(registry.velocity(kept), Some(Velocity(vec2(0.0, 0.0))));
}

#[test]
fn collision_state_is_kept_only_when_asked_for() {
    let mut registry = BodyRegistry::new();
    let entity = spawn(&mut registry, 0.0);
    assert!(registry.colliding_directions(entity).is_none());
    assert!(registry.colliding_entities(entity).is_none());
    assert!(registry.track_directions(entity));
    assert!(registry.colliding_directions(entity).unwrap().0.is_empty());
    assert!(registry.colliding_entities(entity).is_none());
    assert!(registry.track_contacts(entity));
    assert!(registry.colliding_entities(entity).unwrap().0.is_empty());
    assert!(registry.set_velocity(entity, Velocity(vec2(4.0, 5.0))));
    assert_eq!(registry.velocity(entity), Some(Velocity(vec2(4.0, 5.0))));
}

#[test]
fn a_step_moves_the_bodies_only_while_playing() {
    let mut registry = BodyRegistry::new();
    let entity = spawn(&mut registry, 0.0);
    let config = PhysicsConfig::default();
    registry.step(&config, GameState::Paused, fx(0.016));
    assert_eq!(registry.position(entity), Some(vec2(0.0, 0.0)));
    registry.step(&PhysicsConfig { enabled: false, ..config }, GameState::Gameplay, fx(0.016));
    assert_eq!(registry.position(entity), Some(vec2(0.0, 0.0)));
    registry.step(&config, GameState::Gameplay, fx(0.016));
    // 98.1 * 0.016 = 1.5696 down, times 0.016 is 0.025113 (rounded toward zero).
    assert_eq!(registry.velocity(entity), Some(Velocity(Vec2::from_raw(0, -1_569_600))));
    assert_eq!(registry.position(entity), Some(Vec2::from_raw(0, -25_113)));
}

#[test]
fn a_player_is_driven_through_its_body() {
    let mut registry = BodyRegistry::new();
    let entity = spawn(&mut registry, 0.0);
    let stats = PlayerMovementStats {
        walking_accel: fx(325.0),
        sprint_accel: fx(450.0),
        walking_friction: fx(6.4),
        jump_force: fx(1250.0),
        jump_time: fx(0.08),
    };
    let mut bundle = PlayerBundle { player_movement_stats: stats, ..PlayerBundle::default() };
    let dt = fx(0.016);

    // Without collision directions the input is sampled and the movement
    // judged, but the body is not touched.
    assert!(!registry.drive_player(entity, &mut bundle, &held(true, true), dt));
    assert!(bundle.player_state.input.is_jumping);
    assert_eq!(bundle.player_state.movement, PlayerMovementState::Walking);
    assert_eq!(registry.velocity(entity), Some(Velocity(vec2(0.0, 0.0))));
    assert_eq!(bundle.player_state.time_since_jump, fx(0.0));

    // In the air: pushed and given thrust.
    assert!(registry.track_directions(entity));
    assert!(registry.drive_player(entity, &mut bundle, &held(true, true), dt));
    assert_eq!(registry.velocity(entity), Some(Velocity(Vec2::from_raw(4_667_520, 20_000_000))));
    assert_eq!(bundle.player_state.time_since_jump, fx(0.016));
    assert_eq!(bundle.player_movement_stats, stats);

    // A body that is gone: only the input is sampled.
    assert!(registry.destroy(entity));
    bundle.player_state.movement = PlayerMovementState::Falling;
    assert!(!registry.drive_player(entity, &mut bundle, &held(false, false), dt));
    assert!(!bundle.player_state.input.is_jumping);
    assert_eq!(bundle.player_state.input.horizontal, fx(0.0));
    assert_eq!(bundle.player_state.movement, PlayerMovementState::Falling);
    assert_eq!(bundle.player_state.time_since_jump, fx(0.016));
}

#[test]
fn a_player_jumps_off_the_ground_it_landed_on() {
    let mut registry = BodyRegistry::new();
    let floor = registry
        .spawn(
            PhysicsBodyBundle {
                position: vec2(0.0, -64.0),
                body: PhysicsBody::Static,
                ..PhysicsBodyBundle::default()
            },
            Collider {
                tags: tags(&["ground"]),
                colliding_tags: tags(&["ground"]),
                half_extents: vec2(64.0, 8.0),
            },
        )
        .unwrap();
    let player = registry
        .spawn(
            PhysicsBodyBundle {
                position: vec2(0.0, -40.0),
                gravity_scale: GravityScale(fx(2.0)),
                ..PhysicsBodyBundle::default()
            },
            Collider {
                tags: tags(&["player"]),
                colliding_tags: tags(&["ground"]),
                half_extents: vec2(5.0, 10.0),
            },
        )
        .unwrap();
    registry.track_directions(player);
    registry.track_contacts(player);
    let mut bundle = PlayerBundle {
        player_movement_stats: PlayerMovementStats {
            walking_accel: fx(325.0),
            sprint_accel: fx(450.0),
            walking_friction: fx(6.4),
            jump_force: fx(1250.0),
            jump_time: fx(0.08),
        },
        ..PlayerBundle::default()
    };
    let config = PhysicsConfig { enabled: true, gravity: vec2(0.0, -80.0) };
    let dt = fx(0.016);

    // Fall until the ground is felt, holding the jump button all the while.
    let mut jumped = false;
    for _ in 0..200 {
        registry.step(&config, GameState::Gameplay, dt);
        let grounded = registry.colliding_directions(player).unwrap().0.contains(&down());
        assert!(registry.drive_player(player, &mut bundle, &held(true, false), dt));
        if grounded {
            assert_eq!(registry.velocity(player).unwrap().0.y, fx(20.0));
            assert_eq!(registry.colliding_entities(player).unwrap().0, vec![floor]);
            jumped = true;
            break;
        }
    }
    assert!(jumped);
    // The jump carries the player up and away from the ground.
    let low = registry.position(player).unwrap().y;
    for _ in 0..5 {
        registry.step(&config, GameState::Gameplay, dt);
        registry.drive_player(player, &mut bundle, &held(true, false), dt);
    }
    assert!(registry.position(player).unwrap().y.raw() > low.raw());
    assert_eq!(bundle.player_state.movement, PlayerMovementState::Jumping);
    assert!(registry.colliding_directions(player).unwrap().0.is_empty());
}

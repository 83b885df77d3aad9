use island_project::fixed::Fixed;
use island_project::physics::collision::{all_tags_present, boxes_meet, has_tag, predicted, Contact};
use island_project::physics::component::{
    Body, Collider, CollidingDirections, CollidingEntities, Entity, Friction, GravityScale,
    PhysicsBody, Velocity,
};
use island_project::physics::resolver::{
    clear_collision_state, handle_collisions, record_contact, resolve_pair,
};
use island_project::player::controller::{down, on_floor};
use island_project::vector::Vec2;

fn fx(value: f64) -> Fixed {
    Fixed::from_raw((value * 1_000_000.0).round() as i64)
}

fn vec2(x: f64, y: f64) -> Vec2 {
    Vec2::new(fx(x), fx(y))
}

fn tags(names: &[&str]) -> Vec<String> {
    names.iter().map(|name| name.to_string()).collect()
}

struct Shape<'a> {
    position: (f64, f64),
    velocity: (f64, f64),
    half: (f64, f64),
    tags: &'a [&'a str],
    colliding: &'a [&'a str],
}

fn body(id: u64, kind: PhysicsBody, shape: Shape) -> Body {
    Body {
        entity: Entity { id },
        position: vec2(shape.position.0, shape.position.1),
        body: kind,
        velocity: Velocity(vec2(shape.velocity.0, shape.velocity.1)),
        friction: Friction(Vec2::zero()),
        gravity_scale: GravityScale(Fixed::one()),
        collider: Collider {
            tags: tags(shape.tags),
            colliding_tags: tags(shape.colliding),
            half_extents: vec2(shape.half.0, shape.half.1),
        },
        colliding_directions: Some(CollidingDirections(vec![])),
        colliding_entities: Some(CollidingEntities(vec![])),
    }
}

fn directions(body: &Body) -> Vec<Vec2> {
    body.colliding_directions.as_ref().unwrap().0.clone()
}

fn contacts(body: &Body) -> Vec<u64> {
    body.colliding_entities.as_ref().unwrap().0.iter().map(|entity| entity.id).collect()
}

fn runner(velocity: (f64, f64)) -> Body {
    body(
        0,
        PhysicsBody::Dynamic,
        Shape {
            position: (0.0, 0.0),
            velocity,
            half: (5.0, 5.0),
            tags: &["player"],
            colliding: &["ground"],
        },
    )
}

fn wall() -> Body {
    body(
        1,
        PhysicsBody::Static,
        Shape {
            position: (12.0, 0.0),
            velocity: (0.0, 0.0),
            half: (5.0, 50.0),
            tags: &["ground"],
            colliding: &["ground"],
        },
    )
}

const DT: f64 = 0.016;

#[test]
fn boxes_meet_when_they_touch_or_overlap() {
    let half = vec2(5.0, 5.0);
    assert!(boxes_meet(vec2(0.0, 0.0), half, vec2(10.0, 10.0), half));
    assert!(boxes_meet(vec2(0.0, 0.0), half, vec2(-3.0, 9.999999), half));
    assert!(!boxes_meet(vec2(0.0, 0.0), half, vec2(10.000001, 0.0), half));
    assert!(!boxes_meet(vec2(0.0, 0.0), half, vec2(0.0, -10.000001), half));
    assert!(boxes_meet(vec2(0.0, 0.0), Vec2::zero(), vec2(0.0, 0.0), Vec2::zero()));
    assert_eq!(predicted(fx(10.0), fx(-50.0), fx(DT)), fx(9.2));
}

#[test]
fn tags_are_matched_as_a_subset() {
    let ground = tags(&["ground", "solid"]);
    assert!(has_tag(&ground, &"solid".to_string()));
    assert!(!has_tag(&ground, &"soli".to_string()));
    assert!(!has_tag(&vec![], &"ground".to_string()));
    assert!(all_tags_present(&tags(&["ground"]), &ground));
    assert!(all_tags_present(&tags(&["solid", "ground", "solid"]), &ground));
    assert!(!all_tags_present(&tags(&["ground", "water"]), &ground));
    assert!(all_tags_present(&vec![], &ground));
    assert!(all_tags_present(&vec![], &vec![]));
    assert!(!all_tags_present(&tags(&["ground"]), &vec![]));
}

#[test]
fn a_blocked_body_loses_only_the_blocked_axis() {
    let contact = Contact::between(&runner((200.0, -20.0)), &wall(), fx(DT));
    assert!(contact.touched);
    assert_eq!(contact.direction, vec2(1.0, 0.0));
    assert_eq!(contact.velocity, vec2(0.0, -20.0));

    // Too slow to reach the wall in this tick: nothing happens.
    let contact = Contact::between(&runner((100.0, -20.0)), &wall(), fx(DT));
    assert!(!contact.touched);
    assert_eq!(contact.direction, vec2(0.0, 0.0));
    assert_eq!(contact.velocity, vec2(100.0, -20.0));
}

#[test]
fn each_axis_is_tested_from_the_current_position() {
    // The corner case: the box advanced on both axes at once would overlap the
    // other box, but neither single advance does.
    let mover = body(
        0,
        PhysicsBody::Dynamic,
        Shape {
            position: (0.0, 0.0),
            velocity: (100.0, 100.0),
            half: (5.0, 5.0),
            tags: &[],
            colliding: &[],
        },
    );
    let corner = body(
        1,
        PhysicsBody::Static,
        Shape {
            position: (11.0, 11.0),
            velocity: (0.0, 0.0),
            half: (5.0, 5.0),
            tags: &[],
            colliding: &[],
        },
    );
    let contact = Contact::between(&mover, &corner, fx(DT));
    assert!(!contact.touched);
    assert_eq!(contact.velocity, vec2(100.0, 100.0));
}

#[test]
fn a_body_that_overlaps_is_stopped_on_both_axes() {
    let mut mover = runner((-3.0, 4.0));
    mover.position = vec2(10.0, 0.0);
    let contact = Contact::between(&mover, &wall(), fx(DT));
    assert!(contact.touched);
    assert_eq!(contact.direction, vec2(-1.0, 1.0));
    assert_eq!(contact.velocity, vec2(0.0, 0.0));
}

#[test]
fn blocking_goes_one_way() {
    let mut bodies = vec![
        runner((200.0, 0.0)),
        body(
            1,
            PhysicsBody::Dynamic,
            Shape {
                position: (12.0, 0.0),
                velocity: (-200.0, 7.0),
                half: (5.0, 5.0),
                tags: &["ground"],
                colliding: &["wall"],
            },
        ),
    ];
    handle_collisions(&mut bodies, fx(DT));
    assert_eq!(bodies[0].velocity.0, vec2(0.0, 0.0));
    assert_eq!(bodies[1].velocity.0, vec2(-200.0, 7.0));
    assert_eq!(directions(&bodies[0]), vec![vec2(1.0, 0.0)]);
    assert_eq!(directions(&bodies[1]), vec![vec2(-1.0, 0.0)]);
    assert_eq!(bodies[0].position, vec2(0.0, 0.0));
    assert_eq!(bodies[1].position, vec2(12.0, 0.0));
}

#[test]
fn an_unblocked_contact_is_still_recorded() {
    let mut bodies = vec![
        body(
            0,
            PhysicsBody::Dynamic,
            Shape {
                position: (0.0, 0.0),
                velocity: (200.0, 0.0),
                half: (5.0, 5.0),
                tags: &["item"],
                colliding: &["ground"],
            },
        ),
        body(
            1,
            PhysicsBody::Dynamic,
            Shape {
                position: (12.0, 0.0),
                velocity: (0.0, 0.0),
                half: (5.0, 5.0),
                tags: &["player"],
                colliding: &["ground"],
            },
        ),
    ];
    handle_collisions(&mut bodies, fx(DT));
    assert_eq!(bodies[0].velocity.0, vec2(200.0, 0.0));
    assert_eq!(directions(&bodies[0]), vec![vec2(1.0, 0.0)]);
    assert_eq!(contacts(&bodies[0]), vec![1]);
    assert_eq!(contacts(&bodies[1]), vec![0]);
    assert!(directions(&bodies[1]).is_empty());
}

#[test]
fn bodies_at_rest_that_overlap_are_in_contact_but_not_grounded() {
    let still = Shape {
        position: (0.0, 0.0),
        velocity: (0.0, 0.0),
        half: (5.0, 5.0),
        tags: &["ground"],
        colliding: &["ground"],
    };
    let mut bodies = vec![
        body(4, PhysicsBody::Dynamic, Shape { ..still }),
        body(9, PhysicsBody::Static, Shape { position: (3.0, 3.0), ..still }),
    ];
    handle_collisions(&mut bodies, fx(DT));
    for body in &bodies {
        assert_eq!(directions(body), vec![vec2(0.0, 0.0)]);
        assert!(!on_floor(body.colliding_directions.as_ref().unwrap()));
        assert_eq!(body.velocity.0, vec2(0.0, 0.0));
    }
    // Each body is recorded once for its own test and once for the other's.
    assert_eq!(contacts(&bodies[0]), vec![9, 9]);
    assert_eq!(contacts(&bodies[1]), vec![4, 4]);
}

#[test]
fn ground_is_sensed_only_straight_down() {
    let floor = body(
        1,
        PhysicsBody::Static,
        Shape {
            position: (0.0, -64.0),
            velocity: (0.0, 0.0),
            half: (64.0, 8.0),
            tags: &["ground"],
            colliding: &["ground"],
        },
    );
    let hovering = |velocity: (f64, f64), height: f64| {
        body(
            0,
            PhysicsBody::Dynamic,
            Shape {
                position: (0.0, height),
                velocity,
                half: (5.0, 10.0),
                tags: &["player"],
                colliding: &["ground"],
            },
        )
    };

    // Falling from just above the floor, with or without sideways motion.
    for sideways in [0.0, 30.0, -30.0] {
        let mut bodies = vec![hovering((sideways, -10.0), -45.9), floor.clone()];
        handle_collisions(&mut bodies, fx(DT));
        assert_eq!(directions(&bodies[0]), vec![down()]);
        assert!(on_floor(bodies[0].colliding_directions.as_ref().unwrap()));
        assert_eq!(bodies[0].velocity.0, vec2(sideways, 0.0));
    }
    // Too high to reach the floor in this tick.
    let mut bodies = vec![hovering((0.0, -10.0), -45.0), floor.clone()];
    handle_collisions(&mut bodies, fx(DT));
    assert!(directions(&bodies[0]).is_empty());
    assert_eq!(bodies[0].velocity.0, vec2(0.0, -10.0));
    // Rising or resting within reach of the floor.
    for (upward, sign) in [(10.0, 1.0), (0.0, 0.0)] {
        let mut bodies = vec![hovering((0.0, upward), -46.5), floor.clone()];
        handle_collisions(&mut bodies, fx(DT));
        assert_eq!(directions(&bodies[0]), vec![vec2(0.0, sign)]);
        assert!(!on_floor(bodies[0].colliding_directions.as_ref().unwrap()));
    }
    // Sunk into the floor and moving sideways: the direction is diagonal.
    let mut bodies = vec![hovering((30.0, -10.0), -50.0), floor.clone()];
    handle_collisions(&mut bodies, fx(DT));
    assert_eq!(directions(&bodies[0]), vec![vec2(1.0, -1.0)]);
    assert!(!on_floor(bodies[0].colliding_directions.as_ref().unwrap()));
    assert_eq!(bodies[0].velocity.0, vec2(0.0, 0.0));
}

#[test]
fn ground_is_sensed_over_a_body_that_does_not_block() {
    let mut bodies = vec![
        body(
            0,
            PhysicsBody::Dynamic,
            Shape {
                position: (0.0, 10.1),
                velocity: (0.0, -10.0),
                half: (5.0, 5.0),
                tags: &["player"],
                colliding: &["ground"],
            },
        ),
        body(
            1,
            PhysicsBody::Dynamic,
            Shape {
                position: (0.0, 0.0),
                velocity: (0.0, 0.0),
                half: (5.0, 5.0),
                tags: &["item"],
                colliding: &["ground"],
            },
        ),
    ];
    handle_collisions(&mut bodies, fx(DT));
    assert!(on_floor(bodies[0].colliding_directions.as_ref().unwrap()));
    assert_eq!(bodies[0].velocity.0, vec2(0.0, -10.0));
}

#[test]
fn a_body_without_collision_state_still_collides() {
    let mut bodies = vec![runner((200.0, 0.0)), wall()];
    bodies[0].colliding_directions = None;
    bodies[0].colliding_entities = None;
    handle_collisions(&mut bodies, fx(DT));
    assert_eq!(bodies[0].velocity.0, vec2(0.0, 0.0));
    assert!(bodies[0].colliding_directions.is_none());
    assert!(bodies[0].colliding_entities.is_none());
    // The runner keeps no contacts, so its test leaves no trace on the wall
    // either; the wall's own test does not reach the runner.
    assert!(contacts(&bodies[1]).is_empty());
    assert!(directions(&bodies[1]).is_empty());

    // Where the wall's own test meets the runner, the wall records it.
    let mut bodies = vec![runner((200.0, 0.0)), wall()];
    bodies[0].position = vec2(3.0, 0.0);
    bodies[0].colliding_directions = None;
    bodies[0].colliding_entities = None;
    handle_collisions(&mut bodies, fx(DT));
    assert_eq!(contacts(&bodies[1]), vec![0]);
    assert_eq!(directions(&bodies[1]), vec![vec2(0.0, 0.0)]);
    assert!(bodies[0].colliding_entities.is_none());

    let mut bodies = vec![runner((200.0, 0.0)), wall()];
    bodies[1].colliding_directions = None;
    bodies[1].colliding_entities = None;
    handle_collisions(&mut bodies, fx(DT));
    assert_eq!(contacts(&bodies[0]), vec![1]);
    assert_eq!(directions(&bodies[0]), vec![vec2(1.0, 0.0)]);
    assert!(bodies[1].colliding_entities.is_none());
}

#[test]
fn collision_state_holds_no_history() {
    let mut bodies = vec![runner((200.0, 0.0)), wall()];
    handle_collisions(&mut bodies, fx(DT));
    assert_eq!(directions(&bodies[0]), vec![vec2(1.0, 0.0)]);
    bodies[0].position = vec2(-100.0, 0.0);
    handle_collisions(&mut bodies, fx(DT));
    assert!(directions(&bodies[0]).is_empty());
    assert!(contacts(&bodies[0]).is_empty());
    assert!(directions(&bodies[1]).is_empty());
    assert!(contacts(&bodies[1]).is_empty());

    bodies[0].colliding_directions = Some(CollidingDirections(vec![down(), down()]));
    bodies[1].colliding_directions = None;
    clear_collision_state(&mut bodies);
    assert!(directions(&bodies[0]).is_empty());
    assert!(bodies[1].colliding_directions.is_none());
}

#[test]
fn pairs_are_resolved_in_table_order() {
    // The runner sits between two walls and touches both; the earlier pair
    // stops it, so the later pair sees it at rest.
    let mut left = wall();
    left.entity = Entity { id: 2 };
    left.position = vec2(-12.0, 0.0);
    let mut bodies = vec![left.clone(), runner((-400.0, 0.0)), wall()];
    bodies[1].position = vec2(3.0, 0.0);
    handle_collisions(&mut bodies, fx(DT));
    assert_eq!(bodies[1].velocity.0, vec2(0.0, 0.0));
    assert_eq!(directions(&bodies[1]), vec![vec2(-1.0, 0.0), vec2(0.0, 0.0)]);
    assert_eq!(contacts(&bodies[1]), vec![2, 1, 1]);
    assert_eq!(contacts(&bodies[0]), vec![0]);
    assert_eq!(contacts(&bodies[2]), vec![0, 0]);

    // With the right wall first in the table the runner is tested against it
    // while still moving away from it: only its vertical test, made from
    // where it is, meets the wall.
    let mut bodies = vec![wall(), runner((-400.0, 0.0)), left];
    bodies[1].position = vec2(3.0, 0.0);
    handle_collisions(&mut bodies, fx(DT));
    assert_eq!(bodies[1].velocity.0, vec2(0.0, 0.0));
    assert_eq!(directions(&bodies[1]), vec![vec2(0.0, 0.0), vec2(-1.0, 0.0)]);
    assert_eq!(contacts(&bodies[1]), vec![1, 1, 2]);
}

#[test]
fn a_pair_can_be_resolved_by_hand() {
    let mut by_pass = vec![runner((200.0, 0.0)), wall()];
    clear_collision_state(&mut by_pass);
    resolve_pair(&mut by_pass, 0, 1, fx(DT));

    let mut by_hand = vec![runner((200.0, 0.0)), wall()];
    let forth = Contact::between(&by_hand[0], &by_hand[1], fx(DT));
    record_contact(&mut by_hand, 0, 1, forth);
    let back = Contact::between(&by_hand[1], &by_hand[0], fx(DT));
    record_contact(&mut by_hand, 1, 0, back);

    for k in 0..2 {
        assert_eq!(by_pass[k].velocity, by_hand[k].velocity);
        assert_eq!(directions(&by_pass[k]), directions(&by_hand[k]));
        assert_eq!(contacts(&by_pass[k]), contacts(&by_hand[k]));
    }
    assert_eq!(contacts(&by_pass[0]), vec![1]);
    assert_eq!(contacts(&by_pass[1]), vec![0]);
}

#[test]
fn an_empty_table_and_a_single_body_are_left_alone() {
    let mut bodies: Vec<Body> = vec![];
    handle_collisions(&mut bodies, fx(DT));
    assert!(bodies.is_empty());
    let mut bodies = vec![runner((200.0, -3.0))];
    handle_collisions(&mut bodies, fx(DT));
    assert_eq!(bodies[0].velocity.0, vec2(200.0, -3.0));
    assert!(directions(&bodies[0]).is_empty());
}

#[test]
fn static_bodies_are_tested_but_never_moved() {
    let slab = |id: u64, x: f64| {
        body(
            id,
            PhysicsBody::Static,
            Shape {
                position: (x, 0.0),
                velocity: (0.0, 0.0),
                half: (5.0, 5.0),
                tags: &["ground"],
                colliding: &["ground"],
            },
        )
    };
    let mut bodies = vec![slab(0, 0.0), slab(1, 8.0)];
    island_project::physics::simulation::tick(&mut bodies, vec2(0.0, -98.1), fx(DT));
    for (k, body) in bodies.iter().enumerate() {
        assert_eq!(body.position, vec2(8.0 * k as f64, 0.0));
        assert_eq!(body.velocity.0, vec2(0.0, 0.0));
        assert_eq!(directions(body), vec![vec2(0.0, 0.0)]);
    }
    assert_eq!(contacts(&bodies[0]), vec![1, 1]);
    assert_eq!(contacts(&bodies[1]), vec![0, 0]);
}

/// A small generator of numbers that looks random enough for a crowd.
struct Dice(u64);

impl Dice {
    fn roll(&mut self, sides: u64) -> u64 {
        self.0 = self.0.wrapping_mul(6364136223846793005).wrapping_add(1442695040888963407);
        (self.0 >> 33) % sides
    }

    fn between(&mut self, low: f64, high: f64) -> f64 {
        low + (high - low) * (self.roll(10_001) as f64 / 10_000.0)
    }
}

fn crowd(dice: &mut Dice) -> Vec<Body> {
    let kinds: [&[&str]; 4] = [&[], &["ground"], &["player"], &["ground", "player"]];
    let mut bodies = vec![];
    for id in 0..12 {
        let mut member = body(
            id,
            if dice.roll(3) == 0 { PhysicsBody::Static } else { PhysicsBody::Dynamic },
            Shape {
                position: (dice.between(-30.0, 30.0), dice.between(-30.0, 30.0)),
                velocity: (dice.between(-300.0, 300.0), dice.between(-300.0, 300.0)),
                half: (dice.between(0.0, 8.0), dice.between(0.0, 8.0)),
                tags: kinds[dice.roll(4) as usize],
                colliding: kinds[dice.roll(4) as usize],
            },
        );
        if dice.roll(4) == 0 {
            member.velocity = Velocity(vec2(0.0, member.velocity.0.y.raw() as f64 / 1e6));
        }
        if dice.roll(5) == 0 {
            member.colliding_directions = None;
        }
        if dice.roll(5) == 0 {
            member.colliding_entities = None;
        }
        bodies.push(member);
    }
    bodies
}

#[test]
fn a_pass_over_a_crowd_keeps_its_promises() {
    let mut dice = Dice(2022);
    let zero = Fixed::zero();
    for _ in 0..200 {
        let before = crowd(&mut dice);
        let mut after = before.clone();
        handle_collisions(&mut after, fx(DT));
        assert_eq!(after.len(), before.len());
        for (old, new) in before.iter().zip(&after) {
            // Only velocities and collision state change, and a velocity
            // component either stays or becomes zero.
            assert_eq!(new.entity, old.entity);
            assert_eq!(new.position, old.position);
            assert_eq!(new.body, old.body);
            assert_eq!(new.collider.tags, old.collider.tags);
            assert_eq!(new.collider.colliding_tags, old.collider.colliding_tags);
            assert_eq!(new.collider.half_extents, old.collider.half_extents);
            assert_eq!(new.colliding_directions.is_some(), old.colliding_directions.is_some());
            assert_eq!(new.colliding_entities.is_some(), old.colliding_entities.is_some());
            assert!(new.velocity.0.x == old.velocity.0.x || new.velocity.0.x == zero);
            assert!(new.velocity.0.y == old.velocity.0.y || new.velocity.0.y == zero);
            // Every recorded direction is made of signs.
            if let Some(recorded) = &new.colliding_directions {
                for direction in &recorded.0 {
                    assert!([-1_000_000, 0, 1_000_000].contains(&direction.x.raw()));
                    assert!([-1_000_000, 0, 1_000_000].contains(&direction.y.raw()));
                }
            }
        }
        for a in &after {
            for b in &after {
                // Contact is mutual between bodies that both keep contacts.
                if let (Some(of_a), Some(of_b)) = (&a.colliding_entities, &b.colliding_entities) {
                    if a.entity != b.entity {
                        assert_eq!(of_a.0.contains(&b.entity), of_b.0.contains(&a.entity));
                    }
                }
            }
        }
        for (k, old) in before.iter().enumerate() {
            // A body that is not moving sideways, or that meets nothing
            // ahead, is grounded exactly when it is falling and its box,
            // advanced downward, meets another box.
            let ahead =
                Vec2::new(predicted(old.position.x, old.velocity.0.x, fx(DT)), old.position.y);
            let clear_ahead = before.iter().enumerate().all(|(j, other)| {
                j == k
                    || !boxes_meet(
                        ahead,
                        old.collider.half_extents,
                        other.position,
                        other.collider.half_extents,
                    )
            });
            if old.colliding_directions.is_some() && (old.velocity.0.x == zero || clear_ahead) {
                let next = Vec2::new(
                    old.position.x,
                    predicted(old.position.y, old.velocity.0.y, fx(DT)),
                );
                let lands = old.velocity.0.y.is_negative()
                    && before.iter().enumerate().any(|(j, other)| {
                        j != k
                            && boxes_meet(
                                next,
                                old.collider.half_extents,
                                other.position,
                                other.collider.half_extents,
                            )
                    });
                assert_eq!(on_floor(after[k].colliding_directions.as_ref().unwrap()), lands);
            }
        }
    }
}

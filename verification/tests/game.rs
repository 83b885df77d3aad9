use island_project::fixed::Fixed;
use island_project::game::{drive_players, frame, PlayerSlot};
use island_project::levels::{player_stats, spawn_level_event};
use island_project::physics::component::{Entity, Velocity};
use island_project::physics::registry::BodyRegistry;
use island_project::physics::simulation::PhysicsConfig;
use island_project::player::component::{PlayerBundle, PlayerMovementState};
use island_project::player::controller::{down, InputSample};
use island_project::prelude::GameState;
use island_project::vector::Vec2;

fn fx(value: f64) -> Fixed {
    Fixed::from_raw((value * 1_000_000.0).round() as i64)
}

fn vec2(x: f64, y: f64) -> Vec2 {
    Vec2::new(fx(x), fx(y))
}

fn keys(jump: bool, right: bool) -> InputSample {
    InputSample {
        keyboard_active: jump || right,
        gamepad_active: false,
        key_jump: jump,
        key_sprint: false,
        key_left: false,
        key_right: right,
        pad_jump: false,
        pad_sprint: false,
        pad_horizontal: fx(0.0),
    }
}

fn level() -> (BodyRegistry, Vec<PlayerSlot>) {
    let mut bodies = BodyRegistry::new();
    let spawned = spawn_level_event(&mut bodies, &mut vec![]).unwrap();
    (bodies, vec![PlayerSlot { body: spawned.player, bundle: spawned.player_bundle }])
}

#[test]
fn nothing_happens_unless_the_game_is_played() {
    let config = PhysicsConfig::default();
    for state in [
        GameState::Startup,
        GameState::MainMenu,
        GameState::Paused,
        GameState::Menu,
        GameState::Cutscene,
        GameState::GameOver,
    ] {
        let (mut bodies, mut players) = level();
        let before = players.clone();
        frame(&mut bodies, &mut players, &config, state, &keys(true, true), fx(0.016));
        assert_eq!(players, before);
        assert_eq!(bodies.position(players[0].body), Some(vec2(0.0, 0.0)));
        assert_eq!(bodies.velocity(players[0].body), Some(Velocity(vec2(0.0, 0.0))));
    }
}

#[test]
fn players_still_act_while_the_simulation_is_disabled() {
    let (mut bodies, mut players) = level();
    let config = PhysicsConfig { enabled: false, ..PhysicsConfig::default() };
    frame(&mut bodies, &mut players, &config, GameState::Gameplay, &keys(false, true), fx(0.016));
    assert_eq!(bodies.position(players[0].body), Some(vec2(0.0, 0.0)));
    assert_eq!(bodies.velocity(players[0].body), Some(Velocity(Vec2::from_raw(4_667_520, 0))));
    assert_eq!(players[0].bundle.player_state.movement, PlayerMovementState::Walking);
}

#[test]
fn the_player_acts_on_what_the_simulation_found() {
    let (mut bodies, mut players) = level();
    let config = PhysicsConfig { enabled: true, gravity: vec2(0.0, -80.0) };
    let dt = fx(0.016);
    let grounded = |bodies: &BodyRegistry, body: Entity| {
        bodies.colliding_directions(body).unwrap().0.contains(&down())
    };

    // Fall without touching anything until the ground is felt.
    let mut landed = false;
    for _ in 0..300 {
        frame(&mut bodies, &mut players, &config, GameState::Gameplay, &keys(false, false), dt);
        let state = players[0].bundle.player_state;
        if grounded(&bodies, players[0].body) {
            // Judged on the velocity that the simulation left.
            assert_eq!(state.movement, PlayerMovementState::Idle);
            landed = true;
            break;
        }
        assert!(bodies.velocity(players[0].body).unwrap().0.y.raw() < 0);
        assert_eq!(state.movement, PlayerMovementState::Falling);
        assert_eq!(state.time_since_jump, fx(0.08));
    }
    assert!(landed);

    // Hold the jump button: the jump starts in the first frame in which the
    // ground is felt again, and not before.
    let mut jumped = false;
    for _ in 0..300 {
        frame(&mut bodies, &mut players, &config, GameState::Gameplay, &keys(true, false), dt);
        let velocity = bodies.velocity(players[0].body).unwrap();
        if grounded(&bodies, players[0].body) {
            assert_eq!(velocity.0.y, fx(20.0));
            assert_eq!(players[0].bundle.player_state.time_since_jump, fx(0.0));
            jumped = true;
            break;
        }
        assert!(velocity.0.y.raw() < 0);
        assert_eq!(players[0].bundle.player_state.time_since_jump, fx(0.08));
    }
    assert!(jumped);
}

#[test]
fn every_player_gets_the_same_input() {
    let (mut bodies, mut players) = level();
    let other = spawn_level_event(&mut bodies, &mut vec![]).unwrap();
    players.push(PlayerSlot { body: other.player, bundle: other.player_bundle });
    players.push(PlayerSlot {
        body: Entity { id: 99 },
        bundle: PlayerBundle { player_movement_stats: player_stats(), ..PlayerBundle::default() },
    });
    drive_players(&mut bodies, &mut players, &keys(true, true), fx(0.016));
    for slot in &players[..2] {
        assert_eq!(
            bodies.velocity(slot.body),
            Some(Velocity(Vec2::from_raw(4_667_520, 20_000_000)))
        );
        assert_eq!(slot.bundle.player_state.movement, PlayerMovementState::Walking);
        assert_eq!(slot.bundle.player_state.time_since_jump, fx(0.016));
    }
    // A player without a body only has its input sampled.
    assert!(players[2].bundle.player_state.input.is_jumping);
    assert_eq!(players[2].bundle.player_state.input.horizontal, fx(1.0));
    assert_eq!(players[2].bundle.player_state.movement, PlayerMovementState::Idle);
    assert_eq!(players[2].bundle.player_state.time_since_jump, fx(0.0));
}

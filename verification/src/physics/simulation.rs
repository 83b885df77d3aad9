//! One tick of the simulation: the passes in their fixed order.
use crate::fixed::Fixed;
use crate::physics::component::{views, Body, BodyView};
use crate::physics::integrator::{
    after_friction, after_gravity, after_motion, apply_friction, apply_gravity, apply_velocity,
    spec_damped_component,
};
use crate::physics::pass_theorems::{lemma_pass_frame, same_body};
use crate::physics::resolver::{handle_collisions, resolved};
use crate::physics::theorems::lemma_gravity_pass_spares;
use crate::state::GameState;
use crate::vector::Vec2;
use vstd::prelude::*;

verus! {

/// The settings of the simulation.
#[derive(Clone, Copy, Debug, PartialEq, Eq, Structural)]
pub struct PhysicsConfig {
    /// Whether the simulation runs at all.
    pub enabled: bool,
    /// The acceleration that acts on every dynamic body, before scaling.
    pub gravity: Vec2,
}

/// The settings in use unless others are given: the simulation is enabled
/// and gravity pulls down at 98.1 units per second squared.
pub open spec fn spec_default_config() -> PhysicsConfig {
    PhysicsConfig {
        enabled: true,
        gravity: Vec2 { x: Fixed::zero(), y: Fixed::from_raw(-98_100_000i64) },
    }
}

impl Default for PhysicsConfig {
    /// The simulation enabled, with gravity pulling down at 98.1 units per
    /// second squared.
    fn default() -> (config: PhysicsConfig)
        ensures
            config == spec_default_config(),
    {
        PhysicsConfig {
            enabled: true,
            gravity: Vec2 { x: Fixed::zero(), y: Fixed::from_raw(-98_100_000i64) },
        }
    }
}

/// The table after one tick of length `dt`.
///
/// Gravity comes first, so that the collision pass can cancel the fall of a
/// body that lands. Motion uses the velocities that the collision pass left.
/// Friction comes last: it damps the velocity of the next tick, not the
/// displacement of this one.
pub open spec fn after_tick(bodies: Seq<BodyView>, gravity: Vec2, dt: Fixed) -> Seq<BodyView> {
    after_friction(after_motion(resolved(after_gravity(bodies, gravity, dt), dt), dt), dt)
}

/// The table after a frame in which the game was in `state`: one tick later
/// if the simulation is enabled and the game is being played, unchanged
/// otherwise.
pub open spec fn after_frame(
    bodies: Seq<BodyView>,
    config: PhysicsConfig,
    state: GameState,
    dt: Fixed,
) -> Seq<BodyView> {
    if config.enabled && state.simulation_active() {
        after_tick(bodies, config.gravity, dt)
    } else {
        bodies
    }
}

/// Advances the table by one tick of length `dt`: gravity, collisions,
/// motion, friction.
pub fn tick(bodies: &mut Vec<Body>, gravity: Vec2, dt: Fixed)
    ensures
        views(final(bodies)@) == after_tick(views(old(bodies)@), gravity, dt),
        final(bodies).len() == old(bodies).len(),
{
    apply_gravity(bodies, gravity, dt);
    handle_collisions(bodies, dt);
    apply_velocity(bodies, dt);
    apply_friction(bodies, dt);
}

/// Advances the table by one frame: by one tick if the simulation is enabled
/// and the game is being played, not at all otherwise.
pub fn frame(bodies: &mut Vec<Body>, config: &PhysicsConfig, state: GameState, dt: Fixed)
    ensures
        views(final(bodies)@) == after_frame(views(old(bodies)@), *config, state, dt),
        final(bodies).len() == old(bodies).len(),
{
    if config.enabled && state.simulation_active() {
        tick(bodies, config.gravity, dt);
    }
}

/// The table after a run of ticks of the given lengths.
pub open spec fn after_ticks(bodies: Seq<BodyView>, gravity: Vec2, lengths: Seq<Fixed>) -> Seq<
    BodyView,
>
    decreases lengths.len(),
{
    if lengths.len() == 0 {
        bodies
    } else {
        after_tick(after_ticks(bodies, gravity, lengths.drop_last()), gravity, lengths.last())
    }
}

/// A tick leaves a body without vertical velocity and with a zero gravity
/// scale at its height and without vertical velocity.
pub proof fn lemma_tick_keeps_level(bodies: Seq<BodyView>, gravity: Vec2, dt: Fixed, k: int)
    requires
        0 <= k < bodies.len(),
        bodies[k].gravity_scale@ == 0,
        bodies[k].velocity.y@ == 0,
    ensures
        after_tick(bodies, gravity, dt).len() == bodies.len(),
        after_tick(bodies, gravity, dt)[k].gravity_scale == bodies[k].gravity_scale,
        after_tick(bodies, gravity, dt)[k].velocity.y@ == 0,
        after_tick(bodies, gravity, dt)[k].position.y == bodies[k].position.y,
{
    let pulled = after_gravity(bodies, gravity, dt);
    lemma_gravity_pass_spares(bodies, gravity, dt, k);
    lemma_pass_frame(pulled, dt);
    let settled = resolved(pulled, dt);
    assert(same_body(pulled[k], settled[k]));
    let level = settled[k].velocity.y;
    assert(0 * dt@ == 0);
    assert(level.times(dt)@ == 0);
    assert(settled[k].friction.y.times(dt)@ * 0 == 0);
    assert(spec_damped_component(level, settled[k].friction.y, dt)@ == 0);
}

/// A body with a zero gravity scale gathers no vertical velocity from
/// gravity, however many ticks pass: if it starts without vertical velocity,
/// it has none after any run of ticks, and it is still at its height.
pub proof fn lemma_weightless_body_keeps_level(
    bodies: Seq<BodyView>,
    gravity: Vec2,
    lengths: Seq<Fixed>,
    k: int,
)
    requires
        0 <= k < bodies.len(),
        bodies[k].gravity_scale@ == 0,
        bodies[k].velocity.y@ == 0,
    ensures
        after_ticks(bodies, gravity, lengths).len() == bodies.len(),
        after_ticks(bodies, gravity, lengths)[k].gravity_scale == bodies[k].gravity_scale,
        after_ticks(bodies, gravity, lengths)[k].velocity.y@ == 0,
        after_ticks(bodies, gravity, lengths)[k].position.y == bodies[k].position.y,
    decreases lengths.len(),
{
    if lengths.len() > 0 {
        lemma_weightless_body_keeps_level(bodies, gravity, lengths.drop_last(), k);
        lemma_tick_keeps_level(
            after_ticks(bodies, gravity, lengths.drop_last()),
            gravity,
            lengths.last(),
            k,
        );
    }
}

/// A tick changes positions, velocities and collision state only: every body
/// stays the same body with the same attributes, box and collision lists
/// kept.
pub proof fn lemma_tick_frame(bodies: Seq<BodyView>, gravity: Vec2, dt: Fixed)
    ensures
        after_tick(bodies, gravity, dt).len() == bodies.len(),
        forall|k: int|
            0 <= k < bodies.len() ==> {
                let now = #[trigger] after_tick(bodies, gravity, dt)[k];
                &&& now.entity == bodies[k].entity
                &&& now.body == bodies[k].body
                &&& now.friction == bodies[k].friction
                &&& now.gravity_scale == bodies[k].gravity_scale
                &&& now.collider == bodies[k].collider
                &&& (now.colliding_directions is Some) == (bodies[k].colliding_directions is Some)
                &&& (now.colliding_entities is Some) == (bodies[k].colliding_entities is Some)
            },
{
    let pulled = after_gravity(bodies, gravity, dt);
    lemma_pass_frame(pulled, dt);
    let settled = resolved(pulled, dt);
    assert forall|k: int| 0 <= k < bodies.len() implies {
        let now = #[trigger] after_tick(bodies, gravity, dt)[k];
        &&& now.entity == bodies[k].entity
        &&& now.body == bodies[k].body
        &&& now.friction == bodies[k].friction
        &&& now.gravity_scale == bodies[k].gravity_scale
        &&& now.collider == bodies[k].collider
        &&& (now.colliding_directions is Some) == (bodies[k].colliding_directions is Some)
        &&& (now.colliding_entities is Some) == (bodies[k].colliding_entities is Some)
    } by {
        assert(same_body(pulled[k], settled[k]));
    }
}

} // verus!

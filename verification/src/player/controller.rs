//! The four stages of a player's tick.
use crate::fixed::Fixed;
use crate::physics::component::{CollidingDirections, Velocity};
use crate::player::component::{
    ControllerState, PlayerInputState, PlayerMovementState, PlayerMovementStats, PlayerState,
};
use crate::vector::Vec2;
use vstd::prelude::*;

verus! {

/// What the input devices report in one tick.
#[derive(Clone, Copy, Debug, PartialEq, Eq, Structural)]
pub struct InputSample {
    /// Whether any key of the keyboard is down.
    pub keyboard_active: bool,
    /// Whether any button of a gamepad is down.
    pub gamepad_active: bool,
    /// The keyboard's jump key.
    pub key_jump: bool,
    /// The keyboard's sprint key.
    pub key_sprint: bool,
    /// The keyboard's key for going left.
    pub key_left: bool,
    /// The keyboard's key for going right.
    pub key_right: bool,
    /// The gamepad's jump button.
    pub pad_jump: bool,
    /// The gamepad's sprint button.
    pub pad_sprint: bool,
    /// The gamepad's horizontal stick axis.
    pub pad_horizontal: Fixed,
}

/// The device in use after a tick in which the keyboard, the gamepad, both or
/// neither showed pressed input. The keyboard wins over the gamepad; with no
/// input the device stays what it was.
pub open spec fn spec_detected_controller(
    current: ControllerState,
    keyboard_active: bool,
    gamepad_active: bool,
) -> ControllerState {
    if keyboard_active {
        ControllerState::Keyboard
    } else if gamepad_active {
        ControllerState::Gamepad(0)
    } else {
        current
    }
}

/// The horizontal axis that two opposite keys give: minus one for left alone,
/// one for right alone, zero for both or neither.
pub open spec fn spec_key_axis(left: bool, right: bool) -> Fixed {
    if left == right {
        Fixed::zero()
    } else if right {
        Fixed::one()
    } else {
        Fixed::one().negate()
    }
}

/// The input that `sample` gives on the device `controller`.
pub open spec fn spec_sampled_input(controller: ControllerState, sample: InputSample) -> PlayerInputState {
    match controller {
        ControllerState::Keyboard => PlayerInputState {
            controller,
            is_jumping: sample.key_jump,
            is_sprinting: sample.key_sprint,
            horizontal: spec_key_axis(sample.key_left, sample.key_right),
        },
        ControllerState::Gamepad(_) => PlayerInputState {
            controller,
            is_jumping: sample.pad_jump,
            is_sprinting: sample.pad_sprint,
            horizontal: sample.pad_horizontal,
        },
    }
}

/// The movement state for a horizontal input and a vertical velocity:
/// falling when moving down, jumping when moving up, else walking when there
/// is horizontal input, else idle.
pub open spec fn spec_classified(horizontal: Fixed, vertical_velocity: Fixed) -> PlayerMovementState {
    if vertical_velocity@ < 0 {
        PlayerMovementState::Falling
    } else if vertical_velocity@ > 0 {
        PlayerMovementState::Jumping
    } else if horizontal@ != 0 {
        PlayerMovementState::Walking
    } else {
        PlayerMovementState::Idle
    }
}

/// The direction recorded for a body that ran straight down into another.
pub open spec fn spec_down() -> Vec2 {
    Vec2 { x: Fixed::zero(), y: Fixed::one().negate() }
}

/// Whether a body with these collision directions stands on something.
pub open spec fn spec_on_floor(directions: Seq<Vec2>) -> bool {
    directions.contains(spec_down())
}

/// The acceleration in use: the sprint acceleration while sprinting, the
/// walking acceleration otherwise.
pub open spec fn spec_acceleration(input: PlayerInputState, stats: PlayerMovementStats) -> Fixed {
    if input.is_sprinting {
        stats.sprint_accel
    } else {
        stats.walking_accel
    }
}

/// Whether the jump button gives thrust in the air: it is held, and the
/// thrust time is not used up.
pub open spec fn spec_thrusting(state: PlayerState, stats: PlayerMovementStats, grounded: bool) -> bool {
    state.input.is_jumping && !grounded && state.time_since_jump@ < stats.jump_time@
}

/// The thrust time after the movement stage.
pub open spec fn spec_jump_clock(
    state: PlayerState,
    stats: PlayerMovementStats,
    grounded: bool,
    dt: Fixed,
) -> Fixed {
    if !state.input.is_jumping {
        stats.jump_time
    } else if grounded {
        Fixed::zero()
    } else if state.time_since_jump@ < stats.jump_time@ {
        state.time_since_jump.plus(dt)
    } else {
        state.time_since_jump
    }
}

/// The vertical velocity after the movement stage.
pub open spec fn spec_jump_velocity(
    state: PlayerState,
    vertical_velocity: Fixed,
    stats: PlayerMovementStats,
    grounded: bool,
    dt: Fixed,
) -> Fixed {
    if state.input.is_jumping && grounded {
        stats.jump_force.times(dt)
    } else if spec_thrusting(state, stats, grounded) {
        vertical_velocity.plus(stats.jump_force.times(dt))
    } else {
        vertical_velocity
    }
}

/// The horizontal velocity after the movement stage: pushed by the input
/// unless the player is idle, then damped by the walking friction.
pub open spec fn spec_walk_velocity(
    state: PlayerState,
    horizontal_velocity: Fixed,
    stats: PlayerMovementStats,
    dt: Fixed,
) -> Fixed {
    let pushed = if state.movement != PlayerMovementState::Idle {
        horizontal_velocity.plus(
            state.input.horizontal.times(spec_acceleration(state.input, stats)).times(dt),
        )
    } else {
        horizontal_velocity
    };
    pushed.times(Fixed::one().minus(stats.walking_friction.times(dt)))
}

/// The player's state after the movement stage.
pub open spec fn spec_moved_state(
    state: PlayerState,
    stats: PlayerMovementStats,
    grounded: bool,
    dt: Fixed,
) -> PlayerState {
    PlayerState { time_since_jump: spec_jump_clock(state, stats, grounded, dt), ..state }
}

/// The body's velocity after the movement stage.
pub open spec fn spec_moved_velocity(
    state: PlayerState,
    velocity: Vec2,
    stats: PlayerMovementStats,
    grounded: bool,
    dt: Fixed,
) -> Vec2 {
    Vec2 {
        x: spec_walk_velocity(state, velocity.x, stats, dt),
        y: spec_jump_velocity(state, velocity.y, stats, grounded, dt),
    }
}

/// Which way a sprite faces after a tick at the given horizontal velocity:
/// mirrored when moving left, not mirrored when moving right, as before when
/// not moving.
pub open spec fn spec_mirrored(mirrored: bool, horizontal_velocity: Fixed) -> bool {
    if horizontal_velocity@ != 0 {
        horizontal_velocity@ < 0
    } else {
        mirrored
    }
}

/// The player's state after the first two stages of a tick: the device
/// detected and the input sampled from it.
pub open spec fn spec_sampled(state: PlayerState, sample: InputSample) -> PlayerState {
    let controller = spec_detected_controller(
        state.input.controller,
        sample.keyboard_active,
        sample.gamepad_active,
    );
    PlayerState { input: spec_sampled_input(controller, sample), ..state }
}

/// The player's state after the first three stages of a tick.
pub open spec fn spec_sensed(state: PlayerState, sample: InputSample, velocity: Vec2) -> PlayerState {
    let sampled = spec_sampled(state, sample);
    PlayerState { movement: spec_classified(sampled.input.horizontal, velocity.y), ..sampled }
}

/// The horizontal axis that two opposite keys give.
#[verifier::when_used_as_spec(spec_key_axis)]
pub fn key_axis(left: bool, right: bool) -> (axis: Fixed)
    ensures
        axis == spec_key_axis(left, right),
{
    if left == right {
        Fixed::zero()
    } else if right {
        Fixed::one()
    } else {
        Fixed::one().negate()
    }
}

/// The direction recorded for a body that ran straight down into another.
#[verifier::when_used_as_spec(spec_down)]
pub fn down() -> (direction: Vec2)
    ensures
        direction == spec_down(),
{
    Vec2 { x: Fixed::zero(), y: Fixed::one().negate() }
}

/// Whether a body with these collision directions stands on something.
pub fn on_floor(directions: &CollidingDirections) -> (grounded: bool)
    ensures
        grounded == spec_on_floor(directions@),
{
    let target = down();
    let mut k: usize = 0;
    while k < directions.0.len()
        invariant
            k <= directions.0.len(),
            target == spec_down(),
            forall|m: int| 0 <= m < k ==> directions@[m] != target,
        decreases directions.0.len() - k,
    {
        if directions.0[k] == target {
            return true;
        }
        k += 1;
    }
    false
}

/// Detects which device the player is using.
pub fn check_controller(state: &mut PlayerState, keyboard_active: bool, gamepad_active: bool)
    ensures
        *final(state) == (PlayerState {
            input: PlayerInputState {
                controller: spec_detected_controller(
                    old(state).input.controller,
                    keyboard_active,
                    gamepad_active,
                ),
                ..old(state).input
            },
            ..*old(state)
        }),
{
    if keyboard_active {
        state.input.controller = ControllerState::Keyboard;
    } else if gamepad_active {
        state.input.controller = ControllerState::Gamepad(0);
    }
}

/// Samples the player's input from the device in use.
pub fn update_input(state: &mut PlayerState, sample: &InputSample)
    ensures
        *final(state) == (PlayerState {
            input: spec_sampled_input(old(state).input.controller, *sample),
            ..*old(state)
        }),
{
    match state.input.controller {
        ControllerState::Keyboard => {
            state.input.is_jumping = sample.key_jump;
            state.input.is_sprinting = sample.key_sprint;
            state.input.horizontal = key_axis(sample.key_left, sample.key_right);
        },
        ControllerState::Gamepad(_) => {
            state.input.is_jumping = sample.pad_jump;
            state.input.is_sprinting = sample.pad_sprint;
            state.input.horizontal = sample.pad_horizontal;
        },
    }
}

/// Judges the player's movement state from its input and velocity.
pub fn update_movement_state(state: &mut PlayerState, velocity: &Velocity)
    ensures
        *final(state) == (PlayerState {
            movement: spec_classified(old(state).input.horizontal, velocity.0.y),
            ..*old(state)
        }),
{
    state.movement = PlayerMovementState::Idle;
    if state.input.horizontal.magnitude().is_positive() {
        state.movement = PlayerMovementState::Walking;
    }
    if velocity.0.y.is_positive() {
        state.movement = PlayerMovementState::Jumping;
    }
    if velocity.0.y.is_negative() {
        state.movement = PlayerMovementState::Falling;
    }
}

/// Adjusts the player's velocity for walking, sprinting and jumping.
///
/// Standing on the ground resets the thrust time; a held jump button then
/// sets the vertical velocity to one tick's worth of jump force. In the air a
/// held jump button keeps adding that much for as long as the thrust time is
/// below the player's jump time. Releasing the button uses the thrust time up.
pub fn handle_movement(
    state: &mut PlayerState,
    directions: &CollidingDirections,
    stats: &PlayerMovementStats,
    velocity: &mut Velocity,
    dt: Fixed,
)
    ensures
        *final(state) == spec_moved_state(*old(state), *stats, spec_on_floor(directions@), dt),
        final(velocity).0 == spec_moved_velocity(
            *old(state),
            old(velocity).0,
            *stats,
            spec_on_floor(directions@),
            dt,
        ),
{
    let grounded = on_floor(directions);
    let speed = if state.input.is_sprinting {
        stats.sprint_accel
    } else {
        stats.walking_accel
    };
    if grounded {
        state.time_since_jump = Fixed::zero();
    }
    if state.input.is_jumping {
        if grounded {
            velocity.0.y = stats.jump_force.times(dt);
        } else if state.time_since_jump.below(stats.jump_time) {
            velocity.0.y = velocity.0.y.plus(stats.jump_force.times(dt));
            state.time_since_jump = state.time_since_jump.plus(dt);
        }
    } else {
        state.time_since_jump = stats.jump_time;
    }
    if state.movement == PlayerMovementState::Walking
        || state.movement == PlayerMovementState::Jumping
        || state.movement == PlayerMovementState::Falling {
        velocity.0.x = velocity.0.x.plus(state.input.horizontal.times(speed).times(dt));
    }
    velocity.0.x = velocity.0.x.times(Fixed::one().minus(stats.walking_friction.times(dt)));
}

/// Turns the player's sprite to face the way it is moving.
pub fn animate(mirrored: &mut bool, velocity: &Velocity)
    ensures
        *final(mirrored) == spec_mirrored(*old(mirrored), velocity.0.x),
{
    if velocity.0.x.magnitude().is_positive() {
        if velocity.0.x.is_negative() {
            *mirrored = true;
        } else {
            *mirrored = false;
        }
    }
}

/// Runs the four stages of a player's tick in order.
pub fn player_tick(
    state: &mut PlayerState,
    sample: &InputSample,
    directions: &CollidingDirections,
    stats: &PlayerMovementStats,
    velocity: &mut Velocity,
    dt: Fixed,
)
    ensures
        *final(state) == spec_moved_state(
            spec_sensed(*old(state), *sample, old(velocity).0),
            *stats,
            spec_on_floor(directions@),
            dt,
        ),
        final(velocity).0 == spec_moved_velocity(
            spec_sensed(*old(state), *sample, old(velocity).0),
            old(velocity).0,
            *stats,
            spec_on_floor(directions@),
            dt,
        ),
{
    check_controller(state, sample.keyboard_active, sample.gamepad_active);
    update_input(state, sample);
    update_movement_state(state, velocity);
    handle_movement(state, directions, stats, velocity, dt);
}

} // verus!

//! What a player-controlled body carries besides its physics attributes.
use crate::fixed::Fixed;
use vstd::prelude::*;

verus! {

/// Marks a body as controlled by a player.
#[derive(Clone, Copy, Debug, PartialEq, Eq, Structural)]
pub struct Player;

/// The device a player is steering with.
#[derive(Clone, Copy, Debug, PartialEq, Eq, Structural)]
pub enum ControllerState {
    Keyboard,
    /// A gamepad, by its number.
    Gamepad(usize),
}

/// The input sampled for a player in the current tick.
#[derive(Clone, Copy, Debug, PartialEq, Eq, Structural)]
pub struct PlayerInputState {
    /// The device in use.
    pub controller: ControllerState,
    /// Whether the jump button is held.
    pub is_jumping: bool,
    /// Whether the sprint button is held.
    pub is_sprinting: bool,
    /// The horizontal axis, from minus one (left) to one (right).
    pub horizontal: Fixed,
}

/// What a player is doing, judged anew every tick.
#[derive(Clone, Copy, Debug, PartialEq, Eq, Structural)]
pub enum PlayerMovementState {
    Idle,
    Walking,
    Jumping,
    Falling,
}

/// The state of a player.
#[derive(Clone, Copy, Debug, PartialEq, Eq, Structural)]
pub struct PlayerState {
    /// The input sampled in the current tick.
    pub input: PlayerInputState,
    /// What the player is doing.
    pub movement: PlayerMovementState,
    /// For how long, in seconds, the jump button has given thrust since the
    /// player last stood on the ground.
    pub time_since_jump: Fixed,
}

/// A player's tuning. It does not change while the player lives.
#[derive(Clone, Copy, Debug, PartialEq, Eq, Structural)]
pub struct PlayerMovementStats {
    /// Horizontal acceleration when walking.
    pub walking_accel: Fixed,
    /// Horizontal acceleration when sprinting.
    pub sprint_accel: Fixed,
    /// Horizontal damping coefficient, per second.
    pub walking_friction: Fixed,
    /// Upward acceleration while the jump button gives thrust.
    pub jump_force: Fixed,
    /// For how long, in seconds, the jump button gives thrust in the air.
    pub jump_time: Fixed,
}

/// Everything a player-controlled body carries.
#[derive(Clone, Copy, Debug, PartialEq, Eq, Structural)]
pub struct PlayerBundle {
    pub player: Player,
    pub player_state: PlayerState,
    pub player_movement_stats: PlayerMovementStats,
}

impl Default for Player {
    fn default() -> (player: Player)
        ensures
            player == Player,
    {
        Player
    }
}

impl Default for ControllerState {
    /// The keyboard.
    fn default() -> (controller: ControllerState)
        ensures
            controller == ControllerState::Keyboard,
    {
        ControllerState::Keyboard
    }
}

impl Default for PlayerMovementState {
    /// Idle.
    fn default() -> (movement: PlayerMovementState)
        ensures
            movement == PlayerMovementState::Idle,
    {
        PlayerMovementState::Idle
    }
}

/// The input of a player who touches nothing, on the keyboard.
pub open spec fn spec_default_input() -> PlayerInputState {
    PlayerInputState {
        controller: ControllerState::Keyboard,
        is_jumping: false,
        is_sprinting: false,
        horizontal: Fixed::zero(),
    }
}

impl Default for PlayerInputState {
    /// The input of a player who touches nothing, on the keyboard.
    fn default() -> (input: PlayerInputState)
        ensures
            input == spec_default_input(),
    {
        PlayerInputState {
            controller: ControllerState::Keyboard,
            is_jumping: false,
            is_sprinting: false,
            horizontal: Fixed::zero(),
        }
    }
}

/// The state of a player who has just been made: idle, touching nothing, with
/// no thrust time used.
pub open spec fn spec_default_state() -> PlayerState {
    PlayerState {
        input: spec_default_input(),
        movement: PlayerMovementState::Idle,
        time_since_jump: Fixed::zero(),
    }
}

impl Default for PlayerState {
    /// Idle, touching nothing, with no thrust time used.
    fn default() -> (state: PlayerState)
        ensures
            state == spec_default_state(),
    {
        PlayerState {
            input: PlayerInputState::default(),
            movement: PlayerMovementState::Idle,
            time_since_jump: Fixed::zero(),
        }
    }
}

/// The tuning of a player who cannot move: every value is zero.
pub open spec fn spec_default_stats() -> PlayerMovementStats {
    PlayerMovementStats {
        walking_accel: Fixed::zero(),
        sprint_accel: Fixed::zero(),
        walking_friction: Fixed::zero(),
        jump_force: Fixed::zero(),
        jump_time: Fixed::zero(),
    }
}

impl Default for PlayerMovementStats {
    /// Every value zero.
    fn default() -> (stats: PlayerMovementStats)
        ensures
            stats == spec_default_stats(),
    {
        PlayerMovementStats {
            walking_accel: Fixed::zero(),
            sprint_accel: Fixed::zero(),
            walking_friction: Fixed::zero(),
            jump_force: Fixed::zero(),
            jump_time: Fixed::zero(),
        }
    }
}

impl Default for PlayerBundle {
    /// A player in its first state with every tuning value zero.
    fn default() -> (bundle: PlayerBundle)
        ensures
            bundle == (PlayerBundle {
                player: Player,
                player_state: spec_default_state(),
                player_movement_stats: spec_default_stats(),
            }),
    {
        PlayerBundle {
            player: Player,
            player_state: PlayerState::default(),
            player_movement_stats: PlayerMovementStats::default(),
        }
    }
}

} // verus!

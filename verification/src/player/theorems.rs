//! What holds of the movement stage.
use crate::fixed::Fixed;
use crate::player::component::{PlayerInputState, PlayerMovementStats, PlayerState};
use crate::player::controller::{spec_jump_clock, spec_jump_velocity, spec_thrusting};
use vstd::prelude::*;

verus! {

/// The thrust time after a run of ticks in the air. Each tick is given by
/// whether the jump button was held in it and by its length.
pub open spec fn spec_airborne_clock(
    state: PlayerState,
    stats: PlayerMovementStats,
    ticks: Seq<(bool, Fixed)>,
) -> Fixed
    decreases ticks.len(),
{
    if ticks.len() == 0 {
        state.time_since_jump
    } else {
        let before = PlayerState {
            input: PlayerInputState { is_jumping: ticks.last().0, ..state.input },
            time_since_jump: spec_airborne_clock(state, stats, ticks.drop_last()),
            ..state
        };
        spec_jump_clock(before, stats, false, ticks.last().1)
    }
}

/// Jump thrust is capped. In the air, once the thrust time has reached the
/// player's jump time, the movement stage leaves the vertical velocity as it
/// is, whether the jump button is held or not, and the thrust time stays
/// reached.
pub proof fn lemma_jump_thrust_is_capped(
    state: PlayerState,
    vertical_velocity: Fixed,
    stats: PlayerMovementStats,
    dt: Fixed,
)
    requires
        state.time_since_jump@ >= stats.jump_time@,
    ensures
        !spec_thrusting(state, stats, false),
        spec_jump_velocity(state, vertical_velocity, stats, false, dt) == vertical_velocity,
        spec_jump_clock(state, stats, false, dt)@ >= stats.jump_time@,
{
}

/// In the air the jump button changes the vertical velocity only while it
/// gives thrust, and then by exactly one tick's worth of jump force.
pub proof fn lemma_thrust_per_tick(
    state: PlayerState,
    vertical_velocity: Fixed,
    stats: PlayerMovementStats,
    dt: Fixed,
)
    ensures
        spec_jump_velocity(state, vertical_velocity, stats, false, dt) == if spec_thrusting(
            state,
            stats,
            false,
        ) {
            vertical_velocity.plus(stats.jump_force.times(dt))
        } else {
            vertical_velocity
        },
{
}

/// Once the thrust time has reached the player's jump time it stays reached
/// for as long as the player is in the air, whatever the jump button does: no
/// later tick in the air gives thrust.
pub proof fn lemma_thrust_stays_spent(
    state: PlayerState,
    stats: PlayerMovementStats,
    ticks: Seq<(bool, Fixed)>,
)
    requires
        state.time_since_jump@ >= stats.jump_time@,
    ensures
        spec_airborne_clock(state, stats, ticks)@ >= stats.jump_time@,
    decreases ticks.len(),
{
    if ticks.len() > 0 {
        lemma_thrust_stays_spent(state, stats, ticks.drop_last());
    }
}

} // verus!

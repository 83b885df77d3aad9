//! How the player leaves the running game.
use crate::state::GameState;
use vstd::prelude::*;

verus! {

/// The state to go to when the pause key was or was not just pressed: the
/// paused state on a press, unless the game is paused already.
pub fn pause_game(current: GameState, key_just_pressed: bool) -> (next: Option<GameState>)
    ensures
        next == if key_just_pressed {
            current.spec_switch_to(GameState::Paused)
        } else {
            None
        },
{
    if key_just_pressed {
        current.switch_to(GameState::Paused)
    } else {
        None
    }
}

/// The state to go to when the menu key was or was not just pressed: the
/// player's menu on a press, unless the game is there already.
pub fn open_player_menu(current: GameState, key_just_pressed: bool) -> (next: Option<GameState>)
    ensures
        next == if key_just_pressed {
            current.spec_switch_to(GameState::Menu)
        } else {
            None
        },
{
    if key_just_pressed {
        current.switch_to(GameState::Menu)
    } else {
        None
    }
}

} // verus!

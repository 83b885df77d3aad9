//! What has to be done before the main menu is shown.
use crate::state::GameState;
use vstd::prelude::*;

verus! {

/// Records what the game has done to start up.
#[derive(Clone, Copy, Debug, PartialEq, Eq, Structural)]
pub struct StartupState {
    pub assets_loaded: bool,
}

impl StartupState {
    /// Check if the startup is completed.
    pub open spec fn spec_complete(&self) -> bool {
        self.assets_loaded
    }

    /// Check if the startup is completed: it is when the assets are loaded.
    #[verifier::when_used_as_spec(spec_complete)]
    pub fn complete(&self) -> (done: bool)
        ensures
            done == self.spec_complete(),
    {
        self.assets_loaded
    }
}

impl Default for StartupState {
    /// Nothing done yet.
    fn default() -> (state: StartupState)
        ensures
            state == (StartupState { assets_loaded: false }),
    {
        StartupState { assets_loaded: false }
    }
}

/// The state to go to once the startup is completed: the main menu, unless
/// the game is there already or the startup is not completed.
pub fn check_for_completion(state: &StartupState, current: GameState) -> (next: Option<GameState>)
    ensures
        next == if state.complete() {
            current.spec_switch_to(GameState::MainMenu)
        } else {
            None
        },
{
    if state.complete() {
        current.switch_to(GameState::MainMenu)
    } else {
        None
    }
}

} // verus!

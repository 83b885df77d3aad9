//! The state of the game as a whole.
use vstd::prelude::*;

verus! {

/// What the game is currently showing.
#[derive(Clone, Copy, Debug, PartialEq, Eq, Hash, Structural)]
pub enum GameState {
    Startup,
    MainMenu,
    Gameplay,
    Paused,
    Menu,
    Cutscene,
    GameOver,
}

impl GameState {
    /// Whether the simulation runs in this state: only during gameplay.
    pub open spec fn spec_simulation_active(self) -> bool {
        self == GameState::Gameplay
    }

    /// Whether the simulation runs in this state: only during gameplay.
    #[verifier::when_used_as_spec(spec_simulation_active)]
    pub fn simulation_active(self) -> (active: bool)
        ensures
            active == self.spec_simulation_active(),
    {
        self == GameState::Gameplay
    }

    /// The state to set in order to be in `wanted`: `wanted` itself, or
    /// nothing if the game is in that state already.
    pub open spec fn spec_switch_to(self, wanted: GameState) -> Option<GameState> {
        if self == wanted {
            None
        } else {
            Some(wanted)
        }
    }

    /// The state to set in order to be in `wanted`: `wanted` itself, or
    /// nothing if the game is in that state already.
    #[verifier::when_used_as_spec(spec_switch_to)]
    pub fn switch_to(self, wanted: GameState) -> (next: Option<GameState>)
        ensures
            next == self.spec_switch_to(wanted),
    {
        if self == wanted {
            None
        } else {
            Some(wanted)
        }
    }
}

} // verus!

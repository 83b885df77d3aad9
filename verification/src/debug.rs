//! The debug menu.
use vstd::prelude::*;

verus! {

/// The state of the debug menu.
#[derive(Clone, Copy, Debug, PartialEq, Eq, Structural)]
pub struct DebugMenuState {
    pub is_shown: bool,
}

impl Default for DebugMenuState {
    /// Hidden.
    fn default() -> (state: DebugMenuState)
        ensures
            state == (DebugMenuState { is_shown: false }),
    {
        DebugMenuState { is_shown: false }
    }
}

/// Shows the debug menu if it is hidden, and hides it if it is shown, when
/// its key has just been pressed.
pub fn toggle_debug_menu(state: &mut DebugMenuState, key_just_pressed: bool)
    ensures
        final(state).is_shown == (old(state).is_shown != key_just_pressed),
{
    if key_just_pressed {
        state.is_shown = !state.is_shown;
    }
}

} // verus!

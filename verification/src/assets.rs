//! Which assets have been loaded.
use crate::startup::StartupState;
use vstd::prelude::*;

verus! {

/// Records which kinds of asset have been loaded.
#[derive(Clone, Copy, Debug, PartialEq, Eq, Structural)]
pub struct AssetLoadingState {
    pub fonts_loaded: bool,
    pub textures_loaded: bool,
    pub sounds_loaded: bool,
    pub models_loaded: bool,
}

impl AssetLoadingState {
    /// Check if the asset loading is completed.
    pub open spec fn spec_complete(&self) -> bool {
        self.fonts_loaded
    }

    /// Check if the asset loading is completed: it is when the fonts are
    /// loaded, whatever the state of the other kinds.
    #[verifier::when_used_as_spec(spec_complete)]
    pub fn complete(&self) -> (done: bool)
        ensures
            done == self.spec_complete(),
    {
        self.fonts_loaded
    }
}

impl Default for AssetLoadingState {
    /// Nothing loaded yet.
    fn default() -> (state: AssetLoadingState)
        ensures
            state == (AssetLoadingState {
                fonts_loaded: false,
                textures_loaded: false,
                sounds_loaded: false,
                models_loaded: false,
            }),
    {
        AssetLoadingState {
            fonts_loaded: false,
            textures_loaded: false,
            sounds_loaded: false,
            models_loaded: false,
        }
    }
}

/// Tells the startup that the assets are loaded, once they are.
pub fn check_for_completion(state: &AssetLoadingState, startup_state: &mut StartupState)
    ensures
        final(startup_state).assets_loaded == (old(startup_state).assets_loaded
            || state.complete()),
{
    if state.complete() {
        startup_state.assets_loaded = true;
    }
}

} // verus!

//! One frame of the whole game: the bodies are simulated, then every player
//! acts on what the simulation found.
use crate::fixed::Fixed;
use crate::physics::component::{BodyView, Entity};
use crate::physics::registry::{spec_driven_bodies, spec_driven_bundle, BodyRegistry};
use crate::physics::simulation::{after_frame, PhysicsConfig};
use crate::player::component::PlayerBundle;
use crate::player::controller::InputSample;
use crate::state::GameState;
use vstd::prelude::*;

verus! {

/// A player and the body it controls.
#[derive(Clone, Copy, Debug, PartialEq, Eq, Structural)]
pub struct PlayerSlot {
    pub body: Entity,
    pub bundle: PlayerBundle,
}

/// The table after the first `count` players have had their tick, one after
/// the other, all on the same input.
pub open spec fn after_players(
    bodies: Seq<BodyView>,
    players: Seq<PlayerSlot>,
    count: int,
    sample: InputSample,
    dt: Fixed,
) -> Seq<BodyView>
    decreases count,
{
    if count <= 0 {
        bodies
    } else {
        spec_driven_bodies(
            after_players(bodies, players, count - 1, sample, dt),
            players[count - 1].body,
            players[count - 1].bundle,
            sample,
            dt,
        )
    }
}

/// The player at `k` after its tick: it acts on the table as the players
/// before it have left it.
pub open spec fn player_after(
    bodies: Seq<BodyView>,
    players: Seq<PlayerSlot>,
    k: int,
    sample: InputSample,
    dt: Fixed,
) -> PlayerSlot {
    PlayerSlot {
        body: players[k].body,
        bundle: spec_driven_bundle(
            after_players(bodies, players, k, sample, dt),
            players[k].body,
            players[k].bundle,
            sample,
            dt,
        ),
    }
}

/// The players after each has had its tick.
pub open spec fn players_after(
    bodies: Seq<BodyView>,
    players: Seq<PlayerSlot>,
    sample: InputSample,
    dt: Fixed,
) -> Seq<PlayerSlot> {
    Seq::new(players.len(), |k: int| player_after(bodies, players, k, sample, dt))
}

/// Runs every player's tick, one after the other, all on the same input.
pub fn drive_players(
    bodies: &mut BodyRegistry,
    players: &mut Vec<PlayerSlot>,
    sample: &InputSample,
    dt: Fixed,
)
    ensures
        final(bodies).next_entity() == old(bodies).next_entity(),
        final(bodies)@ == after_players(
            old(bodies)@,
            old(players)@,
            old(players)@.len() as int,
            *sample,
            dt,
        ),
        final(players)@ == players_after(old(bodies)@, old(players)@, *sample, dt),
{
    let n = players.len();
    let mut k: usize = 0;
    while k < n
        invariant
            k <= n,
            players.len() == n,
            n == old(players).len(),
            bodies.next_entity() == old(bodies).next_entity(),
            bodies@ == after_players(old(bodies)@, old(players)@, k as int, *sample, dt),
            forall|m: int|
                0 <= m < k ==> #[trigger] players[m] == player_after(
                    old(bodies)@,
                    old(players)@,
                    m,
                    *sample,
                    dt,
                ),
            forall|m: int| k <= m < n ==> #[trigger] players[m] == old(players)[m],
        decreases n - k,
    {
        let mut bundle = players[k].bundle;
        let _ = bodies.drive_player(players[k].body, &mut bundle, sample, dt);
        players[k].bundle = bundle;
        k += 1;
    }
    assert(players@ =~= players_after(old(bodies)@, old(players)@, *sample, dt));
}

/// Advances the game by one frame.
///
/// While the game is being played, the bodies are advanced by one tick, if
/// the simulation is enabled, and then every player has its tick on what the
/// simulation found. In any other state nothing is changed.
pub fn frame(
    bodies: &mut BodyRegistry,
    players: &mut Vec<PlayerSlot>,
    config: &PhysicsConfig,
    state: GameState,
    sample: &InputSample,
    dt: Fixed,
)
    ensures
        final(bodies).next_entity() == old(bodies).next_entity(),
        !state.simulation_active() ==> final(bodies)@ == old(bodies)@ && final(players)@ == old(
            players,
        )@,
        state.simulation_active() ==> ({
            let simulated = after_frame(old(bodies)@, *config, state, dt);
            &&& final(bodies)@ == after_players(
                simulated,
                old(players)@,
                old(players)@.len() as int,
                *sample,
                dt,
            )
            &&& final(players)@ == players_after(simulated, old(players)@, *sample, dt)
        }),
{
    if state.simulation_active() {
        bodies.step(config, state, dt);
        drive_players(bodies, players, sample, dt);
    }
}

} // verus!

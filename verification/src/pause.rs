use vstd::prelude::*;

use crate::controls::{Controlled, ControlsConfig, idle_controls};

verus! {

/// Requests to pause or resume the game.
#[derive(Clone, Copy, Debug, PartialEq, Eq, Structural)]
pub enum PauseEvent {
    Pause,
    Unpause,
}

/// The inputs a player had when the game was paused.
#[derive(Clone, Copy, Debug, PartialEq, Eq, Structural)]
pub struct Paused {
    pub controls: Controlled,
}

/// The last of the frame's pause events, which is the one that counts.
pub fn last_pause_event(events: &Vec<PauseEvent>) -> (last: Option<PauseEvent>)
    ensures
        events.len() == 0 ==> last is None,
        events.len() > 0 ==> last == Some(events@.last()),
{
    if events.len() == 0 {
        None
    } else {
        Some(events[events.len() - 1])
    }
}

/// The paused state of each player.
pub open spec fn paused_states(players: Seq<Controlled>) -> Seq<Paused> {
    players.map_values(|c: Controlled| Paused { controls: c })
}

/// The inputs that resuming gives back to each player.
pub open spec fn resumed_controls(paused: Seq<Paused>) -> Seq<Controlled> {
    paused.map_values(|p: Paused| p.controls)
}

/// Pausing turns the controls off and takes away each player's inputs, keeping them to give
/// back on resuming.
pub fn pause_player(config: &mut ControlsConfig, players: &mut Vec<Controlled>) -> (paused: Vec<Paused>)
    ensures
        !final(config).enabled,
        final(players).len() == old(players).len(),
        forall|i: int| 0 <= i < old(players).len() ==> #[trigger] final(players)[i] == idle_controls(),
        paused@ == paused_states(old(players)@),
{
    config.enabled = false;
    let ghost original = players@;
    let mut paused: Vec<Paused> = Vec::new();
    let n = players.len();
    let mut i: usize = 0;
    while i < n
        invariant
            n == players.len(),
            n == original.len(),
            i <= n,
            paused@ == paused_states(original.take(i as int)),
            forall|j: int| 0 <= j < i ==> #[trigger] players[j] == idle_controls(),
            forall|j: int| i <= j < n ==> #[trigger] players[j] == original[j],
        decreases n - i,
    {
        let controls = players[i];
        paused.push(Paused { controls });
        players.set(i, Controlled::new());
        proof {
            assert(paused_states(original.take(i + 1)) =~= paused_states(original.take(i as int)).push(
                Paused { controls },
            ));
        }
        i += 1;
    }
    proof {
        assert(original.take(n as int) == original);
    }
    paused
}

/// Resuming turns the controls back on and gives each paused player their inputs back.
pub fn unpause_player(config: &mut ControlsConfig, players: &mut Vec<Controlled>, paused: &Vec<Paused>)
    requires
        old(players).len() == paused.len(),
    ensures
        final(config).enabled,
        final(players)@ == resumed_controls(paused@),
{
    config.enabled = true;
    let n = players.len();
    let mut i: usize = 0;
    while i < n
        invariant
            n == players.len(),
            n == paused.len(),
            i <= n,
            forall|j: int| 0 <= j < i ==> #[trigger] players[j] == paused[j].controls,
        decreases n - i,
    {
        players.set(i, paused[i].controls);
        i += 1;
    }
    proof {
        assert(players@ =~= resumed_controls(paused@));
    }
}

/// Resuming after pausing gives every player back exactly the inputs they had.
pub proof fn lemma_pause_resume_round_trip(players: Seq<Controlled>)
    ensures
        resumed_controls(paused_states(players)) == players,
{
    assert(resumed_controls(paused_states(players)) =~= players);
}

/// Pausing keeps one entry per player, in the players' order, holding that player's inputs.
pub proof fn lemma_paused_entry_per_player(players: Seq<Controlled>, i: int)
    requires
        0 <= i < players.len(),
    ensures
        paused_states(players).len() == players.len(),
        paused_states(players)[i].controls == players[i],
{
}

} // verus!

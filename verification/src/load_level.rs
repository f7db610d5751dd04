use vstd::prelude::*;

use crate::GameState;

verus! {

/// Where an entity of the current level comes from: nowhere in particular (lights, the player),
/// or the level item at the given index of the level's structure.
#[derive(Clone, Copy, Debug, PartialEq, Eq, Structural)]
pub enum InCurrentLevel {
    NoLocation,
    LevelItem(usize),
}

/// The path of the level the game starts with, relative to the asset directory.
pub open spec fn spec_first_level_path() -> Seq<char> {
    "levels/tutorial_1.level.json"@
}

/// The path of the level the game starts with.
pub fn first_level_path() -> (path: String)
    ensures
        path@ == spec_first_level_path(),
{
    let path = String::from_str("levels/tutorial_1.level.json");
    proof {
        reveal_strlit("levels/tutorial_1.level.json");
    }
    path
}

/// A request to load the level at `path`.
pub struct LoadEvent {
    pub path: String,
}

/// What setting up a freshly loaded level spawns besides its level items.
#[derive(Clone, Copy, Debug, PartialEq, Eq, Structural)]
pub enum LevelSetup {
    /// Spawn the player; when `show_overview` holds, pause and show the level's overview text.
    Player { show_overview: bool },
    /// Spawn nothing more (the level editor is testing the level).
    Nothing,
    /// Spawn the level editor's token that marks the player's start.
    PlayerToken,
}

/// What setting up the current level in `state` spawns besides its items: the player in play,
/// with the overview shown when the level has an initial overlay text; nothing while the editor
/// tests the level; the player's start token while editing.
pub open spec fn spec_level_setup(state: GameState, has_initial_overlay: bool) -> LevelSetup {
    match state {
        GameState::Playing => LevelSetup::Player { show_overview: has_initial_overlay },
        GameState::Testing => LevelSetup::Nothing,
        _ => LevelSetup::PlayerToken,
    }
}

/// What to spawn for the current level in `state`, given whether the level has an initial
/// overlay text. Setting up a level from the main menu is a programming error.
pub fn level_setup(state: GameState, has_initial_overlay: bool) -> (setup: LevelSetup)
    requires
        state != GameState::MainMenu,
    ensures
        setup == spec_level_setup(state, has_initial_overlay),
{
    if state == GameState::Playing {
        LevelSetup::Player { show_overview: has_initial_overlay }
    } else if state == GameState::Testing {
        LevelSetup::Nothing
    } else {
        LevelSetup::PlayerToken
    }
}

/// Sets the current level up once per load: while `created` is unset, says what to spawn for
/// `state` and marks the level as created; once it is set, spawns nothing again.
pub fn setup_once(created: &mut bool, state: GameState, has_initial_overlay: bool) -> (setup:
    Option<LevelSetup>)
    requires
        !*old(created) ==> state != GameState::MainMenu,
    ensures
        *final(created),
        *old(created) ==> setup is None,
        !*old(created) ==> setup == Some(spec_level_setup(state, has_initial_overlay)),
{
    if *created {
        None
    } else {
        *created = true;
        Some(level_setup(state, has_initial_overlay))
    }
}

/// Whether a batch of asset events replaces the current level, which is then set up afresh:
/// `modifies_current[i]` says whether the `i`-th event reports the current level's asset as
/// modified, and `modified_available` whether the modified level can be read.
pub fn reloads_current_level(modifies_current: &Vec<bool>, modified_available: bool) -> (reload:
    bool)
    ensures
        reload == (modified_available && exists|i: int|
            0 <= i < modifies_current.len() && modifies_current[i]),
{
    let mut i: usize = 0;
    while i < modifies_current.len()
        invariant
            i <= modifies_current.len(),
            forall|j: int| 0 <= j < i ==> !modifies_current[j],
        decreases modifies_current.len() - i,
    {
        if modifies_current[i] {
            return modified_available;
        }
        i += 1;
    }
    false
}

/// The locations of the entities spawned for a level with `item_count` items, the `i`-th entity
/// standing for the `i`-th item.
pub fn level_item_locations(item_count: usize) -> (locations: Vec<InCurrentLevel>)
    ensures
        locations.len() == item_count,
        forall|i: int| 0 <= i < item_count ==> locations[i] == InCurrentLevel::LevelItem(i as usize),
{
    let mut locations: Vec<InCurrentLevel> = Vec::new();
    let mut i: usize = 0;
    while i < item_count
        invariant
            i <= item_count,
            locations.len() == i,
            forall|j: int| 0 <= j < i ==> locations[j] == InCurrentLevel::LevelItem(j as usize),
        decreases item_count - i,
    {
        locations.push(InCurrentLevel::LevelItem(i));
        i += 1;
    }
    locations
}

} // verus!

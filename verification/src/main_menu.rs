use vstd::prelude::*;

use crate::level_editor::StartEvent;
use crate::load_level::{LoadEvent, first_level_path, spec_first_level_path};
use crate::GameState;

verus! {

/// The buttons of the main menu.
#[derive(Clone, Copy, Debug, PartialEq, Eq, Structural)]
pub enum MainMenuEvent {
    Play,
    LevelEditor,
}

/// What leaving the main menu does. In both cases the menu is cleared and the interface camera
/// is turned off first.
pub enum MenuAction {
    /// Show the fuel bar, move the game to `next_state` and load the level of `load`.
    Play { next_state: GameState, load: LoadEvent },
    /// Open the level editor.
    LevelEditor { start: StartEvent },
}

/// The last button clicked in the frame decides: playing starts the first level, the editor
/// opens on the first level.
pub fn handle_events(events: &Vec<MainMenuEvent>) -> (action: Option<MenuAction>)
    ensures
        events.len() == 0 ==> action is None,
        events.len() > 0 && events@.last() == MainMenuEvent::Play ==> match action {
            Some(MenuAction::Play { next_state, load }) => next_state == GameState::Playing
                && load.path@ == spec_first_level_path(),
            _ => false,
        },
        events.len() > 0 && events@.last() == MainMenuEvent::LevelEditor ==> match action {
            Some(MenuAction::LevelEditor { start }) => start.path@ == spec_first_level_path(),
            _ => false,
        },
{
    if events.len() == 0 {
        return None;
    }
    match events[events.len() - 1] {
        MainMenuEvent::Play => Some(
            MenuAction::Play {
                next_state: GameState::Playing,
                load: LoadEvent { path: first_level_path() },
            },
        ),
        MainMenuEvent::LevelEditor => Some(
            MenuAction::LevelEditor { start: StartEvent { path: first_level_path() } },
        ),
    }
}

} // verus!

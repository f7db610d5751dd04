//! Game rules of Hover Pill: level ordering, controls, pausing, hovering,
//! collisions, level-editor bookkeeping and mesh index layouts.
use vstd::prelude::*;

pub mod collision;
pub mod config;
pub mod controls;
pub mod fuel_ball;
pub mod hover;
pub mod level_editor;
pub mod level_order;
pub mod load_level;
pub mod main_menu;
pub mod mesh;
pub mod mouse;
pub mod next_level;
pub mod pause;
pub mod player;
pub mod ui;
pub mod wall;

verus! {

/// The top-level state of the game.
#[derive(Clone, Copy, Debug, PartialEq, Eq, Hash, Structural)]
pub enum GameState {
    MainMenu,
    Playing,
    Editing,
    Testing,
}

impl Default for GameState {
    fn default() -> (state: GameState)
        ensures
            state == GameState::MainMenu,
    {
        GameState::MainMenu
    }
}

} // verus!

use hover_pill::config::Config;
use hover_pill::load_level::{
    first_level_path, level_item_locations, level_setup, reloads_current_level, setup_once,
    InCurrentLevel, LevelSetup,
};
use hover_pill::main_menu::{handle_events, MainMenuEvent, MenuAction};
use hover_pill::ui::{camera_needed, camera_off, camera_on, display_overlay, remove_overlay, Overlay, UI};
use hover_pill::GameState;

#[test]
fn assets_live_in_assets() {
    assert_eq!(Config::default().asset_dir, "assets");
    assert_eq!(GameState::default(), GameState::MainMenu);
}

#[test]
fn play_starts_first_level() {
    match handle_events(&vec![MainMenuEvent::LevelEditor, MainMenuEvent::Play]) {
        Some(MenuAction::Play { next_state, load }) => {
            assert_eq!(next_state, GameState::Playing);
            assert_eq!(load.path, "levels/tutorial_1.level.json");
        }
        _ => panic!("expected to start playing"),
    }
}

#[test]
fn level_editor_opens_on_first_level() {
    match handle_events(&vec![MainMenuEvent::LevelEditor]) {
        Some(MenuAction::LevelEditor { start }) => assert_eq!(start.path, "levels/tutorial_1.level.json"),
        _ => panic!("expected to open the editor"),
    }
    assert!(handle_events(&vec![]).is_none());
    assert_eq!(first_level_path(), "levels/tutorial_1.level.json");
}

#[test]
fn level_setup_depends_on_state() {
    assert_eq!(level_setup(GameState::Playing, true), LevelSetup::Player { show_overview: true });
    assert_eq!(level_setup(GameState::Playing, false), LevelSetup::Player { show_overview: false });
    assert_eq!(level_setup(GameState::Testing, true), LevelSetup::Nothing);
    assert_eq!(level_setup(GameState::Editing, false), LevelSetup::PlayerToken);
}

#[test]
fn level_items_get_their_indices() {
    assert_eq!(
        level_item_locations(3),
        vec![InCurrentLevel::LevelItem(0), InCurrentLevel::LevelItem(1), InCurrentLevel::LevelItem(2)]
    );
    assert!(level_item_locations(0).is_empty());
}

#[test]
fn interface_camera_off_and_on() {
    let mut ui = UI { root: 1, camera: Some(2) };
    assert!(!camera_needed(&ui));
    assert!(!camera_on(&mut ui, 9));
    assert_eq!(ui.camera, Some(2));
    assert_eq!(camera_off(&mut ui), Some(2));
    assert_eq!(camera_off(&mut ui), None);
    assert!(camera_needed(&ui));
    assert!(camera_on(&mut ui, 5));
    assert_eq!(ui, UI { root: 1, camera: Some(5) });
}

#[test]
fn overlay_display_and_remove() {
    let mut overlay = Overlay::default();
    assert_eq!(remove_overlay(&mut overlay), None);
    display_overlay(&mut overlay, 42);
    assert_eq!(overlay.entity, Some(42));
    assert_eq!(remove_overlay(&mut overlay), Some(42));
    assert_eq!(overlay.entity, None);
}

#[test]
fn a_level_is_set_up_once_per_load() {
    let mut created = false;
    assert_eq!(
        setup_once(&mut created, GameState::Playing, true),
        Some(LevelSetup::Player { show_overview: true })
    );
    assert!(created);
    assert_eq!(setup_once(&mut created, GameState::Playing, true), None);
    assert_eq!(setup_once(&mut created, GameState::MainMenu, false), None);
    assert!(created);

    let mut created = false;
    assert_eq!(setup_once(&mut created, GameState::Editing, false), Some(LevelSetup::PlayerToken));
}

#[test]
fn only_a_readable_change_of_the_current_level_reloads_it() {
    assert!(!reloads_current_level(&vec![], true));
    assert!(!reloads_current_level(&vec![false, false], true));
    assert!(reloads_current_level(&vec![false, true, false], true));
    assert!(!reloads_current_level(&vec![false, true], false));
}

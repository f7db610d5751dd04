use hover_pill::level_editor::{
    delete_selected_level_items, handle_left_click, handle_start_event, handle_test_event,
    left_button_pressed, left_button_released, picks_object, renumber_locations,
    spawn_level_item, spawn_wall_type, LevelEditorState, Mode, ObjectAction, SpawnMode,
    StartEvent, TestEvent,
};
use hover_pill::level_editor::{handle_panel_click, LevelEditor, PanelClick, PanelEvent};
use hover_pill::load_level::InCurrentLevel;
use hover_pill::mouse::{ButtonState, MouseButton, MouseButtonInput};
use hover_pill::wall::WallType;
use hover_pill::GameState;

use InCurrentLevel::{LevelItem, NoLocation};

#[test]
fn deleting_one_item_keeps_other_locations_valid() {
    let mut structure = vec!['a', 'b', 'c', 'd'];
    let selected = vec![LevelItem(1)];
    let deleted = delete_selected_level_items(&mut structure, &selected);
    assert_eq!(deleted, vec![1]);
    assert_eq!(structure, vec!['a', 'c', 'd']);

    let mut locations = vec![LevelItem(0), NoLocation, LevelItem(2), LevelItem(3), LevelItem(1)];
    renumber_locations(&mut locations, &deleted);
    assert_eq!(locations, vec![LevelItem(0), NoLocation, LevelItem(1), LevelItem(2), LevelItem(1)]);
    assert_eq!(structure[0], 'a');
    assert_eq!(structure[1], 'c');
    assert_eq!(structure[2], 'd');
}

#[test]
fn deleting_in_decreasing_order_keeps_locations_valid() {
    let original = vec![10, 11, 12, 13, 14];
    let mut structure = original.clone();
    let selected = vec![LevelItem(3), NoLocation, LevelItem(1)];
    let deleted = delete_selected_level_items(&mut structure, &selected);
    assert_eq!(deleted, vec![3, 1]);
    assert_eq!(structure, vec![10, 12, 14]);

    let mut locations: Vec<InCurrentLevel> = (0..5).map(LevelItem).collect();
    renumber_locations(&mut locations, &deleted);
    for (i, location) in locations.iter().enumerate() {
        if deleted.contains(&i) {
            continue;
        }
        match location {
            LevelItem(j) => assert_eq!(structure[*j], original[i]),
            NoLocation => panic!("a level item lost its location"),
        }
    }
}

#[test]
fn deleting_in_increasing_order_removes_by_shifted_indices() {
    // Each removal uses the index as it was before any removal: after removing index 0,
    // index 1 names what was index 2.
    let mut structure = vec!['a', 'b', 'c'];
    let selected = vec![LevelItem(0), LevelItem(1)];
    let deleted = delete_selected_level_items(&mut structure, &selected);
    assert_eq!(deleted, vec![0, 1]);
    assert_eq!(structure, vec!['b']);
}

#[test]
fn deleting_nothing_changes_nothing() {
    let mut structure = vec![1, 2, 3];
    let deleted = delete_selected_level_items(&mut structure, &vec![NoLocation]);
    assert!(deleted.is_empty());
    assert_eq!(structure, vec![1, 2, 3]);
    let mut locations = vec![LevelItem(2), NoLocation];
    renumber_locations(&mut locations, &deleted);
    assert_eq!(locations, vec![LevelItem(2), NoLocation]);
}

#[test]
fn spawned_item_location_points_at_it() {
    let mut structure = vec!["wall", "ball"];
    let location = spawn_level_item(&mut structure, "goal");
    assert_eq!(location, LevelItem(2));
    assert_eq!(structure, vec!["wall", "ball", "goal"]);
}

#[test]
fn spawn_modes_map_to_wall_types() {
    assert_eq!(spawn_wall_type(SpawnMode::Avoid), WallType::Avoid);
    assert_eq!(spawn_wall_type(SpawnMode::Neutral), WallType::Neutral);
    assert_eq!(spawn_wall_type(SpawnMode::Goal), WallType::Goal);
}

#[test]
fn start_event_opens_editor_in_camera_mode() {
    let start = handle_start_event::<(i32, i32)>(&StartEvent { path: "levels/custom.level.json".into() });
    assert_eq!(start.editor.path, "levels/custom.level.json");
    assert_eq!(start.editor.mode, Mode::Camera { panning: false });
    assert_eq!(start.editor.spawn_mode, SpawnMode::Neutral);
    assert_eq!(start.load_path, "levels/tutorial_1.level.json");
    assert_eq!(start.game_state, GameState::Editing);
    assert_eq!(start.editor_state, LevelEditorState::Editing);
}

#[test]
fn left_button_pans_camera() {
    let mut mode: Mode<i32> = Mode::Camera { panning: false };
    assert!(!picks_object(&mode));
    left_button_pressed(&mut mode, None);
    assert_eq!(mode, Mode::Camera { panning: true });
    left_button_released(&mut mode);
    assert_eq!(mode, Mode::Camera { panning: false });
}

#[test]
fn left_button_moves_picked_object() {
    let mut mode: Mode<i32> = Mode::Object { action: ObjectAction::Idle };
    assert!(picks_object(&mode));
    left_button_pressed(&mut mode, Some(7));
    assert_eq!(mode, Mode::Object { action: ObjectAction::Moving { intersection_point: 7 } });
    left_button_pressed(&mut mode, None);
    assert_eq!(mode, Mode::Object { action: ObjectAction::Moving { intersection_point: 7 } });
    left_button_released(&mut mode);
    assert_eq!(mode, Mode::Object { action: ObjectAction::Idle });
}

#[test]
fn other_buttons_leave_mode_alone() {
    let mut mode: Mode<i32> = Mode::Camera { panning: false };
    handle_left_click(&mut mode, MouseButtonInput { button: MouseButton::Right, state: ButtonState::Pressed }, None);
    assert_eq!(mode, Mode::Camera { panning: false });
    handle_left_click(&mut mode, MouseButtonInput { button: MouseButton::Left, state: ButtonState::Pressed }, None);
    assert_eq!(mode, Mode::Camera { panning: true });
}

#[test]
fn object_action_defaults_to_idle() {
    assert_eq!(ObjectAction::<i32>::default(), ObjectAction::Idle);
    assert_eq!(LevelEditorState::default(), LevelEditorState::Disabled);
}

#[test]
fn last_test_event_decides_editor_state() {
    assert_eq!(handle_test_event(&vec![]), None);
    assert_eq!(handle_test_event(&vec![TestEvent::Start]), Some(LevelEditorState::Testing));
    assert_eq!(handle_test_event(&vec![TestEvent::Start, TestEvent::Stop]), Some(LevelEditorState::Editing));
    assert_eq!(handle_test_event(&vec![TestEvent::Stop, TestEvent::Start]), Some(LevelEditorState::Testing));
}

fn editor() -> LevelEditor<(i32, i32)> {
    LevelEditor {
        path: String::from("levels/mine.level.json"),
        mode: Mode::Object { action: ObjectAction::Moving { intersection_point: (1, 2) } },
        spawn_mode: SpawnMode::Neutral,
    }
}

#[test]
fn panel_buttons_send_their_events() {
    let mut e = editor();
    match handle_panel_click(LevelEditorState::Editing, &mut e, PanelClick::Save) {
        Some(PanelEvent::Save { path }) => assert_eq!(path, "levels/mine.level.json"),
        _ => panic!("save did not ask to save"),
    }
    match handle_panel_click(LevelEditorState::Editing, &mut e, PanelClick::Load) {
        Some(PanelEvent::Load { path }) => assert_eq!(path, "levels/mine.level.json"),
        _ => panic!("load did not ask to load"),
    }
    assert!(matches!(
        handle_panel_click(LevelEditorState::Editing, &mut e, PanelClick::Test),
        Some(PanelEvent::Test(TestEvent::Start))
    ));
    assert!(matches!(
        handle_panel_click(LevelEditorState::Editing, &mut e, PanelClick::Exit),
        Some(PanelEvent::Exit)
    ));
    assert!(matches!(
        handle_panel_click(LevelEditorState::Testing, &mut e, PanelClick::StopTesting),
        Some(PanelEvent::Test(TestEvent::Stop))
    ));
    assert!(matches!(e.mode, Mode::Object { action: ObjectAction::Moving { intersection_point: (1, 2) } }));
    assert_eq!(e.spawn_mode, SpawnMode::Neutral);
}

#[test]
fn panel_choices_change_the_editor() {
    let mut e = editor();
    assert!(handle_panel_click(LevelEditorState::Editing, &mut e, PanelClick::CameraMovement).is_none());
    assert!(matches!(e.mode, Mode::Camera { panning: false }));
    assert!(handle_panel_click(LevelEditorState::Editing, &mut e, PanelClick::ObjectMovement).is_none());
    assert!(matches!(e.mode, Mode::Object { action: ObjectAction::Idle }));
    assert!(handle_panel_click(LevelEditorState::Editing, &mut e, PanelClick::Spawn(SpawnMode::Goal)).is_none());
    assert_eq!(e.spawn_mode, SpawnMode::Goal);
    assert_eq!(e.path, "levels/mine.level.json");
}

#[test]
fn hidden_panel_controls_do_nothing() {
    let mut e = editor();
    assert!(handle_panel_click(LevelEditorState::Testing, &mut e, PanelClick::Save).is_none());
    assert!(handle_panel_click(LevelEditorState::Testing, &mut e, PanelClick::CameraMovement).is_none());
    assert!(handle_panel_click(LevelEditorState::Editing, &mut e, PanelClick::StopTesting).is_none());
    assert!(matches!(e.mode, Mode::Object { action: ObjectAction::Moving { intersection_point: (1, 2) } }));
    assert_eq!(e.spawn_mode, SpawnMode::Neutral);
}

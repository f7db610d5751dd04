use vstd::prelude::*;

use crate::load_level::{InCurrentLevel, first_level_path, spec_first_level_path};
use crate::mouse::{ButtonState, MouseButton, MouseButtonInput};
use crate::wall::WallType;
use crate::GameState;

verus! {

/// Whether the level editor is off, editing a level, or letting the user play the level.
#[derive(Clone, Copy, Debug, PartialEq, Eq, Hash, Structural)]
pub enum LevelEditorState {
    Disabled,
    Editing,
    Testing,
}

impl Default for LevelEditorState {
    fn default() -> (state: LevelEditorState)
        ensures
            state == LevelEditorState::Disabled,
    {
        LevelEditorState::Disabled
    }
}

/// What dragging an object is doing; `P` is the type of points in the world.
#[derive(Clone, Copy, Debug, PartialEq, Eq)]
pub enum ObjectAction<P> {
    Idle,
    /// The selected object is being moved; the point is where the drag currently grabs it.
    Moving { intersection_point: P },
}

impl<P> Default for ObjectAction<P> {
    fn default() -> (action: ObjectAction<P>)
        ensures
            action is Idle,
    {
        ObjectAction::Idle
    }
}

/// What the mouse controls in the editor: the camera, or the objects of the level.
#[derive(Clone, Copy, Debug, PartialEq, Eq)]
pub enum Mode<P> {
    Camera { panning: bool },
    Object { action: ObjectAction<P> },
}

/// The kind of wall that pressing the spawn key creates.
#[derive(Clone, Copy, Debug, PartialEq, Eq, Structural)]
pub enum SpawnMode {
    Avoid,
    Neutral,
    Goal,
}

/// The state of an open level editor.
pub struct LevelEditor<P> {
    /// The path of the level being edited, relative to the asset directory.
    pub path: String,
    pub mode: Mode<P>,
    pub spawn_mode: SpawnMode,
}

/// A request to open the level editor on the level at `path`.
pub struct StartEvent {
    pub path: String,
}

/// A request to start or stop playing the edited level.
#[derive(Clone, Copy, Debug, PartialEq, Eq, Structural)]
pub enum TestEvent {
    Start,
    Stop,
}

/// What opening the editor does: the editor's starting state, the level to load and the states
/// the game and the editor move to.
pub struct EditorStart<P> {
    pub editor: LevelEditor<P>,
    pub load_path: String,
    pub game_state: GameState,
    pub editor_state: LevelEditorState,
}

/// Opens the level editor for `event`: it starts in camera mode, not panning, spawning
/// neutral walls, remembers the event's path, and loads the first tutorial level.
pub fn handle_start_event<P>(event: &StartEvent) -> (start: EditorStart<P>)
    ensures
        start.editor.path@ == event.path@,
        start.editor.mode == (Mode::<P>::Camera { panning: false }),
        start.editor.spawn_mode == SpawnMode::Neutral,
        start.load_path@ == spec_first_level_path(),
        start.game_state == GameState::Editing,
        start.editor_state == LevelEditorState::Editing,
{
    let load_path = first_level_path();
    EditorStart {
        editor: LevelEditor {
            path: event.path.clone(),
            mode: Mode::Camera { panning: false },
            spawn_mode: SpawnMode::Neutral,
        },
        load_path,
        game_state: GameState::Editing,
        editor_state: LevelEditorState::Editing,
    }
}

/// The kind of wall that `spawn_mode` spawns.
pub fn spawn_wall_type(spawn_mode: SpawnMode) -> (wall_type: WallType)
    ensures
        spawn_mode == SpawnMode::Avoid ==> wall_type == WallType::Avoid,
        spawn_mode == SpawnMode::Neutral ==> wall_type == WallType::Neutral,
        spawn_mode == SpawnMode::Goal ==> wall_type == WallType::Goal,
{
    match spawn_mode {
        SpawnMode::Avoid => WallType::Avoid,
        SpawnMode::Neutral => WallType::Neutral,
        SpawnMode::Goal => WallType::Goal,
    }
}

/// Appends a spawned level item to the structure and returns the location of its entity.
pub fn spawn_level_item<T>(structure: &mut Vec<T>, item: T) -> (location: InCurrentLevel)
    ensures
        final(structure)@ == old(structure)@.push(item),
        location == InCurrentLevel::LevelItem(old(structure)@.len() as usize),
{
    let index = structure.len();
    structure.push(item);
    InCurrentLevel::LevelItem(index)
}

/// Whether a left-button press in `mode` needs the object under the cursor.
pub fn picks_object<P>(mode: &Mode<P>) -> (picks: bool)
    ensures
        picks == (mode is Object),
{
    match mode {
        Mode::Camera { .. } => false,
        Mode::Object { .. } => true,
    }
}

/// A left-button press: in camera mode the camera starts panning; in object mode an object hit
/// at `picked` starts being moved from that point, and a miss leaves the action as it was.
pub fn left_button_pressed<P>(mode: &mut Mode<P>, picked: Option<P>)
    ensures
        *old(mode) is Camera ==> *final(mode) == (Mode::<P>::Camera { panning: true }),
        *old(mode) is Object ==> match picked {
            Some(point) => *final(mode) == (Mode::Object {
                action: ObjectAction::Moving { intersection_point: point },
            }),
            None => *final(mode) == *old(mode),
        },
{
    match mode {
        Mode::Camera { panning } => {
            *panning = true;
        },
        Mode::Object { action } => {
            if let Some(point) = picked {
                *action = ObjectAction::Moving { intersection_point: point };
            }
        },
    }
}

/// A left-button release: the camera stops panning, or the object stops being moved.
pub fn left_button_released<P>(mode: &mut Mode<P>)
    ensures
        *old(mode) is Camera ==> *final(mode) == (Mode::<P>::Camera { panning: false }),
        *old(mode) is Object ==> *final(mode) == (Mode::<P>::Object { action: ObjectAction::Idle }),
{
    match mode {
        Mode::Camera { panning } => {
            *panning = false;
        },
        Mode::Object { action } => {
            *action = ObjectAction::Idle;
        },
    }
}

/// The mode after a left-button event, given the object a press would pick.
pub open spec fn mode_after_left_button<P>(mode: Mode<P>, state: ButtonState, picked: Option<P>) -> Mode<P> {
    match (mode, state) {
        (Mode::Camera { .. }, ButtonState::Pressed) => Mode::Camera { panning: true },
        (Mode::Camera { .. }, ButtonState::Released) => Mode::Camera { panning: false },
        (Mode::Object { .. }, ButtonState::Pressed) => match picked {
            Some(point) => Mode::Object {
                action: ObjectAction::Moving { intersection_point: point },
            },
            None => mode,
        },
        (Mode::Object { .. }, ButtonState::Released) => Mode::Object {
            action: ObjectAction::Idle,
        },
    }
}

/// Releasing the left button ends whatever pressing it started, whatever was picked: an object
/// stops being moved and the camera stops panning, and a press followed by a release leaves the
/// editor in the same kind of mode, with nothing going on.
pub proof fn lemma_release_ends_drag<P>(mode: Mode<P>, picked: Option<P>, picked_on_release: Option<P>)
    ensures
        mode is Object ==> mode_after_left_button(mode, ButtonState::Released, picked) == (Mode::<
            P,
        >::Object { action: ObjectAction::Idle }),
        mode is Camera ==> mode_after_left_button(mode, ButtonState::Released, picked) == (Mode::<
            P,
        >::Camera { panning: false }),
        mode_after_left_button(
            mode_after_left_button(mode, ButtonState::Pressed, picked),
            ButtonState::Released,
            picked_on_release,
        ) == mode_after_left_button(mode, ButtonState::Released, picked_on_release),
{
}

/// A press in object mode starts moving the picked object from the picked point, and a press
/// that picks nothing leaves the mode alone; a press in camera mode starts panning.
pub proof fn lemma_press_picks<P>(mode: Mode<P>, picked: Option<P>)
    ensures
        mode is Object && picked is Some ==> mode_after_left_button(
            mode,
            ButtonState::Pressed,
            picked,
        ) == (Mode::<P>::Object {
            action: ObjectAction::Moving { intersection_point: picked->0 },
        }),
        mode is Object && picked is None ==> mode_after_left_button(
            mode,
            ButtonState::Pressed,
            picked,
        ) == mode,
        mode is Camera ==> mode_after_left_button(mode, ButtonState::Pressed, picked) == (Mode::<
            P,
        >::Camera { panning: true }),
{
}

/// Applies one mouse-button event to the editor's mode; only the left button acts.
pub fn handle_left_click<P>(mode: &mut Mode<P>, input: MouseButtonInput, picked: Option<P>)
    ensures
        input.button == MouseButton::Left ==> *final(mode) == mode_after_left_button(
            *old(mode),
            input.state,
            picked,
        ),
        input.button != MouseButton::Left ==> *final(mode) == *old(mode),
        input.button == MouseButton::Left && input.state == ButtonState::Released ==> {
            &&& *old(mode) is Object ==> *final(mode) == (Mode::<P>::Object {
                action: ObjectAction::Idle,
            })
            &&& *old(mode) is Camera ==> *final(mode) == (Mode::<P>::Camera { panning: false })
        },
        input.button == MouseButton::Left && input.state == ButtonState::Pressed ==> {
            &&& *old(mode) is Camera ==> *final(mode) == (Mode::<P>::Camera { panning: true })
            &&& *old(mode) is Object && picked is None ==> *final(mode) == *old(mode)
            &&& *old(mode) is Object && picked is Some ==> *final(mode) == (Mode::<P>::Object {
                action: ObjectAction::Moving { intersection_point: picked->0 },
            })
        },
{
    if let MouseButton::Left = input.button {
        match input.state {
            ButtonState::Pressed => left_button_pressed(mode, picked),
            ButtonState::Released => left_button_released(mode),
        }
    }
}

/// The editor state that the last of the test events leads to, if there is any event.
pub fn handle_test_event(events: &Vec<TestEvent>) -> (next: Option<LevelEditorState>)
    ensures
        events.len() == 0 ==> next is None,
        events.len() > 0 && events@.last() == TestEvent::Start ==> next == Some(
            LevelEditorState::Testing,
        ),
        events.len() > 0 && events@.last() == TestEvent::Stop ==> next == Some(
            LevelEditorState::Editing,
        ),
{
    if events.len() == 0 {
        None
    } else {
        match events[events.len() - 1] {
            TestEvent::Start => Some(LevelEditorState::Testing),
            TestEvent::Stop => Some(LevelEditorState::Editing),
        }
    }
}

/// A click on one of the controls of the editor's panel.
#[derive(Clone, Copy, Debug, PartialEq, Eq, Structural)]
pub enum PanelClick {
    /// The "save" button next to the level path.
    Save,
    /// The "load" button next to the level path.
    Load,
    /// The "camera" choice of what dragging moves.
    CameraMovement,
    /// The "object" choice of what dragging moves.
    ObjectMovement,
    /// One of the choices of the kind of wall to spawn.
    Spawn(SpawnMode),
    /// The "test" button.
    Test,
    /// The "exit" button.
    Exit,
    /// The "stop testing" button.
    StopTesting,
}

/// What a click on the editor's panel asks of the rest of the game.
pub enum PanelEvent {
    /// Save the edited level at `path`.
    Save { path: String },
    /// Load the level at `path` into the editor.
    Load { path: String },
    /// Start or stop playing the edited level.
    Test(TestEvent),
    /// Leave the editor.
    Exit,
}

/// Whether the panel shows the control for `click` while the editor is in `state`: all but
/// "stop testing" while editing, only "stop testing" while testing.
pub open spec fn panel_shows(state: LevelEditorState, click: PanelClick) -> bool {
    match state {
        LevelEditorState::Editing => click != PanelClick::StopTesting,
        LevelEditorState::Testing => click == PanelClick::StopTesting,
        LevelEditorState::Disabled => false,
    }
}

/// Applies a click on the editor's panel while the editor is in `state`.
///
/// "Save" and "load" ask to save or load the level at the editor's path; "camera" and "object"
/// switch what dragging moves, to the camera (not panning) or to objects (with no object
/// being moved); a spawn choice sets the kind of wall to spawn; "test" and "stop testing"
/// start and stop playing the level; "exit" leaves the editor. A click on a control the panel
/// does not show changes nothing. The panel does not exist while the editor is disabled.
pub fn handle_panel_click<P>(
    state: LevelEditorState,
    editor: &mut LevelEditor<P>,
    click: PanelClick,
) -> (event: Option<PanelEvent>)
    requires
        state != LevelEditorState::Disabled,
    ensures
        !panel_shows(state, click) ==> event is None && *final(editor) == *old(editor),
        state == LevelEditorState::Testing && click == PanelClick::StopTesting ==> {
            &&& event == Some(PanelEvent::Test(TestEvent::Stop))
            &&& *final(editor) == *old(editor)
        },
        state == LevelEditorState::Editing ==> (match click {
            PanelClick::Save => {
                &&& event matches Some(PanelEvent::Save { path }) && path@ == old(editor).path@
                &&& *final(editor) == *old(editor)
            },
            PanelClick::Load => {
                &&& event matches Some(PanelEvent::Load { path }) && path@ == old(editor).path@
                &&& *final(editor) == *old(editor)
            },
            PanelClick::CameraMovement => {
                &&& event is None
                &&& final(editor).mode == (Mode::<P>::Camera { panning: false })
                &&& final(editor).path == old(editor).path
                &&& final(editor).spawn_mode == old(editor).spawn_mode
            },
            PanelClick::ObjectMovement => {
                &&& event is None
                &&& final(editor).mode == (Mode::<P>::Object { action: ObjectAction::Idle })
                &&& final(editor).path == old(editor).path
                &&& final(editor).spawn_mode == old(editor).spawn_mode
            },
            PanelClick::Spawn(spawn_mode) => {
                &&& event is None
                &&& final(editor).spawn_mode == spawn_mode
                &&& final(editor).path == old(editor).path
                &&& final(editor).mode == old(editor).mode
            },
            PanelClick::Test => {
                &&& event == Some(PanelEvent::Test(TestEvent::Start))
                &&& *final(editor) == *old(editor)
            },
            PanelClick::Exit => {
                &&& event == Some(PanelEvent::Exit)
                &&& *final(editor) == *old(editor)
            },
            PanelClick::StopTesting => true,
        }),
{
    match state {
        LevelEditorState::Editing => match click {
            PanelClick::Save => Some(PanelEvent::Save { path: editor.path.clone() }),
            PanelClick::Load => Some(PanelEvent::Load { path: editor.path.clone() }),
            PanelClick::CameraMovement => {
                editor.mode = Mode::Camera { panning: false };
                None
            },
            PanelClick::ObjectMovement => {
                editor.mode = Mode::Object { action: ObjectAction::Idle };
                None
            },
            PanelClick::Spawn(spawn_mode) => {
                editor.spawn_mode = spawn_mode;
                None
            },
            PanelClick::Test => Some(PanelEvent::Test(TestEvent::Start)),
            PanelClick::Exit => Some(PanelEvent::Exit),
            PanelClick::StopTesting => None,
        },
        _ => match click {
            PanelClick::StopTesting => Some(PanelEvent::Test(TestEvent::Stop)),
            _ => None,
        },
    }
}

// ---------------------------------------------------------------------------------------------
// Deleting level items
// ---------------------------------------------------------------------------------------------

/// The level-item indices of the given locations, in order; locations without an index are
/// skipped.
pub open spec fn selected_item_indices(selected: Seq<InCurrentLevel>) -> Seq<usize>
    decreases selected.len(),
{
    if selected.len() == 0 {
        Seq::empty()
    } else {
        let rest = selected_item_indices(selected.drop_last());
        match selected.last() {
            InCurrentLevel::LevelItem(i) => rest.push(i),
            InCurrentLevel::NoLocation => rest,
        }
    }
}

/// `items` after removing, one after the other, the entry at each index of `indices`
/// (each index counted in the sequence as it stands after the removals before it).
pub open spec fn remove_in_turn<T>(items: Seq<T>, indices: Seq<usize>) -> Seq<T>
    decreases indices.len(),
{
    if indices.len() == 0 {
        items
    } else {
        remove_in_turn(items, indices.drop_last()).remove(indices.last() as int)
    }
}

/// Each removal of `remove_in_turn` on a sequence of length `len` names an existing entry.
pub open spec fn removals_in_range(len: nat, indices: Seq<usize>) -> bool {
    forall|k: int| 0 <= k < indices.len() ==> indices[k] < len - k
}

/// The index that an entity at level-item index `i` has after the level items at `deleted`
/// were removed in turn: each removal below it moves it down by one.
pub open spec fn renumbered_index(i: int, deleted: Seq<usize>) -> int
    decreases deleted.len(),
{
    if deleted.len() == 0 {
        i
    } else {
        let j = renumbered_index(i, deleted.drop_last());
        if j > deleted.last() {
            j - 1
        } else {
            j
        }
    }
}

/// A location after the level items at `deleted` were removed in turn.
pub open spec fn renumbered(location: InCurrentLevel, deleted: Seq<usize>) -> InCurrentLevel {
    match location {
        InCurrentLevel::NoLocation => InCurrentLevel::NoLocation,
        InCurrentLevel::LevelItem(i) => InCurrentLevel::LevelItem(
            renumbered_index(i as int, deleted) as usize,
        ),
    }
}

pub proof fn lemma_renumbered_index_bounds(i: int, deleted: Seq<usize>)
    requires
        0 <= i,
    ensures
        0 <= renumbered_index(i, deleted) <= i,
    decreases deleted.len(),
{
    if deleted.len() > 0 {
        lemma_renumbered_index_bounds(i, deleted.drop_last());
    }
}

pub proof fn lemma_remove_in_turn_len<T>(items: Seq<T>, indices: Seq<usize>)
    requires
        removals_in_range(items.len(), indices),
    ensures
        remove_in_turn(items, indices).len() == items.len() - indices.len(),
    decreases indices.len(),
{
    if indices.len() > 0 {
        let prefix = indices.drop_last();
        assert(removals_in_range(items.len(), prefix)) by {
            assert forall|k: int| 0 <= k < prefix.len() implies prefix[k] < items.len() - k by {
                assert(prefix[k] == indices[k]);
            }
        }
        lemma_remove_in_turn_len(items, prefix);
        assert(indices[indices.len() - 1] < items.len() - (indices.len() - 1));
    }
}

pub proof fn lemma_selected_prefix(selected: Seq<InCurrentLevel>, i: int)
    requires
        0 <= i <= selected.len(),
    ensures
        selected_item_indices(selected.take(i)).len() <= selected_item_indices(selected).len(),
        selected_item_indices(selected).take(selected_item_indices(selected.take(i)).len() as int)
            == selected_item_indices(selected.take(i)),
    decreases selected.len(),
{
    if i == selected.len() {
        assert(selected.take(i) == selected);
    } else {
        let shorter = selected.drop_last();
        assert(selected.take(i) == shorter.take(i));
        lemma_selected_prefix(shorter, i);
        let a = selected_item_indices(shorter);
        let b = selected_item_indices(selected.take(i));
        match selected.last() {
            InCurrentLevel::LevelItem(x) => {
                assert(a.push(x).take(b.len() as int) == a.take(b.len() as int));
            },
            InCurrentLevel::NoLocation => {},
        }
    }
}

/// Removes from `structure` the level items that the selected locations point at, one after
/// the other, and returns their indices in that order.
pub fn delete_selected_level_items<T>(
    structure: &mut Vec<T>,
    selected: &Vec<InCurrentLevel>,
) -> (deleted: Vec<usize>)
    requires
        removals_in_range(old(structure)@.len(), selected_item_indices(selected@)),
    ensures
        deleted@ == selected_item_indices(selected@),
        final(structure)@ == remove_in_turn(old(structure)@, deleted@),
{
    let ghost original = structure@;
    let mut deleted: Vec<usize> = Vec::new();
    let n = selected.len();
    let mut i: usize = 0;
    proof {
        assert(selected@.take(0) =~= Seq::<InCurrentLevel>::empty());
    }
    while i < n
        invariant
            n == selected.len(),
            i <= n,
            removals_in_range(original.len(), selected_item_indices(selected@)),
            deleted@ == selected_item_indices(selected@.take(i as int)),
            structure@ == remove_in_turn(original, deleted@),
            structure@.len() == original.len() - deleted@.len(),
        decreases n - i,
    {
        proof {
            assert(selected@.take(i + 1).drop_last() == selected@.take(i as int));
            assert(selected@.take(i + 1).last() == selected@[i as int]);
            lemma_selected_prefix(selected@, i + 1);
        }
        match selected[i] {
            InCurrentLevel::NoLocation => {},
            InCurrentLevel::LevelItem(index) => {
                proof {
                    let all = selected_item_indices(selected@);
                    let k = deleted@.len() as int;
                    assert(all[k] == selected_item_indices(selected@.take(i + 1))[k]);
                    assert(index < original.len() - k);
                }
                structure.remove(index);
                deleted.push(index);
                proof {
                    assert(deleted@.drop_last() == selected_item_indices(selected@.take(i as int)));
                }
            },
        }
        i += 1;
    }
    proof {
        assert(selected@.take(n as int) == selected@);
    }
    deleted
}

/// Moves the location of every entity down past the deleted level items, as
/// `renumbered` describes.
pub fn renumber_locations(locations: &mut Vec<InCurrentLevel>, deleted: &Vec<usize>)
    ensures
        final(locations).len() == old(locations).len(),
        forall|m: int|
            0 <= m < old(locations).len() ==> #[trigger] final(locations)[m] == renumbered(
                old(locations)[m],
                deleted@,
            ),
{
    let ghost original = locations@;
    let count = locations.len();
    let d = deleted.len();
    let mut k: usize = 0;
    while k < d
        invariant
            d == deleted.len(),
            count == locations.len(),
            count == original.len(),
            k <= d,
            forall|m: int|
                0 <= m < count ==> #[trigger] locations[m] == renumbered(
                    original[m],
                    deleted@.take(k as int),
                ),
        decreases d - k,
    {
        let deleted_index = deleted[k];
        let ghost before = locations@;
        proof {
            assert(deleted@.take(k + 1).drop_last() == deleted@.take(k as int));
        }
        let mut m: usize = 0;
        while m < count
            invariant
                d == deleted.len(),
                k < d,
                deleted_index == deleted@[k as int],
                count == locations.len(),
                count == original.len(),
                before.len() == count,
                m <= count,
                deleted@.take(k + 1).drop_last() == deleted@.take(k as int),
                forall|x: int|
                    0 <= x < count ==> #[trigger] before[x] == renumbered(
                        original[x],
                        deleted@.take(k as int),
                    ),
                forall|x: int|
                    0 <= x < m ==> #[trigger] locations[x] == renumbered(
                        original[x],
                        deleted@.take(k + 1),
                    ),
                forall|x: int| m <= x < count ==> #[trigger] locations[x] == before[x],
            decreases count - m,
        {
            let location = locations[m];
            match location {
                InCurrentLevel::NoLocation => {},
                InCurrentLevel::LevelItem(level_item_index) => {
                    if level_item_index > deleted_index {
                        locations.set(m, InCurrentLevel::LevelItem(level_item_index - 1));
                    }
                },
            }
            proof {
                let x = m as int;
                match original[x] {
                    InCurrentLevel::NoLocation => {},
                    InCurrentLevel::LevelItem(i) => {
                        lemma_renumbered_index_bounds(i as int, deleted@.take(k as int));
                        lemma_renumbered_index_bounds(i as int, deleted@.take(k + 1));
                    },
                }
            }
            m += 1;
        }
        k += 1;
    }
    proof {
        assert(deleted@.take(d as int) == deleted@);
    }
}

pub proof fn lemma_decreasing_bound(deleted: Seq<usize>, k: int)
    requires
        0 <= k < deleted.len(),
        forall|a: int, b: int| 0 <= a < b < deleted.len() ==> deleted[a] > deleted[b],
    ensures
        deleted[k] <= deleted[0] - k,
    decreases k,
{
    if k > 0 {
        lemma_decreasing_bound(deleted, k - 1);
    }
}

proof fn lemma_delete_keeps_location_step<T>(items: Seq<T>, deleted: Seq<usize>, i: int)
    requires
        forall|a: int, b: int| 0 <= a < b < deleted.len() ==> deleted[a] > deleted[b],
        deleted.len() > 0 ==> deleted[0] < items.len(),
        0 <= i < items.len(),
        !deleted.contains(i as usize),
    ensures
        removals_in_range(items.len(), deleted),
        remove_in_turn(items, deleted).len() == items.len() - deleted.len(),
        0 <= renumbered_index(i, deleted) < remove_in_turn(items, deleted).len(),
        remove_in_turn(items, deleted)[renumbered_index(i, deleted)] == items[i],
        deleted.len() > 0 && i < deleted.last() ==> renumbered_index(i, deleted) == i,
        deleted.len() > 0 && i > deleted.last() ==> renumbered_index(i, deleted) >= deleted.last(),
    decreases deleted.len(),
{
    assert(removals_in_range(items.len(), deleted)) by {
        assert forall|k: int| 0 <= k < deleted.len() implies deleted[k] < items.len() - k by {
            lemma_decreasing_bound(deleted, k);
        }
    }
    lemma_remove_in_turn_len(items, deleted);
    if deleted.len() > 0 {
        let prefix = deleted.drop_last();
        let d = deleted.last();
        assert forall|x: usize| prefix.contains(x) implies deleted.contains(x) by {
            let a = choose|a: int| 0 <= a < prefix.len() && prefix[a] == x;
            assert(deleted[a] == x);
        }
        if prefix.len() > 0 {
            assert(prefix[0] == deleted[0]);
            assert(prefix.last() == deleted[deleted.len() - 2]);
        }
        lemma_delete_keeps_location_step(items, prefix, i);
        let before = remove_in_turn(items, prefix);
        let j0 = renumbered_index(i, prefix);
        assert(i != d) by {
            assert(deleted[deleted.len() - 1] == d);
        }
        assert(d < before.len()) by {
            lemma_decreasing_bound(deleted, deleted.len() - 1);
        }
        before.remove_ensures(d as int);
        if i < d {
            assert(j0 == i);
        } else {
            if prefix.len() > 0 {
                assert(prefix.last() > d);
            }
            assert(j0 > d);
        }
    }
}

/// Deleting level items in decreasing index order keeps the location of every other entity
/// pointing at the level item it pointed at before.
pub proof fn lemma_delete_keeps_locations<T>(items: Seq<T>, deleted: Seq<usize>, i: int)
    requires
        forall|a: int, b: int| 0 <= a < b < deleted.len() ==> deleted[a] > deleted[b],
        deleted.len() > 0 ==> deleted[0] < items.len(),
        0 <= i < items.len(),
        !deleted.contains(i as usize),
    ensures
        removals_in_range(items.len(), deleted),
        0 <= renumbered_index(i, deleted) < remove_in_turn(items, deleted).len(),
        remove_in_turn(items, deleted)[renumbered_index(i, deleted)] == items[i],
{
    lemma_delete_keeps_location_step(items, deleted, i);
}

} // verus!

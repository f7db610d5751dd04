use hover_pill::controls::{
    cursor_visible, handle_jump, handle_movement, handle_reset, handle_rotate, Controlled,
    ControlsConfig, KeyTransition, MovementKeys,
};
use hover_pill::hover::HoverEvent;
use hover_pill::mouse::{ButtonState, MouseButton, MouseButtonInput};
use hover_pill::pause::{last_pause_event, pause_player, unpause_player, PauseEvent, Paused};
use hover_pill::player::{movement_axes, MovementAxes};

const IDLE: KeyTransition = KeyTransition { just_pressed: false, just_released: false };
const PRESS: KeyTransition = KeyTransition { just_pressed: true, just_released: false };
const RELEASE: KeyTransition = KeyTransition { just_pressed: false, just_released: true };
const TAP: KeyTransition = KeyTransition { just_pressed: true, just_released: true };

fn idle() -> Controlled {
    Controlled { rotating: false, forward: false, backward: false, left: false, right: false }
}

#[test]
fn new_reset_and_default_are_idle() {
    assert_eq!(Controlled::new(), idle());
    assert_eq!(Controlled::default(), idle());
    let mut c = Controlled { rotating: true, forward: true, backward: true, left: true, right: true };
    c.reset();
    assert_eq!(c, idle());
    assert!(ControlsConfig::default().enabled);
}

#[test]
fn movement_keys_set_and_clear_flags() {
    let mut c = idle();
    handle_movement(&mut c, MovementKeys { w: PRESS, a: PRESS, s: IDLE, d: IDLE });
    assert_eq!(c, Controlled { rotating: false, forward: true, backward: false, left: true, right: false });
    handle_movement(&mut c, MovementKeys { w: IDLE, a: RELEASE, s: PRESS, d: PRESS });
    assert_eq!(c, Controlled { rotating: false, forward: true, backward: true, left: false, right: true });
}

#[test]
fn release_wins_over_press_in_one_frame() {
    let mut c = idle();
    handle_movement(&mut c, MovementKeys { w: TAP, a: IDLE, s: IDLE, d: IDLE });
    assert!(!c.forward);
}

#[test]
fn movement_leaves_rotation_alone() {
    let mut c = Controlled { rotating: true, ..idle() };
    handle_movement(&mut c, MovementKeys { w: RELEASE, a: RELEASE, s: RELEASE, d: RELEASE });
    assert!(c.rotating);
}

#[test]
fn space_bar_starts_and_stops_hovering() {
    assert_eq!(handle_jump(IDLE), vec![]);
    assert_eq!(handle_jump(PRESS), vec![HoverEvent::Start]);
    assert_eq!(handle_jump(RELEASE), vec![HoverEvent::Stop]);
    assert_eq!(handle_jump(TAP), vec![HoverEvent::Start, HoverEvent::Stop]);
}

fn button(button: MouseButton, state: ButtonState) -> MouseButtonInput {
    MouseButtonInput { button, state }
}

#[test]
fn right_button_turns_player() {
    let mut c = idle();
    handle_rotate(&mut c, &vec![button(MouseButton::Right, ButtonState::Pressed)]);
    assert!(c.rotating);
    assert!(!cursor_visible(&c));
    handle_rotate(&mut c, &vec![button(MouseButton::Left, ButtonState::Released)]);
    assert!(c.rotating);
    handle_rotate(
        &mut c,
        &vec![
            button(MouseButton::Right, ButtonState::Released),
            button(MouseButton::Right, ButtonState::Pressed),
            button(MouseButton::Right, ButtonState::Released),
            button(MouseButton::Other, ButtonState::Pressed),
        ],
    );
    assert!(!c.rotating);
    assert!(cursor_visible(&c));
}

#[test]
fn r_key_resets() {
    assert!(handle_reset(PRESS));
    assert!(!handle_reset(RELEASE));
    assert!(!handle_reset(IDLE));
}

#[test]
fn pausing_and_resuming_restores_controls() {
    let mut config = ControlsConfig { enabled: true };
    let before = vec![
        Controlled { rotating: true, forward: true, backward: false, left: false, right: true },
        idle(),
    ];
    let mut players = before.clone();
    let paused = pause_player(&mut config, &mut players);
    assert!(!config.enabled);
    assert_eq!(players, vec![idle(), idle()]);
    assert_eq!(paused, vec![Paused { controls: before[0] }, Paused { controls: before[1] }]);
    unpause_player(&mut config, &mut players, &paused);
    assert!(config.enabled);
    assert_eq!(players, before);
}

#[test]
fn last_pause_event_counts() {
    assert_eq!(last_pause_event(&vec![]), None);
    assert_eq!(last_pause_event(&vec![PauseEvent::Pause, PauseEvent::Unpause]), Some(PauseEvent::Unpause));
    assert_eq!(last_pause_event(&vec![PauseEvent::Unpause, PauseEvent::Pause]), Some(PauseEvent::Pause));
}

#[test]
fn opposite_directions_cancel() {
    assert_eq!(movement_axes(&idle()), MovementAxes { forward: 0, right: 0 });
    let c = Controlled { rotating: false, forward: true, backward: true, left: true, right: false };
    assert_eq!(movement_axes(&c), MovementAxes { forward: 0, right: -1 });
    let c = Controlled { rotating: false, forward: false, backward: true, left: false, right: true };
    assert_eq!(movement_axes(&c), MovementAxes { forward: -1, right: 1 });
    let c = Controlled { rotating: false, forward: true, backward: false, left: true, right: true };
    assert_eq!(movement_axes(&c), MovementAxes { forward: 1, right: 0 });
}

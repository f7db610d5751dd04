use vstd::prelude::*;

use crate::hover::HoverEvent;
use crate::mouse::{MouseButtonInput, right_button_held, track_right_button};

verus! {

/// The movement inputs that currently steer the player.
#[derive(Clone, Copy, Debug, PartialEq, Eq, Structural)]
pub struct Controlled {
    pub rotating: bool,
    pub forward: bool,
    pub backward: bool,
    pub left: bool,
    pub right: bool,
}

/// No movement input at all.
pub open spec fn idle_controls() -> Controlled {
    Controlled { rotating: false, forward: false, backward: false, left: false, right: false }
}

impl Controlled {
    /// A player that is not being steered.
    pub fn new() -> (controlled: Controlled)
        ensures
            controlled == idle_controls(),
    {
        Controlled { rotating: false, forward: false, backward: false, left: false, right: false }
    }

    /// Forgets every movement input.
    pub fn reset(&mut self)
        ensures
            *final(self) == idle_controls(),
    {
        self.rotating = false;
        self.forward = false;
        self.backward = false;
        self.left = false;
        self.right = false;
    }
}

impl Default for Controlled {
    fn default() -> (controlled: Controlled)
        ensures
            controlled == idle_controls(),
    {
        Controlled::new()
    }
}

/// Whether the player controls are listening to the keyboard and mouse.
#[derive(Clone, Copy, Debug, PartialEq, Eq, Structural)]
pub struct ControlsConfig {
    pub enabled: bool,
}

impl Default for ControlsConfig {
    fn default() -> (config: ControlsConfig)
        ensures
            config.enabled,
    {
        ControlsConfig { enabled: true }
    }
}

/// What happened to one key during a frame.
#[derive(Clone, Copy, Debug, PartialEq, Eq, Structural)]
pub struct KeyTransition {
    pub just_pressed: bool,
    pub just_released: bool,
}

/// Whether a key-held flag is set after `key`'s transitions in a frame, starting from `held`:
/// a press sets it, a release clears it, and a release wins over a press in the same frame.
pub open spec fn held_after(held: bool, key: KeyTransition) -> bool {
    if key.just_released {
        false
    } else if key.just_pressed {
        true
    } else {
        held
    }
}

/// A key released during the frame is not held afterwards, even if it was also pressed; a key
/// only pressed is held; a key with neither stays as it was.
pub proof fn lemma_release_wins(held: bool, key: KeyTransition)
    ensures
        key.just_released ==> !held_after(held, key),
        key.just_pressed && !key.just_released ==> held_after(held, key),
        !key.just_pressed && !key.just_released ==> held_after(held, key) == held,
{
}

fn follow_key(held: bool, key: KeyTransition) -> (now_held: bool)
    ensures
        now_held == held_after(held, key),
{
    let mut now_held = held;
    if key.just_pressed {
        now_held = true;
    }
    if key.just_released {
        now_held = false;
    }
    now_held
}

/// The frame's transitions of the movement keys W, A, S and D.
#[derive(Clone, Copy, Debug, PartialEq, Eq, Structural)]
pub struct MovementKeys {
    pub w: KeyTransition,
    pub a: KeyTransition,
    pub s: KeyTransition,
    pub d: KeyTransition,
}

/// W moves forward, A left, S backward and D right; rotating is left as it was.
pub fn handle_movement(controlled: &mut Controlled, keys: MovementKeys)
    ensures
        final(controlled).forward == held_after(old(controlled).forward, keys.w),
        final(controlled).left == held_after(old(controlled).left, keys.a),
        final(controlled).backward == held_after(old(controlled).backward, keys.s),
        final(controlled).right == held_after(old(controlled).right, keys.d),
        final(controlled).rotating == old(controlled).rotating,
{
    controlled.forward = follow_key(controlled.forward, keys.w);
    controlled.left = follow_key(controlled.left, keys.a);
    controlled.backward = follow_key(controlled.backward, keys.s);
    controlled.right = follow_key(controlled.right, keys.d);
}

/// The hover events that the space bar's transitions in a frame send: a start when it went
/// down, then a stop when it came up.
pub fn handle_jump(space: KeyTransition) -> (events: Vec<HoverEvent>)
    ensures
        events@ == (if space.just_pressed {
            seq![HoverEvent::Start]
        } else {
            Seq::empty()
        }) + (if space.just_released {
            seq![HoverEvent::Stop]
        } else {
            Seq::empty()
        }),
{
    let mut events: Vec<HoverEvent> = Vec::new();
    if space.just_pressed {
        events.push(HoverEvent::Start);
    }
    if space.just_released {
        events.push(HoverEvent::Stop);
    }
    proof {
        if !space.just_pressed && !space.just_released {
            assert(events@ =~= Seq::<HoverEvent>::empty() + Seq::<HoverEvent>::empty());
        } else if !space.just_pressed {
            assert(events@ =~= Seq::<HoverEvent>::empty() + seq![HoverEvent::Stop]);
        } else if !space.just_released {
            assert(events@ =~= seq![HoverEvent::Start] + Seq::<HoverEvent>::empty());
        } else {
            assert(events@ =~= seq![HoverEvent::Start] + seq![HoverEvent::Stop]);
        }
    }
    events
}

/// Holding the right mouse button turns the player.
pub fn handle_rotate(controlled: &mut Controlled, events: &Vec<MouseButtonInput>)
    ensures
        final(controlled).rotating == right_button_held(old(controlled).rotating, events@),
        final(controlled).forward == old(controlled).forward,
        final(controlled).backward == old(controlled).backward,
        final(controlled).left == old(controlled).left,
        final(controlled).right == old(controlled).right,
{
    controlled.rotating = track_right_button(controlled.rotating, events);
}

/// The cursor is hidden while the player is being turned.
pub fn cursor_visible(controlled: &Controlled) -> (visible: bool)
    ensures
        visible == !controlled.rotating,
{
    !controlled.rotating
}

/// Pressing R asks for the player to be sent back to the start.
pub fn handle_reset(r: KeyTransition) -> (reset: bool)
    ensures
        reset == r.just_pressed,
{
    r.just_pressed
}

} // verus!

use vstd::prelude::*;

verus! {

/// A mouse button, as far as the game tells them apart.
#[derive(Clone, Copy, Debug, PartialEq, Eq, Structural)]
pub enum MouseButton {
    Left,
    Right,
    Other,
}

/// Whether a button went down or came up.
#[derive(Clone, Copy, Debug, PartialEq, Eq, Structural)]
pub enum ButtonState {
    Pressed,
    Released,
}

/// A mouse button going down or coming up.
#[derive(Clone, Copy, Debug, PartialEq, Eq, Structural)]
pub struct MouseButtonInput {
    pub button: MouseButton,
    pub state: ButtonState,
}

/// Whether a flag that follows the right mouse button is set after `events`, starting from
/// `held`: each right-button press sets it and each release clears it.
pub open spec fn right_button_held(held: bool, events: Seq<MouseButtonInput>) -> bool
    decreases events.len(),
{
    if events.len() == 0 {
        held
    } else {
        let before = right_button_held(held, events.drop_last());
        let event = events.last();
        if event.button == MouseButton::Right {
            event.state == ButtonState::Pressed
        } else {
            before
        }
    }
}

/// Follows the right mouse button through `events`, starting from `held`.
pub fn track_right_button(held: bool, events: &Vec<MouseButtonInput>) -> (now_held: bool)
    ensures
        now_held == right_button_held(held, events@),
{
    let mut current = held;
    let n = events.len();
    let mut i: usize = 0;
    while i < n
        invariant
            n == events.len(),
            i <= n,
            current == right_button_held(held, events@.take(i as int)),
        decreases n - i,
    {
        proof {
            assert(events@.take(i + 1).drop_last() == events@.take(i as int));
        }
        let event = events[i];
        if let MouseButton::Right = event.button {
            match event.state {
                ButtonState::Pressed => {
                    current = true;
                },
                ButtonState::Released => {
                    current = false;
                },
            }
        }
        i += 1;
    }
    proof {
        assert(events@.take(n as int) == events@);
    }
    current
}

/// No event leaves the flag as it was; after a right-button event the flag says whether that
/// event was a press, whatever came before it; an event of another button changes nothing.
pub proof fn lemma_last_right_button_event_decides(
    held: bool,
    events: Seq<MouseButtonInput>,
    event: MouseButtonInput,
)
    ensures
        right_button_held(held, Seq::empty()) == held,
        event.button == MouseButton::Right ==> right_button_held(held, events.push(event)) == (
        event.state == ButtonState::Pressed),
        event.button != MouseButton::Right ==> right_button_held(held, events.push(event))
            == right_button_held(held, events),
{
    assert(events.push(event).drop_last() == events);
}

/// Following the button through two runs of events one after the other is following it
/// through the first run and then, from where that left the flag, through the second.
pub proof fn lemma_right_button_runs(
    held: bool,
    first: Seq<MouseButtonInput>,
    second: Seq<MouseButtonInput>,
)
    ensures
        right_button_held(held, first + second) == right_button_held(
            right_button_held(held, first),
            second,
        ),
    decreases second.len(),
{
    if second.len() == 0 {
        assert(first + second == first);
    } else {
        lemma_right_button_runs(held, first, second.drop_last());
        assert((first + second).drop_last() == first + second.drop_last());
    }
}

} // verus!

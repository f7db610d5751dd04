use vstd::prelude::*;

verus! {

/// Requests to start or stop hovering.
#[derive(Clone, Copy, Debug, PartialEq, Eq, Structural)]
pub enum HoverEvent {
    Start,
    Stop,
}

/// Whether the player is hovering.
#[derive(Clone, Copy, Debug, PartialEq, Eq, Structural)]
pub struct Hovering {
    pub value: bool,
}

/// What happens to the player's thrust.
#[derive(Clone, Copy, Debug, PartialEq, Eq, Structural)]
pub enum HoverAction {
    /// Give the player the jump impulse and the upward lifting force.
    Lift,
    /// Take away the impulse and the lifting force.
    Drop,
}

/// Starts hovering if there is fuel left; returns whether it did.
pub fn start_hover(has_fuel: bool, hovering: &mut Hovering) -> (started: bool)
    ensures
        started == has_fuel,
        final(hovering).value == (has_fuel || old(hovering).value),
{
    if has_fuel {
        hovering.value = true;
        true
    } else {
        false
    }
}

/// Stops hovering.
pub fn end_hover(hovering: &mut Hovering)
    ensures
        !final(hovering).value,
{
    hovering.value = false;
}

/// The thrust changes that `events` cause, in order, while the fuel does not change.
pub open spec fn hover_actions(events: Seq<HoverEvent>, has_fuel: bool) -> Seq<HoverAction>
    decreases events.len(),
{
    if events.len() == 0 {
        Seq::empty()
    } else {
        let before = hover_actions(events.drop_last(), has_fuel);
        match events.last() {
            HoverEvent::Start => if has_fuel {
                before.push(HoverAction::Lift)
            } else {
                before
            },
            HoverEvent::Stop => before.push(HoverAction::Drop),
        }
    }
}

/// Whether the player hovers after `events`, starting from `hovering`.
pub open spec fn hovering_after(hovering: bool, events: Seq<HoverEvent>, has_fuel: bool) -> bool
    decreases events.len(),
{
    if events.len() == 0 {
        hovering
    } else {
        let before = hovering_after(hovering, events.drop_last(), has_fuel);
        match events.last() {
            HoverEvent::Start => has_fuel || before,
            HoverEvent::Stop => false,
        }
    }
}

/// Applies the frame's hover events: a start lifts the player if there is fuel, a stop drops
/// them.
pub fn handle_hover_events(events: &Vec<HoverEvent>, has_fuel: bool, hovering: &mut Hovering) -> (actions: Vec<HoverAction>)
    ensures
        actions@ == hover_actions(events@, has_fuel),
        final(hovering).value == hovering_after(old(hovering).value, events@, has_fuel),
{
    let ghost start = hovering.value;
    let mut actions: Vec<HoverAction> = Vec::new();
    let n = events.len();
    let mut i: usize = 0;
    while i < n
        invariant
            n == events.len(),
            i <= n,
            actions@ == hover_actions(events@.take(i as int), has_fuel),
            hovering.value == hovering_after(start, events@.take(i as int), has_fuel),
        decreases n - i,
    {
        proof {
            assert(events@.take(i + 1).drop_last() == events@.take(i as int));
        }
        match events[i] {
            HoverEvent::Start => {
                if start_hover(has_fuel, hovering) {
                    actions.push(HoverAction::Lift);
                }
            },
            HoverEvent::Stop => {
                end_hover(hovering);
                actions.push(HoverAction::Drop);
            },
        }
        i += 1;
    }
    proof {
        assert(events@.take(n as int) == events@);
    }
    actions
}

/// Whether a hovering player burns fuel this frame.
pub fn burns_fuel(hovering: &Hovering) -> (burns: bool)
    ensures
        burns == hovering.value,
{
    hovering.value
}

/// After burning fuel, a player whose fuel ran out stops hovering.
pub fn after_burning_fuel(hovering: &mut Hovering, fuel_exhausted: bool) -> (action: Option<HoverAction>)
    ensures
        fuel_exhausted ==> !final(hovering).value && action == Some(HoverAction::Drop),
        !fuel_exhausted ==> *final(hovering) == *old(hovering) && action is None,
{
    if fuel_exhausted {
        end_hover(hovering);
        Some(HoverAction::Drop)
    } else {
        None
    }
}

/// Without fuel, hover events never make a player hover who was not hovering.
pub proof fn lemma_no_fuel_no_lift(hovering: bool, events: Seq<HoverEvent>)
    ensures
        hovering_after(hovering, events, false) ==> hovering,
        !hover_actions(events, false).contains(HoverAction::Lift),
    decreases events.len(),
{
    if events.len() > 0 {
        lemma_no_fuel_no_lift(hovering, events.drop_last());
        let before = hover_actions(events.drop_last(), false);
        if events.last() == HoverEvent::Stop {
            assert forall|k: int| 0 <= k < before.len() + 1 implies before.push(HoverAction::Drop)[k]
                != HoverAction::Lift by {
                if k < before.len() {
                    assert(before.push(HoverAction::Drop)[k] == before[k]);
                }
            }
        }
    }
}

/// A stop as the last event always leaves the player not hovering, and a start with fuel as the
/// last event always leaves them hovering.
pub proof fn lemma_last_event_decides(hovering: bool, events: Seq<HoverEvent>, has_fuel: bool)
    requires
        events.len() > 0,
    ensures
        events.last() == HoverEvent::Stop ==> !hovering_after(hovering, events, has_fuel),
        events.last() == HoverEvent::Start && has_fuel ==> hovering_after(hovering, events, has_fuel),
{
}

/// The thrust changes follow the events in order: no events change nothing, and each event adds
/// its own change after those of the events before it: a stop drops the player, a start lifts
/// them when there is fuel and does nothing otherwise.
pub proof fn lemma_actions_follow_events(events: Seq<HoverEvent>, event: HoverEvent, has_fuel: bool)
    ensures
        hover_actions(Seq::empty(), has_fuel) == Seq::<HoverAction>::empty(),
        event == HoverEvent::Stop ==> hover_actions(events.push(event), has_fuel) == hover_actions(
            events,
            has_fuel,
        ).push(HoverAction::Drop),
        event == HoverEvent::Start && has_fuel ==> hover_actions(events.push(event), has_fuel)
            == hover_actions(events, has_fuel).push(HoverAction::Lift),
        event == HoverEvent::Start && !has_fuel ==> hover_actions(events.push(event), has_fuel)
            == hover_actions(events, has_fuel),
{
    assert(events.push(event).drop_last() == events);
}

/// The thrust changes of two runs of events one after the other are those of the first run
/// followed by those of the second.
pub proof fn lemma_action_runs(first: Seq<HoverEvent>, second: Seq<HoverEvent>, has_fuel: bool)
    ensures
        hover_actions(first + second, has_fuel) == hover_actions(first, has_fuel) + hover_actions(
            second,
            has_fuel,
        ),
    decreases second.len(),
{
    if second.len() == 0 {
        assert(first + second == first);
        assert(hover_actions(first, has_fuel) + hover_actions(second, has_fuel) == hover_actions(
            first,
            has_fuel,
        ));
    } else {
        lemma_action_runs(first, second.drop_last(), has_fuel);
        assert((first + second).drop_last() == first + second.drop_last());
        assert((first + second).last() == second.last());
        let a = hover_actions(first, has_fuel);
        let b = hover_actions(second.drop_last(), has_fuel);
        assert((a + b).push(HoverAction::Lift) == a + b.push(HoverAction::Lift));
        assert((a + b).push(HoverAction::Drop) == a + b.push(HoverAction::Drop));
    }
}

/// Hovering changes only on events: a frame without events leaves it as it was, a stop ends it,
/// and a start with fuel begins it while a start without fuel leaves it as it was.
pub proof fn lemma_hovering_follows_events(
    hovering: bool,
    events: Seq<HoverEvent>,
    event: HoverEvent,
    has_fuel: bool,
)
    ensures
        hovering_after(hovering, Seq::empty(), has_fuel) == hovering,
        event == HoverEvent::Stop ==> !hovering_after(hovering, events.push(event), has_fuel),
        event == HoverEvent::Start && has_fuel ==> hovering_after(
            hovering,
            events.push(event),
            has_fuel,
        ),
        event == HoverEvent::Start && !has_fuel ==> hovering_after(
            hovering,
            events.push(event),
            has_fuel,
        ) == hovering_after(hovering, events, has_fuel),
{
    assert(events.push(event).drop_last() == events);
}

/// A player who hovers keeps hovering through any events that hold no stop.
pub proof fn lemma_no_stop_keeps_hovering(events: Seq<HoverEvent>, has_fuel: bool)
    requires
        forall|i: int| 0 <= i < events.len() ==> events[i] != HoverEvent::Stop,
    ensures
        hovering_after(true, events, has_fuel),
    decreases events.len(),
{
    if events.len() > 0 {
        lemma_no_stop_keeps_hovering(events.drop_last(), has_fuel);
        assert(events.last() == events[events.len() - 1]);
    }
}

/// Hovering through two runs of events one after the other is hovering through the first run
/// and then, from where that left the player, through the second.
pub proof fn lemma_hovering_runs(
    hovering: bool,
    first: Seq<HoverEvent>,
    second: Seq<HoverEvent>,
    has_fuel: bool,
)
    ensures
        hovering_after(hovering, first + second, has_fuel) == hovering_after(
            hovering_after(hovering, first, has_fuel),
            second,
            has_fuel,
        ),
    decreases second.len(),
{
    if second.len() == 0 {
        assert(first + second == first);
    } else {
        lemma_hovering_runs(hovering, first, second.drop_last(), has_fuel);
        assert((first + second).drop_last() == first + second.drop_last());
        assert((first + second).last() == second.last());
    }
}

} // verus!

use hover_pill::collision::{check_player_hit, handle_player_collisions, Collision, CollisionResponse, PlayerHit};
use hover_pill::fuel_ball::{refuel_pair, RefuelCandidates, RefuelPair};
use hover_pill::hover::{
    after_burning_fuel, burns_fuel, end_hover, handle_hover_events, start_hover, HoverAction,
    HoverEvent, Hovering,
};
use hover_pill::wall::{wall_color, WallColor, WallType};

#[test]
fn hovering_needs_fuel() {
    let mut h = Hovering { value: false };
    assert!(!start_hover(false, &mut h));
    assert!(!h.value);
    assert!(start_hover(true, &mut h));
    assert!(h.value);
    end_hover(&mut h);
    assert!(!h.value);
}

#[test]
fn hover_events_in_order() {
    let mut h = Hovering { value: false };
    let actions = handle_hover_events(&vec![HoverEvent::Start, HoverEvent::Stop, HoverEvent::Start], true, &mut h);
    assert_eq!(actions, vec![HoverAction::Lift, HoverAction::Drop, HoverAction::Lift]);
    assert!(h.value);
}

#[test]
fn hover_events_without_fuel_never_lift() {
    let mut h = Hovering { value: false };
    let actions = handle_hover_events(&vec![HoverEvent::Start, HoverEvent::Start], false, &mut h);
    assert!(actions.is_empty());
    assert!(!h.value);
    let mut hovering = Hovering { value: true };
    let actions = handle_hover_events(&vec![HoverEvent::Start, HoverEvent::Stop], false, &mut hovering);
    assert_eq!(actions, vec![HoverAction::Drop]);
    assert!(!hovering.value);
}

#[test]
fn running_out_of_fuel_stops_hovering() {
    let mut h = Hovering { value: true };
    assert!(burns_fuel(&h));
    assert_eq!(after_burning_fuel(&mut h, false), None);
    assert!(h.value);
    assert_eq!(after_burning_fuel(&mut h, true), Some(HoverAction::Drop));
    assert!(!h.value);
    assert!(!burns_fuel(&h));
}

fn collision(first_is_player: bool, second_is_player: bool, first_wall: Option<WallType>, second_wall: Option<WallType>) -> Collision {
    Collision { first_is_player, second_is_player, first_wall, second_wall }
}

#[test]
fn player_hits_walls() {
    assert_eq!(check_player_hit(collision(true, false, None, Some(WallType::Avoid))), Some(PlayerHit::Avoid));
    assert_eq!(check_player_hit(collision(false, true, Some(WallType::Goal), None)), Some(PlayerHit::Goal));
    assert_eq!(check_player_hit(collision(true, false, None, Some(WallType::Neutral))), None);
    assert_eq!(check_player_hit(collision(true, false, None, None)), None);
}

#[test]
fn collisions_without_player_mean_nothing() {
    assert_eq!(check_player_hit(collision(false, false, Some(WallType::Goal), Some(WallType::Avoid))), None);
}

#[test]
fn collision_order_does_not_matter() {
    let c = collision(false, true, Some(WallType::Avoid), None);
    let swapped = collision(true, false, None, Some(WallType::Avoid));
    assert_eq!(check_player_hit(c), check_player_hit(swapped));
}

#[test]
fn first_entity_counts_as_player_when_both_are() {
    assert_eq!(check_player_hit(collision(true, true, Some(WallType::Goal), Some(WallType::Avoid))), Some(PlayerHit::Avoid));
}

#[test]
fn collision_responses_in_order() {
    let responses = handle_player_collisions(&vec![
        collision(true, false, None, Some(WallType::Avoid)),
        collision(false, false, None, None),
        collision(false, true, Some(WallType::Goal), None),
        collision(true, false, None, Some(WallType::Neutral)),
    ]);
    assert_eq!(responses, vec![CollisionResponse::ResetPlayer, CollisionResponse::CompleteLevel]);
}

#[test]
fn refuelling_pairs() {
    let c = |a, b, c, d| RefuelCandidates { first_has_fuel: a, second_has_fuel: b, first_is_ball: c, second_is_ball: d };
    assert_eq!(refuel_pair(c(true, false, false, true)), Some(RefuelPair::FirstTakesFromSecond));
    assert_eq!(refuel_pair(c(false, true, true, false)), Some(RefuelPair::SecondTakesFromFirst));
    assert_eq!(refuel_pair(c(true, false, false, false)), None);
    assert_eq!(refuel_pair(c(false, false, true, true)), None);
    assert_eq!(refuel_pair(c(true, true, false, false)), None);
}

#[test]
fn wall_colours() {
    assert_eq!(wall_color(WallType::Neutral), WallColor::White);
    assert_eq!(wall_color(WallType::Avoid), WallColor::Red);
    assert_eq!(wall_color(WallType::Goal), WallColor::Green);
}

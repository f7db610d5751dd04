use vstd::prelude::*;

use crate::level_order::{LevelOrder, spec_next_level};
use crate::load_level::LoadEvent;

verus! {

/// When the player asked for the next level, the level that follows the current one in the
/// level order is loaded (and the overlay is removed and the game resumed); after the last
/// level, or for a level outside the order, nothing happens.
pub fn handle_next_level(order: &LevelOrder, current_level_path: &str, requested: bool) -> (load: Option<LoadEvent>)
    ensures
        !requested ==> load is None,
        requested ==> match load {
            Some(event) => spec_next_level(order.names(), current_level_path@) == Some(event.path@),
            None => spec_next_level(order.names(), current_level_path@) is None,
        },
{
    if !requested {
        return None;
    }
    match order.next_level(current_level_path) {
        Some(next) => Some(LoadEvent { path: next.to_owned() }),
        None => None,
    }
}

} // verus!

use vstd::prelude::*;

use crate::controls::Controlled;

verus! {

/// The directions a steered player moves in, each -1, 0 or 1: along the facing direction, and
/// to the right of it.
#[derive(Clone, Copy, Debug, PartialEq, Eq, Structural)]
pub struct MovementAxes {
    pub forward: i8,
    pub right: i8,
}

pub open spec fn flag(b: bool) -> int {
    if b {
        1
    } else {
        0
    }
}

/// Forward and backward cancel out, and so do left and right.
pub fn movement_axes(controlled: &Controlled) -> (axes: MovementAxes)
    ensures
        axes.forward == flag(controlled.forward) - flag(controlled.backward),
        axes.right == flag(controlled.right) - flag(controlled.left),
{
    let mut forward: i8 = 0;
    let mut right: i8 = 0;
    if controlled.forward {
        forward = forward + 1;
    }
    if controlled.backward {
        forward = forward - 1;
    }
    if controlled.left {
        right = right - 1;
    }
    if controlled.right {
        right = right + 1;
    }
    MovementAxes { forward, right }
}

} // verus!

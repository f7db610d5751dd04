use vstd::prelude::*;

verus! {

/// The two entities of a collision that started: whether each carries fuel (and is not a fuel
/// ball) and whether each is a fuel ball.
#[derive(Clone, Copy, Debug, PartialEq, Eq, Structural)]
pub struct RefuelCandidates {
    pub first_has_fuel: bool,
    pub second_has_fuel: bool,
    pub first_is_ball: bool,
    pub second_is_ball: bool,
}

/// Which entity of a collision takes the fuel of the other, a fuel ball.
#[derive(Clone, Copy, Debug, PartialEq, Eq, Structural)]
pub enum RefuelPair {
    FirstTakesFromSecond,
    SecondTakesFromFirst,
}

/// The entity with fuel is the first one if it has fuel, else the second; the refuelling
/// happens when that entity has fuel and the other one is a fuel ball.
pub fn refuel_pair(c: RefuelCandidates) -> (pair: Option<RefuelPair>)
    ensures
        pair == (if c.first_has_fuel {
            if c.second_is_ball {
                Some(RefuelPair::FirstTakesFromSecond)
            } else {
                None
            }
        } else if c.second_has_fuel && c.first_is_ball {
            Some(RefuelPair::SecondTakesFromFirst)
        } else {
            None
        }),
{
    if c.first_has_fuel {
        if c.second_is_ball {
            Some(RefuelPair::FirstTakesFromSecond)
        } else {
            None
        }
    } else if c.second_has_fuel && c.first_is_ball {
        Some(RefuelPair::SecondTakesFromFirst)
    } else {
        None
    }
}

} // verus!

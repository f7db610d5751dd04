use vstd::prelude::*;

verus! {

/// What touching a wall does to the player: nothing, send them back to the start, or finish
/// the level.
#[derive(Clone, Copy, Debug, PartialEq, Eq, Hash, Structural)]
pub enum WallType {
    Neutral,
    Avoid,
    Goal,
}

/// The wall component of a wall entity.
#[derive(Clone, Copy, Debug, PartialEq, Eq, Structural)]
pub struct Wall {
    pub wall_type: WallType,
}

/// The colour in which a wall is drawn.
#[derive(Clone, Copy, Debug, PartialEq, Eq, Structural)]
pub enum WallColor {
    White,
    Red,
    Green,
}

/// Neutral walls are white, walls to avoid are red and goals are green.
pub fn wall_color(wall_type: WallType) -> (color: WallColor)
    ensures
        wall_type == WallType::Neutral ==> color == WallColor::White,
        wall_type == WallType::Avoid ==> color == WallColor::Red,
        wall_type == WallType::Goal ==> color == WallColor::Green,
{
    match wall_type {
        WallType::Neutral => WallColor::White,
        WallType::Avoid => WallColor::Red,
        WallType::Goal => WallColor::Green,
    }
}

} // verus!

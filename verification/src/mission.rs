use vstd::prelude::*;

verus! {

/// The game modes that the player logic distinguishes.
#[derive(Debug, Clone, Copy, PartialEq, Eq, Structural)]
pub enum GameMode {
    Normal,
    Tutorial,
    Ending,
}

/// The moves that the tutorial asks the player to perform.
#[derive(Debug, Clone, Copy, PartialEq, Eq, Structural)]
pub enum TutorialMove {
    RollForwards,
    RollBackwards,
    RollToTheRight,
    RollToTheLeft,
    RollSideways,
    ShiftLeftOrRight,
    QuickShift,
    Boost,
    Flip,
    LookL1,
    JumpR1,
}

} // verus!

//! What the simulation tells its observers.

use vstd::prelude::*;
use crate::game::player::PlayerSide;

verus! {

/// The ball left the arena and `winner` scored.
#[derive(Clone, Copy, Debug, PartialEq, Eq, Structural)]
pub struct PointMarked {
    pub winner: PlayerSide,
}

impl PointMarked {
    pub fn new(winner: PlayerSide) -> (event: Self)
        ensures
            event.winner == winner,
    {
        PointMarked { winner }
    }
}

/// The score changed; whoever shows it reads it again.
#[derive(Clone, Copy, Debug, PartialEq, Eq, Structural)]
pub struct GameDataUpdated;

} // verus!

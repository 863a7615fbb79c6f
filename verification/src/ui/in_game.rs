//! The score board and the countdown of a match.

use vstd::prelude::*;
use crate::game::player::PlayerSide;
use crate::game::resource::{GameActiveData, StartMatchTimer};

verus! {

/// The place on the score board for the points of one seat.
#[derive(Clone, Copy, Debug, PartialEq, Eq, Structural)]
pub struct PlayerScore {
    side: PlayerSide,
}

impl PlayerScore {
    /// The seat whose points are shown here.
    pub closed spec fn seat(self) -> PlayerSide {
        self.side
    }

    /// The place for the points of the left seat.
    pub fn new_main() -> (score: Self)
        ensures
            score.seat() == PlayerSide::Main,
    {
        PlayerScore { side: PlayerSide::Main }
    }

    /// The place for the points of the right seat.
    pub fn new_second() -> (score: Self)
        ensures
            score.seat() == PlayerSide::Other,
    {
        PlayerScore { side: PlayerSide::Other }
    }
}

/// The number to show at the given place of the score board.
pub fn update_game_score(player_score: &PlayerScore, game_data: &GameActiveData) -> (points: u8)
    ensures
        points == game_data.points(player_score.seat()),
{
    match player_score.side {
        PlayerSide::Main => game_data.score().player1(),
        PlayerSide::Other => game_data.score().player2(),
    }
}

/// The number to show while the countdown runs: the seconds it lasts less
/// the whole seconds that have passed.
pub fn update_start_match_countdown(timer: &StartMatchTimer) -> (seconds: u32)
    ensures
        seconds == timer.0@.duration / 1_000_000 - timer.0@.elapsed / 1_000_000,
{
    timer.remaining_secs()
}

} // verus!

//! Who plays: the two sides of the arena and who controls each.

use vstd::prelude::*;
use crate::game::arena::ArenaDirection;
use crate::settings::input::{GamepadInputSettings, KeyboardInputSettings};

verus! {

/// Everyone who can win a point.
#[derive(Clone, Copy, Debug, PartialEq, Eq, Structural)]
pub enum PlayerType {
    Main,
    Second,
    AI,
}

impl PlayerType {
    /// The half of the arena that this player defends: the main player the
    /// left one, the second player and the computer the right one.
    pub open spec fn side_of_arena(self) -> ArenaDirection {
        match self {
            PlayerType::Main => ArenaDirection::Left,
            PlayerType::Second => ArenaDirection::Right,
            PlayerType::AI => ArenaDirection::Right,
        }
    }

    /// The player's name as the score board shows it.
    pub open spec fn name(self) -> Seq<char> {
        match self {
            PlayerType::Main => "main"@,
            PlayerType::Second => "second"@,
            PlayerType::AI => "AI"@,
        }
    }

    /// The half of the arena that this player defends.
    pub fn arena_direction(&self) -> (direction: ArenaDirection)
        ensures
            direction == self.side_of_arena(),
    {
        match *self {
            PlayerType::Main => ArenaDirection::Left,
            PlayerType::Second => ArenaDirection::Right,
            PlayerType::AI => ArenaDirection::Right,
        }
    }

    pub fn as_str(&self) -> (name: &'static str)
        ensures
            name@ == self.name(),
    {
        match *self {
            PlayerType::Main => "main",
            PlayerType::Second => "second",
            PlayerType::AI => "AI",
        }
    }
}

impl Default for PlayerType {
    fn default() -> (player: Self)
        ensures
            player == PlayerType::Main,
    {
        PlayerType::Main
    }
}

/// The two seats of a match.
#[derive(Clone, Copy, Debug, PartialEq, Eq, Structural)]
pub enum PlayerSide {
    /// The left seat, always taken by the main player.
    Main,
    /// The right seat, taken by the second player or by the computer.
    Other,
}

impl PlayerSide {
    /// The half of the arena of this seat.
    pub open spec fn side_of_arena(self) -> ArenaDirection {
        match self {
            PlayerSide::Main => ArenaDirection::Left,
            PlayerSide::Other => ArenaDirection::Right,
        }
    }

    /// Who sits on this seat when the right seat is taken by `opponent`.
    pub open spec fn player(self, opponent: SecondPlayerType) -> PlayerType {
        match (self, opponent) {
            (PlayerSide::Main, _) => PlayerType::Main,
            (PlayerSide::Other, SecondPlayerType::Player) => PlayerType::Second,
            (PlayerSide::Other, SecondPlayerType::AI) => PlayerType::AI,
        }
    }

    /// The half of the arena of this seat.
    pub fn arena_direction(&self) -> (direction: ArenaDirection)
        ensures
            direction == self.side_of_arena(),
    {
        match *self {
            PlayerSide::Main => ArenaDirection::Left,
            PlayerSide::Other => ArenaDirection::Right,
        }
    }

    /// Who sits on this seat when the right seat is taken by `opponent`.
    pub fn to_player_type(self, opponent: SecondPlayerType) -> (player: PlayerType)
        ensures
            player == self.player(opponent),
            player.side_of_arena() == self.side_of_arena(),
    {
        match (self, opponent) {
            (PlayerSide::Main, _) => PlayerType::Main,
            (PlayerSide::Other, SecondPlayerType::Player) => PlayerType::Second,
            (PlayerSide::Other, SecondPlayerType::AI) => PlayerType::AI,
        }
    }
}

impl Default for PlayerSide {
    fn default() -> (side: Self)
        ensures
            side == PlayerSide::Main,
    {
        PlayerSide::Main
    }
}

/// Who takes the right seat.
#[derive(Clone, Copy, Debug, PartialEq, Eq, Structural)]
pub enum SecondPlayerType {
    Player,
    AI,
}

impl SecondPlayerType {
    /// The other kind of opponent.
    pub open spec fn other(self) -> SecondPlayerType {
        match self {
            SecondPlayerType::Player => SecondPlayerType::AI,
            SecondPlayerType::AI => SecondPlayerType::Player,
        }
    }

    /// The other kind of opponent.
    pub fn change_opponent(self) -> (opponent: Self)
        ensures
            opponent == self.other(),
            opponent != self,
            opponent.other() == self,
    {
        match self {
            SecondPlayerType::Player => SecondPlayerType::AI,
            SecondPlayerType::AI => SecondPlayerType::Player,
        }
    }

    pub fn is_player(&self) -> (yes: bool)
        ensures
            yes == (*self == SecondPlayerType::Player),
    {
        *self == SecondPlayerType::Player
    }

    pub fn is_ai(&self) -> (yes: bool)
        ensures
            yes == (*self == SecondPlayerType::AI),
    {
        *self == SecondPlayerType::AI
    }
}

impl Default for SecondPlayerType {
    fn default() -> (opponent: Self)
        ensures
            opponent == SecondPlayerType::Player,
    {
        SecondPlayerType::Player
    }
}

/// The player that a paddle belongs to. The seat is fixed when the player is
/// made.
#[derive(Clone, Copy, Debug, PartialEq, Eq, Structural)]
pub struct Player {
    kind: PlayerSide,
}

impl Player {
    /// The seat of this player.
    pub closed spec fn side(self) -> PlayerSide {
        self.kind
    }

    /// The player of the left seat.
    pub fn new_main() -> (player: Self)
        ensures
            player.side() == PlayerSide::Main,
    {
        Player { kind: PlayerSide::Main }
    }

    /// The player of the right seat.
    pub fn new_second() -> (player: Self)
        ensures
            player.side() == PlayerSide::Other,
    {
        Player { kind: PlayerSide::Other }
    }

    /// The keys that move this player's paddle.
    pub fn keyboard_input(&self) -> (keys: KeyboardInputSettings)
        ensures
            keys == (match self.side() {
                PlayerSide::Main => crate::settings::input::main_player_keyboard(),
                PlayerSide::Other => crate::settings::input::second_player_keyboard(),
            }),
    {
        match self.kind {
            PlayerSide::Main => KeyboardInputSettings::new_main_settings(),
            PlayerSide::Other => KeyboardInputSettings::new_second_settings(),
        }
    }

    /// The gamepad buttons that move this player's paddle.
    pub fn gamepad_input(&self) -> (buttons: GamepadInputSettings)
        ensures
            buttons == crate::settings::input::gamepad_settings(),
    {
        GamepadInputSettings::default_settings()
    }

    pub fn get_side(&self) -> (side: PlayerSide)
        ensures
            side == self.side(),
    {
        self.kind
    }
}

impl Default for Player {
    fn default() -> (player: Self)
        ensures
            player.side() == PlayerSide::Main,
    {
        Player { kind: PlayerSide::Main }
    }
}

/// Marks the right seat as played by the computer.
#[derive(Clone, Copy, Debug, PartialEq, Eq, Structural)]
pub struct PlayerAI;

} // verus!

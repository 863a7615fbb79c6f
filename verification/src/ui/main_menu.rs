//! The main menu: starting a match and choosing the opponent.

use vstd::prelude::*;
use crate::game::player::SecondPlayerType;
use crate::game::resource::SecondPlayer;
use crate::game::state::{GameState, StateRequest};
use crate::ui::pause_menu::requested;

verus! {

/// The button that changes the opponent.
#[derive(Clone, Copy, Debug, PartialEq, Eq, Structural)]
pub struct ChangePlayerButton;

impl ChangePlayerButton {
    /// What the button shows for the given opponent.
    pub open spec fn label(player: SecondPlayerType) -> Seq<char> {
        match player {
            SecondPlayerType::Player => "2 Players"@,
            SecondPlayerType::AI => "AI"@,
        }
    }

    /// What the button shows for the given opponent.
    pub fn get_text(player: SecondPlayerType) -> (text: &'static str)
        ensures
            text@ == Self::label(player),
    {
        match player {
            SecondPlayerType::Player => "2 Players",
            SecondPlayerType::AI => "AI",
        }
    }
}

/// Changes the opponent when the button was pressed, and gives the button's
/// new text.
pub fn change_player_button(pressed: bool, second_player: &mut SecondPlayer) -> (text: Option<
    &'static str,
>)
    ensures
        pressed ==> {
            &&& final(second_player).opponent == old(second_player).opponent.other()
            &&& text matches Some(shown) && shown@ == ChangePlayerButton::label(
                final(second_player).opponent,
            )
        },
        !pressed ==> *final(second_player) == *old(second_player) && text is None,
{
    if pressed {
        let new_opponent = second_player.opponent.change_opponent();
        second_player.opponent = new_opponent;
        Some(ChangePlayerButton::get_text(new_opponent))
    } else {
        None
    }
}

/// Changes the opponent when left or right was just pressed on the main
/// player's gamepad, and gives the button's new text. The argument is
/// `None` where the main player has no gamepad.
pub fn change_player_with_gamepad(
    left_or_right_just_pressed: Option<bool>,
    second_player: &mut SecondPlayer,
) -> (text: Option<&'static str>)
    ensures
        left_or_right_just_pressed == Some(true) ==> {
            &&& final(second_player).opponent == old(second_player).opponent.other()
            &&& text matches Some(shown) && shown@ == ChangePlayerButton::label(
                final(second_player).opponent,
            )
        },
        left_or_right_just_pressed != Some(true) ==> *final(second_player) == *old(second_player)
            && text is None,
{
    match left_or_right_just_pressed {
        Some(pressed) => change_player_button(pressed, second_player),
        None => None,
    }
}

/// Starts a match from the menu when the play button was pressed.
pub fn play_button(pressed: bool, game_state: GameState) -> (next: Option<GameState>)
    ensures
        next == requested(pressed, game_state, StateRequest::Play),
{
    if pressed {
        game_state.request(StateRequest::Play)
    } else {
        None
    }
}

/// Starts a match from the menu when the start button of the main player's
/// gamepad was just pressed. `start_just_pressed` is `None` where the main
/// player has no gamepad.
pub fn start_game_with_gamepad(start_just_pressed: Option<bool>, game_state: GameState) -> (next:
    Option<GameState>)
    ensures
        next == requested(start_just_pressed == Some(true), game_state, StateRequest::Play),
{
    match start_just_pressed {
        Some(pressed) => play_button(pressed, game_state),
        None => None,
    }
}

} // verus!

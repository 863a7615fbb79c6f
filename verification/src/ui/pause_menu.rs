//! The pause menu: pausing, resuming, and leaving for the main menu.

use vstd::prelude::*;
use crate::game::state::{GameState, StateRequest};

verus! {

/// The mode that follows when `pressed` says that a control was used which
/// asks for `request`: the mode after the request if the control was used
/// and the request means something in the mode `game_state`, and none
/// otherwise.
pub open spec fn requested(pressed: bool, game_state: GameState, request: StateRequest) -> Option<
    GameState,
> {
    if pressed && game_state.accepts(request) {
        Some(game_state.after(request))
    } else {
        None
    }
}

/// Pauses a running match, or goes on with a paused one, when the escape key
/// or the start button of the main player's gamepad was just pressed.
/// `gamepad_start_just_pressed` is `None` where the main player has no
/// gamepad.
pub fn toggle_game_pause(
    escape_just_pressed: bool,
    gamepad_start_just_pressed: Option<bool>,
    game_state: GameState,
) -> (next: Option<GameState>)
    ensures
        next == requested(
            escape_just_pressed || gamepad_start_just_pressed == Some(true),
            game_state,
            StateRequest::TogglePause,
        ),
{
    let by_gamepad = match gamepad_start_just_pressed {
        Some(pressed) => pressed,
        None => false,
    };
    if escape_just_pressed || by_gamepad {
        game_state.request(StateRequest::TogglePause)
    } else {
        None
    }
}

/// Goes on with a paused match when the resume button was pressed.
pub fn resume_game_button(pressed: bool, game_state: GameState) -> (next: Option<GameState>)
    ensures
        next == requested(pressed, game_state, StateRequest::Resume),
{
    if pressed {
        game_state.request(StateRequest::Resume)
    } else {
        None
    }
}

/// Leaves a paused match for the main menu when the exit button was pressed.
pub fn exit_to_main_menu_button(pressed: bool, game_state: GameState) -> (next: Option<GameState>)
    ensures
        next == requested(pressed, game_state, StateRequest::ExitToMainMenu),
{
    if pressed {
        game_state.request(StateRequest::ExitToMainMenu)
    } else {
        None
    }
}

} // verus!

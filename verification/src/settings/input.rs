//! Which key and which gamepad button moves which paddle.

use vstd::prelude::*;

verus! {

/// The keys that the game listens to.
#[derive(Clone, Copy, Debug, PartialEq, Eq, Structural)]
pub enum KeyCode {
    KeyW,
    KeyS,
    ArrowUp,
    ArrowDown,
    Escape,
}

/// The gamepad buttons that the game listens to.
#[derive(Clone, Copy, Debug, PartialEq, Eq, Structural)]
pub enum GamepadButton {
    DPadUp,
    DPadDown,
    DPadLeft,
    DPadRight,
    Start,
}

/// The left player's keys: W and S.
pub open spec fn main_player_keyboard() -> KeyboardInputSettings {
    KeyboardInputSettings { paddle_up: KeyCode::KeyW, paddle_down: KeyCode::KeyS }
}

/// The right player's keys: the up and down arrows.
pub open spec fn second_player_keyboard() -> KeyboardInputSettings {
    KeyboardInputSettings { paddle_up: KeyCode::ArrowUp, paddle_down: KeyCode::ArrowDown }
}

/// Up and down on the directional pad, for either player.
pub open spec fn gamepad_settings() -> GamepadInputSettings {
    GamepadInputSettings { paddle_up: GamepadButton::DPadUp, paddle_down: GamepadButton::DPadDown }
}

/// The pair of keys that moves one paddle.
#[derive(Clone, Copy, Debug, PartialEq, Eq, Structural)]
pub struct KeyboardInputSettings {
    pub paddle_up: KeyCode,
    pub paddle_down: KeyCode,
}

impl KeyboardInputSettings {
    /// The left player's keys.
    pub fn new_main_settings() -> (keys: Self)
        ensures
            keys == main_player_keyboard(),
    {
        KeyboardInputSettings { paddle_up: KeyCode::KeyW, paddle_down: KeyCode::KeyS }
    }

    /// The right player's keys.
    pub fn new_second_settings() -> (keys: Self)
        ensures
            keys == second_player_keyboard(),
    {
        KeyboardInputSettings { paddle_up: KeyCode::ArrowUp, paddle_down: KeyCode::ArrowDown }
    }
}

/// The pair of gamepad buttons that moves a paddle.
#[derive(Clone, Copy, Debug, PartialEq, Eq, Structural)]
pub struct GamepadInputSettings {
    pub paddle_up: GamepadButton,
    pub paddle_down: GamepadButton,
}

impl GamepadInputSettings {
    /// Up and down on the directional pad, for either player.
    pub fn default_settings() -> (buttons: Self)
        ensures
            buttons == gamepad_settings(),
    {
        GamepadInputSettings {
            paddle_up: GamepadButton::DPadUp,
            paddle_down: GamepadButton::DPadDown,
        }
    }
}

impl Default for GamepadInputSettings {
    fn default() -> (buttons: Self)
        ensures
            buttons == gamepad_settings(),
    {
        Self::default_settings()
    }
}

} // verus!

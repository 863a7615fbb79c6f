use pong::game::player::Player;
use pong::game::resource::{ActiveGamepad, GamepadId, UserGamepad};
use pong::gamepad::{setup_gamepad_connection, GamepadConnectionEvent};

const A: GamepadId = GamepadId(11);
const B: GamepadId = GamepadId(22);
const C: GamepadId = GamepadId(33);

fn plugged(gamepad: GamepadId) -> GamepadConnectionEvent {
    GamepadConnectionEvent { gamepad, connected: true }
}

fn pulled(gamepad: GamepadId) -> GamepadConnectionEvent {
    GamepadConnectionEvent { gamepad, connected: false }
}

#[test]
fn gamepads_take_the_places_in_order() {
    let mut pads = UserGamepad::new();
    assert_eq!(pads, UserGamepad::default());
    assert_eq!(ActiveGamepad::default(), ActiveGamepad::Main);
    assert_eq!((pads.get_main(), pads.get_second()), (None, None));
    assert_eq!(pads.add_gamepad(A), Some(ActiveGamepad::Main));
    assert_eq!((pads.get_main(), pads.get_second()), (Some(A), None));
    assert_eq!(pads.add_gamepad(B), Some(ActiveGamepad::Second));
    assert_eq!((pads.get_main(), pads.get_second()), (Some(A), Some(B)));
    assert_eq!(pads.add_gamepad(C), None);
    assert_eq!((pads.get_main(), pads.get_second()), (Some(A), Some(B)));
    assert_eq!(pads.get_by_player(&Player::new_main()), Some(A));
    assert_eq!(pads.get_by_player(&Player::new_second()), Some(B));
}

#[test]
fn second_gamepad_moves_up_when_the_main_one_leaves() {
    let mut pads = UserGamepad::new();
    pads.add_gamepad(A);
    pads.add_gamepad(B);
    assert_eq!(pads.remove_gamepad(A), Some(ActiveGamepad::Second));
    assert_eq!((pads.get_main(), pads.get_second()), (Some(B), None));
    assert_eq!(pads.remove_gamepad(B), Some(ActiveGamepad::Main));
    assert_eq!((pads.get_main(), pads.get_second()), (None, None));
    assert_eq!(pads.remove_gamepad(B), None);
}

#[test]
fn second_gamepad_is_reported_and_keeps_its_place() {
    let mut pads = UserGamepad::new();
    pads.add_gamepad(A);
    pads.add_gamepad(B);
    assert_eq!(pads.remove_gamepad(B), Some(ActiveGamepad::Second));
    assert_eq!((pads.get_main(), pads.get_second()), (Some(A), Some(B)));
    assert_eq!(pads.remove_gamepad(C), None);
    assert_eq!((pads.get_main(), pads.get_second()), (Some(A), Some(B)));
}

#[test]
fn one_gamepad_in_both_places_leaves_the_main_one() {
    let mut pads = UserGamepad::new();
    pads.add_gamepad(A);
    pads.add_gamepad(A);
    assert_eq!((pads.get_main(), pads.get_second()), (Some(A), Some(A)));
    assert_eq!(pads.remove_gamepad(A), Some(ActiveGamepad::Second));
    assert_eq!((pads.get_main(), pads.get_second()), (Some(A), None));
}

#[test]
fn connection_events_are_applied_in_order() {
    let mut pads = UserGamepad::new();
    setup_gamepad_connection(&vec![plugged(A), plugged(B), pulled(A), plugged(C)], &mut pads);
    assert_eq!((pads.get_main(), pads.get_second()), (Some(B), Some(C)));
    setup_gamepad_connection(&Vec::new(), &mut pads);
    assert_eq!((pads.get_main(), pads.get_second()), (Some(B), Some(C)));
    // C keeps the second place when it leaves, and moves up when B leaves
    setup_gamepad_connection(&vec![pulled(C), pulled(B), pulled(B)], &mut pads);
    assert_eq!((pads.get_main(), pads.get_second()), (Some(C), None));
    setup_gamepad_connection(&vec![pulled(C)], &mut pads);
    assert_eq!((pads.get_main(), pads.get_second()), (None, None));
}

//! Gamepads that come and go.

use vstd::prelude::*;
use crate::game::resource::{GamepadId, UserGamepad};

verus! {

/// A gamepad was plugged in or pulled out.
#[derive(Clone, Copy, Debug, PartialEq, Eq, Structural)]
pub struct GamepadConnectionEvent {
    pub gamepad: GamepadId,
    pub connected: bool,
}

/// The places of the two players' gamepads after the given events, taken in
/// their order.
pub open spec fn slots_after(
    slots: (Option<GamepadId>, Option<GamepadId>),
    events: Seq<GamepadConnectionEvent>,
) -> (Option<GamepadId>, Option<GamepadId>)
    decreases events.len(),
{
    if events.len() == 0 {
        slots
    } else {
        let before = slots_after(slots, events.drop_last());
        if events.last().connected {
            UserGamepad::added(before, events.last().gamepad)
        } else {
            UserGamepad::removed(before, events.last().gamepad)
        }
    }
}

/// Gives a place to each gamepad that connected and takes away the one that
/// disconnected, in the order of the events.
pub fn setup_gamepad_connection(
    gamepad_event: &Vec<GamepadConnectionEvent>,
    user_gamepad: &mut UserGamepad,
)
    ensures
        final(user_gamepad).slots() == slots_after(old(user_gamepad).slots(), gamepad_event@),
{
    let mut i: usize = 0;
    while i < gamepad_event.len()
        invariant
            0 <= i <= gamepad_event.len(),
            user_gamepad.slots() == slots_after(
                old(user_gamepad).slots(),
                gamepad_event@.take(i as int),
            ),
        decreases gamepad_event.len() - i,
    {
        proof {
            assert(gamepad_event@.take(i + 1).drop_last() == gamepad_event@.take(i as int));
            assert(gamepad_event@.take(i + 1).last() == gamepad_event@[i as int]);
        }
        let event = gamepad_event[i];
        if event.connected {
            user_gamepad.add_gamepad(event.gamepad);
        } else {
            user_gamepad.remove_gamepad(event.gamepad);
        }
        i += 1;
    }
    proof {
        assert(gamepad_event@.take(gamepad_event.len() as int) == gamepad_event@);
    }
}

} // verus!

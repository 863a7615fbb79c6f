//! What a match keeps beside its bodies: the gamepads, the countdown to the
//! serve, the score and the kind of opponent.

use vstd::prelude::*;
use crate::game::player::{Player, PlayerSide, PlayerType, SecondPlayerType};

verus! {

/// The name of a connected gamepad.
#[derive(Clone, Copy, Debug, PartialEq, Eq, Structural)]
pub struct GamepadId(pub u64);

/// The gamepads of the two players. The first gamepad to connect is the main
/// player's, the next one the second player's.
#[derive(Clone, Copy, Debug, PartialEq, Eq, Structural)]
pub struct UserGamepad {
    main: Option<GamepadId>,
    second: Option<GamepadId>,
}

/// One of the two places for a gamepad.
#[derive(Clone, Copy, Debug, PartialEq, Eq, Structural)]
pub enum ActiveGamepad {
    Main,
    Second,
}

impl Default for ActiveGamepad {
    fn default() -> (place: Self)
        ensures
            place == ActiveGamepad::Main,
    {
        ActiveGamepad::Main
    }
}

impl UserGamepad {
    /// The main player's gamepad.
    pub closed spec fn main_pad(self) -> Option<GamepadId> {
        self.main
    }

    /// The second player's gamepad.
    pub closed spec fn second_pad(self) -> Option<GamepadId> {
        self.second
    }

    /// The two places: the main player's gamepad, then the second player's.
    pub open spec fn slots(self) -> (Option<GamepadId>, Option<GamepadId>) {
        (self.main_pad(), self.second_pad())
    }

    /// The places after `gamepad` connected: it takes the first free place,
    /// the main one first; with both places taken nothing changes.
    pub open spec fn added(slots: (Option<GamepadId>, Option<GamepadId>), gamepad: GamepadId) -> (
        Option<GamepadId>,
        Option<GamepadId>,
    ) {
        if slots.0 is None {
            (Some(gamepad), slots.1)
        } else if slots.1 is None {
            (slots.0, Some(gamepad))
        } else {
            slots
        }
    }

    /// The place that `gamepad` gets when it connects.
    pub open spec fn place_for(slots: (Option<GamepadId>, Option<GamepadId>)) -> Option<
        ActiveGamepad,
    > {
        if slots.0 is None {
            Some(ActiveGamepad::Main)
        } else if slots.1 is None {
            Some(ActiveGamepad::Second)
        } else {
            None
        }
    }

    /// The places after `gamepad` disconnected. Where it was the main
    /// player's, the second player's gamepad moves up. Where it was the
    /// second player's, it keeps its place. An unknown gamepad changes
    /// nothing.
    pub open spec fn removed(slots: (Option<GamepadId>, Option<GamepadId>), gamepad: GamepadId) -> (
        Option<GamepadId>,
        Option<GamepadId>,
    ) {
        if slots.0 == Some(gamepad) {
            (slots.1, None)
        } else {
            slots
        }
    }

    /// The place that is reported when `gamepad` disconnects: for the main
    /// player's gamepad the second place if a gamepad moved up from there
    /// and the main place if not, for the second player's gamepad the second
    /// place, for an unknown one none.
    pub open spec fn place_of(slots: (Option<GamepadId>, Option<GamepadId>), gamepad: GamepadId)
        -> Option<ActiveGamepad> {
        if slots.0 == Some(gamepad) {
            if slots.1 is Some {
                Some(ActiveGamepad::Second)
            } else {
                Some(ActiveGamepad::Main)
            }
        } else if slots.1 == Some(gamepad) {
            Some(ActiveGamepad::Second)
        } else {
            None
        }
    }

    /// No gamepad connected.
    pub fn new() -> (pads: Self)
        ensures
            pads.slots() == (None::<GamepadId>, None::<GamepadId>),
    {
        UserGamepad { main: None, second: None }
    }

    /// Gives the gamepad the first free place, the main one first, and says
    /// which; with both places taken nothing changes.
    pub fn add_gamepad(&mut self, gamepad: GamepadId) -> (place: Option<ActiveGamepad>)
        ensures
            final(self).slots() == Self::added(old(self).slots(), gamepad),
            place == Self::place_for(old(self).slots()),
    {
        if self.main.is_none() {
            self.main = Some(gamepad);
            Some(ActiveGamepad::Main)
        } else if self.second.is_none() {
            self.second = Some(gamepad);
            Some(ActiveGamepad::Second)
        } else {
            None
        }
    }

    /// Takes a gamepad out and says which place became free. Where the main
    /// player's gamepad leaves, the second player's, if there is one, moves
    /// up, and it is the second place that became free. The second player's
    /// gamepad is reported and keeps its place. An unknown gamepad changes
    /// nothing.
    pub fn remove_gamepad(&mut self, gamepad: GamepadId) -> (place: Option<ActiveGamepad>)
        ensures
            final(self).slots() == Self::removed(old(self).slots(), gamepad),
            place == Self::place_of(old(self).slots(), gamepad),
    {
        if self.main == Some(gamepad) {
            self.main = None;
            let removed = if self.try_move_second_to_main() {
                ActiveGamepad::Second
            } else {
                ActiveGamepad::Main
            };
            Some(removed)
        } else if self.second == Some(gamepad) {
            self.second = Some(gamepad);
            Some(ActiveGamepad::Second)
        } else {
            None
        }
    }

    /// Gives the second player's gamepad, if there is one, to the main
    /// player.
    fn try_move_second_to_main(&mut self) -> (moved: bool)
        ensures
            moved == old(self).second is Some,
            moved ==> final(self).main == old(self).second && final(self).second is None,
            !moved ==> *final(self) == *old(self),
    {
        if self.second.is_some() {
            self.main = self.second;
            self.second = None;
            true
        } else {
            false
        }
    }

    pub fn get_main(&self) -> (gamepad: Option<GamepadId>)
        ensures
            gamepad == self.main_pad(),
    {
        self.main
    }

    pub fn get_second(&self) -> (gamepad: Option<GamepadId>)
        ensures
            gamepad == self.second_pad(),
    {
        self.second
    }

    /// The gamepad of the given player.
    pub fn get_by_player(&self, player: &Player) -> (gamepad: Option<GamepadId>)
        ensures
            gamepad == (match player.side() {
                PlayerSide::Main => self.main_pad(),
                PlayerSide::Other => self.second_pad(),
            }),
    {
        match player.get_side() {
            PlayerSide::Main => self.get_main(),
            PlayerSide::Other => self.get_second(),
        }
    }
}

impl Default for UserGamepad {
    fn default() -> (pads: Self)
        ensures
            pads.slots() == (None::<GamepadId>, None::<GamepadId>),
    {
        UserGamepad { main: None, second: None }
    }
}

/// What a countdown shows: times in microseconds.
pub struct TimerView {
    pub duration: nat,
    pub elapsed: nat,
    pub finished: bool,
    pub just_finished: bool,
}

impl TimerView {
    /// What every countdown obeys: it never runs past its duration, and it
    /// has finished only at its end.
    pub open spec fn wf(self) -> bool {
        &&& self.elapsed <= self.duration
        &&& self.finished ==> self.elapsed == self.duration
        &&& self.just_finished ==> self.finished
    }

    /// The countdown after `delta` more microseconds. A countdown that has
    /// finished stays as it is, but for `just_finished`, which holds only
    /// after the tick that reached the end.
    pub open spec fn tick(self, delta: nat) -> TimerView {
        if self.finished {
            TimerView { just_finished: false, ..self }
        } else if self.elapsed + delta >= self.duration {
            TimerView {
                duration: self.duration,
                elapsed: self.duration,
                finished: true,
                just_finished: true,
            }
        } else {
            TimerView {
                duration: self.duration,
                elapsed: self.elapsed + delta,
                finished: false,
                just_finished: false,
            }
        }
    }

    /// The countdown after one tick for each entry of `deltas`.
    pub open spec fn ticks(self, deltas: Seq<u32>) -> TimerView
        decreases deltas.len(),
    {
        if deltas.len() == 0 {
            self
        } else {
            self.ticks(deltas.drop_last()).tick(deltas.last() as nat)
        }
    }

    /// The sum of `deltas`.
    pub open spec fn total(deltas: Seq<u32>) -> nat
        decreases deltas.len(),
    {
        if deltas.len() == 0 {
            0
        } else {
            Self::total(deltas.drop_last()) + deltas.last() as nat
        }
    }
}

/// A countdown that runs once: it accumulates the time it is ticked with and
/// finishes when that reaches its duration.
#[derive(Clone, Copy, Debug, PartialEq, Eq)]
pub struct Timer {
    duration: u64,
    elapsed: u64,
    finished: bool,
    just_finished: bool,
}

impl View for Timer {
    type V = TimerView;

    closed spec fn view(&self) -> TimerView {
        TimerView {
            duration: self.duration as nat,
            elapsed: self.elapsed as nat,
            finished: self.finished,
            just_finished: self.just_finished,
        }
    }
}

impl Timer {
    #[verifier::type_invariant]
    spec fn inv(self) -> bool {
        &&& self.duration <= 1_000_000 * (u32::MAX as u64)
        &&& self.elapsed <= self.duration
        &&& self.finished ==> self.elapsed == self.duration
        &&& self.just_finished ==> self.finished
    }

    /// A countdown of `seconds` seconds that has not begun.
    pub fn from_secs(seconds: u32) -> (timer: Self)
        ensures
            timer@ == (TimerView {
                duration: seconds as nat * 1_000_000,
                elapsed: 0,
                finished: false,
                just_finished: false,
            }),
    {
        Timer {
            duration: seconds as u64 * 1_000_000,
            elapsed: 0,
            finished: false,
            just_finished: false,
        }
    }

    /// Lets `delta` microseconds pass and says whether the countdown
    /// finished with them.
    pub fn tick(&mut self, delta: u32) -> (just_finished: bool)
        ensures
            final(self)@ == old(self)@.tick(delta as nat),
            just_finished == final(self)@.just_finished,
            old(self)@.wf(),
            final(self)@.wf(),
    {
        proof {
            use_type_invariant(&*self);
        }
        if self.finished {
            self.just_finished = false;
        } else if self.elapsed + delta as u64 >= self.duration {
            self.elapsed = self.duration;
            self.finished = true;
            self.just_finished = true;
        } else {
            self.elapsed = self.elapsed + delta as u64;
            self.just_finished = false;
        }
        self.just_finished
    }

    /// Whether the countdown has reached its end.
    pub fn finished(&self) -> (yes: bool)
        ensures
            yes == self@.finished,
    {
        self.finished
    }

    /// Whether the last tick reached the end.
    pub fn just_finished(&self) -> (yes: bool)
        ensures
            yes == self@.just_finished,
    {
        self.just_finished
    }

    /// The whole seconds that have passed.
    pub fn elapsed_secs(&self) -> (seconds: u32)
        ensures
            seconds == self@.elapsed / 1_000_000,
    {
        proof {
            use_type_invariant(self);
        }
        (self.elapsed / 1_000_000) as u32
    }

    /// The whole seconds that the countdown lasts.
    pub fn duration_secs(&self) -> (seconds: u32)
        ensures
            seconds == self@.duration / 1_000_000,
    {
        proof {
            use_type_invariant(self);
        }
        (self.duration / 1_000_000) as u32
    }

}

/// A countdown that is ticked with, in all, at least the time it still lacks
/// has finished.
pub proof fn lemma_countdown_expires(timer: TimerView, deltas: Seq<u32>)
    requires
        timer.wf(),
        timer.elapsed + TimerView::total(deltas) >= timer.duration,
        deltas.len() > 0,
    ensures
        timer.ticks(deltas).finished,
        timer.ticks(deltas).elapsed == timer.duration,
        timer.ticks(deltas).duration == timer.duration,
    decreases deltas.len(),
{
    lemma_ticks_accumulate(timer, deltas.drop_last());
    if deltas.len() > 1 && timer.elapsed + TimerView::total(deltas.drop_last()) >= timer.duration {
        lemma_countdown_expires(timer, deltas.drop_last());
    }
}

/// Until it finishes, a countdown holds the sum of its ticks.
pub proof fn lemma_ticks_accumulate(timer: TimerView, deltas: Seq<u32>)
    requires
        timer.wf(),
    ensures
        timer.ticks(deltas).wf(),
        timer.ticks(deltas).duration == timer.duration,
        timer.finished ==> timer.ticks(deltas).finished,
        !timer.ticks(deltas).finished ==> !timer.finished && timer.ticks(deltas).elapsed
            == timer.elapsed + TimerView::total(deltas),
        timer.ticks(deltas).finished && !timer.finished ==> timer.ticks(deltas).elapsed
            == timer.duration,
    decreases deltas.len(),
{
    if deltas.len() > 0 {
        lemma_ticks_accumulate(timer, deltas.drop_last());
    }
}

/// The countdown between the start of a point and the serve. While a match
/// holds one, the ball rests.
#[derive(Clone, Copy, Debug, PartialEq, Eq)]
pub struct StartMatchTimer(pub Timer);

impl StartMatchTimer {
    /// The seconds of the usual countdown.
    pub const SECONDS: u32 = 3;

    /// The usual countdown, not begun.
    pub fn default_timer() -> (timer: Timer)
        ensures
            timer@ == (TimerView {
                duration: 3_000_000,
                elapsed: 0,
                finished: false,
                just_finished: false,
            }),
    {
        Timer::from_secs(Self::SECONDS)
    }

    /// A countdown of `seconds` seconds, not begun.
    pub fn with_seconds(seconds: u32) -> (timer: Self)
        ensures
            timer.0@ == (TimerView {
                duration: seconds as nat * 1_000_000,
                elapsed: 0,
                finished: false,
                just_finished: false,
            }),
    {
        StartMatchTimer(Timer::from_secs(seconds))
    }

    /// The number that the countdown shows: the seconds it lasts less the
    /// whole seconds that have passed.
    pub fn remaining_secs(&self) -> (seconds: u32)
        ensures
            seconds == self.0@.duration / 1_000_000 - self.0@.elapsed / 1_000_000,
    {
        proof {
            use_type_invariant(&self.0);
            assert(self.0.elapsed / 1_000_000 <= self.0.duration / 1_000_000);
        }
        self.0.duration_secs() - self.0.elapsed_secs()
    }
}

impl Default for StartMatchTimer {
    fn default() -> (timer: Self)
        ensures
            timer.0@ == (TimerView {
                duration: 3_000_000,
                elapsed: 0,
                finished: false,
                just_finished: false,
            }),
    {
        StartMatchTimer(Self::default_timer())
    }
}

/// The points of the two seats.
#[derive(Clone, Copy, Debug, PartialEq, Eq, Structural)]
pub struct GameScore {
    main: u8,
    second: u8,
}

impl GameScore {
    /// The points of the given seat.
    pub closed spec fn points(self, side: PlayerSide) -> nat {
        match side {
            PlayerSide::Main => self.main as nat,
            PlayerSide::Other => self.second as nat,
        }
    }

    /// The seat that is ahead, if one is.
    pub open spec fn leader(self) -> Option<PlayerSide> {
        if self.points(PlayerSide::Main) > self.points(PlayerSide::Other) {
            Some(PlayerSide::Main)
        } else if self.points(PlayerSide::Main) < self.points(PlayerSide::Other) {
            Some(PlayerSide::Other)
        } else {
            None
        }
    }

    /// The points of the left seat.
    pub fn player1(&self) -> (points: u8)
        ensures
            points == self.points(PlayerSide::Main),
    {
        self.main
    }

    /// The points of the right seat.
    pub fn player2(&self) -> (points: u8)
        ensures
            points == self.points(PlayerSide::Other),
    {
        self.second
    }

    /// The seat that is ahead, if one is.
    pub fn winning_player(&self) -> (side: Option<PlayerSide>)
        ensures
            side == self.leader(),
    {
        if self.main > self.second {
            Some(PlayerSide::Main)
        } else if self.main < self.second {
            Some(PlayerSide::Other)
        } else {
            None
        }
    }

    /// Two scores with the same points are the same score.
    pub proof fn lemma_points_determine_score(self, other: GameScore)
        requires
            self.points(PlayerSide::Main) == other.points(PlayerSide::Main),
            self.points(PlayerSide::Other) == other.points(PlayerSide::Other),
        ensures
            self == other,
    {
    }
}

impl Default for GameScore {
    fn default() -> (score: Self)
        ensures
            score.points(PlayerSide::Main) == 0,
            score.points(PlayerSide::Other) == 0,
    {
        GameScore { main: 0, second: 0 }
    }
}

/// The score of a match and who scored last.
#[derive(Clone, Copy, Debug, PartialEq, Eq, Structural)]
pub struct GameActiveData {
    last_winner: Option<PlayerType>,
    score: GameScore,
}

impl GameActiveData {
    /// Who scored last.
    pub closed spec fn winner(self) -> Option<PlayerType> {
        self.last_winner
    }

    /// The points of the given seat.
    pub closed spec fn points(self, side: PlayerSide) -> nat {
        self.score.points(side)
    }

    /// The seat that a player's points are counted for: the second player
    /// and the computer share the right seat.
    pub open spec fn seat(player: PlayerType) -> PlayerSide {
        match player {
            PlayerType::Main => PlayerSide::Main,
            PlayerType::Second => PlayerSide::Other,
            PlayerType::AI => PlayerSide::Other,
        }
    }

    /// The data after a point for `player`.
    pub open spec fn scored(self, player: PlayerType, after: GameActiveData) -> bool {
        &&& after.winner() == Some(player)
        &&& after.points(Self::seat(player)) == self.points(Self::seat(player)) + 1
        &&& forall|side: PlayerSide|
            side != Self::seat(player) ==> after.points(side) == self.points(side)
    }

    /// The data of a match that begins: no points, no winner.
    pub open spec fn is_fresh(self) -> bool {
        &&& self.winner() is None
        &&& self.points(PlayerSide::Main) == 0
        &&& self.points(PlayerSide::Other) == 0
    }

    pub fn score(&self) -> (score: GameScore)
        ensures
            forall|side: PlayerSide| score.points(side) == self.points(side),
    {
        self.score
    }

    pub fn last_winner(&self) -> (winner: Option<PlayerType>)
        ensures
            winner == self.winner(),
    {
        self.last_winner
    }

    /// Counts a point for `player` and remembers the player as the last
    /// winner.
    pub fn register_point(&mut self, player: PlayerType)
        requires
            old(self).points(Self::seat(player)) < u8::MAX,
        ensures
            old(self).scored(player, *final(self)),
    {
        self.last_winner = Some(player);
        match player {
            PlayerType::Main => self.score.main += 1,
            PlayerType::Second => self.score.second += 1,
            PlayerType::AI => self.score.second += 1,
        }
    }

    /// Data with the same winner and the same points are the same data.
    pub proof fn lemma_winner_and_points_determine_data(self, other: GameActiveData)
        requires
            self.winner() == other.winner(),
            self.points(PlayerSide::Main) == other.points(PlayerSide::Main),
            self.points(PlayerSide::Other) == other.points(PlayerSide::Other),
        ensures
            self == other,
    {
        self.score.lemma_points_determine_score(other.score);
    }
}

impl Default for GameActiveData {
    fn default() -> (data: Self)
        ensures
            data.is_fresh(),
    {
        GameActiveData { last_winner: None, score: GameScore { main: 0, second: 0 } }
    }
}

/// Who takes the right seat in the next match.
#[derive(Clone, Copy, Debug, PartialEq, Eq, Structural)]
pub struct SecondPlayer {
    pub opponent: SecondPlayerType,
}

impl Default for SecondPlayer {
    fn default() -> (second: Self)
        ensures
            second.opponent == SecondPlayerType::Player,
    {
        SecondPlayer { opponent: SecondPlayerType::Player }
    }
}

} // verus!

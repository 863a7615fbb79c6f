//! The modes of the game and the states derived from them.

use vstd::prelude::*;

verus! {

/// The mode that the game is in.
#[derive(Clone, Copy, Debug, PartialEq, Eq, Hash, Structural)]
pub enum GameState {
    MainMenu,
    GameActive { playing: bool },
}

/// What the menus and keys can ask of the state machine.
#[derive(Clone, Copy, Debug, PartialEq, Eq, Structural)]
pub enum StateRequest {
    /// Start a match from the main menu.
    Play,
    /// Pause a running match, or go on with a paused one.
    TogglePause,
    /// Go on with a paused match.
    Resume,
    /// Leave a paused match for the main menu.
    ExitToMainMenu,
}

impl GameState {
    /// The mode's name.
    pub open spec fn name(self) -> Seq<char> {
        match self {
            GameState::MainMenu => "main_menu"@,
            GameState::GameActive { playing: false } => "game_active"@,
            GameState::GameActive { playing: true } => "game_active.playing"@,
        }
    }

    /// Whether `request` means something in this mode: a match starts from
    /// the menu only, pausing needs a match, and resuming or leaving need a
    /// paused one.
    pub open spec fn accepts(self, request: StateRequest) -> bool {
        match request {
            StateRequest::Play => self == GameState::MainMenu,
            StateRequest::TogglePause => self is GameActive,
            StateRequest::Resume => self == (GameState::GameActive { playing: false }),
            StateRequest::ExitToMainMenu => self == (GameState::GameActive { playing: false }),
        }
    }

    /// The mode that `request` leads to. A request that means nothing in
    /// this mode leaves it as it is.
    pub open spec fn after(self, request: StateRequest) -> GameState {
        if !self.accepts(request) {
            self
        } else {
            match request {
                StateRequest::Play => GameState::GameActive { playing: true },
                StateRequest::TogglePause => GameState::GameActive {
                    playing: !self->GameActive_playing,
                },
                StateRequest::Resume => GameState::GameActive { playing: true },
                StateRequest::ExitToMainMenu => GameState::MainMenu,
            }
        }
    }

    /// A match that is running.
    pub fn playing() -> (state: Self)
        ensures
            state == (GameState::GameActive { playing: true }),
    {
        GameState::GameActive { playing: true }
    }

    pub fn as_str(&self) -> (name: &'static str)
        ensures
            name@ == self.name(),
    {
        match *self {
            GameState::MainMenu => "main_menu",
            GameState::GameActive { playing: false } => "game_active",
            GameState::GameActive { playing: true } => "game_active.playing",
        }
    }

    /// The mode to enter next for `request`, or nothing where the request
    /// means nothing in this mode.
    pub fn request(self, request: StateRequest) -> (next: Option<GameState>)
        ensures
            next is Some <==> self.accepts(request),
            next matches Some(state) ==> state == self.after(request),
            next is None ==> self.after(request) == self,
    {
        match (request, self) {
            (StateRequest::Play, GameState::MainMenu) => Some(
                GameState::GameActive { playing: true },
            ),
            (StateRequest::TogglePause, GameState::GameActive { playing }) => Some(
                GameState::GameActive { playing: !playing },
            ),
            (StateRequest::Resume, GameState::GameActive { playing: false }) => Some(
                GameState::GameActive { playing: true },
            ),
            (StateRequest::ExitToMainMenu, GameState::GameActive { playing: false }) => Some(
                GameState::MainMenu,
            ),
            _ => None,
        }
    }
}

impl Default for GameState {
    fn default() -> (state: Self)
        ensures
            state == GameState::MainMenu,
    {
        GameState::MainMenu
    }
}

/// Whether a match runs or rests. There is no such state outside a match.
#[derive(Clone, Copy, Debug, PartialEq, Eq, Hash, Structural)]
pub enum GameActiveState {
    Playing,
    Pause,
}

impl GameActiveState {
    /// The state's name.
    pub open spec fn name(self) -> Seq<char> {
        match self {
            GameActiveState::Playing => "playing"@,
            GameActiveState::Pause => "pause"@,
        }
    }

    /// The state derived from the mode `sources`.
    pub open spec fn of(sources: GameState) -> Option<GameActiveState> {
        match sources {
            GameState::MainMenu => None,
            GameState::GameActive { playing: true } => Some(GameActiveState::Playing),
            GameState::GameActive { playing: false } => Some(GameActiveState::Pause),
        }
    }

    pub fn as_str(&self) -> (name: &'static str)
        ensures
            name@ == self.name(),
    {
        match *self {
            GameActiveState::Playing => "playing",
            GameActiveState::Pause => "pause",
        }
    }

    /// The state derived from the mode `sources`.
    pub fn compute(sources: GameState) -> (state: Option<Self>)
        ensures
            state == Self::of(sources),
    {
        match sources {
            GameState::MainMenu => None,
            GameState::GameActive { playing: true } => Some(GameActiveState::Playing),
            GameState::GameActive { playing: false } => Some(GameActiveState::Pause),
        }
    }
}

/// The state of being in a match, running or paused.
#[derive(Clone, Copy, Debug, PartialEq, Eq, Hash, Structural)]
pub struct InGame;

impl InGame {
    /// Whether the mode `sources` is a match.
    pub open spec fn of(sources: GameState) -> Option<InGame> {
        match sources {
            GameState::MainMenu => None,
            GameState::GameActive { .. } => Some(InGame),
        }
    }

    /// The state derived from the mode `sources`.
    pub fn compute(sources: GameState) -> (state: Option<Self>)
        ensures
            state == Self::of(sources),
            state is Some <==> sources is GameActive,
    {
        match sources {
            GameState::MainMenu => None,
            GameState::GameActive { playing: true } => Some(InGame),
            GameState::GameActive { playing: false } => Some(InGame),
        }
    }
}

impl Default for InGame {
    fn default() -> (state: Self)
        ensures
            state == InGame,
    {
        InGame
    }
}

/// The derived states agree with the mode: there is a running-or-paused
/// state exactly in a match, and it is `Playing` exactly while the match
/// runs.
pub proof fn lemma_derived_states_follow_the_mode(state: GameState)
    ensures
        InGame::of(state) is Some <==> state is GameActive,
        GameActiveState::of(state) is Some <==> InGame::of(state) is Some,
        GameActiveState::of(state) == Some(GameActiveState::Playing) <==> state == (
        GameState::GameActive { playing: true }),
        GameActiveState::of(state) == Some(GameActiveState::Pause) <==> state == (
        GameState::GameActive { playing: false }),
{
}

/// Pausing and resuming never leave the match, and pausing twice leads back
/// to where it began.
pub proof fn lemma_pause_stays_in_game(state: GameState)
    requires
        state is GameActive,
    ensures
        InGame::of(state.after(StateRequest::TogglePause)) == Some(InGame),
        state.after(StateRequest::TogglePause) != state,
        state.after(StateRequest::TogglePause).after(StateRequest::TogglePause) == state,
{
}

} // verus!

use vstd::prelude::*;

verus! {

/// The three screens of the game; exactly one is active at a time.
#[derive(Clone, Copy, PartialEq, Eq, Debug, Hash, Structural)]
pub enum FishWarState {
    Menu,
    Game,
    GameOver,
}

/// Why a requested change of screen was refused.
#[derive(Clone, Copy, PartialEq, Eq, Debug, Structural)]
pub enum StateError {
    /// The requested screen is the one already shown.
    AlreadyInState,
    /// The state machine has no edge from the current screen to the requested one.
    NotAllowed,
}

/// Keys the game reacts to.
#[derive(Clone, Copy, PartialEq, Eq, Debug, Structural)]
pub enum Key {
    Q,
    Escape,
    M,
    G,
    Space,
    Other,
}

/// What a key press asks the game to do.
#[derive(Clone, Copy, PartialEq, Eq, Debug, Structural)]
pub enum KeyAction {
    Nothing,
    Quit,
    Enter(FishWarState),
    UnfairAdvantage,
}

/// The edges of the state machine: Menu -> Game and Game -> GameOver when the
/// wave meter runs out, GameOver -> Menu and GameOver -> Game on a key.
pub open spec fn allowed(from: FishWarState, to: FishWarState) -> bool {
    match (from, to) {
        (FishWarState::Menu, FishWarState::Game) => true,
        (FishWarState::Game, FishWarState::GameOver) => true,
        (FishWarState::GameOver, FishWarState::Menu) => true,
        (FishWarState::GameOver, FishWarState::Game) => true,
        _ => false,
    }
}

/// The screen that follows when the wave meter reaches zero, if any.
pub open spec fn depleted_target(state: FishWarState) -> Option<FishWarState> {
    match state {
        FishWarState::Menu => Some(FishWarState::Game),
        FishWarState::Game => Some(FishWarState::GameOver),
        FishWarState::GameOver => None,
    }
}

pub open spec fn key_action_spec(state: FishWarState, key: Key) -> KeyAction {
    match (state, key) {
        (FishWarState::GameOver, Key::Q) => KeyAction::Quit,
        (FishWarState::GameOver, Key::Escape) => KeyAction::Quit,
        (FishWarState::GameOver, Key::M) => KeyAction::Enter(FishWarState::Menu),
        (FishWarState::GameOver, Key::G) => KeyAction::Enter(FishWarState::Game),
        (FishWarState::Game, Key::Space) => KeyAction::UnfairAdvantage,
        _ => KeyAction::Nothing,
    }
}

impl FishWarState {
    /// Requests a change of screen; a refused request leaves the caller's state as it was.
    pub fn transition(self, to: FishWarState) -> (r: Result<FishWarState, StateError>)
        ensures
            allowed(self, to) <==> r is Ok,
            r is Ok ==> r == Ok::<FishWarState, StateError>(to),
            self == to <==> r == Err::<FishWarState, StateError>(StateError::AlreadyInState),
            (self != to && !allowed(self, to)) <==> r == Err::<FishWarState, StateError>(
                StateError::NotAllowed,
            ),
    {
        if self == to {
            return Err(StateError::AlreadyInState);
        }
        match (self, to) {
            (FishWarState::Menu, FishWarState::Game) => Ok(to),
            (FishWarState::Game, FishWarState::GameOver) => Ok(to),
            (FishWarState::GameOver, FishWarState::Menu) => Ok(to),
            (FishWarState::GameOver, FishWarState::Game) => Ok(to),
            _ => Err(StateError::NotAllowed),
        }
    }

    /// The screen entered when the wave meter runs out while `self` is shown.
    pub fn on_depleted(self) -> (r: Option<FishWarState>)
        ensures
            r == depleted_target(self),
            r matches Some(t) ==> allowed(self, t),
    {
        match self {
            FishWarState::Menu => Some(FishWarState::Game),
            FishWarState::Game => Some(FishWarState::GameOver),
            FishWarState::GameOver => None,
        }
    }

    /// What a key press does on the current screen.
    pub fn key_action(self, key: Key) -> (r: KeyAction)
        ensures
            r == key_action_spec(self, key),
            r matches KeyAction::Enter(t) ==> allowed(self, t),
    {
        match (self, key) {
            (FishWarState::GameOver, Key::Q) => KeyAction::Quit,
            (FishWarState::GameOver, Key::Escape) => KeyAction::Quit,
            (FishWarState::GameOver, Key::M) => KeyAction::Enter(FishWarState::Menu),
            (FishWarState::GameOver, Key::G) => KeyAction::Enter(FishWarState::Game),
            (FishWarState::Game, Key::Space) => KeyAction::UnfairAdvantage,
            _ => KeyAction::Nothing,
        }
    }
}

} // verus!

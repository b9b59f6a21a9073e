//! The flow of the game: start screen, play, pause, game over.

use vstd::prelude::*;

verus! {

#[derive(Clone, Copy, Debug, PartialEq, Eq, Hash, Structural)]
pub enum GameState {
    Start,
    InGame,
    Paused,
    GameOver,
}

impl Default for GameState {
    fn default() -> (s: GameState)
        ensures
            s == GameState::Start,
    {
        GameState::Start
    }
}

/// The three keys that drive the flow. Each is true in the frame in which the
/// key went down and false while it is merely held.
#[derive(Clone, Copy, Debug, PartialEq, Eq)]
pub struct StateKeys {
    pub pause: bool,
    pub proceed: bool,
    pub quit: bool,
}

/// What the keys of one frame ask for.
#[derive(Clone, Copy, Debug, PartialEq, Eq)]
pub struct Transition {
    /// The state to enter at the start of the next frame, if any.
    pub next: Option<GameState>,
    /// Whether the program is to end.
    pub exit: bool,
}

/// The state that the keys ask for. The keys are read in the order pause,
/// proceed, quit, and a later key overrides an earlier one.
pub open spec fn requested_state(state: GameState, keys: StateKeys) -> Option<GameState> {
    if keys.quit && state == GameState::Paused {
        Some(GameState::GameOver)
    } else if keys.proceed && state == GameState::Start {
        Some(GameState::InGame)
    } else if keys.proceed && state == GameState::GameOver {
        Some(GameState::Start)
    } else if keys.pause && state == GameState::InGame {
        Some(GameState::Paused)
    } else if keys.pause && state == GameState::Paused {
        Some(GameState::InGame)
    } else {
        None
    }
}

/// Whether the keys ask for the program to end: quit on the start screen.
pub open spec fn requests_exit(state: GameState, keys: StateKeys) -> bool {
    keys.quit && state == GameState::Start
}

/// Reads the keys of one frame against the current state.
pub fn game_state_input_events(state: GameState, keys: &StateKeys) -> (t: Transition)
    ensures
        t.next == requested_state(state, *keys),
        t.exit == requests_exit(state, *keys),
{
    let mut next: Option<GameState> = None;
    let mut exit = false;
    if keys.pause {
        match state {
            GameState::InGame => {
                next = Some(GameState::Paused);
            },
            GameState::Paused => {
                next = Some(GameState::InGame);
            },
            _ => {},
        }
    }
    if keys.proceed {
        match state {
            GameState::Start => {
                next = Some(GameState::InGame);
            },
            GameState::GameOver => {
                next = Some(GameState::Start);
            },
            _ => {},
        }
    }
    if keys.quit {
        match state {
            GameState::Start => {
                exit = true;
            },
            GameState::Paused => {
                next = Some(GameState::GameOver);
            },
            _ => {},
        }
    }
    Transition { next, exit }
}

/// The state after the request of a frame has been carried out.
pub open spec fn state_after(state: GameState, next: Option<GameState>) -> GameState {
    match next {
        Some(s) => s,
        None => state,
    }
}

/// The pause key alone toggles between play and pause, and does nothing
/// elsewhere: pressed twice during play it leads back to play.
pub proof fn lemma_pause_toggles(state: GameState, keys: StateKeys)
    requires
        keys.pause,
        !keys.proceed,
        !keys.quit,
    ensures
        state == GameState::InGame ==> requested_state(state, keys) == Some(GameState::Paused),
        state == GameState::Paused ==> requested_state(state, keys) == Some(GameState::InGame),
        state == GameState::Start || state == GameState::GameOver ==> requested_state(state, keys)
            is None,
        state == GameState::InGame ==> requested_state(
            state_after(state, requested_state(state, keys)),
            keys,
        ) == Some(GameState::InGame),
        !requests_exit(state, keys),
{
}

/// The quit key ends a paused game whatever else is pressed, and ends the
/// program on the start screen only.
pub proof fn lemma_quit(state: GameState, keys: StateKeys)
    requires
        keys.quit,
    ensures
        state == GameState::Paused ==> requested_state(state, keys) == Some(GameState::GameOver),
        requests_exit(state, keys) <==> state == GameState::Start,
        state == GameState::InGame ==> requested_state(state, keys) == (if keys.pause {
            Some(GameState::Paused)
        } else {
            None::<GameState>
        }),
{
}

} // verus!

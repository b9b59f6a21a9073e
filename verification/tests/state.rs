use asteroids_sim::state::{game_state_input_events, GameState, StateKeys, Transition};

fn keys(pause: bool, proceed: bool, quit: bool) -> StateKeys {
    StateKeys { pause, proceed, quit }
}

#[test]
fn game_begins_on_the_start_screen() {
    assert_eq!(GameState::default(), GameState::Start);
}

#[test]
fn quit_while_paused_ends_the_game_not_the_program() {
    let t = game_state_input_events(GameState::Paused, &keys(false, false, true));
    assert_eq!(t, Transition { next: Some(GameState::GameOver), exit: false });
}

#[test]
fn quit_on_the_start_screen_ends_the_program() {
    let t = game_state_input_events(GameState::Start, &keys(false, false, true));
    assert_eq!(t, Transition { next: None, exit: true });
}

#[test]
fn pause_toggles_between_play_and_pause() {
    let first = game_state_input_events(GameState::InGame, &keys(true, false, false));
    assert_eq!(first, Transition { next: Some(GameState::Paused), exit: false });
    let second = game_state_input_events(GameState::Paused, &keys(true, false, false));
    assert_eq!(second, Transition { next: Some(GameState::InGame), exit: false });
}

#[test]
fn proceed_starts_and_restarts() {
    let t = game_state_input_events(GameState::Start, &keys(false, true, false));
    assert_eq!(t.next, Some(GameState::InGame));
    let t = game_state_input_events(GameState::GameOver, &keys(false, true, false));
    assert_eq!(t.next, Some(GameState::Start));
}

#[test]
fn other_keys_do_nothing() {
    let idle = Transition { next: None, exit: false };
    assert_eq!(game_state_input_events(GameState::Start, &keys(true, false, false)), idle);
    assert_eq!(game_state_input_events(GameState::GameOver, &keys(true, false, true)), idle);
    assert_eq!(game_state_input_events(GameState::InGame, &keys(false, true, true)), idle);
    assert_eq!(game_state_input_events(GameState::Paused, &keys(false, true, false)), idle);
    for state in [GameState::Start, GameState::InGame, GameState::Paused, GameState::GameOver] {
        assert_eq!(game_state_input_events(state, &keys(false, false, false)), idle);
    }
}

#[test]
fn later_key_overrides_earlier_one() {
    let t = game_state_input_events(GameState::Paused, &keys(true, false, true));
    assert_eq!(t.next, Some(GameState::GameOver));
    let t = game_state_input_events(GameState::Start, &keys(false, true, true));
    assert_eq!(t, Transition { next: Some(GameState::InGame), exit: true });
}

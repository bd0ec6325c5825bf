use chatapp::command::Command;
use chatapp::registry::WindowRegistry;
use chatapp::window::{
    close_requested, commands_of, hide_main, reveal_main, Transition, WindowState,
};

fn with_main() -> WindowRegistry {
    let mut windows = WindowRegistry::new();
    windows.register("main");
    windows
}

fn without_main() -> WindowRegistry {
    let mut windows = WindowRegistry::new();
    windows.register("settings");
    windows
}

#[test]
fn every_transition_from_every_state() {
    for state in [WindowState::Visible, WindowState::Hidden] {
        assert_eq!(state.apply(Transition::RevealRequested), WindowState::Visible);
        assert_eq!(state.apply(Transition::HideRequested), WindowState::Hidden);
        assert_eq!(state.apply(Transition::CloseRequested), WindowState::Hidden);
    }
}

#[test]
fn the_commands_of_each_transition() {
    assert_eq!(commands_of(Transition::RevealRequested), vec![Command::ShowMain]);
    assert_eq!(commands_of(Transition::HideRequested), vec![Command::HideMain]);
    assert_eq!(
        commands_of(Transition::CloseRequested),
        vec![Command::PreventClose, Command::HideMain]
    );
}

#[test]
fn revealing_a_hidden_window_shows_it() {
    let moved = reveal_main(WindowState::Hidden, &with_main()).unwrap();
    assert_eq!(moved.state, WindowState::Visible);
    assert_eq!(moved.commands, vec![Command::ShowMain]);
}

#[test]
fn revealing_a_visible_window_leaves_it_visible_without_error() {
    let moved = reveal_main(WindowState::Visible, &with_main());
    assert!(moved.is_ok());
    assert_eq!(moved.unwrap().state, WindowState::Visible);
}

#[test]
fn revealing_twice_is_revealing_once() {
    let windows = with_main();
    let once = reveal_main(WindowState::Hidden, &windows).unwrap();
    let twice = reveal_main(once.state, &windows).unwrap();
    assert_eq!(once.state, twice.state);
    assert_eq!(once.commands, twice.commands);
}

#[test]
fn hiding_a_visible_window_hides_it() {
    let moved = hide_main(WindowState::Visible, &with_main()).unwrap();
    assert_eq!(moved.state, WindowState::Hidden);
    assert_eq!(moved.commands, vec![Command::HideMain]);
}

#[test]
fn hiding_a_hidden_window_leaves_it_hidden() {
    let moved = hide_main(WindowState::Hidden, &with_main()).unwrap();
    assert_eq!(moved.state, WindowState::Hidden);
}

#[test]
fn revealing_without_a_main_window_is_an_error() {
    assert!(reveal_main(WindowState::Hidden, &without_main()).is_err());
    assert!(reveal_main(WindowState::Visible, &WindowRegistry::new()).is_err());
}

#[test]
fn hiding_without_a_main_window_is_an_error() {
    assert!(hide_main(WindowState::Visible, &without_main()).is_err());
    assert!(hide_main(WindowState::Hidden, &WindowRegistry::new()).is_err());
}

#[test]
fn closing_the_main_window_vetoes_and_hides() {
    for state in [WindowState::Visible, WindowState::Hidden] {
        let moved = close_requested(state, "main");
        assert_eq!(moved.state, WindowState::Hidden);
        assert_eq!(moved.commands, vec![Command::PreventClose, Command::HideMain]);
    }
}

#[test]
fn closing_another_window_does_nothing() {
    for state in [WindowState::Visible, WindowState::Hidden] {
        for label in ["settings", "Main", "main ", ""] {
            let moved = close_requested(state, label);
            assert_eq!(moved.state, state);
            assert!(moved.commands.is_empty());
        }
    }
}

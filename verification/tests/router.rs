use chatapp::action::Action;
use chatapp::command::{Command, WindowNotFoundError};
use chatapp::registry::WindowRegistry;
use chatapp::router::{
    dispatch, perform, route_menu, route_tray, route_window, Event, MouseButton, Shell, TrayInput,
    WindowInput,
};
use chatapp::window::WindowState;

fn with_main() -> WindowRegistry {
    let mut windows = WindowRegistry::new();
    windows.register("main");
    windows.register("settings");
    windows
}

fn shells() -> [Shell; 4] {
    [
        Shell { main: WindowState::Visible, checked: true },
        Shell { main: WindowState::Visible, checked: false },
        Shell { main: WindowState::Hidden, checked: true },
        Shell { main: WindowState::Hidden, checked: false },
    ]
}

#[test]
fn the_shell_starts_visible_and_checked() {
    assert_eq!(Shell::new(), Shell { main: WindowState::Visible, checked: true });
}

#[test]
fn open_while_visible_stays_visible() {
    let shell = Shell::new();
    let out = route_menu(shell, "open", &with_main());
    assert_eq!(out.shell, shell);
    assert_eq!(out.commands, vec![Command::ShowMain]);
}

#[test]
fn open_close_and_tray_click_in_turn() {
    let windows = with_main();
    let shell = Shell::new();

    let out = dispatch(shell, &Event::Menu { id: String::from("open") }, &windows);
    assert_eq!(out.shell.main, WindowState::Visible);

    let close = Event::Window { label: String::from("main"), input: WindowInput::CloseRequested };
    let out = dispatch(out.shell, &close, &windows);
    assert_eq!(out.shell.main, WindowState::Hidden);
    assert_eq!(out.commands, vec![Command::PreventClose, Command::HideMain]);

    let click = Event::Tray { gesture: TrayInput::Click(MouseButton::Right) };
    let out = dispatch(out.shell, &click, &windows);
    assert_eq!(out.shell.main, WindowState::Visible);
    assert_eq!(out.commands, vec![Command::ShowMain]);
    assert!(out.shell.checked);
}

#[test]
fn closing_the_main_window_hides_it_and_is_vetoed() {
    for shell in shells() {
        let out = route_window(shell, "main", WindowInput::CloseRequested);
        assert_eq!(out.shell, Shell { main: WindowState::Hidden, checked: shell.checked });
        assert!(out.commands.contains(&Command::PreventClose));
        assert_eq!(out.commands, vec![Command::PreventClose, Command::HideMain]);
    }
}

#[test]
fn closing_another_window_is_left_to_the_toolkit() {
    for shell in shells() {
        let out = route_window(shell, "settings", WindowInput::CloseRequested);
        assert_eq!(out.shell, shell);
        assert!(out.commands.is_empty());
    }
}

#[test]
fn other_window_events_do_nothing() {
    for shell in shells() {
        for label in ["main", "settings"] {
            let out = route_window(shell, label, WindowInput::Other);
            assert_eq!(out.shell, shell);
            assert!(out.commands.is_empty());
        }
    }
}

#[test]
fn an_unknown_tag_changes_nothing() {
    for shell in shells() {
        for windows in [with_main(), WindowRegistry::new()] {
            let out = route_menu(shell, "frobnicate", &windows);
            assert_eq!(out.shell, shell);
            assert!(out.commands.is_empty());
        }
    }
}

#[test]
fn the_reserved_tags_change_nothing() {
    for shell in shells() {
        for tag in ["save", "saveas", "process"] {
            let out = route_menu(shell, tag, &with_main());
            assert_eq!(out.shell, shell);
            assert!(out.commands.is_empty());
        }
    }
}

#[test]
fn hide_from_the_tray_menu_hides_the_main_window() {
    let out = route_menu(Shell::new(), "hide", &with_main());
    assert_eq!(out.shell, Shell { main: WindowState::Hidden, checked: true });
    assert_eq!(out.commands, vec![Command::HideMain]);
}

#[test]
fn open_reveals_a_hidden_main_window() {
    let hidden = Shell { main: WindowState::Hidden, checked: false };
    let out = route_menu(hidden, "open", &with_main());
    assert_eq!(out.shell, Shell { main: WindowState::Visible, checked: false });
    assert_eq!(out.commands, vec![Command::ShowMain]);
}

#[test]
fn checkme_flips_the_state_and_sets_the_mark_to_it() {
    let out = route_menu(Shell::new(), "checkme", &with_main());
    assert_eq!(out.shell, Shell { main: WindowState::Visible, checked: false });
    assert_eq!(out.commands, vec![Command::SetChecked(false)]);

    let out = route_menu(out.shell, "checkme", &with_main());
    assert_eq!(out.shell, Shell { main: WindowState::Visible, checked: true });
    assert_eq!(out.commands, vec![Command::SetChecked(true)]);
}

#[test]
fn checkme_needs_no_main_window() {
    let hidden = Shell { main: WindowState::Hidden, checked: true };
    let out = route_menu(hidden, "checkme", &WindowRegistry::new());
    assert_eq!(out.shell, Shell { main: WindowState::Hidden, checked: false });
    assert_eq!(out.commands, vec![Command::SetChecked(false)]);
}

#[test]
fn a_missing_main_window_is_reported_and_the_event_dropped() {
    let windows = WindowRegistry::new();
    let report = vec![Command::Report(WindowNotFoundError)];
    for shell in shells() {
        let out = route_menu(shell, "open", &windows);
        assert_eq!(out.shell, shell);
        assert_eq!(out.commands, report);

        let out = route_menu(shell, "hide", &windows);
        assert_eq!(out.shell, shell);
        assert_eq!(out.commands, report);

        let out = route_tray(shell, TrayInput::Click(MouseButton::Right), &windows);
        assert_eq!(out.shell, shell);
        assert_eq!(out.commands, report);
    }
}

#[test]
fn only_a_right_click_on_the_tray_reveals() {
    let hidden = Shell { main: WindowState::Hidden, checked: true };
    let quiet = [
        TrayInput::Click(MouseButton::Left),
        TrayInput::Click(MouseButton::Middle),
        TrayInput::DoubleClick(MouseButton::Left),
        TrayInput::DoubleClick(MouseButton::Right),
        TrayInput::DoubleClick(MouseButton::Middle),
        TrayInput::Hover,
    ];
    for input in quiet {
        let out = route_tray(hidden, input, &with_main());
        assert_eq!(out.shell, hidden);
        assert!(out.commands.is_empty());
    }
    let out = route_tray(hidden, TrayInput::Click(MouseButton::Right), &with_main());
    assert_eq!(out.shell.main, WindowState::Visible);
    assert_eq!(out.commands, vec![Command::ShowMain]);
}

#[test]
fn perform_agrees_with_route_menu() {
    let actions = [
        (Action::Open, "open"),
        (Action::Hide, "hide"),
        (Action::Save, "save"),
        (Action::SaveAs, "saveas"),
        (Action::Process, "process"),
        (Action::CheckMe, "checkme"),
        (Action::Unknown, "frobnicate"),
    ];
    for shell in shells() {
        for (action, tag) in actions {
            for windows in [with_main(), WindowRegistry::new()] {
                assert_eq!(perform(shell, action, &windows), route_menu(shell, tag, &windows));
            }
        }
    }
}

#[test]
fn dispatch_agrees_with_the_routes() {
    let windows = with_main();
    for shell in shells() {
        let menu = Event::Menu { id: String::from("hide") };
        assert_eq!(dispatch(shell, &menu, &windows), route_menu(shell, "hide", &windows));

        let tray = Event::Tray { gesture: TrayInput::Click(MouseButton::Right) };
        assert_eq!(
            dispatch(shell, &tray, &windows),
            route_tray(shell, TrayInput::Click(MouseButton::Right), &windows)
        );

        let window =
            Event::Window { label: String::from("main"), input: WindowInput::CloseRequested };
        assert_eq!(
            dispatch(shell, &window, &windows),
            route_window(shell, "main", WindowInput::CloseRequested)
        );
    }
}

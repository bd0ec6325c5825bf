//! The single point through which menu, tray and window events pass.
//!
//! The toolkit delivers one event at a time. For each, the router decides the
//! next state of the shell and the commands for the toolkit, and nothing else:
//! it does not block, it does not fail, and it does not touch the toolkit. An
//! event that asks for the main window while that window cannot be found is
//! dropped, with a report in place of the commands.

use crate::action::Action;
use crate::command::{Command, WindowNotFoundError};
use crate::registry::{WindowRegistry, MAIN_LABEL};
use crate::window::{
    allows_close, close_requested, commands_for, hide_main, reveal_main, Transition, WindowState,
};
use vstd::prelude::*;

verus! {

/// What the router keeps between events.
#[derive(Clone, Copy, Debug, PartialEq, Eq, Structural)]
pub struct Shell {
    /// The state of the main window.
    pub main: WindowState,
    /// The state behind the checkable menu item.
    pub checked: bool,
}

/// A mouse button on the tray icon.
#[derive(Clone, Copy, Debug, PartialEq, Eq, Structural)]
pub enum MouseButton {
    Left,
    Right,
    Middle,
}

/// What happened to the tray icon.
#[derive(Clone, Copy, Debug, PartialEq, Eq, Structural)]
pub enum TrayInput {
    /// A single click with this button.
    Click(MouseButton),
    /// A double click with this button.
    DoubleClick(MouseButton),
    /// The pointer entered, moved over or left the icon.
    Hover,
}

/// What happened to a window.
#[derive(Clone, Copy, Debug, PartialEq, Eq, Structural)]
pub enum WindowInput {
    /// The operating system asks to close the window.
    CloseRequested,
    /// Anything else: moved, resized, focused and so on.
    Other,
}

/// One event, as the toolkit delivers it.
#[derive(Clone, Debug, PartialEq, Eq)]
pub enum Event {
    /// An item of the application menu or of the tray menu was chosen; `id` is
    /// the item's tag.
    Menu { id: String },
    /// The tray icon itself was clicked or hovered.
    Tray { gesture: TrayInput },
    /// The window labelled `label` reports `input`.
    Window { label: String, input: WindowInput },
}

/// What the router decided for one event.
#[derive(Clone, Debug, PartialEq, Eq)]
pub struct Outcome {
    /// The state of the shell after the event.
    pub shell: Shell,
    /// What the toolkit must do, in order.
    pub commands: Vec<Command>,
}

/// The shell after the main window was asked for `transition`, and the
/// commands that go with it. Without a main window the event is dropped: the
/// state stays and the only command is the report.
pub open spec fn move_main(shell: Shell, transition: Transition, main_found: bool) -> (
    Shell,
    Seq<Command>,
) {
    if main_found {
        (Shell { main: shell.main.after(transition), checked: shell.checked }, commands_for(transition))
    } else {
        (shell, seq![Command::Report(WindowNotFoundError)])
    }
}

/// What `action` does to the shell.
///
/// The reserved actions and `Unknown` do nothing. `CheckMe` flips the state
/// behind the checkable item and sets the item's mark to the new state in the
/// same step; whatever comes to depend on the toggle reads it from
/// [`Shell::checked`].
pub open spec fn action_step(shell: Shell, action: Action, main_found: bool) -> (
    Shell,
    Seq<Command>,
) {
    match action {
        Action::Open => move_main(shell, Transition::RevealRequested, main_found),
        Action::Hide => move_main(shell, Transition::HideRequested, main_found),
        Action::CheckMe => (
            Shell { main: shell.main, checked: !shell.checked },
            seq![Command::SetChecked(!shell.checked)],
        ),
        Action::Save | Action::SaveAs | Action::Process | Action::Unknown => (shell, seq![]),
    }
}

/// What choosing the menu item tagged `id` does to the shell.
pub open spec fn menu_step(shell: Shell, id: Seq<char>, main_found: bool) -> (Shell, Seq<Command>) {
    action_step(shell, Action::of(id), main_found)
}

/// What an event on the tray icon does to the shell: a right click reveals
/// the main window, everything else is left to the toolkit.
pub open spec fn tray_step(shell: Shell, input: TrayInput, main_found: bool) -> (
    Shell,
    Seq<Command>,
) {
    if input == TrayInput::Click(MouseButton::Right) {
        move_main(shell, Transition::RevealRequested, main_found)
    } else {
        (shell, seq![])
    }
}

/// What an event of the window labelled `label` does to the shell: a close
/// request on the main window hides it, everything else is left to the
/// toolkit.
pub open spec fn window_step(shell: Shell, label: Seq<char>, input: WindowInput) -> (
    Shell,
    Seq<Command>,
) {
    if input == WindowInput::CloseRequested && label == MAIN_LABEL@ {
        (
            Shell { main: shell.main.after(Transition::CloseRequested), checked: shell.checked },
            commands_for(Transition::CloseRequested),
        )
    } else {
        (shell, seq![])
    }
}

/// What `event` does to the shell, given whether the main window exists.
pub open spec fn step(shell: Shell, event: Event, main_found: bool) -> (Shell, Seq<Command>) {
    match event {
        Event::Menu { id } => menu_step(shell, id@, main_found),
        Event::Tray { gesture } => tray_step(shell, gesture, main_found),
        Event::Window { label, input } => window_step(shell, label@, input),
    }
}

impl Shell {
    /// The shell at startup: the main window has just been created and is
    /// shown, and the checkable item is checked.
    pub open spec fn initial() -> Shell {
        Shell { main: WindowState::initial(), checked: true }
    }

    /// The shell at startup.
    pub fn new() -> (shell: Shell)
        ensures
            shell == Shell::initial(),
    {
        Shell { main: WindowState::Visible, checked: true }
    }
}

/// Asks the main window for a reveal or a hide and turns a missing window
/// into a report.
fn request(shell: Shell, transition: Transition, windows: &WindowRegistry) -> (out: Outcome)
    requires
        transition != Transition::CloseRequested,
    ensures
        (out.shell, out.commands@) == move_main(shell, transition, windows.has(MAIN_LABEL@)),
{
    let moved = match transition {
        Transition::RevealRequested => reveal_main(shell.main, windows),
        _ => hide_main(shell.main, windows),
    };
    match moved {
        Ok(m) => Outcome { shell: Shell { main: m.state, checked: shell.checked }, commands: m.commands },
        Err(e) => {
            let mut commands: Vec<Command> = Vec::new();
            commands.push(Command::Report(e));
            Outcome { shell, commands }
        },
    }
}

/// Carries out a decoded action.
pub fn perform(shell: Shell, action: Action, windows: &WindowRegistry) -> (out: Outcome)
    ensures
        (out.shell, out.commands@) == action_step(shell, action, windows.has(MAIN_LABEL@)),
{
    match action {
        Action::Open => request(shell, Transition::RevealRequested, windows),
        Action::Hide => request(shell, Transition::HideRequested, windows),
        Action::CheckMe => {
            let checked = !shell.checked;
            let mut commands: Vec<Command> = Vec::new();
            commands.push(Command::SetChecked(checked));
            Outcome { shell: Shell { main: shell.main, checked }, commands }
        },
        Action::Save | Action::SaveAs | Action::Process | Action::Unknown => Outcome {
            shell,
            commands: Vec::new(),
        },
    }
}

/// Handles the choice of the menu item tagged `id`, from the application menu
/// or the tray menu.
pub fn route_menu(shell: Shell, id: &str, windows: &WindowRegistry) -> (out: Outcome)
    ensures
        (out.shell, out.commands@) == menu_step(shell, id@, windows.has(MAIN_LABEL@)),
{
    perform(shell, Action::decode(id), windows)
}

/// Handles an event on the tray icon.
pub fn route_tray(shell: Shell, input: TrayInput, windows: &WindowRegistry) -> (out: Outcome)
    ensures
        (out.shell, out.commands@) == tray_step(shell, input, windows.has(MAIN_LABEL@)),
{
    match input {
        TrayInput::Click(MouseButton::Right) => request(shell, Transition::RevealRequested, windows),
        _ => Outcome { shell, commands: Vec::new() },
    }
}

/// Handles an event of the window labelled `label`.
pub fn route_window(shell: Shell, label: &str, input: WindowInput) -> (out: Outcome)
    ensures
        (out.shell, out.commands@) == window_step(shell, label@, input),
{
    match input {
        WindowInput::CloseRequested => {
            let moved = close_requested(shell.main, label);
            Outcome {
                shell: Shell { main: moved.state, checked: shell.checked },
                commands: moved.commands,
            }
        },
        WindowInput::Other => Outcome { shell, commands: Vec::new() },
    }
}

/// Handles one event of any kind.
pub fn dispatch(shell: Shell, event: &Event, windows: &WindowRegistry) -> (out: Outcome)
    ensures
        (out.shell, out.commands@) == step(shell, *event, windows.has(MAIN_LABEL@)),
{
    match event {
        Event::Menu { id } => route_menu(shell, id.as_str(), windows),
        Event::Tray { gesture } => route_tray(shell, *gesture, windows),
        Event::Window { label, input } => route_window(shell, label.as_str(), *input),
    }
}

/// A tag that stands for no action changes nothing and asks for nothing,
/// whether or not the main window exists.
pub proof fn law_unknown_tag_changes_nothing(shell: Shell, id: Seq<char>, main_found: bool)
    requires
        Action::of(id) == Action::Unknown,
    ensures
        menu_step(shell, id, main_found) == (shell, Seq::<Command>::empty()),
{
}

/// The reserved actions can be dispatched, and do nothing.
pub proof fn law_reserved_actions_do_nothing(shell: Shell, action: Action, main_found: bool)
    requires
        action == Action::Save || action == Action::SaveAs || action == Action::Process,
    ensures
        action_step(shell, action, main_found) == (shell, Seq::<Command>::empty()),
{
}

/// Asking for the main window while it is visible leaves the shell as it is,
/// from the menu and from the tray alike, and reports nothing when the window
/// exists.
pub proof fn law_reveal_keeps_visible(shell: Shell, main_found: bool)
    requires
        shell.main == WindowState::Visible,
    ensures
        action_step(shell, Action::Open, main_found).0 == shell,
        tray_step(shell, TrayInput::Click(MouseButton::Right), main_found).0 == shell,
        main_found ==> action_step(shell, Action::Open, main_found).1 == seq![Command::ShowMain],
        main_found ==> tray_step(shell, TrayInput::Click(MouseButton::Right), main_found).1
            == seq![Command::ShowMain],
{
}

/// A close request on the main window leaves it hidden, whatever it was, and
/// is always vetoed: the main window is not destroyed. The checkable item is
/// not touched.
pub proof fn law_close_on_main_hides(shell: Shell)
    ensures
        window_step(shell, MAIN_LABEL@, WindowInput::CloseRequested).0 == (Shell {
            main: WindowState::Hidden,
            checked: shell.checked,
        }),
        !allows_close(window_step(shell, MAIN_LABEL@, WindowInput::CloseRequested).1),
{
}

/// A close request on any other window is left to the toolkit, which destroys
/// that window; the shell, and with it the main window, stays as it is.
pub proof fn law_close_elsewhere_is_default(shell: Shell, label: Seq<char>)
    requires
        label != MAIN_LABEL@,
    ensures
        window_step(shell, label, WindowInput::CloseRequested) == (shell, Seq::<Command>::empty()),
        allows_close(window_step(shell, label, WindowInput::CloseRequested).1),
{
}

/// A report is the whole answer to an event or no part of it, and it is given
/// only when the main window is missing. The shell then stays as it is.
pub proof fn law_report_means_dropped(shell: Shell, event: Event, main_found: bool)
    requires
        step(shell, event, main_found).1.contains(Command::Report(WindowNotFoundError)),
    ensures
        !main_found,
        step(shell, event, main_found) == (shell, seq![Command::Report(WindowNotFoundError)]),
{
}

/// The mark on the checkable item never parts from the state behind it: a
/// command that sets the mark sets it to the new state, and every change of
/// the state comes with exactly that command.
pub proof fn law_mark_follows_state(shell: Shell, event: Event, main_found: bool, mark: bool)
    ensures
        step(shell, event, main_found).1.contains(Command::SetChecked(mark)) ==> mark == step(
            shell,
            event,
            main_found,
        ).0.checked,
        step(shell, event, main_found).0.checked != shell.checked ==> step(
            shell,
            event,
            main_found,
        ).1 == seq![Command::SetChecked(!shell.checked)],
{
}

} // verus!

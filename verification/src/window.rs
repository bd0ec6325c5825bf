//! The life of the main window: it is shown, it is hidden, and a request to
//! close it hides it instead of destroying it.

use crate::command::{Command, WindowNotFoundError};
use crate::registry::{WindowRegistry, MAIN_LABEL};
use crate::text::same_text;
use vstd::prelude::*;

verus! {

/// Whether the main window is on screen.
#[derive(Clone, Copy, Debug, PartialEq, Eq, Structural)]
pub enum WindowState {
    /// The window is shown. This is its state when it is created.
    Visible,
    /// The window exists and is not shown.
    Hidden,
}

/// What can be asked of the main window.
#[derive(Clone, Copy, Debug, PartialEq, Eq, Structural)]
pub enum Transition {
    /// The operating system asks to close the window.
    CloseRequested,
    /// A menu item or the tray icon asks for the window.
    RevealRequested,
    /// A tray item asks to put the window away.
    HideRequested,
}

impl WindowState {
    /// The state of the main window when it has just been created.
    pub open spec fn initial() -> WindowState {
        WindowState::Visible
    }

    /// The state after `transition`.
    ///
    /// Revealing ends visible and hiding ends hidden, whatever the state was.
    /// A close request is treated as a request to hide.
    pub open spec fn after(self, transition: Transition) -> WindowState {
        match transition {
            Transition::RevealRequested => WindowState::Visible,
            Transition::HideRequested => WindowState::Hidden,
            Transition::CloseRequested => WindowState::Hidden,
        }
    }

    /// Takes one transition.
    pub fn apply(self, transition: Transition) -> (next: WindowState)
        ensures
            next == self.after(transition),
    {
        match transition {
            Transition::RevealRequested => WindowState::Visible,
            Transition::HideRequested => WindowState::Hidden,
            Transition::CloseRequested => WindowState::Hidden,
        }
    }
}

/// What the toolkit must do to carry `transition` out, in order.
///
/// A close request is vetoed first and the window hidden after.
pub open spec fn commands_for(transition: Transition) -> Seq<Command> {
    match transition {
        Transition::RevealRequested => seq![Command::ShowMain],
        Transition::HideRequested => seq![Command::HideMain],
        Transition::CloseRequested => seq![Command::PreventClose, Command::HideMain],
    }
}

/// Whether a list of commands lets the close request go through, which
/// destroys the window.
pub open spec fn allows_close(commands: Seq<Command>) -> bool {
    !commands.contains(Command::PreventClose)
}

/// The commands of one transition.
pub fn commands_of(transition: Transition) -> (commands: Vec<Command>)
    ensures
        commands@ == commands_for(transition),
{
    let mut commands: Vec<Command> = Vec::new();
    match transition {
        Transition::RevealRequested => {
            commands.push(Command::ShowMain);
        },
        Transition::HideRequested => {
            commands.push(Command::HideMain);
        },
        Transition::CloseRequested => {
            commands.push(Command::PreventClose);
            commands.push(Command::HideMain);
        },
    }
    commands
}

/// A new window state, and what the toolkit must do to get there.
#[derive(Clone, Debug, PartialEq, Eq)]
pub struct Move {
    pub state: WindowState,
    pub commands: Vec<Command>,
}

/// Reveals the main window.
///
/// When the window exists it ends visible, whether it was visible before or
/// not, and the toolkit is told to show it; showing a window that is shown
/// already changes nothing there. When no window carries the main label,
/// nothing is decided and the error is returned.
pub fn reveal_main(state: WindowState, windows: &WindowRegistry) -> (moved: Result<
    Move,
    WindowNotFoundError,
>)
    ensures
        (match moved {
            Ok(m) => windows.has(MAIN_LABEL@) && m.state == WindowState::Visible && m.commands@
                == seq![Command::ShowMain],
            Err(_) => !windows.has(MAIN_LABEL@),
        }),
{
    if windows.contains(MAIN_LABEL) {
        Ok(
            Move {
                state: state.apply(Transition::RevealRequested),
                commands: commands_of(Transition::RevealRequested),
            },
        )
    } else {
        Err(WindowNotFoundError)
    }
}

/// Hides the main window.
///
/// When the window exists it ends hidden and the toolkit is told to hide it.
/// When no window carries the main label, nothing is decided and the error is
/// returned.
pub fn hide_main(state: WindowState, windows: &WindowRegistry) -> (moved: Result<
    Move,
    WindowNotFoundError,
>)
    ensures
        (match moved {
            Ok(m) => windows.has(MAIN_LABEL@) && m.state == WindowState::Hidden && m.commands@
                == seq![Command::HideMain],
            Err(_) => !windows.has(MAIN_LABEL@),
        }),
{
    if windows.contains(MAIN_LABEL) {
        Ok(
            Move {
                state: state.apply(Transition::HideRequested),
                commands: commands_of(Transition::HideRequested),
            },
        )
    } else {
        Err(WindowNotFoundError)
    }
}

/// Answers a request to close the window labelled `label`, given the state of
/// the main window.
///
/// For the main window the close is vetoed and the window hidden. For any
/// other window nothing is done: the toolkit goes on to destroy it, and the
/// main window stays as it is.
pub fn close_requested(state: WindowState, label: &str) -> (moved: Move)
    ensures
        label@ == MAIN_LABEL@ ==> moved.state == WindowState::Hidden && moved.commands@
            == seq![Command::PreventClose, Command::HideMain],
        label@ != MAIN_LABEL@ ==> moved.state == state && moved.commands@ == Seq::<
            Command,
        >::empty(),
{
    if same_text(label, MAIN_LABEL) {
        Move {
            state: state.apply(Transition::CloseRequested),
            commands: commands_of(Transition::CloseRequested),
        }
    } else {
        Move { state, commands: Vec::new() }
    }
}

/// Revealing a window that is already visible leaves it visible, and revealing
/// twice is the same as revealing once.
pub proof fn law_reveal_is_idempotent(state: WindowState)
    ensures
        WindowState::Visible.after(Transition::RevealRequested) == WindowState::Visible,
        state.after(Transition::RevealRequested).after(Transition::RevealRequested) == state.after(
            Transition::RevealRequested,
        ),
{
}

/// A close request on the main window ends hidden from any state, and its
/// commands never let the close go through.
pub proof fn law_close_hides_and_keeps(state: WindowState)
    ensures
        state.after(Transition::CloseRequested) == WindowState::Hidden,
        !allows_close(commands_for(Transition::CloseRequested)),
{
}

/// Only a close request is ever vetoed.
pub proof fn law_only_close_is_vetoed(transition: Transition)
    ensures
        !allows_close(commands_for(transition)) <==> transition == Transition::CloseRequested,
{
}

} // verus!

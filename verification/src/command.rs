//! What the core asks the toolkit to do.

use vstd::prelude::*;

verus! {

/// The main window was looked up by its label and is not there.
#[derive(Clone, Copy, Debug, PartialEq, Eq, Structural)]
pub struct WindowNotFoundError;

/// One instruction to the program around the core. The core decides; the
/// program carries the decision out on the toolkit.
#[derive(Clone, Copy, Debug, PartialEq, Eq, Structural)]
pub enum Command {
    /// Show the main window.
    ShowMain,
    /// Hide the main window.
    HideMain,
    /// Veto the close request being handled, so that the window is not destroyed.
    PreventClose,
    /// Set the checkable item's mark to this value.
    SetChecked(bool),
    /// Report that the main window was not found. The event that asked for it
    /// is dropped.
    Report(WindowNotFoundError),
}

} // verus!

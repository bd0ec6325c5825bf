//! The state of the application: the configuration cell and the shell.
//!
//! The state is one owned value. Whoever runs the event loop holds it, hands
//! it each event in turn, and carries out the commands that come back.

use crate::command::Command;
use crate::config::{ConfigCell, ConfigLoadError, ConfigSource, Snapshot};
use crate::registry::{WindowRegistry, MAIN_LABEL};
use crate::router::{dispatch, step, Event, Shell};
use vstd::prelude::*;

verus! {

/// Everything the application shares between its event handlers.
pub struct AppState {
    /// The current configuration.
    pub config: ConfigCell,
    /// The main window and the checkable menu item.
    pub shell: Shell,
}

impl AppState {
    /// The configuration cell is in order.
    pub open spec fn wf(&self) -> bool {
        self.config.wf()
    }

    /// The state at startup, around the configuration that was loaded.
    pub fn new(initial: Snapshot) -> (state: AppState)
        ensures
            state.wf(),
            state.config.history() == seq![initial@],
            state.shell == Shell::initial(),
    {
        AppState { config: ConfigCell::new(initial), shell: Shell::new() }
    }

    /// Starts up from what the configuration source returned.
    ///
    /// There is no state without a configuration: a missing or malformed
    /// source ends startup with the matching error.
    pub fn try_new(source: ConfigSource) -> (made: Result<AppState, ConfigLoadError>)
        ensures
            (match source {
                ConfigSource::Missing => made matches Err(e) && e == ConfigLoadError::Missing,
                ConfigSource::Malformed => made matches Err(e) && e == ConfigLoadError::Malformed,
                ConfigSource::Loaded(bytes) => made matches Ok(state) && state.wf()
                    && state.config.history() == seq![bytes@] && state.shell == Shell::initial(),
            }),
    {
        match Snapshot::try_load(source) {
            Ok(initial) => Ok(AppState::new(initial)),
            Err(e) => Err(e),
        }
    }

    /// Takes one event: moves the shell on and returns what the toolkit must
    /// do. No event changes the configuration.
    pub fn handle(&mut self, event: &Event, windows: &WindowRegistry) -> (commands: Vec<Command>)
        ensures
            (final(self).shell, commands@) == step(
                old(self).shell,
                *event,
                windows.has(MAIN_LABEL@),
            ),
            final(self).config == old(self).config,
    {
        let out = dispatch(self.shell, event, windows);
        self.shell = out.shell;
        out.commands
    }
}

} // verus!

//! The state-coordination core of a desktop application shell.
//!
//! The shell owns one top-level window labelled `"main"`, a tray icon, an
//! application menu and a hot-swappable configuration snapshot. This crate
//! holds the part that decides: which action a menu or tray identifier stands
//! for, how the main window moves between visible and hidden, what the toolkit
//! is told to do in response to an event, and which snapshot a configuration
//! cell currently holds. Drawing windows, building widgets and reading the
//! configuration from disk belong to the program around it.

pub mod action;
pub mod command;
pub mod config;
pub mod menu;
pub mod registry;
pub mod router;
pub mod state;
pub mod text;
pub mod window;

pub use crate::state::AppState;

//! Core logic of a tray-resident desktop shell.
//!
//! The shell wires a webview UI to OS capabilities: reading files and
//! directories for the UI, a screenshot output directory with a best-effort
//! PNG cleanup at quit, a system tray whose menu drives the window, and a
//! global hotkey that toggles picture-in-picture mode. Everything the shell
//! decides — which directory entries to report, which files the cleanup
//! deletes, how a tray event maps to window operations, when the hotkey
//! fires — lives here as verified functions over plain values. The process
//! boundary (filesystem calls, window handles, the keyboard hook) stays in
//! the surrounding binary, which feeds results of those calls into this
//! crate and carries out the operations it returns.

pub mod cleanup;
pub mod files;
pub mod hotkey;
pub mod listing;
pub mod messages;
pub mod state;
pub mod tray;

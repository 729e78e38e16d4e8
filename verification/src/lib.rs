//! Kairo: the timer state machine of a local-first focus timer, with the
//! snapshot, tray, window and persistence decisions built on top of it.

pub mod clock;
pub mod models;
pub mod snapshot;
pub mod state;
pub mod engine;
mod ids;
pub mod laws;
pub mod windows;
pub mod text;
pub mod tray;
pub mod persistence;
pub mod lifecycle;
pub mod kde;
pub mod notifications;

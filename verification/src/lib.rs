//! Behavioural core of a tray-icon application shell.
//!
//! One hideable window and one tray icon are coordinated by pure decision
//! functions: every inbound platform event is mapped to the sequence of
//! commands that the surrounding runtime has to carry out. The window's
//! visibility is never cached here; each decision takes a fresh reading.

pub mod command;
pub mod event;
pub mod window;
pub mod menu;
pub mod visibility;
pub mod tray;
pub mod lifecycle;
pub mod laws;

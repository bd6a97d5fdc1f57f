//! Menu navigation and run-status tracking for a small terminal dashboard.
//!
//! The library holds the state of the menu (its items, the highlighted item
//! and the outcome of each item's last run) and decides what every key press
//! does to it. Drawing the menu and running outside commands are left to the
//! program that drives it: it performs the [`Effect`] that a key press
//! returns and reports the outcome back.

pub mod laws;
pub mod menu;
pub mod status;

pub use menu::{App, AppView, Effect, EffectView, Key, KeyPress, StatusError};
pub use status::{RunStatus, RunStatusView, UpdateOutcome};

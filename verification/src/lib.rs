//! Core of a background eye-break reminder.
//!
//! The library holds the logic that is worth stating precisely: the
//! user-adjustable configuration record and the read-modify-write protocol
//! that keeps concurrent edits from clobbering each other, the reminder
//! scheduler's phase machine and its cadence, the notification handle
//! lifecycle with its idempotent close, and the selection of the external
//! night-light command. The surrounding process (tray menu, config file,
//! sleeping, spawning the command) lives outside and drives this core.

pub mod config;
pub mod light;
pub mod menu;
pub mod presenter;
pub mod scheduler;

//! Verified core of a gamepad-to-keyboard binder: which keyboard keys a
//! controller input stands for, how a player records that mapping, and how
//! the binder reacts to each controller event.

pub mod input;
pub mod bindings;
pub mod config;
pub mod profile;
pub mod session;
pub mod laws;

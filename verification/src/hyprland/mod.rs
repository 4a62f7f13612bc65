//! The protocol client of the compositor: events, commands and their errors.

pub mod decoder;
pub mod error;
pub mod event_loop;
pub mod events;
pub mod ipc;
pub mod wire;

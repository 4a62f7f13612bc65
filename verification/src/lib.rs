//! A client for the two sockets of the Hyprland compositor, with its logic
//! verified: the decoding of the event socket's lines into typed events, the
//! event loop that publishes them to any number of subscribers, the retry
//! policy of the command socket, and the reading of its JSON responses into
//! typed values.
//!
//! The library does no I/O. The caller opens the sockets, reads and writes, and
//! hands the library what came of it; the library decides what it means.

pub mod hyprland;
pub mod system_info;
pub mod text;

//! What the machine tells of itself.

pub mod battery;

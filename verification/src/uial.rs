//! The interface abstraction layer: what goes in from the player and what
//! goes out to the screen, as plain values.

pub mod display;
pub mod input;

//! SeRen: a runtime for choice-based interactive fiction.
//!
//! A narrative is a graph of scenes. Each scene is a sequence of lines and
//! triggers, guarded by predicates over a store of named values. The engine
//! in [`exec`] moves a cursor through that graph in response to the player's
//! actions.

pub mod game;
pub mod store;
pub mod stats;
pub mod exec;
pub mod uial;
pub mod util;

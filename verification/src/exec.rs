//! The engine: how a position in a narrative moves when the player acts.
//!
//! A position is a scene, a line of it and a store of values. An action is
//! resolved in steps. A step never loads a scene: where the cursor moves to a
//! scene that is not at hand, the step ends with [`Step::Load`], and the
//! caller loads the scene and hands it to [`State::supply`]. Where the cursor
//! moves inside the scene it is in, the step ends with [`Step::Again`], and
//! [`State::progress`] goes on from there. So every step comes to an end,
//! also where a narrative runs in circles:
//!
//! ```text
//! let mut step = state.resolve(&cfg, action);
//! let result = loop {
//!     step = match step {
//!         Step::Done(result) => break result,
//!         Step::Load(pending) => {
//!             let name = state.wanted(&pending).to_owned();
//!             state.supply(&cfg, pending, load(&name))
//!         }
//!         Step::Again(pending) => state.progress(&cfg, pending),
//!     };
//! };
//! ```
//!
//! Changes to the store are staged while an action is resolved. They become
//! permanent when the cursor comes to rest on a line, and are forgotten when
//! the action fails, so a failed action leaves the position as it was.
//!
//! [`scan`] walks through one scene, [`turn`] takes one action at one line,
//! and [`position`] ties the steps of an action together.

use vstd::prelude::*;
use crate::game::trigger::StatChange;
use crate::game::LoadErr;
use crate::store::ValueFault;

pub mod scan;
pub mod turn;
pub mod position;

pub use position::{LoadedScene, Pending, State, Step};
pub use scan::{MaybeMainOrOtherScene, ScanEnd};
pub use turn::Landing;

verus! {

/// What the player does.
#[derive(Debug, Clone, Copy, PartialEq, Eq, Hash)]
pub enum Action {
    /// Pick the choice with this number among the visible ones, from 0.
    Select(usize),
    /// Go on.
    Progress,
    /// The input made no sense: ask again.
    PromptRetry,
}

/// What went wrong when an action was resolved.
#[derive(Debug, PartialEq, Eq)]
pub enum Fault {
    /// The position is behind the last entry of its scene.
    LineDoesNotExist,
    /// The position is on a trigger.
    LineIsTrigger,
    /// The line names a default choice that it does not have.
    NoDefaultChoice,
    /// The scene is used up and leads nowhere.
    SoftLock,
    /// The scene could not be loaded, for the reason given.
    SceneLoad(LoadErr),
    /// The change could not be applied, for the reason given.
    Change(ValueFault, StatChange<String>),
}

/// A failure to resolve an action, with the scene and the line at which the
/// cursor was.
#[derive(Debug, PartialEq, Eq)]
pub struct ResolutionErr {
    pub fault: Fault,
    pub scene: String,
    pub line: usize,
}

/// What a display is given beside the position.
#[derive(Debug, PartialEq, Eq)]
pub struct DisplayData {
    /// What to tell the player about the last input, if anything.
    pub error_text: Option<String>,
}

} // verus!

//! Triggers: the side effects of a narrative.

use vstd::prelude::*;

verus! {

/// A change to one stored value.
#[derive(Debug, Clone, PartialEq, Eq)]
pub enum ValueChange {
    /// Store the boolean, whatever was stored before.
    SetBool(bool),
    /// Store the integer, whatever was stored before.
    SetInt(i64),
    /// Add to the integer that is stored.
    UpdateInt(i64),
    /// Run a named command on the stored value.
    Custom(String),
}

/// A change to the value stored under `name`.
#[derive(Debug, Clone, PartialEq, Eq)]
pub struct StatChange<K> {
    pub name: K,
    pub change: ValueChange,
}

/// A move of the cursor: to another scene, to another line, or both.
#[derive(Debug, Clone, PartialEq, Eq)]
pub struct SceneChange {
    pub name: Option<String>,
    pub target_line: Option<usize>,
}

/// Stat changes and a scene change that take effect together.
#[derive(Debug, Clone, PartialEq, Eq)]
pub struct Trigger<K> {
    pub stats_changes: Option<Vec<StatChange<K>>>,
    pub scene_change: Option<SceneChange>,
}

impl SceneChange {
    /// The scene and the line that the change names.
    pub fn to_inner(&self) -> (r: (Option<String>, Option<usize>))
        ensures
            r.0 == self.name,
            r.1 == self.target_line,
    {
        let name = match &self.name {
            Some(n) => Some(n.clone()),
            None => None,
        };
        (name, self.target_line)
    }
}

impl<K> Trigger<K> {
    /// Two triggers as one: the changes of `lhs`, then those of `rhs`, and
    /// the scene change of `rhs` if it has one, else that of `lhs`.
    pub fn merge(lhs: Trigger<K>, rhs: Trigger<K>) -> (merged: Trigger<K>)
        ensures
            merged.scene_change == if rhs.scene_change is Some {
                rhs.scene_change
            } else {
                lhs.scene_change
            },
            match (lhs.stats_changes, rhs.stats_changes) {
                (None, changes) => merged.stats_changes == changes,
                (changes, None) => merged.stats_changes == changes,
                (Some(first), Some(second)) => {
                    &&& merged.stats_changes matches Some(all)
                    &&& all@ == first@ + second@
                },
            },
    {
        let stats_changes = match (lhs.stats_changes, rhs.stats_changes) {
            (None, changes) => changes,
            (changes, None) => changes,
            (Some(mut first), Some(mut second)) => {
                first.append(&mut second);
                Some(first)
            },
        };
        let scene_change = match rhs.scene_change {
            Some(change) => Some(change),
            None => lhs.scene_change,
        };
        Trigger { stats_changes, scene_change }
    }
}

impl<K> StatChange<K> {
    /// A change to the value stored under `name`.
    pub fn new(name: K, change: ValueChange) -> (c: Self)
        ensures
            c.name == name,
            c.change == change,
    {
        StatChange { name, change }
    }
}

} // verus!

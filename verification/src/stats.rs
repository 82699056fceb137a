//! A store with a fixed set of integers, each with a default value.

use vstd::prelude::*;
use crate::game::guard::{contains, within, KeyedGuard, ValueGuard};
use crate::game::state::KeyedStore;
use crate::game::trigger::{StatChange, ValueChange};

verus! {

/// The values that a [`Stats`] store holds.
#[derive(Debug, Clone, Copy, PartialEq, Eq, Hash)]
pub enum Stat {
    Bossiness,
}

impl Stat {
    /// The value of the stat at the start of a game.
    pub open spec fn default_value(&self) -> i64 {
        match self {
            Stat::Bossiness => 0,
        }
    }

    /// The value of the stat at the start of a game.
    pub fn default_val(&self) -> (v: i64)
        ensures
            v == self.default_value(),
    {
        match self {
            Stat::Bossiness => 0,
        }
    }
}

/// A store that holds an integer for every [`Stat`]: no stat is ever
/// absent.
#[derive(Debug, PartialEq, Eq)]
pub struct Stats {
    bossiness: i64,
}

impl View for Stats {
    type V = Map<Stat, i64>;

    closed spec fn view(&self) -> Map<Stat, i64> {
        Map::new(|s: Stat| true, |s: Stat| self.bossiness)
    }
}

impl Default for Stats {
    /// Every stat at its default value.
    fn default() -> (s: Stats)
        ensures
            forall|k: Stat| s@.contains_key(k) && #[trigger] s@[k] == k.default_value(),
    {
        Stats { bossiness: Stat::Bossiness.default_val() }
    }
}

impl Stats {
    /// The value of the stat `s`.
    pub fn stat_value(&self, s: Stat) -> (v: i64)
        ensures
            self@.contains_key(s),
            v == self@[s],
    {
        match s {
            Stat::Bossiness => self.bossiness,
        }
    }
}

impl KeyedStore for Stats {
    type KeyEnum = Stat;

    /// A stat passes an interval that holds it; it is no boolean.
    open spec fn keyed_guard_holds(values: Map<Stat, i64>, guard: &KeyedGuard<Stat>) -> bool {
        match guard.value {
            ValueGuard::Int((lower, upper)) => within(lower, upper, values[guard.name] as int),
            ValueGuard::Bool(_) => false,
        }
    }

    /// A stat can be set to an integer, and updated where the sum fits in
    /// 64 bits.
    open spec fn accepts(values: Map<Stat, i64>, change: &StatChange<Stat>) -> bool {
        match change.change {
            ValueChange::SetInt(_) => true,
            ValueChange::UpdateInt(d) => i64::MIN <= values[change.name] + d <= i64::MAX,
            _ => false,
        }
    }

    open spec fn updated(values: Map<Stat, i64>, change: &StatChange<Stat>) -> Map<Stat, i64> {
        match change.change {
            ValueChange::SetInt(i) => values.insert(change.name, i),
            ValueChange::UpdateInt(d) => values.insert(
                change.name,
                (values[change.name] + d) as i64,
            ),
            _ => values,
        }
    }

    fn check_keyed_guard(&self, guard: &KeyedGuard<Stat>) -> (b: bool) {
        match &guard.value {
            ValueGuard::Int((lower, upper)) => contains(lower, upper, self.stat_value(guard.name)),
            ValueGuard::Bool(_) => false,
        }
    }

    fn accepts_change(&self, change: &StatChange<Stat>) -> (b: bool) {
        match &change.change {
            ValueChange::SetInt(_) => true,
            ValueChange::UpdateInt(d) => self.stat_value(change.name).checked_add(*d).is_some(),
            _ => false,
        }
    }

    fn update_with_value(&mut self, change: &StatChange<Stat>) {
        let value = match &change.change {
            ValueChange::SetInt(i) => *i,
            ValueChange::UpdateInt(d) => self.stat_value(change.name) + *d,
            _ => self.stat_value(change.name),
        };
        match change.name {
            Stat::Bossiness => {
                self.bossiness = value;
            },
        }
        assert(self@ =~= Self::updated(old(self)@, change));
    }
}

} // verus!

//! The default store: typed values under string keys, with a staging layer.
//!
//! Changes are staged on top of the settled values. Reads see the staged
//! value of a key where there is one. [`Store::commit`] makes what is staged
//! permanent and [`Store::rollback`] forgets it, so a sequence of changes can
//! be undone as a whole.

use vstd::prelude::*;
use vstd::hash_map::StringHashMap;
use vstd::string::StringExecFns;
use crate::game::guard::{contains, within, Bound, KeyedGuard, ValueGuard};
use crate::game::state::KeyedStore;
use crate::game::trigger::{StatChange, ValueChange};

verus! {

/// A value that a store holds under a name.
#[derive(Debug, Clone, Copy, PartialEq, Eq)]
pub enum StatValue {
    Bool(bool),
    Int(i64),
}

/// Why a change cannot be applied.
#[derive(Debug, Clone, Copy, PartialEq, Eq)]
pub enum ValueFault {
    /// No value of the type the change works on is stored under the name.
    Missing,
    /// The command of a custom change is not known.
    UnknownCommand,
    /// The sum of an update does not fit in 64 bits.
    Overflow,
}

/// The contents of a store: at most one typed value for each name.
pub type Values = Map<Seq<char>, StatValue>;

/// The value stored under `name`, if there is one.
pub open spec fn lookup(values: Values, name: Seq<char>) -> Option<StatValue> {
    if values.contains_key(name) {
        Some(values[name])
    } else {
        None
    }
}

/// What a leaf guard says of a stored value. Of an absent value, and of a
/// value of another type than the guard tests, it says `false`.
pub open spec fn value_passes(value: Option<StatValue>, guard: ValueGuard) -> bool {
    match (guard, value) {
        (ValueGuard::Bool(b), Some(StatValue::Bool(v))) => v == b,
        (ValueGuard::Int((lower, upper)), Some(StatValue::Int(v))) => within(lower, upper, v as int),
        _ => false,
    }
}

/// The name of the one custom command: it flips a stored boolean.
pub open spec fn toggle_command() -> Seq<char> {
    "toggleBool"@
}

/// Why `change` cannot be applied to the value under `name`, if it cannot.
pub open spec fn change_fault(values: Values, name: Seq<char>, change: ValueChange) -> Option<
    ValueFault,
> {
    match change {
        ValueChange::SetBool(_) => None,
        ValueChange::SetInt(_) => None,
        ValueChange::UpdateInt(d) => match lookup(values, name) {
            Some(StatValue::Int(v)) => if i64::MIN <= v + d <= i64::MAX {
                None
            } else {
                Some(ValueFault::Overflow)
            },
            _ => Some(ValueFault::Missing),
        },
        ValueChange::Custom(cmd) => if cmd@ != toggle_command() {
            Some(ValueFault::UnknownCommand)
        } else {
            match lookup(values, name) {
                Some(StatValue::Bool(_)) => None,
                _ => Some(ValueFault::Missing),
            }
        },
    }
}

/// The contents after `change` was applied to the value under `name`.
/// Where the change cannot be applied the contents stay as they are.
pub open spec fn changed(values: Values, name: Seq<char>, change: ValueChange) -> Values {
    if change_fault(values, name, change) is Some {
        values
    } else {
        match change {
            ValueChange::SetBool(b) => values.insert(name, StatValue::Bool(b)),
            ValueChange::SetInt(i) => values.insert(name, StatValue::Int(i)),
            ValueChange::UpdateInt(d) => values.insert(
                name,
                StatValue::Int((values[name]->Int_0 + d) as i64),
            ),
            ValueChange::Custom(_) => values.insert(name, StatValue::Bool(!values[name]->Bool_0)),
        }
    }
}

/// The default store of a narrative.
pub struct Store {
    settled: StringHashMap<StatValue>,
    staged: StringHashMap<StatValue>,
}

impl View for Store {
    type V = Values;

    /// What reads see: the settled values, overlaid with the staged ones.
    closed spec fn view(&self) -> Values {
        self.settled@.union_prefer_right(self.staged@)
    }
}

impl Store {
    /// The settled values: what the store holds once staged changes are
    /// rolled back.
    pub closed spec fn base(&self) -> Values {
        self.settled@
    }

    /// Whether no change is staged.
    pub closed spec fn settled(&self) -> bool {
        self.staged@ =~= Map::empty()
    }

    /// A store without staged changes shows its settled values.
    pub proof fn lemma_settled_shows_base(&self)
        requires
            self.settled(),
        ensures
            self@ == self.base(),
    {
        assert(self@ =~= self.base());
    }

    /// An empty store.
    pub fn new() -> (s: Store)
        ensures
            s@ == Values::empty(),
            s.base() == Values::empty(),
            s.settled(),
    {
        let s = Store { settled: StringHashMap::new(), staged: StringHashMap::new() };
        assert(s@ =~= Values::empty());
        s
    }

    /// The value under `name`, if there is one.
    pub fn get_comparable(&self, name: &str) -> (v: Option<StatValue>)
        ensures
            v == lookup(self@, name@),
    {
        match self.staged.get(name) {
            Some(v) => Some(*v),
            None => match self.settled.get(name) {
                Some(v) => Some(*v),
                None => None,
            },
        }
    }

    /// Whether no change is staged.
    pub fn is_settled(&self) -> (b: bool)
        ensures
            b == self.settled(),
    {
        let b = self.staged.is_empty();
        proof {
            if b {
                assert(self.staged@ =~= Map::empty());
            } else {
                assert(!(self.staged@ =~= Map::empty()));
            }
        }
        b
    }

    /// Why `change` cannot be applied, if it cannot.
    pub fn fault(&self, change: &StatChange<String>) -> (f: Option<ValueFault>)
        ensures
            f == change_fault(self@, change.name@, change.change),
    {
        match &change.change {
            ValueChange::SetBool(_) => None,
            ValueChange::SetInt(_) => None,
            ValueChange::UpdateInt(d) => match self.get_comparable(change.name.as_str()) {
                Some(StatValue::Int(v)) => match v.checked_add(*d) {
                    Some(_) => None,
                    None => Some(ValueFault::Overflow),
                },
                _ => Some(ValueFault::Missing),
            },
            ValueChange::Custom(cmd) => {
                let toggle = String::from_str("toggleBool");
                if *cmd != toggle {
                    Some(ValueFault::UnknownCommand)
                } else {
                    match self.get_comparable(change.name.as_str()) {
                        Some(StatValue::Bool(_)) => None,
                        _ => Some(ValueFault::Missing),
                    }
                }
            },
        }
    }

    fn stage(&mut self, name: &String, value: StatValue)
        ensures
            final(self)@ == old(self)@.insert(name@, value),
            final(self).base() == old(self).base(),
            !final(self).settled(),
    {
        self.staged.insert(name.clone(), value);
        assert(self@ =~= old(self)@.insert(name@, value));
        assert(self.staged@.contains_key(name@));
    }

    /// Applies `change` where it can be applied, and says why where it
    /// cannot; the store then stays as it is.
    pub fn try_update_with_value(&mut self, change: &StatChange<String>) -> (r: Result<
        (),
        ValueFault,
    >)
        ensures
            r == match change_fault(old(self)@, change.name@, change.change) {
                Some(f) => Err::<(), ValueFault>(f),
                None => Ok(()),
            },
            final(self)@ == changed(old(self)@, change.name@, change.change),
            final(self).base() == old(self).base(),
            final(self).settled() == (r is Err && old(self).settled()),
    {
        match self.fault(change) {
            Some(f) => Err(f),
            None => {
                self.update_with_value(change);
                Ok(())
            },
        }
    }

    /// Makes the staged changes permanent.
    pub fn commit(&mut self)
        ensures
            final(self)@ == old(self)@,
            final(self).base() == old(self)@,
            final(self).settled(),
    {
        let mut staged = StringHashMap::new();
        core::mem::swap(&mut self.staged, &mut staged);
        self.settled.union_prefer_right(staged);
        assert(self@ =~= old(self)@);
    }

    /// Forgets the staged changes.
    pub fn rollback(&mut self)
        ensures
            final(self)@ == old(self).base(),
            final(self).base() == old(self).base(),
            final(self).settled(),
    {
        self.staged = StringHashMap::new();
        assert(self@ =~= old(self).base());
    }
}

impl KeyedStore for Store {
    type KeyEnum = String;

    open spec fn keyed_guard_holds(values: Values, guard: &KeyedGuard<String>) -> bool {
        value_passes(lookup(values, guard.name@), guard.value)
    }

    open spec fn accepts(values: Values, change: &StatChange<String>) -> bool {
        change_fault(values, change.name@, change.change) is None
    }

    open spec fn updated(values: Values, change: &StatChange<String>) -> Values {
        changed(values, change.name@, change.change)
    }

    fn check_keyed_guard(&self, guard: &KeyedGuard<String>) -> (b: bool) {
        match (&guard.value, self.get_comparable(guard.name.as_str())) {
            (ValueGuard::Bool(b), Some(StatValue::Bool(v))) => v == *b,
            (ValueGuard::Int((lower, upper)), Some(StatValue::Int(v))) => contains(lower, upper, v),
            _ => false,
        }
    }

    fn accepts_change(&self, change: &StatChange<String>) -> (b: bool) {
        self.fault(change).is_none()
    }

    fn update_with_value(&mut self, change: &StatChange<String>)
        ensures
            final(self).base() == old(self).base(),
            !final(self).settled(),
    {
        match &change.change {
            ValueChange::SetBool(b) => self.stage(&change.name, StatValue::Bool(*b)),
            ValueChange::SetInt(i) => self.stage(&change.name, StatValue::Int(*i)),
            ValueChange::UpdateInt(d) => {
                if let Some(StatValue::Int(v)) = self.get_comparable(change.name.as_str()) {
                    self.stage(&change.name, StatValue::Int(v + *d));
                }
            },
            ValueChange::Custom(_) => {
                if let Some(StatValue::Bool(b)) = self.get_comparable(change.name.as_str()) {
                    self.stage(&change.name, StatValue::Bool(!b));
                }
            },
        }
    }
}

/// A guard on a name under which nothing is stored fails, whatever it
/// tests for.
pub proof fn lemma_absent_key_fails(values: Values, guard: KeyedGuard<String>)
    requires
        !values.contains_key(guard.name@),
    ensures
        !Store::keyed_guard_holds(values, &guard),
{
}

/// An interval with its lower end included and its upper end excluded holds
/// the integers from the lower end up to, and without, the upper end.
pub proof fn lemma_half_open_interval(lower: i64, upper: i64, v: i64)
    ensures
        within(Bound::Included(lower), Bound::Excluded(upper), v as int) <==> lower <= v < upper,
{
}

/// Setting a value twice leaves what setting it once leaves.
pub proof fn lemma_set_twice_is_set_once(values: Values, name: Seq<char>, change: ValueChange)
    requires
        change is SetBool || change is SetInt,
    ensures
        change_fault(values, name, change) is None,
        changed(changed(values, name, change), name, change) == changed(values, name, change),
{
    assert(changed(changed(values, name, change), name, change) =~= changed(values, name, change));
}

/// Updating an integer twice adds twice: updates add up.
pub proof fn lemma_update_twice_adds_twice(values: Values, name: Seq<char>, delta: i64)
    requires
        change_fault(values, name, ValueChange::UpdateInt(delta)) is None,
        change_fault(
            changed(values, name, ValueChange::UpdateInt(delta)),
            name,
            ValueChange::UpdateInt(delta),
        ) is None,
    ensures
        lookup(values, name) matches Some(StatValue::Int(v)) && lookup(
            changed(
                changed(values, name, ValueChange::UpdateInt(delta)),
                name,
                ValueChange::UpdateInt(delta),
            ),
            name,
        ) == Some(StatValue::Int((v + 2 * delta) as i64)) && i64::MIN <= v + 2 * delta <= i64::MAX,
{
}

} // verus!

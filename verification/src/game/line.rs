//! Lines: what a scene is made of.

use vstd::prelude::*;
use super::choice::{is_visible, lemma_visible_prefix, lemma_visible_step, visible_choices, Choice};
use super::guard::Guard;
use super::state::{check_optional_guard, guard_passes, KeyedStore};
use super::trigger::Trigger;
use super::AbsenceError;

verus! {

/// The options of a line, and the one that is taken when the player just
/// goes on. `default_choice` counts all the choices, hidden ones too.
#[derive(Debug, PartialEq, Eq)]
pub struct Choices<K> {
    pub choices: Vec<Choice<K>>,
    pub default_choice: Option<usize>,
}

/// Something that is shown to the player.
#[derive(Debug, PartialEq, Eq)]
pub struct Line<K> {
    pub speaker: Option<String>,
    pub text: String,
    pub choices: Option<Choices<K>>,
}

/// An entry of a scene: shown to the player, or a side effect.
#[derive(Debug, PartialEq, Eq)]
pub enum LineOrTrigger<K> {
    Line(Line<K>),
    Trigger(Trigger<K>),
}

/// An entry of a scene with the guard that decides whether it is there at all.
#[derive(Debug, PartialEq, Eq)]
pub struct GuardedLineOrTrigger<K> {
    pub guard: Option<Guard<K>>,
    pub guarded: LineOrTrigger<K>,
}

impl<K> Line<K> {
    /// The choices as they were written; none for a plain line.
    pub open spec fn authored(&self) -> Seq<Choice<K>> {
        match self.choices {
            Some(cc) => cc.choices@,
            None => Seq::empty(),
        }
    }

    /// The `choice`-th of the choices that the player sees.
    ///
    /// `NotEnough` says that the line was not written with that many
    /// choices, `NotPresentAfterScan` that too few of them are visible.
    pub fn try_get_visible_choice<S: KeyedStore<KeyEnum = K>>(
        &self,
        store: &S,
        choice: usize,
    ) -> (r: Result<&Choice<K>, AbsenceError>)
        ensures
            match r {
                Ok(c) => {
                    &&& choice < visible_choices::<S>(store@, self.authored()).len()
                    &&& *c == visible_choices::<S>(store@, self.authored())[choice as int]
                },
                Err(AbsenceError::NotEnough) => self.authored().len() <= choice,
                Err(AbsenceError::NotPresentAfterScan) => {
                    &&& choice < self.authored().len()
                    &&& visible_choices::<S>(store@, self.authored()).len() <= choice
                },
            },
    {
        let cc = match &self.choices {
            Some(cc) => &cc.choices,
            None => {
                return Err(AbsenceError::NotEnough);
            },
        };
        if cc.len() <= choice {
            return Err(AbsenceError::NotEnough);
        }
        let mut seen: usize = 0;
        let mut i: usize = 0;
        while i < cc.len()
            invariant
                i <= cc.len(),
                cc@ == self.authored(),
                seen == visible_choices::<S>(store@, cc@.take(i as int)).len(),
                seen <= choice,
                seen <= i,
            decreases cc.len() - i,
        {
            let c = &cc[i];
            proof {
                lemma_visible_step::<S>(store@, cc@, i as int);
                lemma_visible_prefix::<S>(store@, cc@, i + 1);
            }
            if check_optional_guard(store, &c.guard) {
                if seen == choice {
                    proof {
                        let shown = visible_choices::<S>(store@, cc@.take(i + 1));
                        assert(shown[seen as int] == *c);
                        assert(visible_choices::<S>(store@, cc@)[seen as int] == shown[seen as int]);
                    }
                    return Ok(c);
                }
                seen += 1;
            }
            i += 1;
        }
        proof {
            assert(cc@.take(cc.len() as int) =~= cc@);
        }
        Err(AbsenceError::NotPresentAfterScan)
    }

    /// The choice that is taken when the player just goes on.
    ///
    /// `NotEnough` says that the line was not written with a choice at
    /// `default_choice`, `NotPresentAfterScan` that it names no default or
    /// that the default is hidden.
    pub fn try_get_default_choice<S: KeyedStore<KeyEnum = K>>(&self, store: &S) -> (r: Result<
        &Choice<K>,
        AbsenceError,
    >)
        ensures
            match r {
                Ok(c) => {
                    &&& self.choices matches Some(cc)
                    &&& cc.default_choice matches Some(d)
                    &&& d < cc.choices@.len()
                    &&& *c == cc.choices@[d as int]
                    &&& is_visible::<S>(store@, *c)
                },
                Err(AbsenceError::NotEnough) => match self.choices {
                    Some(cc) => cc.default_choice matches Some(d) && cc.choices@.len() <= d,
                    None => true,
                },
                Err(AbsenceError::NotPresentAfterScan) => {
                    &&& self.choices matches Some(cc)
                    &&& match cc.default_choice {
                        Some(d) => d < cc.choices@.len() && !is_visible::<S>(store@, cc.choices@[d as int]),
                        None => true,
                    }
                },
            },
    {
        let cc = match &self.choices {
            Some(cc) => cc,
            None => {
                return Err(AbsenceError::NotEnough);
            },
        };
        let d = match cc.default_choice {
            Some(d) => d,
            None => {
                return Err(AbsenceError::NotPresentAfterScan);
            },
        };
        if cc.choices.len() <= d {
            return Err(AbsenceError::NotEnough);
        }
        let c = &cc.choices[d];
        if check_optional_guard(store, &c.guard) {
            Ok(c)
        } else {
            Err(AbsenceError::NotPresentAfterScan)
        }
    }
}

impl<K> LineOrTrigger<K> {
    /// The line, if this entry is one.
    pub fn line(&self) -> (r: Option<&Line<K>>)
        ensures
            match r {
                Some(l) => *self == LineOrTrigger::Line(*l),
                None => self is Trigger,
            },
    {
        match self {
            LineOrTrigger::Line(l) => Some(l),
            LineOrTrigger::Trigger(_) => None,
        }
    }

    /// The trigger, if this entry is one.
    pub fn trigger(&self) -> (r: Option<&Trigger<K>>)
        ensures
            match r {
                Some(t) => *self == LineOrTrigger::Trigger(*t),
                None => self is Line,
            },
    {
        match self {
            LineOrTrigger::Trigger(t) => Some(t),
            LineOrTrigger::Line(_) => None,
        }
    }
}

impl<K> GuardedLineOrTrigger<K> {
    /// An entry with its guard; without a guard it is always there.
    pub fn new(guard: Option<Guard<K>>, guarded: LineOrTrigger<K>) -> (e: Self)
        ensures
            e.guard == guard,
            e.guarded == guarded,
    {
        GuardedLineOrTrigger { guard, guarded }
    }

    /// Whether the entry is there: its guard is absent or holds.
    pub open spec fn is_present<S: KeyedStore<KeyEnum = K>>(&self, values: S::V) -> bool {
        guard_passes::<S>(values, &self.guard)
    }

    /// The entry, if it is there.
    pub fn try_to_inner<S: KeyedStore<KeyEnum = K>>(&self, store: &S) -> (r: Result<
        &LineOrTrigger<K>,
        (),
    >)
        ensures
            match r {
                Ok(inner) => self.is_present::<S>(store@) && *inner == self.guarded,
                Err(_) => !self.is_present::<S>(store@),
            },
    {
        if check_optional_guard(store, &self.guard) {
            Ok(&self.guarded)
        } else {
            Err(())
        }
    }

    /// The entry, whatever its guard says.
    pub fn to_inner(&self) -> (inner: &LineOrTrigger<K>)
        ensures
            *inner == self.guarded,
    {
        &self.guarded
    }
}

} // verus!

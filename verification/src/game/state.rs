//! The interface between a narrative and the store of its values.

use vstd::prelude::*;
use super::guard::{Guard, KeyedGuard};
use super::trigger::StatChange;

verus! {

/// A store of values, addressed by keys of type `KeyEnum`.
///
/// A store decides what a leaf of a guard tree means and how a change is
/// applied. The spec functions are the store's model, over its view; the
/// executable methods compute what the model says.
pub trait KeyedStore: View + Sized {
    type KeyEnum;

    /// Whether the leaf `guard` holds of a store with the contents `values`.
    spec fn keyed_guard_holds(values: Self::V, guard: &KeyedGuard<Self::KeyEnum>) -> bool;

    /// Whether `change` can be applied to a store with the contents `values`.
    spec fn accepts(values: Self::V, change: &StatChange<Self::KeyEnum>) -> bool;

    /// The contents that `change` makes of the contents `values`.
    spec fn updated(values: Self::V, change: &StatChange<Self::KeyEnum>) -> Self::V;

    fn check_keyed_guard(&self, guard: &KeyedGuard<Self::KeyEnum>) -> (b: bool)
        ensures
            b == Self::keyed_guard_holds(self@, guard),
    ;

    fn accepts_change(&self, change: &StatChange<Self::KeyEnum>) -> (b: bool)
        ensures
            b == Self::accepts(self@, change),
    ;

    fn update_with_value(&mut self, change: &StatChange<Self::KeyEnum>)
        requires
            Self::accepts(old(self)@, change),
        ensures
            final(self)@ == Self::updated(old(self)@, change),
    ;
}

/// The meaning of a guard tree: conjunction, disjunction and negation over
/// what the store says of the leaves.
pub open spec fn guard_holds<S: KeyedStore>(values: S::V, guard: &Guard<S::KeyEnum>) -> bool
    decreases guard,
{
    match guard {
        Guard::Value(g) => S::keyed_guard_holds(values, g),
        Guard::Not(g) => !guard_holds::<S>(values, g),
        Guard::And(gg) => forall|i: int| 0 <= i < gg@.len() ==> guard_holds::<S>(values, &gg@[i]),
        Guard::Or(gg) => exists|i: int| 0 <= i < gg@.len() && guard_holds::<S>(values, &gg@[i]),
    }
}

/// The meaning of an optional guard: an absent guard always holds.
pub open spec fn guard_passes<S: KeyedStore>(values: S::V, guard: &Option<Guard<S::KeyEnum>>) -> bool {
    match guard {
        Some(g) => guard_holds::<S>(values, g),
        None => true,
    }
}

/// Evaluates a guard tree against a store.
#[verifier::loop_isolation(false)]
pub fn check_guard<S: KeyedStore>(store: &S, guard: &Guard<S::KeyEnum>) -> (b: bool)
    ensures
        b == guard_holds::<S>(store@, guard),
    decreases guard,
{
    match guard {
        Guard::Value(g) => store.check_keyed_guard(g),
        Guard::Not(g) => !check_guard(store, g),
        Guard::And(gg) => {
            let mut i: usize = 0;
            while i < gg.len()
                invariant
                    i <= gg.len(),
                    forall|j: int| 0 <= j < i ==> guard_holds::<S>(store@, &gg@[j]),
                decreases gg.len() - i,
            {
                if !check_guard(store, &gg[i]) {
                    return false;
                }
                i += 1;
            }
            true
        },
        Guard::Or(gg) => {
            let mut i: usize = 0;
            while i < gg.len()
                invariant
                    i <= gg.len(),
                    forall|j: int| 0 <= j < i ==> !guard_holds::<S>(store@, &gg@[j]),
                decreases gg.len() - i,
            {
                if check_guard(store, &gg[i]) {
                    return true;
                }
                i += 1;
            }
            false
        },
    }
}

/// Evaluates an optional guard: an absent guard always holds.
pub fn check_optional_guard<S: KeyedStore>(store: &S, guard: &Option<Guard<S::KeyEnum>>) -> (b: bool)
    ensures
        b == guard_passes::<S>(store@, guard),
{
    match guard {
        Some(g) => check_guard(store, g),
        None => true,
    }
}

/// The empty conjunction holds.
pub proof fn lemma_empty_and_holds<S: KeyedStore>(values: S::V, guard: &Guard<S::KeyEnum>)
    requires
        guard matches Guard::And(gg) && gg@.len() == 0,
    ensures
        guard_holds::<S>(values, guard),
{
}

/// The empty disjunction does not hold.
pub proof fn lemma_empty_or_fails<S: KeyedStore>(values: S::V, guard: &Guard<S::KeyEnum>)
    requires
        guard matches Guard::Or(gg) && gg@.len() == 0,
    ensures
        !guard_holds::<S>(values, guard),
{
}

/// A double negation holds exactly when the guard under it holds.
pub proof fn lemma_double_negation<S: KeyedStore>(values: S::V, guard: &Guard<S::KeyEnum>)
    ensures
        guard_holds::<S>(values, &Guard::Not(Box::new(Guard::Not(Box::new(*guard)))))
            == guard_holds::<S>(values, guard),
{
    reveal_with_fuel(guard_holds, 3);
}

} // verus!

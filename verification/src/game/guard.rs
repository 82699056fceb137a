//! Guards: boolean predicates over a store of named values.

use vstd::prelude::*;

verus! {

/// One end of an interval of integers.
#[derive(Debug, Clone, Copy, PartialEq, Eq)]
pub enum Bound<T> {
    /// The end point belongs to the interval.
    Included(T),
    /// The end point does not belong to the interval.
    Excluded(T),
    /// The interval has no end on this side.
    Unbounded,
}

/// What a guard asks of a single stored value.
#[derive(Debug, Clone, Copy, PartialEq, Eq)]
pub enum ValueGuard {
    /// The value is a boolean and equals the given one.
    Bool(bool),
    /// The value is an integer inside the interval `(lower, upper)`.
    Int((Bound<i64>, Bound<i64>)),
}

/// A leaf of a guard tree: a test of the value stored under `name`.
#[derive(Debug, Clone, PartialEq, Eq)]
pub struct KeyedGuard<K> {
    pub name: K,
    pub value: ValueGuard,
}

/// A guard tree over keys of type `K`.
#[derive(Debug, PartialEq, Eq)]
pub enum Guard<K> {
    Value(KeyedGuard<K>),
    Not(Box<Guard<K>>),
    And(Vec<Guard<K>>),
    Or(Vec<Guard<K>>),
}

/// Whether `v` lies above the lower end `lower`.
pub open spec fn above(lower: Bound<i64>, v: int) -> bool {
    match lower {
        Bound::Included(a) => a <= v,
        Bound::Excluded(a) => a < v,
        Bound::Unbounded => true,
    }
}

/// Whether `v` lies below the upper end `upper`.
pub open spec fn below(upper: Bound<i64>, v: int) -> bool {
    match upper {
        Bound::Included(b) => v <= b,
        Bound::Excluded(b) => v < b,
        Bound::Unbounded => true,
    }
}

/// Membership of `v` in the interval from `lower` to `upper`.
pub open spec fn within(lower: Bound<i64>, upper: Bound<i64>, v: int) -> bool {
    above(lower, v) && below(upper, v)
}

/// Tests whether `v` lies in the interval from `lower` to `upper`.
pub fn contains(lower: &Bound<i64>, upper: &Bound<i64>, v: i64) -> (b: bool)
    ensures
        b == within(*lower, *upper, v as int),
{
    let low = match lower {
        Bound::Included(a) => *a <= v,
        Bound::Excluded(a) => *a < v,
        Bound::Unbounded => true,
    };
    let high = match upper {
        Bound::Included(b) => v <= *b,
        Bound::Excluded(b) => v < *b,
        Bound::Unbounded => true,
    };
    low && high
}

impl<K> KeyedGuard<K> {
    /// A test of the value stored under `name`.
    pub fn new(name: K, value: ValueGuard) -> (g: Self)
        ensures
            g.name == name,
            g.value == value,
    {
        KeyedGuard { name, value }
    }
}

} // verus!

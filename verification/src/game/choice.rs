//! Choices: what a player can pick at a line.

use vstd::prelude::*;
use super::guard::Guard;
use super::state::{guard_passes, KeyedStore};
use super::trigger::Trigger;

verus! {

/// One option of a line. The guard decides whether the player sees it; the
/// trigger is what picking it does.
#[derive(Debug, PartialEq, Eq)]
pub struct Choice<K> {
    pub guard: Option<Guard<K>>,
    pub text: String,
    pub trigger: Option<Trigger<K>>,
}

/// Whether the player sees `choice`: its guard is absent or holds.
pub open spec fn is_visible<S: KeyedStore>(values: S::V, choice: Choice<S::KeyEnum>) -> bool {
    guard_passes::<S>(values, &choice.guard)
}

/// The choices that the player sees, in the order in which they were written.
pub open spec fn visible_choices<S: KeyedStore>(
    values: S::V,
    choices: Seq<Choice<S::KeyEnum>>,
) -> Seq<Choice<S::KeyEnum>> {
    choices.filter(|c: Choice<S::KeyEnum>| is_visible::<S>(values, c))
}

/// What is visible among the first `n` choices comes first among what is
/// visible of them all.
pub proof fn lemma_visible_prefix<S: KeyedStore>(
    values: S::V,
    choices: Seq<Choice<S::KeyEnum>>,
    n: int,
)
    requires
        0 <= n <= choices.len(),
    ensures
        visible_choices::<S>(values, choices.take(n)).len() <= visible_choices::<S>(values, choices).len(),
        forall|i: int|
            0 <= i < visible_choices::<S>(values, choices.take(n)).len() ==> visible_choices::<S>(
                values,
                choices,
            )[i] == #[trigger] visible_choices::<S>(values, choices.take(n))[i],
{
    let pred = |c: Choice<S::KeyEnum>| is_visible::<S>(values, c);
    assert(choices =~= choices.take(n) + choices.skip(n));
    Seq::filter_distributes_over_add(choices.take(n), choices.skip(n), pred);
}

/// What one more choice adds to the visible ones.
pub proof fn lemma_visible_step<S: KeyedStore>(
    values: S::V,
    choices: Seq<Choice<S::KeyEnum>>,
    n: int,
)
    requires
        0 <= n < choices.len(),
    ensures
        visible_choices::<S>(values, choices.take(n + 1)) == if is_visible::<S>(values, choices[n]) {
            visible_choices::<S>(values, choices.take(n)).push(choices[n])
        } else {
            visible_choices::<S>(values, choices.take(n))
        },
{
    reveal(Seq::filter);
    assert(choices.take(n + 1).drop_last() =~= choices.take(n));
    assert(choices.take(n + 1).last() == choices[n]);
}

} // verus!

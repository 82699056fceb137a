//! The scan of a scene: from a line on, over what is not there and through
//! the triggers, to the line on which the cursor comes to rest.

use vstd::prelude::*;
use crate::game::line::LineOrTrigger;
use crate::game::state::KeyedStore;
use crate::game::trigger::{SceneChange, StatChange, Trigger, ValueChange};
use crate::game::{MainOrSceneChange, Scene};
use crate::store::{change_fault, changed, lookup, StatValue, Store, ValueFault, Values};

verus! {

/// Where the cursor goes when it leaves a scene.
#[derive(Debug, PartialEq, Eq)]
pub enum MaybeMainOrOtherScene {
    /// Nowhere: the scene is a dead end.
    DeadEnd,
    /// To the scene in which the game starts, at the given line or at its
    /// first.
    MainScene(Option<usize>),
    /// To the named scene, at the given line or at its first.
    String(String, Option<usize>),
    /// To the given line of the scene that the cursor is in.
    SameScene(usize),
}

/// How a scan of a scene ends.
#[derive(Debug, PartialEq, Eq)]
pub enum ScanEnd {
    /// On the line with this index.
    Line(usize),
    /// With the cursor leaving the place it is at.
    Break(MaybeMainOrOtherScene),
    /// At the trigger with this index, one of whose changes cannot be applied.
    Fault(usize, ValueFault, StatChange<String>),
}

/// The changes of a trigger, in order.
pub open spec fn changes_of(trigger: Trigger<String>) -> Seq<StatChange<String>> {
    match trigger.stats_changes {
        Some(changes) => changes@,
        None => Seq::empty(),
    }
}

/// The first of `changes` that cannot be applied when they are applied in
/// order, with the reason.
pub open spec fn first_fault(values: Values, changes: Seq<StatChange<String>>) -> Option<
    (ValueFault, StatChange<String>),
>
    decreases changes.len(),
{
    if changes.len() == 0 {
        None
    } else {
        match change_fault(values, changes[0].name@, changes[0].change) {
            Some(f) => Some((f, changes[0])),
            None => first_fault(
                changed(values, changes[0].name@, changes[0].change),
                changes.drop_first(),
            ),
        }
    }
}

/// The contents of a store after `changes` were applied in order, up to the
/// first that cannot be applied.
pub open spec fn all_changed(values: Values, changes: Seq<StatChange<String>>) -> Values
    decreases changes.len(),
{
    if changes.len() == 0 || change_fault(values, changes[0].name@, changes[0].change) is Some {
        values
    } else {
        all_changed(changed(values, changes[0].name@, changes[0].change), changes.drop_first())
    }
}

/// Where a scene change sends the cursor. A change that names a scene leads
/// there, at the line it names or at the first. A change that names only a
/// line stays in the scene. A change that names neither moves nothing.
pub open spec fn break_of(change: Option<SceneChange>) -> Option<MaybeMainOrOtherScene> {
    match change {
        Some(SceneChange { name: Some(name), target_line }) => Some(
            MaybeMainOrOtherScene::String(name, target_line),
        ),
        Some(SceneChange { name: None, target_line: Some(line) }) => Some(
            MaybeMainOrOtherScene::SameScene(line),
        ),
        _ => None,
    }
}

/// Where the cursor goes at the end of a scene.
pub open spec fn exit_of(next_scene: Option<MainOrSceneChange>) -> MaybeMainOrOtherScene {
    match next_scene {
        Some(MainOrSceneChange::Main(line)) => MaybeMainOrOtherScene::MainScene(line),
        Some(MainOrSceneChange::SceneChange(change)) => match break_of(Some(change)) {
            Some(b) => b,
            None => MaybeMainOrOtherScene::DeadEnd,
        },
        None => MaybeMainOrOtherScene::DeadEnd,
    }
}

/// How a scan of `scene` from the entry `from` ends, and what the store
/// holds then.
///
/// Entries whose guard fails are passed over. A line ends the scan. A
/// trigger has its changes applied; the scan ends at the first of them that
/// cannot be, or if the trigger moves the cursor, and else goes on behind
/// it. Behind the last entry the scene says where to go.
pub open spec fn scan_end(scene: Scene<String>, values: Values, from: int) -> (ScanEnd, Values)
    decreases scene.lines@.len() - from,
{
    if from < 0 || from >= scene.lines@.len() {
        (ScanEnd::Break(exit_of(scene.next_scene)), values)
    } else {
        let entry = scene.lines@[from];
        if !entry.is_present::<Store>(values) {
            scan_end(scene, values, from + 1)
        } else {
            match entry.guarded {
                LineOrTrigger::Line(_) => (ScanEnd::Line(from as usize), values),
                LineOrTrigger::Trigger(trigger) => {
                    let after = all_changed(values, changes_of(trigger));
                    match first_fault(values, changes_of(trigger)) {
                        Some((f, c)) => (ScanEnd::Fault(from as usize, f, c), after),
                        None => match break_of(trigger.scene_change) {
                            Some(b) => (ScanEnd::Break(b), after),
                            None => scan_end(scene, after, from + 1),
                        },
                    }
                },
            }
        }
    }
}

/// A copy of a change.
pub fn copy_change(change: &StatChange<String>) -> (c: StatChange<String>)
    ensures
        c == *change,
{
    let what = match &change.change {
        ValueChange::SetBool(b) => ValueChange::SetBool(*b),
        ValueChange::SetInt(i) => ValueChange::SetInt(*i),
        ValueChange::UpdateInt(d) => ValueChange::UpdateInt(*d),
        ValueChange::Custom(cmd) => ValueChange::Custom(cmd.clone()),
    };
    StatChange { name: change.name.clone(), change: what }
}

/// Where a scene change sends the cursor.
pub fn scene_break(change: &Option<SceneChange>) -> (b: Option<MaybeMainOrOtherScene>)
    ensures
        b == break_of(*change),
{
    match change {
        Some(sc) => match (&sc.name, sc.target_line) {
            (Some(name), line) => Some(MaybeMainOrOtherScene::String(name.clone(), line)),
            (None, Some(line)) => Some(MaybeMainOrOtherScene::SameScene(line)),
            (None, None) => None,
        },
        None => None,
    }
}

/// Where the cursor goes at the end of a scene.
pub fn scene_exit(next_scene: &Option<MainOrSceneChange>) -> (b: MaybeMainOrOtherScene)
    ensures
        b == exit_of(*next_scene),
{
    match next_scene {
        Some(MainOrSceneChange::Main(line)) => MaybeMainOrOtherScene::MainScene(*line),
        Some(MainOrSceneChange::SceneChange(sc)) => match (&sc.name, sc.target_line) {
            (Some(name), line) => MaybeMainOrOtherScene::String(name.clone(), line),
            (None, Some(line)) => MaybeMainOrOtherScene::SameScene(line),
            (None, None) => MaybeMainOrOtherScene::DeadEnd,
        },
        None => MaybeMainOrOtherScene::DeadEnd,
    }
}

/// Applies the changes of a trigger in order and says where the trigger
/// sends the cursor. At the first change that cannot be applied it stops and
/// says which and why; the changes before it stay staged.
pub fn apply_trigger(store: &mut Store, trigger: &Trigger<String>) -> (r: Result<
    Option<MaybeMainOrOtherScene>,
    (ValueFault, StatChange<String>),
>)
    ensures
        final(store).base() == old(store).base(),
        final(store)@ == all_changed(old(store)@, changes_of(*trigger)),
        r == match first_fault(old(store)@, changes_of(*trigger)) {
            Some(fault) => Err::<Option<MaybeMainOrOtherScene>, _>(fault),
            None => Ok(break_of(trigger.scene_change)),
        },
{
    if let Some(changes) = &trigger.stats_changes {
        let mut i: usize = 0;
        proof {
            assert(changes@.skip(0) =~= changes@);
        }
        while i < changes.len()
            invariant
                i <= changes.len(),
                changes@ == changes_of(*trigger),
                store.base() == old(store).base(),
                first_fault(old(store)@, changes@) == first_fault(store@, changes@.skip(i as int)),
                all_changed(old(store)@, changes@) == all_changed(store@, changes@.skip(i as int)),
            decreases changes.len() - i,
        {
            let change = &changes[i];
            proof {
                assert(changes@.skip(i as int)[0] == *change);
                assert(changes@.skip(i as int).drop_first() =~= changes@.skip(i + 1));
            }
            match store.fault(change) {
                Some(f) => {
                    return Err((f, copy_change(change)));
                },
                None => {
                    store.update_with_value(change);
                },
            }
            i += 1;
        }
        proof {
            assert(changes@.skip(changes.len() as int).len() == 0);
        }
    }
    Ok(scene_break(&trigger.scene_change))
}

/// Scans `scene` from the entry `from` for the line on which the cursor
/// comes to rest, and applies the triggers on the way.
pub fn progress_to_next_line_or_scene_break(
    scene: &Scene<String>,
    store: &mut Store,
    from: usize,
) -> (end: ScanEnd)
    ensures
        final(store).base() == old(store).base(),
        end == scan_end(*scene, old(store)@, from as int).0,
        final(store)@ == scan_end(*scene, old(store)@, from as int).1,
{
    let mut i: usize = from;
    while i < scene.lines.len()
        invariant
            from <= i,
            store.base() == old(store).base(),
            i <= scene.lines@.len() ==> scan_end(*scene, old(store)@, from as int) == scan_end(
                *scene,
                store@,
                i as int,
            ),
            i > scene.lines@.len() ==> i == from && store@ == old(store)@,
        decreases scene.lines.len() - i,
    {
        let entry = &scene.lines[i];
        match entry.try_to_inner(&*store) {
            Err(_) => {},
            Ok(LineOrTrigger::Line(_)) => {
                return ScanEnd::Line(i);
            },
            Ok(LineOrTrigger::Trigger(trigger)) => {
                match apply_trigger(store, trigger) {
                    Err((f, c)) => {
                        return ScanEnd::Fault(i, f, c);
                    },
                    Ok(Some(b)) => {
                        return ScanEnd::Break(b);
                    },
                    Ok(None) => {},
                }
            },
        }
        i += 1;
    }
    ScanEnd::Break(scene_exit(&scene.next_scene))
}

/// A scan comes to rest only on a line that is there to be shown: the entry
/// is a line, at or behind the start of the scan, and its guard holds of the
/// values that the scan leaves.
pub proof fn lemma_scan_rests_on_line(scene: Scene<String>, values: Values, from: int)
    requires
        0 <= from,
    ensures
        scan_end(scene, values, from).0 matches ScanEnd::Line(i) ==> {
            &&& from <= i < scene.lines@.len()
            &&& scene.lines@[i as int].guarded is Line
            &&& scene.lines@[i as int].is_present::<Store>(scan_end(scene, values, from).1)
        },
    decreases scene.lines@.len() - from,
{
    assert(scene.lines@.len() == scene.lines.len());
    if from < scene.lines@.len() {
        let entry = scene.lines@[from];
        if !entry.is_present::<Store>(values) {
            lemma_scan_rests_on_line(scene, values, from + 1);
        } else {
            match entry.guarded {
                LineOrTrigger::Line(_) => {},
                LineOrTrigger::Trigger(trigger) => {
                    if first_fault(values, changes_of(trigger)) is None && break_of(
                        trigger.scene_change,
                    ) is None {
                        lemma_scan_rests_on_line(
                            scene,
                            all_changed(values, changes_of(trigger)),
                            from + 1,
                        );
                    }
                },
            }
        }
    }
}

/// A scan that starts on a line that is there to be shown rests on it at
/// once and changes nothing.
pub proof fn lemma_scan_rests_at_once(scene: Scene<String>, values: Values, at: usize)
    requires
        at < scene.lines@.len(),
        scene.lines@[at as int].guarded is Line,
        scene.lines@[at as int].is_present::<Store>(values),
    ensures
        scan_end(scene, values, at as int) == (ScanEnd::Line(at), values),
{
}

/// Entries that are not there do not count: a scan over them ends as a
/// scan from behind the last entry does.
pub proof fn lemma_absent_entries_are_passed(scene: Scene<String>, values: Values, from: int)
    requires
        0 <= from,
        forall|i: int|
            from <= i < scene.lines@.len() ==> !(#[trigger] scene.lines@[i]).is_present::<Store>(
                values,
            ),
    ensures
        scan_end(scene, values, from) == (ScanEnd::Break(exit_of(scene.next_scene)), values),
    decreases scene.lines@.len() - from,
{
    if from < scene.lines@.len() {
        lemma_absent_entries_are_passed(scene, values, from + 1);
    }
}

/// Whether every one of `changes` sets a value.
pub open spec fn only_sets(changes: Seq<StatChange<String>>) -> bool {
    forall|i: int|
        0 <= i < changes.len() ==> (#[trigger] changes[i]).change is SetBool
            || changes[i].change is SetInt
}

/// Changes that only set values can always be applied, and what they leave
/// is the old contents overlaid with what they would leave of an empty store.
pub proof fn lemma_sets_overlay(values: Values, changes: Seq<StatChange<String>>)
    requires
        only_sets(changes),
    ensures
        first_fault(values, changes) is None,
        all_changed(values, changes) == values.union_prefer_right(
            all_changed(Values::empty(), changes),
        ),
    decreases changes.len(),
{
    if changes.len() == 0 {
        assert(values =~= values.union_prefer_right(Values::empty()));
    } else {
        let first = changes[0];
        let rest = changes.drop_first();
        assert(only_sets(rest)) by {
            assert forall|i: int| 0 <= i < rest.len() implies (#[trigger] rest[i]).change is SetBool
                || rest[i].change is SetInt by {
                assert(rest[i] == changes[i + 1]);
            }
        }
        let stepped = changed(values, first.name@, first.change);
        let alone = changed(Values::empty(), first.name@, first.change);
        lemma_sets_overlay(stepped, rest);
        lemma_sets_overlay(alone, rest);
        assert(stepped.union_prefer_right(all_changed(Values::empty(), rest))
            =~= values.union_prefer_right(
            alone.union_prefer_right(all_changed(Values::empty(), rest)),
        ));
    }
}

/// Applying a trigger that only sets values twice leaves what applying it
/// once leaves.
pub proof fn lemma_set_trigger_twice_is_once(values: Values, trigger: Trigger<String>)
    requires
        only_sets(changes_of(trigger)),
    ensures
        first_fault(values, changes_of(trigger)) is None,
        first_fault(all_changed(values, changes_of(trigger)), changes_of(trigger)) is None,
        all_changed(all_changed(values, changes_of(trigger)), changes_of(trigger)) == all_changed(
            values,
            changes_of(trigger),
        ),
{
    let changes = changes_of(trigger);
    let once = all_changed(values, changes);
    lemma_sets_overlay(values, changes);
    lemma_sets_overlay(once, changes);
    let laid = all_changed(Values::empty(), changes);
    assert(values.union_prefer_right(laid).union_prefer_right(laid) =~= values.union_prefer_right(
        laid,
    ));
}

/// Applying a trigger that updates an integer twice adds twice: the
/// trigger is not idempotent.
pub proof fn lemma_update_trigger_twice_adds_twice(
    values: Values,
    trigger: Trigger<String>,
    name: String,
    delta: i64,
)
    requires
        changes_of(trigger) == seq![StatChange { name, change: ValueChange::UpdateInt(delta) }],
        first_fault(values, changes_of(trigger)) is None,
        first_fault(all_changed(values, changes_of(trigger)), changes_of(trigger)) is None,
    ensures
        ({
            &&& lookup(values, name@) matches Some(StatValue::Int(v))
            &&& i64::MIN <= v + 2 * delta <= i64::MAX
            &&& lookup(
                all_changed(all_changed(values, changes_of(trigger)), changes_of(trigger)),
                name@,
            ) == Some(StatValue::Int((v + 2 * delta) as i64))
        }),
{
    let changes = changes_of(trigger);
    assert(changes.drop_first().len() == 0);
    let once = changed(values, name@, ValueChange::UpdateInt(delta));
    assert(all_changed(values, changes) == once) by {
        reveal_with_fuel(all_changed, 2);
    }
    assert(all_changed(once, changes) == changed(once, name@, ValueChange::UpdateInt(delta))) by {
        reveal_with_fuel(all_changed, 2);
    }
    assert(first_fault(values, changes) == match change_fault(
        values,
        name@,
        ValueChange::UpdateInt(delta),
    ) {
        Some(f) => Some((f, changes[0])),
        None => None,
    }) by {
        reveal_with_fuel(first_fault, 2);
    }
    assert(first_fault(once, changes) == match change_fault(
        once,
        name@,
        ValueChange::UpdateInt(delta),
    ) {
        Some(f) => Some((f, changes[0])),
        None => None,
    }) by {
        reveal_with_fuel(first_fault, 2);
    }
    crate::store::lemma_update_twice_adds_twice(values, name@, delta);
}

} // verus!

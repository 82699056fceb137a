//! One action at one line: what it picks, what that does to the store, and
//! where it leaves the cursor.

use vstd::prelude::*;
use super::scan::{
    all_changed, apply_trigger, break_of, changes_of, exit_of, first_fault,
    lemma_absent_entries_are_passed, lemma_scan_rests_on_line,
    progress_to_next_line_or_scene_break, scan_end, MaybeMainOrOtherScene, ScanEnd,
};
use super::position::LoadedScene;
use super::{Action, Fault, ResolutionErr};
use crate::game::choice::{is_visible, visible_choices};
use crate::game::line::{GuardedLineOrTrigger, Line, LineOrTrigger};
use crate::game::trigger::{SceneChange, Trigger};
use crate::game::{AbsenceError, Cfg, Scene};
use crate::store::{Store, Values};

verus! {

/// What an action picks at a line.
pub enum Pick {
    /// Nothing: the player is asked again.
    Retry,
    /// Nothing, and nothing is said.
    Ignore,
    /// Nothing: there is no such choice on offer.
    NoOption,
    /// Nothing: the line names a default choice that it does not have.
    NoDefault,
    /// The trigger of a choice, or no trigger where a plain line is left.
    Take(Option<Trigger<String>>),
}

/// What `action` picks at `line`.
///
/// A selection counts the visible choices only. Going on leaves a plain
/// line; at a line with choices it takes the default, whose number counts
/// all the choices, if the line names one and it is visible.
pub open spec fn pick_of(line: Line<String>, values: Values, action: Action) -> Pick {
    match action {
        Action::PromptRetry => Pick::Retry,
        Action::Select(n) => {
            let shown = visible_choices::<Store>(values, line.authored());
            if n < shown.len() {
                Pick::Take(shown[n as int].trigger)
            } else {
                Pick::NoOption
            }
        },
        Action::Progress => match line.choices {
            None => Pick::Take(None),
            Some(cc) => match cc.default_choice {
                None => Pick::Ignore,
                Some(d) => if d >= cc.choices@.len() {
                    Pick::NoDefault
                } else if is_visible::<Store>(values, cc.choices@[d as int]) {
                    Pick::Take(cc.choices@[d as int].trigger)
                } else {
                    Pick::Ignore
                },
            },
        },
    }
}

/// Why nothing is taken.
#[derive(Debug, Clone, Copy, PartialEq, Eq)]
pub enum Halt {
    Ignore,
    NoOption,
    NoDefault,
}

/// The pick that the result of a selection stands for.
pub open spec fn pick_from(r: Result<Option<&Trigger<String>>, Halt>) -> Pick {
    match r {
        Ok(Some(t)) => Pick::Take(Some(*t)),
        Ok(None) => Pick::Take(None),
        Err(Halt::Ignore) => Pick::Ignore,
        Err(Halt::NoOption) => Pick::NoOption,
        Err(Halt::NoDefault) => Pick::NoDefault,
    }
}

/// The trigger of the `choice`-th visible choice of `line`.
pub fn process_choice_selection<'a>(line: &'a Line<String>, store: &Store, choice: usize) -> (r:
    Result<Option<&'a Trigger<String>>, Halt>)
    ensures
        pick_from(r) == pick_of(*line, store@, Action::Select(choice)),
{
    match line.try_get_visible_choice(store, choice) {
        Ok(c) => Ok(c.trigger.as_ref()),
        Err(_) => Err(Halt::NoOption),
    }
}

/// The trigger that going on takes at `line`.
pub fn process_default_choice_selection<'a>(line: &'a Line<String>, store: &Store) -> (r: Result<
    Option<&'a Trigger<String>>,
    Halt,
>)
    ensures
        pick_from(r) == pick_of(*line, store@, Action::Progress),
{
    if line.choices.is_none() {
        return Ok(None);
    }
    match line.try_get_default_choice(store) {
        Ok(c) => Ok(c.trigger.as_ref()),
        Err(AbsenceError::NotEnough) => Err(Halt::NoDefault),
        Err(AbsenceError::NotPresentAfterScan) => Err(Halt::Ignore),
    }
}

/// Where a step leaves the cursor.
#[derive(Debug, PartialEq, Eq)]
pub enum Landing {
    /// At rest on the line with this index of the scene it is in.
    Rest(usize),
    /// Where it was; the player is asked again.
    Retry,
    /// Where it was; nothing is said.
    Ignore,
    /// Where it was; the player is told that there is no such choice.
    NoOption,
    /// Where it was, because of a failure.
    Stop(ResolutionErr),
    /// On the way to a line of a scene that has to be loaded.
    Leave(LoadedScene, usize),
    /// On the way to a line of the scene it is in.
    Jump(usize),
}

/// The line that a scene is entered at: the one named, or the first.
pub open spec fn entry_line(line: Option<usize>) -> usize {
    match line {
        Some(l) => l,
        None => 0,
    }
}

/// Where a scan of the scene called `name` that began at `from` and ended
/// with `end` leaves the cursor.
pub open spec fn landing_of(name: String, end: ScanEnd, from: usize, cfg: Cfg) -> Landing {
    match end {
        ScanEnd::Line(i) => Landing::Rest(i),
        ScanEnd::Break(MaybeMainOrOtherScene::DeadEnd) => Landing::Stop(
            ResolutionErr { fault: Fault::SoftLock, scene: name, line: from },
        ),
        ScanEnd::Break(MaybeMainOrOtherScene::MainScene(line)) => Landing::Leave(
            LoadedScene { name: cfg.primary_scene, scene: None },
            entry_line(line),
        ),
        ScanEnd::Break(MaybeMainOrOtherScene::String(scene, line)) => Landing::Leave(
            LoadedScene { name: scene, scene: None },
            entry_line(line),
        ),
        ScanEnd::Break(MaybeMainOrOtherScene::SameScene(line)) => Landing::Jump(line),
        ScanEnd::Fault(i, f, c) => Landing::Stop(
            ResolutionErr { fault: Fault::Change(f, c), scene: name, line: i },
        ),
    }
}

/// Where a scan of `scene` from `from` leaves the cursor, and what the
/// store holds then.
pub open spec fn scan_landing(
    name: String,
    scene: Scene<String>,
    values: Values,
    from: usize,
    cfg: Cfg,
) -> (Landing, Values) {
    let (end, after) = scan_end(scene, values, from as int);
    (landing_of(name, end, from, cfg), after)
}

/// Where `action`, taken at `line` of `scene`, leaves the cursor, and what
/// the store holds then.
///
/// What the action picks has its changes applied. If it moves the cursor to
/// a named scene, the cursor leaves for it. Else the scene is scanned: from
/// the line that the pick names, or from the line behind the one acted at.
pub open spec fn turn_landing(
    name: String,
    scene: Scene<String>,
    values: Values,
    line: usize,
    cfg: Cfg,
    action: Action,
) -> (Landing, Values) {
    if action == Action::PromptRetry {
        (Landing::Retry, values)
    } else {
        match scene.line_at(line as int) {
            None => {
                let fault = if line >= scene.lines@.len() {
                    Fault::LineDoesNotExist
                } else {
                    Fault::LineIsTrigger
                };
                (Landing::Stop(ResolutionErr { fault, scene: name, line }), values)
            },
            Some(l) => match pick_of(l, values, action) {
                Pick::Retry => (Landing::Retry, values),
                Pick::Ignore => (Landing::Ignore, values),
                Pick::NoOption => (Landing::NoOption, values),
                Pick::NoDefault => (
                    Landing::Stop(
                        ResolutionErr { fault: Fault::NoDefaultChoice, scene: name, line },
                    ),
                    values,
                ),
                Pick::Take(None) => scan_landing(name, scene, values, (line + 1) as usize, cfg),
                Pick::Take(Some(trigger)) => match first_fault(values, changes_of(trigger)) {
                    Some((f, c)) => (
                        Landing::Stop(
                            ResolutionErr { fault: Fault::Change(f, c), scene: name, line },
                        ),
                        values,
                    ),
                    None => {
                        let after = all_changed(values, changes_of(trigger));
                        match break_of(trigger.scene_change) {
                            Some(MaybeMainOrOtherScene::String(scene, l)) => (
                                Landing::Leave(
                                    LoadedScene { name: scene, scene: None },
                                    entry_line(l),
                                ),
                                after,
                            ),
                            Some(MaybeMainOrOtherScene::SameScene(l)) => scan_landing(
                                name,
                                scene,
                                after,
                                l,
                                cfg,
                            ),
                            _ => scan_landing(name, scene, after, (line + 1) as usize, cfg),
                        }
                    },
                },
            },
        }
    }
}

/// What a step does to the store, given where it leaves the cursor and
/// what the store would hold with all changes in place: at rest the changes
/// are made permanent, on the way they stay staged, and where the cursor
/// stays where it was they are forgotten.
pub open spec fn store_effect(landing: Landing, pre: Store, post: Store, after: Values) -> bool {
    match landing {
        Landing::Rest(_) => post@ == after && post.base() == after && post.settled(),
        Landing::Leave(_, _) | Landing::Jump(_) => post@ == after && post.base() == pre.base(),
        _ => post@ == pre.base() && post.base() == pre.base() && post.settled(),
    }
}

/// The line that a scene is entered at: the one named, or the first.
pub fn first_or(line: Option<usize>) -> (l: usize)
    ensures
        l == entry_line(line),
{
    match line {
        Some(l) => l,
        None => 0,
    }
}

/// Scans `scene` from `from` for the line to rest on, and settles the
/// store: see [`store_effect`].
pub fn progress_line(
    name: &String,
    scene: &Scene<String>,
    store: &mut Store,
    from: usize,
    cfg: &Cfg,
) -> (l: Landing)
    ensures
        l == scan_landing(*name, *scene, old(store)@, from, *cfg).0,
        store_effect(
            l,
            *old(store),
            *final(store),
            scan_landing(*name, *scene, old(store)@, from, *cfg).1,
        ),
{
    match progress_to_next_line_or_scene_break(scene, store, from) {
        ScanEnd::Line(i) => {
            store.commit();
            Landing::Rest(i)
        },
        ScanEnd::Break(MaybeMainOrOtherScene::DeadEnd) => {
            store.rollback();
            Landing::Stop(ResolutionErr { fault: Fault::SoftLock, scene: name.clone(), line: from })
        },
        ScanEnd::Break(MaybeMainOrOtherScene::MainScene(line)) => Landing::Leave(
            LoadedScene::new(cfg.primary_scene.clone()),
            first_or(line),
        ),
        ScanEnd::Break(MaybeMainOrOtherScene::String(scene, line)) => Landing::Leave(
            LoadedScene::new(scene),
            first_or(line),
        ),
        ScanEnd::Break(MaybeMainOrOtherScene::SameScene(line)) => Landing::Jump(line),
        ScanEnd::Fault(i, f, c) => {
            store.rollback();
            Landing::Stop(ResolutionErr { fault: Fault::Change(f, c), scene: name.clone(), line: i })
        },
    }
}

/// Takes `action` at `line` of `scene`. What was staged before is forgotten
/// first; then the store is settled as [`store_effect`] says.
pub fn take(
    name: &String,
    scene: &Scene<String>,
    store: &mut Store,
    line: usize,
    cfg: &Cfg,
    action: Action,
) -> (l: Landing)
    ensures
        l == turn_landing(*name, *scene, old(store).base(), line, *cfg, action).0,
        store_effect(
            l,
            *old(store),
            *final(store),
            turn_landing(*name, *scene, old(store).base(), line, *cfg, action).1,
        ),
{
    store.rollback();
    let l = match scene.get_line(line) {
        None => {
            return match action {
                Action::PromptRetry => Landing::Retry,
                _ => Landing::Stop(
                    ResolutionErr { fault: Fault::LineDoesNotExist, scene: name.clone(), line },
                ),
            };
        },
        Some(entry) => match entry.to_inner() {
            LineOrTrigger::Trigger(_) => {
                return match action {
                    Action::PromptRetry => Landing::Retry,
                    _ => Landing::Stop(
                        ResolutionErr { fault: Fault::LineIsTrigger, scene: name.clone(), line },
                    ),
                };
            },
            LineOrTrigger::Line(l) => l,
        },
    };
    assert(line < scene.lines.len());
    let picked = match action {
        Action::PromptRetry => {
            return Landing::Retry;
        },
        Action::Select(choice) => process_choice_selection(l, &*store, choice),
        Action::Progress => process_default_choice_selection(l, &*store),
    };
    match picked {
        Err(Halt::Ignore) => Landing::Ignore,
        Err(Halt::NoOption) => Landing::NoOption,
        Err(Halt::NoDefault) => Landing::Stop(
            ResolutionErr { fault: Fault::NoDefaultChoice, scene: name.clone(), line },
        ),
        Ok(None) => progress_line(name, scene, store, line + 1, cfg),
        Ok(Some(trigger)) => match apply_trigger(store, trigger) {
            Err((f, c)) => {
                store.rollback();
                Landing::Stop(ResolutionErr { fault: Fault::Change(f, c), scene: name.clone(), line })
            },
            Ok(Some(MaybeMainOrOtherScene::String(scene, l))) => Landing::Leave(
                LoadedScene::new(scene),
                first_or(l),
            ),
            Ok(Some(MaybeMainOrOtherScene::SameScene(l))) => progress_line(name, scene, store, l, cfg),
            Ok(_) => progress_line(name, scene, store, line + 1, cfg),
        },
    }
}

/// An action comes to rest only on a line that is there to be shown.
pub proof fn lemma_turn_rests_on_line(
    name: String,
    scene: Scene<String>,
    values: Values,
    line: usize,
    cfg: Cfg,
    action: Action,
)
    ensures
        turn_landing(name, scene, values, line, cfg, action).0 matches Landing::Rest(i) ==> {
            &&& i < scene.lines@.len()
            &&& scene.lines@[i as int].guarded is Line
            &&& scene.lines@[i as int].is_present::<Store>(
                turn_landing(name, scene, values, line, cfg, action).1,
            )
        },
{
    if action != Action::PromptRetry {
        if let Some(l) = scene.line_at(line as int) {
            match pick_of(l, values, action) {
                Pick::Take(None) => {
                    lemma_scan_rests_on_line(scene, values, (line + 1) as usize as int);
                },
                Pick::Take(Some(trigger)) => {
                    if first_fault(values, changes_of(trigger)) is None {
                        let after = all_changed(values, changes_of(trigger));
                        match break_of(trigger.scene_change) {
                            Some(MaybeMainOrOtherScene::String(_, _)) => {},
                            Some(MaybeMainOrOtherScene::SameScene(to)) => {
                                lemma_scan_rests_on_line(scene, after, to as int);
                            },
                            _ => {
                                lemma_scan_rests_on_line(scene, after, (line + 1) as usize as int);
                            },
                        }
                    }
                },
                _ => {},
            }
        }
    }
}

/// A selection picks among the visible choices: number `n` takes the
/// trigger of the `n`-th choice whose guard holds, in the order in which the
/// choices were written, and a number that is not below the count of the
/// visible choices picks nothing.
pub proof fn lemma_selection_counts_visible(line: Line<String>, values: Values, n: usize)
    ensures
        pick_of(line, values, Action::Select(n)) == if n < visible_choices::<Store>(
            values,
            line.authored(),
        ).len() {
            Pick::Take(visible_choices::<Store>(values, line.authored())[n as int].trigger)
        } else {
            Pick::NoOption
        },
{
}

/// A pick that names a scene and a line sends the cursor to that line of
/// that scene.
pub proof fn lemma_pick_to_scene_and_line(
    name: String,
    scene: Scene<String>,
    values: Values,
    line: usize,
    cfg: Cfg,
    action: Action,
    trigger: Trigger<String>,
    target_scene: String,
    target_line: usize,
)
    requires
        action != Action::PromptRetry,
        scene.line_at(line as int) matches Some(l) && pick_of(l, values, action) == Pick::Take(
            Some(trigger),
        ),
        first_fault(values, changes_of(trigger)) is None,
        trigger.scene_change == Some(
            SceneChange { name: Some(target_scene), target_line: Some(target_line) },
        ),
    ensures
        turn_landing(name, scene, values, line, cfg, action) == (
            Landing::Leave(LoadedScene { name: target_scene, scene: None }, target_line),
            all_changed(values, changes_of(trigger)),
        ),
{
}

/// A pick that names only a line keeps the cursor in its scene and sends
/// it to that line: it rests there if the line is there to be shown.
pub proof fn lemma_pick_to_line(
    name: String,
    scene: Scene<String>,
    values: Values,
    line: usize,
    cfg: Cfg,
    action: Action,
    trigger: Trigger<String>,
    target_line: usize,
)
    requires
        action != Action::PromptRetry,
        scene.line_at(line as int) matches Some(l) && pick_of(l, values, action) == Pick::Take(
            Some(trigger),
        ),
        first_fault(values, changes_of(trigger)) is None,
        trigger.scene_change == Some(SceneChange { name: None, target_line: Some(target_line) }),
    ensures
        turn_landing(name, scene, values, line, cfg, action) == scan_landing(
            name,
            scene,
            all_changed(values, changes_of(trigger)),
            target_line,
            cfg,
        ),
        target_line < scene.lines@.len() && scene.lines@[target_line as int].guarded is Line
            && scene.lines@[target_line as int].is_present::<Store>(
            all_changed(values, changes_of(trigger)),
        ) ==> turn_landing(name, scene, values, line, cfg, action) == (
            Landing::Rest(target_line),
            all_changed(values, changes_of(trigger)),
        ),
{
}

/// A trigger on the way that names a scene and a line sends the cursor to
/// that line of that scene; one that names only a line sends it to that line
/// of the scene it is in.
pub proof fn lemma_trigger_to_scene_or_line(
    name: String,
    scene: Scene<String>,
    values: Values,
    at: usize,
    cfg: Cfg,
    trigger: Trigger<String>,
    target_line: usize,
)
    requires
        at < scene.lines@.len(),
        scene.lines@[at as int].is_present::<Store>(values),
        scene.lines@[at as int].guarded == LineOrTrigger::Trigger(trigger),
        first_fault(values, changes_of(trigger)) is None,
        trigger.scene_change matches Some(change) && change.target_line == Some(target_line),
    ensures
        scan_landing(name, scene, values, at, cfg) == (
            match trigger.scene_change->0.name {
                Some(target_scene) => Landing::Leave(
                    LoadedScene { name: target_scene, scene: None },
                    target_line,
                ),
                None => Landing::Jump(target_line),
            },
            all_changed(values, changes_of(trigger)),
        ),
{
}

/// A scene that leads nowhere is a dead end: a scan that finds nothing
/// from `from` on, because the scene is used up or because no entry that is
/// left is there, fails with a soft lock and changes nothing.
pub proof fn lemma_dead_end_is_soft_lock(
    name: String,
    scene: Scene<String>,
    values: Values,
    from: usize,
    cfg: Cfg,
)
    requires
        scene.next_scene is None,
        forall|i: int|
            from <= i < scene.lines@.len() ==> !(#[trigger] scene.lines@[i]).is_present::<Store>(
                values,
            ),
    ensures
        scan_landing(name, scene, values, from, cfg) == (
            Landing::Stop(ResolutionErr { fault: Fault::SoftLock, scene: name, line: from }),
            values,
        ),
{
    lemma_absent_entries_are_passed(scene, values, from as int);
}

/// Whether the entry is a trigger that does not move the cursor.
pub open spec fn is_still_trigger(entry: GuardedLineOrTrigger<String>) -> bool {
    match entry.guarded {
        LineOrTrigger::Trigger(t) => break_of(t.scene_change) is None,
        LineOrTrigger::Line(_) => false,
    }
}

/// Where no line is left, nothing succeeds in silence: if the scene leads
/// nowhere and every entry from `from` on is a trigger that does not move
/// the cursor, whatever the values are, the scan fails: with a soft lock,
/// or at a change that cannot be applied.
pub proof fn lemma_no_line_left_fails(
    name: String,
    scene: Scene<String>,
    values: Values,
    from: usize,
    cfg: Cfg,
)
    requires
        scene.next_scene is None,
        forall|i: int| from <= i < scene.lines@.len() ==> is_still_trigger(#[trigger] scene.lines@[i]),
    ensures
        scan_landing(name, scene, values, from, cfg).0 matches Landing::Stop(e) && (e.fault
            == Fault::SoftLock || e.fault is Change),
{
    lemma_triggers_lead_to_the_end(scene, values, from as int);
}

/// A scan over triggers that do not move the cursor ends behind the last
/// entry, or at a change that cannot be applied.
pub proof fn lemma_triggers_lead_to_the_end(scene: Scene<String>, values: Values, from: int)
    requires
        0 <= from,
        forall|i: int| from <= i < scene.lines@.len() ==> is_still_trigger(#[trigger] scene.lines@[i]),
    ensures
        scan_end(scene, values, from).0 == ScanEnd::Break(exit_of(scene.next_scene)) || scan_end(
            scene,
            values,
            from,
        ).0 is Fault,
    decreases scene.lines@.len() - from,
{
    if from < scene.lines@.len() {
        let entry = scene.lines@[from];
        if !entry.is_present::<Store>(values) {
            lemma_triggers_lead_to_the_end(scene, values, from + 1);
        } else {
            let trigger = entry.guarded->Trigger_0;
            if first_fault(values, changes_of(trigger)) is None {
                lemma_triggers_lead_to_the_end(
                    scene,
                    all_changed(values, changes_of(trigger)),
                    from + 1,
                );
            }
        }
    }
}

} // verus!

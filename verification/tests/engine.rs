use seren::exec::{Action, DisplayData, Fault, Pending, ResolutionErr, State, Step};
use seren::game::choice::Choice;
use seren::game::guard::{Bound, Guard, KeyedGuard, ValueGuard};
use seren::game::line::{Choices, GuardedLineOrTrigger, Line, LineOrTrigger};
use seren::game::trigger::{SceneChange, StatChange, Trigger, ValueChange};
use seren::game::{Cfg, LoadErr, MainOrSceneChange, Scene};
use seren::store::{StatValue, ValueFault};
use seren::uial::display::RenderMode;
use std::path::PathBuf;

type Loader = fn(&str) -> Result<Scene<String>, LoadErr>;

fn cfg(primary: &str) -> Cfg {
    Cfg {
        scene_list: vec![primary.to_string()],
        scenes: PathBuf::from("scenes"),
        saves: PathBuf::from("saves"),
        primary_scene: primary.to_string(),
        root: PathBuf::from("."),
    }
}

fn plain(text: &str) -> GuardedLineOrTrigger<String> {
    GuardedLineOrTrigger::new(
        None,
        LineOrTrigger::Line(Line { speaker: None, text: text.to_string(), choices: None }),
    )
}

fn guarded_plain(guard: Guard<String>, text: &str) -> GuardedLineOrTrigger<String> {
    GuardedLineOrTrigger::new(
        Some(guard),
        LineOrTrigger::Line(Line { speaker: None, text: text.to_string(), choices: None }),
    )
}

fn trigger(changes: Vec<StatChange<String>>, to: Option<SceneChange>) -> Trigger<String> {
    Trigger { stats_changes: if changes.is_empty() { None } else { Some(changes) }, scene_change: to }
}

fn trigger_entry(changes: Vec<StatChange<String>>, to: Option<SceneChange>) -> GuardedLineOrTrigger<String> {
    GuardedLineOrTrigger::new(None, LineOrTrigger::Trigger(trigger(changes, to)))
}

fn change(name: &str, change: ValueChange) -> StatChange<String> {
    StatChange::new(name.to_string(), change)
}

fn goto(name: Option<&str>, line: Option<usize>) -> Option<SceneChange> {
    Some(SceneChange { name: name.map(|n| n.to_string()), target_line: line })
}

fn int_guard(name: &str, lower: Bound<i64>, upper: Bound<i64>) -> Guard<String> {
    Guard::Value(KeyedGuard::new(name.to_string(), ValueGuard::Int((lower, upper))))
}

fn bool_guard(name: &str, value: bool) -> Guard<String> {
    Guard::Value(KeyedGuard::new(name.to_string(), ValueGuard::Bool(value)))
}

fn choice(text: &str, guard: Option<Guard<String>>, trigger: Option<Trigger<String>>) -> Choice<String> {
    Choice { guard, text: text.to_string(), trigger }
}

fn choice_line(text: &str, choices: Vec<Choice<String>>, default_choice: Option<usize>) -> GuardedLineOrTrigger<String> {
    GuardedLineOrTrigger::new(
        None,
        LineOrTrigger::Line(Line {
            speaker: None,
            text: text.to_string(),
            choices: Some(Choices { choices, default_choice }),
        }),
    )
}

fn drive(state: &mut State, cfg: &Cfg, a: Action, load: Loader) -> Result<RenderMode<DisplayData>, ResolutionErr> {
    let mut step = state.resolve(cfg, a);
    let mut rounds = 0;
    loop {
        rounds += 1;
        assert!(rounds < 1000, "the action does not come to an end");
        step = match step {
            Step::Done(r) => return r,
            Step::Load(p) => {
                let name = state.wanted(&p).to_string();
                state.supply(cfg, p, load(&name))
            }
            Step::Again(p) => state.progress(cfg, p),
        };
    }
}

fn plain_render() -> Result<RenderMode<DisplayData>, ResolutionErr> {
    Ok(RenderMode::Render(DisplayData { error_text: None }))
}

fn told(text: &str) -> Result<RenderMode<DisplayData>, ResolutionErr> {
    Ok(RenderMode::Render(DisplayData { error_text: Some(text.to_string()) }))
}

fn intro_scenes(name: &str) -> Result<Scene<String>, LoadErr> {
    match name {
        "intro" => Ok(Scene {
            lines: vec![
                plain("Hello"),
                choice_line(
                    "Pick",
                    vec![
                        choice(
                            "A",
                            Some(int_guard("bossiness", Bound::Included(0), Bound::Excluded(10))),
                            Some(trigger(vec![change("picked_a", ValueChange::SetBool(true))], None)),
                        ),
                        choice(
                            "B",
                            None,
                            Some(trigger(vec![change("picked_b", ValueChange::SetBool(true))], None)),
                        ),
                    ],
                    Some(1),
                ),
                plain("Bye"),
            ],
            next_scene: None,
        }),
        other => Err(LoadErr::IOErr(format!("no scene {}", other))),
    }
}

#[test]
fn end_to_end_intro_scenario() {
    let cfg = cfg("intro");
    let mut state = State::new(&cfg);
    assert_eq!(state.scene.name(), "intro");
    assert!(!state.scene.is_loaded());

    // The first Progress enters the scene: line 0 is shown.
    assert_eq!(drive(&mut state, &cfg, Action::Progress, intro_scenes), plain_render());
    assert_eq!(state.curr_line, 0);
    assert!(state.scene.is_loaded());

    // Line 0 is plain and not the last: the cursor moves to the choice line.
    assert_eq!(drive(&mut state, &cfg, Action::Progress, intro_scenes), plain_render());
    assert_eq!(state.curr_line, 1);
    // Only "B" is on offer, since nothing is stored under `bossiness`.
    let shown = seren::uial::display::FilteredStandardLine::new(
        match state.scene.scene.as_ref().unwrap().get_line(1).unwrap().to_inner() {
            LineOrTrigger::Line(l) => l,
            LineOrTrigger::Trigger(_) => panic!("line 1 is a line"),
        },
        &state.store,
    );
    let visible = shown.get_filtered_choices();
    assert_eq!(visible.len(), 1);
    assert_eq!(visible[0].text, "B");
    assert_eq!(shown.get_default_choice_idx(), Some(0));

    // The default counts all the choices: number 1 is "B".
    assert_eq!(drive(&mut state, &cfg, Action::Progress, intro_scenes), plain_render());
    assert_eq!(state.curr_line, 2);
    assert_eq!(state.store.get_comparable("picked_b"), Some(StatValue::Bool(true)));
    assert_eq!(state.store.get_comparable("picked_a"), None);
    assert!(state.store.is_settled());
}

#[test]
fn select_counts_visible_choices_only() {
    let cfg = cfg("intro");
    let mut state = State::init(&cfg, intro_scenes("intro").unwrap());
    state.curr_line = 1;
    // "A" is hidden, so choice 0 is "B".
    assert_eq!(drive(&mut state, &cfg, Action::Select(0), intro_scenes), plain_render());
    assert_eq!(state.curr_line, 2);
    assert_eq!(state.store.get_comparable("picked_b"), Some(StatValue::Bool(true)));
    assert_eq!(state.store.get_comparable("picked_a"), None);
}

#[test]
fn select_sees_a_choice_once_its_guard_holds() {
    let cfg = cfg("intro");
    let mut state = State::init(&cfg, intro_scenes("intro").unwrap());
    state.store.try_update_with_value(&change("bossiness", ValueChange::SetInt(9))).unwrap();
    state.store.commit();
    state.curr_line = 1;
    assert_eq!(drive(&mut state, &cfg, Action::Select(0), intro_scenes), plain_render());
    assert_eq!(state.store.get_comparable("picked_a"), Some(StatValue::Bool(true)));
    assert_eq!(state.store.get_comparable("picked_b"), None);
    assert_eq!(state.store.get_comparable("bossiness"), Some(StatValue::Int(9)));
}

#[test]
fn select_beyond_the_visible_choices_changes_nothing() {
    let cfg = cfg("intro");
    let mut state = State::init(&cfg, intro_scenes("intro").unwrap());
    state.curr_line = 1;
    // Two choices were written, one is visible.
    for n in [1usize, 2, 7, usize::MAX] {
        assert_eq!(
            drive(&mut state, &cfg, Action::Select(n), intro_scenes),
            told("Attmpted to pick nonexistent option.")
        );
        assert_eq!(state.curr_line, 1);
        assert_eq!(state.store.get_comparable("picked_a"), None);
        assert_eq!(state.store.get_comparable("picked_b"), None);
    }
}

#[test]
fn select_at_a_plain_line_finds_no_option() {
    let cfg = cfg("intro");
    let mut state = State::init(&cfg, intro_scenes("intro").unwrap());
    assert_eq!(
        drive(&mut state, &cfg, Action::Select(0), intro_scenes),
        told("Attmpted to pick nonexistent option.")
    );
    assert_eq!(state.curr_line, 0);
}

#[test]
fn prompt_retry_asks_again_and_stays() {
    let cfg = cfg("intro");
    let mut state = State::init(&cfg, intro_scenes("intro").unwrap());
    state.curr_line = 1;
    assert_eq!(
        drive(&mut state, &cfg, Action::PromptRetry, intro_scenes),
        told("Invalid input. Please retry.")
    );
    assert_eq!(state.curr_line, 1);
    // Also where the position makes no sense.
    state.curr_line = 99;
    assert_eq!(
        drive(&mut state, &cfg, Action::PromptRetry, intro_scenes),
        told("Invalid input. Please retry.")
    );
    assert_eq!(state.curr_line, 99);
}

fn default_scenes(name: &str) -> Result<Scene<String>, LoadErr> {
    let pick = |flag: &str| Some(trigger(vec![change(flag, ValueChange::SetBool(true))], None));
    match name {
        "none" => Ok(Scene {
            lines: vec![choice_line("Pick", vec![choice("A", None, pick("a"))], None), plain("End")],
            next_scene: None,
        }),
        "hidden" => Ok(Scene {
            lines: vec![
                choice_line(
                    "Pick",
                    vec![choice("A", Some(bool_guard("open", true)), pick("a")), choice("B", None, pick("b"))],
                    Some(0),
                ),
                plain("End"),
            ],
            next_scene: None,
        }),
        "missing" => Ok(Scene {
            lines: vec![choice_line("Pick", vec![choice("A", None, pick("a"))], Some(1)), plain("End")],
            next_scene: None,
        }),
        "raw" => Ok(Scene {
            lines: vec![
                choice_line(
                    "Pick",
                    vec![
                        choice("A", Some(bool_guard("open", true)), pick("a")),
                        choice("B", None, pick("b")),
                        choice("C", None, pick("c")),
                    ],
                    Some(1),
                ),
                plain("End"),
            ],
            next_scene: None,
        }),
        other => Err(LoadErr::IOErr(format!("no scene {}", other))),
    }
}

#[test]
fn progress_without_a_default_is_ignored() {
    let cfg = cfg("none");
    let mut state = State::init(&cfg, default_scenes("none").unwrap());
    assert_eq!(drive(&mut state, &cfg, Action::Progress, default_scenes), Ok(RenderMode::Ignore));
    assert_eq!(state.curr_line, 0);
    assert_eq!(state.store.get_comparable("a"), None);
}

#[test]
fn progress_with_a_hidden_default_is_ignored() {
    let cfg = cfg("hidden");
    let mut state = State::init(&cfg, default_scenes("hidden").unwrap());
    assert_eq!(drive(&mut state, &cfg, Action::Progress, default_scenes), Ok(RenderMode::Ignore));
    assert_eq!(state.curr_line, 0);
    assert_eq!(state.store.get_comparable("a"), None);
    assert_eq!(state.store.get_comparable("b"), None);
}

#[test]
fn progress_with_a_default_that_was_not_written_fails() {
    let cfg = cfg("missing");
    let mut state = State::init(&cfg, default_scenes("missing").unwrap());
    assert_eq!(
        drive(&mut state, &cfg, Action::Progress, default_scenes),
        Err(ResolutionErr { fault: Fault::NoDefaultChoice, scene: "missing".to_string(), line: 0 })
    );
    assert_eq!(state.curr_line, 0);
}

#[test]
fn the_default_counts_hidden_choices_too() {
    let cfg = cfg("raw");
    let mut state = State::init(&cfg, default_scenes("raw").unwrap());
    // "A" is hidden; the default, number 1, is still "B", not "C".
    assert_eq!(drive(&mut state, &cfg, Action::Progress, default_scenes), plain_render());
    assert_eq!(state.curr_line, 1);
    assert_eq!(state.store.get_comparable("b"), Some(StatValue::Bool(true)));
    assert_eq!(state.store.get_comparable("c"), None);
}

fn travel_scenes(name: &str) -> Result<Scene<String>, LoadErr> {
    match name {
        "start" => Ok(Scene {
            lines: vec![
                choice_line(
                    "Where to?",
                    vec![
                        choice("far", None, Some(trigger(vec![], goto(Some("far"), Some(2))))),
                        choice("near", None, Some(trigger(vec![], goto(None, Some(3))))),
                        choice("first", None, Some(trigger(vec![], goto(Some("far"), None)))),
                        choice("lost", None, Some(trigger(vec![], goto(Some("nowhere"), Some(1))))),
                        choice("stay", None, Some(trigger(vec![], goto(None, None)))),
                    ],
                    None,
                ),
                plain("start 1"),
                plain("start 2"),
                plain("start 3"),
            ],
            next_scene: Some(MainOrSceneChange::Main(Some(1))),
        }),
        "far" => Ok(Scene {
            lines: vec![plain("far 0"), plain("far 1"), plain("far 2"), plain("far 3")],
            next_scene: Some(MainOrSceneChange::SceneChange(SceneChange {
                name: Some("start".to_string()),
                target_line: Some(2),
            })),
        }),
        other => Err(LoadErr::IOErr(format!("no scene {}", other))),
    }
}

#[test]
fn a_scene_and_a_line_land_on_that_line_of_that_scene() {
    let cfg = cfg("start");
    let mut state = State::init(&cfg, travel_scenes("start").unwrap());
    assert_eq!(drive(&mut state, &cfg, Action::Select(0), travel_scenes), plain_render());
    assert_eq!(state.scene.name(), "far");
    assert_eq!(state.curr_line, 2);
}

#[test]
fn a_line_alone_stays_in_the_scene() {
    let cfg = cfg("start");
    let mut state = State::init(&cfg, travel_scenes("start").unwrap());
    assert_eq!(drive(&mut state, &cfg, Action::Select(1), travel_scenes), plain_render());
    assert_eq!(state.scene.name(), "start");
    assert_eq!(state.curr_line, 3);
}

#[test]
fn a_scene_alone_lands_on_its_first_line() {
    let cfg = cfg("start");
    let mut state = State::init(&cfg, travel_scenes("start").unwrap());
    assert_eq!(drive(&mut state, &cfg, Action::Select(2), travel_scenes), plain_render());
    assert_eq!(state.scene.name(), "far");
    assert_eq!(state.curr_line, 0);
}

#[test]
fn a_change_that_names_nothing_moves_to_the_next_line() {
    let cfg = cfg("start");
    let mut state = State::init(&cfg, travel_scenes("start").unwrap());
    assert_eq!(drive(&mut state, &cfg, Action::Select(4), travel_scenes), plain_render());
    assert_eq!(state.scene.name(), "start");
    assert_eq!(state.curr_line, 1);
}

#[test]
fn a_scene_that_cannot_be_loaded_fails_the_action() {
    let cfg = cfg("start");
    let mut state = State::init(&cfg, travel_scenes("start").unwrap());
    assert_eq!(
        drive(&mut state, &cfg, Action::Select(3), travel_scenes),
        Err(ResolutionErr {
            fault: Fault::SceneLoad(LoadErr::IOErr("no scene nowhere".to_string())),
            scene: "nowhere".to_string(),
            line: 1,
        })
    );
    // The position has not moved.
    assert_eq!(state.scene.name(), "start");
    assert_eq!(state.curr_line, 0);
    assert!(state.store.is_settled());
}

#[test]
fn the_end_of_a_scene_leads_where_the_scene_says() {
    let cfg = cfg("start");
    let mut state = State::init(&cfg, travel_scenes("far").unwrap());
    state.scene = seren::exec::LoadedScene::loaded("far".to_string(), travel_scenes("far").unwrap());
    state.curr_line = 3;
    // Behind the last line of "far" the cursor goes to line 2 of "start".
    assert_eq!(drive(&mut state, &cfg, Action::Progress, travel_scenes), plain_render());
    assert_eq!(state.scene.name(), "start");
    assert_eq!(state.curr_line, 2);
    assert_eq!(drive(&mut state, &cfg, Action::Progress, travel_scenes), plain_render());
    assert_eq!(state.curr_line, 3);
    // Behind the last line of "start" it goes back to line 1 of the primary scene.
    assert_eq!(drive(&mut state, &cfg, Action::Progress, travel_scenes), plain_render());
    assert_eq!(state.scene.name(), "start");
    assert_eq!(state.curr_line, 1);
}

fn chain_scenes(name: &str) -> Result<Scene<String>, LoadErr> {
    match name {
        "a" => Ok(Scene {
            lines: vec![
                plain("a 0"),
                trigger_entry(vec![change("count", ValueChange::SetInt(0))], None),
                guarded_plain(bool_guard("never", true), "hidden"),
                trigger_entry(vec![change("count", ValueChange::UpdateInt(5))], goto(Some("b"), Some(1))),
                plain("not reached"),
            ],
            next_scene: None,
        }),
        "b" => Ok(Scene {
            lines: vec![
                plain("b 0"),
                // Counts up to 20 by going back to itself.
                GuardedLineOrTrigger::new(
                    Some(int_guard("count", Bound::Unbounded, Bound::Excluded(20))),
                    LineOrTrigger::Trigger(trigger(
                        vec![change("count", ValueChange::UpdateInt(5))],
                        goto(None, Some(1)),
                    )),
                ),
                trigger_entry(vec![change("flag", ValueChange::SetBool(false))], None),
                trigger_entry(vec![change("flag", ValueChange::Custom("toggleBool".to_string()))], None),
                guarded_plain(bool_guard("flag", true), "b 4"),
            ],
            next_scene: None,
        }),
        other => Err(LoadErr::IOErr(format!("no scene {}", other))),
    }
}

#[test]
fn triggers_are_applied_on_the_way_to_the_next_line() {
    let cfg = cfg("a");
    let mut state = State::init(&cfg, chain_scenes("a").unwrap());
    assert_eq!(drive(&mut state, &cfg, Action::Progress, chain_scenes), plain_render());
    assert_eq!(state.scene.name(), "b");
    assert_eq!(state.curr_line, 4);
    assert_eq!(state.store.get_comparable("count"), Some(StatValue::Int(20)));
    assert_eq!(state.store.get_comparable("flag"), Some(StatValue::Bool(true)));
    assert!(state.store.is_settled());
}

#[test]
fn the_steps_of_a_chain_ask_for_scenes_and_moves_in_turn() {
    let cfg = cfg("a");
    let mut state = State::init(&cfg, chain_scenes("a").unwrap());
    let step = state.resolve(&cfg, Action::Progress);
    let pending = match step {
        Step::Load(p) => p,
        other => panic!("expected a load, got {:?}", other),
    };
    assert_eq!(pending, Pending::There(seren::exec::LoadedScene::new("b".to_string()), 1));
    assert_eq!(state.wanted(&pending), "b");
    // The position stays while the cursor is on its way; the changes are staged.
    assert_eq!(state.scene.name(), "a");
    assert_eq!(state.curr_line, 0);
    assert_eq!(state.store.get_comparable("count"), Some(StatValue::Int(5)));
    assert!(!state.store.is_settled());
    // In "b" the trigger at line 1 sends the cursor back to itself.
    let step = state.supply(&cfg, pending, chain_scenes("b"));
    let pending = match step {
        Step::Again(p) => p,
        other => panic!("expected a move, got {:?}", other),
    };
    match &pending {
        Pending::There(handle, line) => {
            assert_eq!(handle.name(), "b");
            assert!(handle.is_loaded());
            assert_eq!(*line, 1);
        }
        other => panic!("expected the cursor in another scene, got {:?}", other),
    }
    assert_eq!(state.store.get_comparable("count"), Some(StatValue::Int(10)));
    assert_eq!(state.scene.name(), "a");
}

fn dead_end_scenes(name: &str) -> Result<Scene<String>, LoadErr> {
    match name {
        "end" => Ok(Scene {
            lines: vec![
                plain("last words"),
                trigger_entry(vec![change("seen", ValueChange::SetBool(true))], None),
                guarded_plain(bool_guard("never", true), "hidden"),
            ],
            next_scene: None,
        }),
        "broken" => Ok(Scene {
            lines: vec![
                plain("before"),
                trigger_entry(
                    vec![change("fine", ValueChange::SetInt(1)), change("absent", ValueChange::UpdateInt(1))],
                    None,
                ),
                plain("after"),
            ],
            next_scene: None,
        }),
        "trigger_first" => Ok(Scene {
            lines: vec![trigger_entry(vec![change("entered", ValueChange::SetBool(true))], None), plain("shown")],
            next_scene: None,
        }),
        other => Err(LoadErr::IOErr(format!("no scene {}", other))),
    }
}

#[test]
fn a_dead_end_is_an_error_and_changes_nothing() {
    let cfg = cfg("end");
    let mut state = State::init(&cfg, dead_end_scenes("end").unwrap());
    assert_eq!(
        drive(&mut state, &cfg, Action::Progress, dead_end_scenes),
        Err(ResolutionErr { fault: Fault::SoftLock, scene: "end".to_string(), line: 1 })
    );
    assert_eq!(state.scene.name(), "end");
    assert_eq!(state.curr_line, 0);
    // What the trigger had changed on the way is forgotten.
    assert_eq!(state.store.get_comparable("seen"), None);
    assert!(state.store.is_settled());
}

#[test]
fn a_change_that_cannot_be_applied_fails_the_action() {
    let cfg = cfg("broken");
    let mut state = State::init(&cfg, dead_end_scenes("broken").unwrap());
    assert_eq!(
        drive(&mut state, &cfg, Action::Progress, dead_end_scenes),
        Err(ResolutionErr {
            fault: Fault::Change(ValueFault::Missing, change("absent", ValueChange::UpdateInt(1))),
            scene: "broken".to_string(),
            line: 1,
        })
    );
    assert_eq!(state.curr_line, 0);
    assert_eq!(state.store.get_comparable("fine"), None);
    assert!(state.store.is_settled());
}

#[test]
fn a_position_behind_the_scene_is_an_error() {
    let cfg = cfg("end");
    let mut state = State::init(&cfg, dead_end_scenes("end").unwrap());
    state.curr_line = 3;
    assert_eq!(
        drive(&mut state, &cfg, Action::Progress, dead_end_scenes),
        Err(ResolutionErr { fault: Fault::LineDoesNotExist, scene: "end".to_string(), line: 3 })
    );
    assert_eq!(
        drive(&mut state, &cfg, Action::Select(0), dead_end_scenes),
        Err(ResolutionErr { fault: Fault::LineDoesNotExist, scene: "end".to_string(), line: 3 })
    );
    assert_eq!(state.curr_line, 3);
}

#[test]
fn a_position_on_a_trigger_is_an_error() {
    let cfg = cfg("end");
    let mut state = State::init(&cfg, dead_end_scenes("end").unwrap());
    state.curr_line = 1;
    assert_eq!(
        drive(&mut state, &cfg, Action::Progress, dead_end_scenes),
        Err(ResolutionErr { fault: Fault::LineIsTrigger, scene: "end".to_string(), line: 1 })
    );
    assert_eq!(state.store.get_comparable("seen"), None);
}

#[test]
fn entering_a_scene_passes_over_its_first_triggers() {
    let cfg = cfg("trigger_first");
    let mut state = State::new(&cfg);
    assert_eq!(drive(&mut state, &cfg, Action::Progress, dead_end_scenes), plain_render());
    assert_eq!(state.curr_line, 1);
    assert_eq!(state.store.get_comparable("entered"), Some(StatValue::Bool(true)));
}

#[test]
fn the_first_scene_is_asked_for_once() {
    let cfg = cfg("intro");
    let mut state = State::new(&cfg);
    match state.resolve(&cfg, Action::Progress) {
        Step::Load(p) => {
            assert_eq!(p, Pending::Here(0));
            assert_eq!(state.wanted(&p), "intro");
            assert_eq!(state.supply(&cfg, p, intro_scenes("intro")), Step::Done(plain_render()));
        }
        other => panic!("expected a load, got {:?}", other),
    }
    // The scene is at hand from now on.
    assert_eq!(state.resolve(&cfg, Action::Progress), Step::Done(plain_render()));
    assert_eq!(state.curr_line, 1);
}

#[test]
fn a_selection_before_the_scene_is_loaded_waits_for_it() {
    let cfg = cfg("intro");
    let mut state = State::new(&cfg);
    state.curr_line = 1;
    match state.resolve(&cfg, Action::Select(0)) {
        Step::Load(p) => {
            assert_eq!(p, Pending::Decide(Action::Select(0)));
            assert_eq!(state.supply(&cfg, p, intro_scenes("intro")), Step::Done(plain_render()));
        }
        other => panic!("expected a load, got {:?}", other),
    }
    assert_eq!(state.curr_line, 2);
    assert_eq!(state.store.get_comparable("picked_b"), Some(StatValue::Bool(true)));
}

#[test]
fn the_first_scene_failing_to_load_is_an_error() {
    let cfg = cfg("absent");
    let mut state = State::new(&cfg);
    assert_eq!(
        drive(&mut state, &cfg, Action::Progress, intro_scenes),
        Err(ResolutionErr {
            fault: Fault::SceneLoad(LoadErr::IOErr("no scene absent".to_string())),
            scene: "absent".to_string(),
            line: 0,
        })
    );
    assert!(!state.scene.is_loaded());
    assert_eq!(state.curr_line, 0);
}

#[test]
fn reset_goes_back_to_the_start() {
    let cfg = cfg("a");
    let mut state = State::init(&cfg, chain_scenes("a").unwrap());
    assert_eq!(drive(&mut state, &cfg, Action::Progress, chain_scenes), plain_render());
    assert_eq!(state.scene.name(), "b");
    state.reset_no_load(&cfg);
    assert_eq!(state.scene.name(), "a");
    assert!(!state.scene.is_loaded());
    assert_eq!(state.curr_line, 0);
    assert_eq!(state.store.get_comparable("count"), None);
}

#[test]
fn every_success_rests_on_a_line_that_is_shown() {
    let cfg = cfg("a");
    let mut state = State::new(&cfg);
    let actions = [Action::Progress, Action::Progress, Action::Select(0), Action::PromptRetry, Action::Progress];
    for a in actions {
        if drive(&mut state, &cfg, a, chain_scenes) == plain_render() {
            let scene = state.scene.scene.as_ref().expect("the scene is at hand");
            let entry = scene.get_line(state.curr_line).expect("the line exists");
            assert!(matches!(entry.to_inner(), LineOrTrigger::Line(_)));
            assert!(entry.try_to_inner(&state.store).is_ok());
        }
    }
}

#[test]
fn asking_again_needs_no_scene() {
    let cfg = cfg("intro");
    let mut state = State::new(&cfg);
    assert_eq!(state.resolve(&cfg, Action::PromptRetry), Step::Done(told("Invalid input. Please retry.")));
    assert!(!state.scene.is_loaded());
    assert_eq!(state.curr_line, 0);
}

#[test]
fn what_was_staged_outside_an_action_is_dropped_by_the_next() {
    let cfg = cfg("intro");
    let mut state = State::init(&cfg, intro_scenes("intro").unwrap());
    state.store.try_update_with_value(&change("bossiness", ValueChange::SetInt(1))).unwrap();
    assert!(!state.store.is_settled());
    state.curr_line = 1;
    // The staged value is forgotten, so "A" stays hidden and choice 0 is "B".
    assert_eq!(drive(&mut state, &cfg, Action::Select(0), intro_scenes), plain_render());
    assert_eq!(state.store.get_comparable("bossiness"), None);
    assert_eq!(state.store.get_comparable("picked_b"), Some(StatValue::Bool(true)));
}

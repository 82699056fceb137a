//! The position and the steps of an action.

use vstd::prelude::*;
use vstd::string::StringExecFns;
use super::scan::lemma_scan_rests_on_line;
use super::turn::{
    lemma_turn_rests_on_line, progress_line, scan_landing, store_effect, take, turn_landing, Landing,
};
use super::{Action, DisplayData, Fault, ResolutionErr};
use crate::game::choice::visible_choices;
use crate::game::{Cfg, LoadErr, Scene};
use crate::store::{Store, Values};
use crate::uial::display::RenderMode;

verus! {

/// A scene by its name, with the scene itself once it has been loaded.
#[derive(Debug, PartialEq, Eq)]
pub struct LoadedScene {
    pub name: String,
    pub scene: Option<Scene<String>>,
}

impl LoadedScene {
    /// The scene called `name`, not loaded yet.
    pub fn new(name: String) -> (h: Self)
        ensures
            h == (LoadedScene { name, scene: None }),
    {
        LoadedScene { name, scene: None }
    }

    /// The scene called `name`, loaded.
    pub fn loaded(name: String, scene: Scene<String>) -> (h: Self)
        ensures
            h == (LoadedScene { name, scene: Some(scene) }),
    {
        LoadedScene { name, scene: Some(scene) }
    }

    /// The name of the scene.
    pub fn name(&self) -> (n: &str)
        ensures
            n@ == self.name@,
    {
        self.name.as_str()
    }

    /// Whether the scene has been loaded.
    pub fn is_loaded(&self) -> (b: bool)
        ensures
            b == (self.scene is Some),
    {
        self.scene.is_some()
    }
}

/// What the player is told after an input that made no sense.
pub open spec fn retry_text() -> Seq<char> {
    "Invalid input. Please retry."@
}

/// What the player is told after picking a choice that is not on offer.
pub open spec fn no_option_text() -> Seq<char> {
    "Attmpted to pick nonexistent option."@
}

/// What is left to do of an action.
#[derive(Debug, PartialEq, Eq)]
pub enum Pending {
    /// The action has not been looked at: the scene of the position is not
    /// at hand.
    Decide(Action),
    /// The cursor is on its way, at this line of the scene of the position.
    Here(usize),
    /// The cursor is on its way, at this line of another scene.
    There(LoadedScene, usize),
}

/// How a step ends.
#[derive(Debug, PartialEq, Eq)]
pub enum Step {
    /// The action is resolved.
    Done(Result<RenderMode<DisplayData>, ResolutionErr>),
    /// The scene that [`State::wanted`] names has to be loaded and handed to
    /// [`State::supply`].
    Load(Pending),
    /// [`State::progress`] goes on from here.
    Again(Pending),
}

/// A position in a narrative: a scene, a line of it, and the values.
pub struct State {
    pub store: Store,
    pub scene: LoadedScene,
    pub curr_line: usize,
}

impl State {
    /// Whether the position is on a line that is there to be shown: the scene
    /// is at hand, and the entry at `curr_line` is a line whose guard holds.
    pub open spec fn on_line(&self) -> bool {
        &&& self.scene.scene matches Some(scene)
        &&& self.curr_line < scene.lines@.len()
        &&& scene.lines@[self.curr_line as int].guarded is Line
        &&& scene.lines@[self.curr_line as int].is_present::<Store>(self.store@)
    }

    /// The scene that has to be loaded before `pending` can go on.
    pub open spec fn wanted_name(&self, pending: Pending) -> String {
        match pending {
            Pending::There(handle, _) => handle.name,
            _ => self.scene.name,
        }
    }

    /// The line that the cursor of `pending` is at.
    pub open spec fn cursor_line(&self, pending: Pending) -> usize {
        match pending {
            Pending::Decide(_) => self.curr_line,
            Pending::Here(line) => line,
            Pending::There(_, line) => line,
        }
    }

    /// How a step ends and where it leaves the position, given where it
    /// leaves the cursor. `moved` is the scene that the cursor is in, where
    /// that is not the scene of the position.
    pub open spec fn finished(
        pre: State,
        moved: Option<LoadedScene>,
        landing: Landing,
        step: Step,
        post: State,
    ) -> bool {
        &&& match landing {
            Landing::Rest(i) => {
                &&& step == Step::Done(Ok(RenderMode::Render(DisplayData { error_text: None })))
                &&& post.curr_line == i
                &&& post.scene == match moved {
                    Some(handle) => handle,
                    None => pre.scene,
                }
            },
            _ => post.curr_line == pre.curr_line && post.scene == pre.scene,
        }
        &&& match landing {
            Landing::Rest(_) => true,
            Landing::Retry => {
                &&& step matches Step::Done(Ok(RenderMode::Render(d)))
                &&& d.error_text matches Some(text)
                &&& text@ == retry_text()
            },
            Landing::Ignore => step == Step::Done(Ok(RenderMode::Ignore)),
            Landing::NoOption => {
                &&& step matches Step::Done(Ok(RenderMode::Render(d)))
                &&& d.error_text matches Some(text)
                &&& text@ == no_option_text()
            },
            Landing::Stop(e) => step == Step::Done(Err(e)),
            Landing::Leave(handle, line) => step == Step::Load(Pending::There(handle, line)),
            Landing::Jump(line) => step == Step::Again(
                match moved {
                    Some(handle) => Pending::There(handle, line),
                    None => Pending::Here(line),
                },
            ),
        }
    }

    /// What [`State::progress`] does: `step` and `post` are what comes of
    /// `pending` at the position `pre`.
    ///
    /// Asking again needs no scene: the player is told to retry and nothing
    /// moves. Else, where the scene that the cursor is in is not at hand, the
    /// step asks for it and changes nothing. An action that has not been
    /// looked at is taken at the line of the position, as [`turn_landing`]
    /// says, against the settled values. A cursor on its way scans on from its line, as
    /// [`scan_landing`] says. The store is settled as [`store_effect`] says
    /// and the position moves as [`State::finished`] says.
    pub open spec fn progresses(
        pre: State,
        cfg: Cfg,
        pending: Pending,
        step: Step,
        post: State,
    ) -> bool {
        match pending {
            Pending::Decide(action) => if action == Action::PromptRetry {
                &&& store_effect(Landing::Retry, pre.store, post.store, pre.store.base())
                &&& State::finished(pre, None, Landing::Retry, step, post)
            } else {
                match pre.scene.scene {
                    None => step == Step::Load(pending) && post == pre,
                    Some(scene) => {
                        let (landing, after) = turn_landing(
                            pre.scene.name,
                            scene,
                            pre.store.base(),
                            pre.curr_line,
                            cfg,
                            action,
                        );
                        &&& store_effect(landing, pre.store, post.store, after)
                        &&& State::finished(pre, None, landing, step, post)
                    },
                }
            },
            Pending::Here(from) => match pre.scene.scene {
                None => step == Step::Load(pending) && post == pre,
                Some(scene) => {
                    let (landing, after) = scan_landing(
                        pre.scene.name,
                        scene,
                        pre.store@,
                        from,
                        cfg,
                    );
                    &&& store_effect(landing, pre.store, post.store, after)
                    &&& State::finished(pre, None, landing, step, post)
                },
            },
            Pending::There(handle, from) => match handle.scene {
                None => step == Step::Load(pending) && post == pre,
                Some(scene) => {
                    let (landing, after) = scan_landing(handle.name, scene, pre.store@, from, cfg);
                    &&& store_effect(landing, pre.store, post.store, after)
                    &&& State::finished(pre, Some(handle), landing, step, post)
                },
            },
        }
    }

    /// The position `pre` with `scene` put where `pending` wants a scene.
    pub open spec fn supplied(pre: State, pending: Pending, scene: Scene<String>) -> State {
        match pending {
            Pending::There(_, _) => pre,
            _ => State {
                store: pre.store,
                scene: LoadedScene { name: pre.scene.name, scene: Some(scene) },
                curr_line: pre.curr_line,
            },
        }
    }

    /// `pending` with `scene` put where it wants a scene.
    pub open spec fn answered(pending: Pending, scene: Scene<String>) -> Pending {
        match pending {
            Pending::There(handle, line) => Pending::There(
                LoadedScene { name: handle.name, scene: Some(scene) },
                line,
            ),
            _ => pending,
        }
    }

    /// The start of a game: the first line of the primary scene, which is
    /// not loaded yet, and no values.
    pub fn new(cfg: &Cfg) -> (s: State)
        ensures
            s.scene == (LoadedScene { name: cfg.primary_scene, scene: None }),
            s.curr_line == 0,
            s.store@ == Values::empty(),
            s.store.base() == Values::empty(),
            s.store.settled(),
    {
        State { store: Store::new(), scene: LoadedScene::new(cfg.primary_scene.clone()), curr_line: 0 }
    }

    /// The start of a game whose primary scene has been loaded.
    pub fn init(cfg: &Cfg, scene: Scene<String>) -> (s: State)
        ensures
            s.scene == (LoadedScene { name: cfg.primary_scene, scene: Some(scene) }),
            s.curr_line == 0,
            s.store@ == Values::empty(),
            s.store.base() == Values::empty(),
            s.store.settled(),
    {
        State {
            store: Store::new(),
            scene: LoadedScene::loaded(cfg.primary_scene.clone(), scene),
            curr_line: 0,
        }
    }

    /// Starts the game again: the position goes back to the first line of
    /// the primary scene, to be loaded anew, and the values are dropped.
    pub fn reset_no_load(&mut self, cfg: &Cfg)
        ensures
            final(self).scene == (LoadedScene { name: cfg.primary_scene, scene: None }),
            final(self).curr_line == 0,
            final(self).store@ == Values::empty(),
            final(self).store.base() == Values::empty(),
            final(self).store.settled(),
    {
        self.store = Store::new();
        self.scene = LoadedScene::new(cfg.primary_scene.clone());
        self.curr_line = 0;
    }

    /// The name of the scene that has to be loaded before `pending` can go
    /// on.
    pub fn wanted<'a>(&'a self, pending: &'a Pending) -> (name: &'a str)
        ensures
            name@ == self.wanted_name(*pending)@,
    {
        match pending {
            Pending::There(handle, _) => handle.name(),
            _ => self.scene.name(),
        }
    }

    fn finish(&mut self, moved: Option<LoadedScene>, landing: Landing) -> (step: Step)
        ensures
            State::finished(*old(self), moved, landing, step, *final(self)),
            final(self).store == old(self).store,
    {
        match landing {
            Landing::Rest(i) => {
                self.curr_line = i;
                if let Some(handle) = moved {
                    self.scene = handle;
                }
                Step::Done(Ok(RenderMode::Render(DisplayData { error_text: None })))
            },
            Landing::Retry => Step::Done(
                Ok(
                    RenderMode::Render(
                        DisplayData {
                            error_text: Some(String::from_str("Invalid input. Please retry.")),
                        },
                    ),
                ),
            ),
            Landing::Ignore => Step::Done(Ok(RenderMode::Ignore)),
            Landing::NoOption => Step::Done(
                Ok(
                    RenderMode::Render(
                        DisplayData {
                            error_text: Some(
                                String::from_str("Attmpted to pick nonexistent option."),
                            ),
                        },
                    ),
                ),
            ),
            Landing::Stop(e) => Step::Done(Err(e)),
            Landing::Leave(handle, line) => Step::Load(Pending::There(handle, line)),
            Landing::Jump(line) => Step::Again(
                match moved {
                    Some(handle) => Pending::There(handle, line),
                    None => Pending::Here(line),
                },
            ),
        }
    }

    /// Goes on with what is left to do of an action, up to the next scene
    /// that has to be loaded or the next move of the cursor inside a scene.
    ///
    /// When the step ends with a plain `Render`, the position is on a line
    /// that is there to be shown.
    pub fn progress(&mut self, cfg: &Cfg, pending: Pending) -> (step: Step)
        ensures
            State::progresses(*old(self), *cfg, pending, step, *final(self)),
            step == Step::Done(Ok(RenderMode::Render(DisplayData { error_text: None })))
                ==> final(self).on_line(),
    {
        match pending {
            Pending::Decide(action) => {
                let landing = match action {
                    Action::PromptRetry => {
                        self.store.rollback();
                        Landing::Retry
                    },
                    _ => match &self.scene.scene {
                        None => {
                            return Step::Load(Pending::Decide(action));
                        },
                        Some(scene) => {
                            proof {
                                lemma_turn_rests_on_line(
                                    self.scene.name,
                                    *scene,
                                    self.store.base(),
                                    self.curr_line,
                                    *cfg,
                                    action,
                                );
                            }
                            take(
                                &self.scene.name,
                                scene,
                                &mut self.store,
                                self.curr_line,
                                cfg,
                                action,
                            )
                        },
                    },
                };
                self.finish(None, landing)
            },
            Pending::Here(from) => {
                let landing = match &self.scene.scene {
                    None => {
                        return Step::Load(Pending::Here(from));
                    },
                    Some(scene) => {
                        proof {
                            lemma_scan_rests_on_line(*scene, self.store@, from as int);
                        }
                        progress_line(&self.scene.name, scene, &mut self.store, from, cfg)
                    },
                };
                self.finish(None, landing)
            },
            Pending::There(handle, from) => {
                let landing = match &handle.scene {
                    None => {
                        return Step::Load(Pending::There(handle, from));
                    },
                    Some(scene) => {
                        proof {
                            lemma_scan_rests_on_line(*scene, self.store@, from as int);
                        }
                        progress_line(&handle.name, scene, &mut self.store, from, cfg)
                    },
                };
                self.finish(Some(handle), landing)
            },
        }
    }

    /// Answers a [`Step::Load`]: hands over the scene that was asked for, or
    /// the reason why it could not be loaded.
    ///
    /// Without the scene the action fails: what was staged is forgotten and
    /// the position stays. With it the step goes on as [`State::progress`]
    /// does, from the position and the pending work that hold the scene.
    pub fn supply(
        &mut self,
        cfg: &Cfg,
        pending: Pending,
        loaded: Result<Scene<String>, LoadErr>,
    ) -> (step: Step)
        ensures
            match loaded {
                Err(reason) => {
                    &&& step == Step::Done(
                        Err(
                            ResolutionErr {
                                fault: Fault::SceneLoad(reason),
                                scene: old(self).wanted_name(pending),
                                line: old(self).cursor_line(pending),
                            },
                        ),
                    )
                    &&& final(self).scene == old(self).scene
                    &&& final(self).curr_line == old(self).curr_line
                    &&& final(self).store@ == old(self).store.base()
                    &&& final(self).store.base() == old(self).store.base()
                    &&& final(self).store.settled()
                },
                Ok(scene) => State::progresses(
                    State::supplied(*old(self), pending, scene),
                    *cfg,
                    State::answered(pending, scene),
                    step,
                    *final(self),
                ),
            },
            step == Step::Done(Ok(RenderMode::Render(DisplayData { error_text: None })))
                ==> final(self).on_line(),
    {
        match loaded {
            Err(reason) => {
                self.store.rollback();
                let (scene, line) = match &pending {
                    Pending::Decide(_) => (self.scene.name.clone(), self.curr_line),
                    Pending::Here(line) => (self.scene.name.clone(), *line),
                    Pending::There(handle, line) => (handle.name.clone(), *line),
                };
                Step::Done(Err(ResolutionErr { fault: Fault::SceneLoad(reason), scene, line }))
            },
            Ok(scene) => match pending {
                Pending::There(handle, line) => self.progress(
                    cfg,
                    Pending::There(LoadedScene::loaded(handle.name, scene), line),
                ),
                pending => {
                    self.scene.scene = Some(scene);
                    self.progress(cfg, pending)
                },
            },
        }
    }

    /// Takes an action of the player: the first step of resolving it.
    ///
    /// A position whose scene has not been loaded has not been entered yet.
    /// There `Progress` enters the scene: the step asks for the scene, and
    /// the cursor will scan from the line of the position itself. Any other
    /// action, and every action at a position that has been entered, is
    /// taken at the line of the position as [`State::progresses`] says.
    pub fn resolve(&mut self, cfg: &Cfg, a: Action) -> (step: Step)
        ensures
            a == Action::Progress && old(self).scene.scene is None ==> {
                &&& step == Step::Load(Pending::Here(old(self).curr_line))
                &&& final(self).scene == old(self).scene
                &&& final(self).curr_line == old(self).curr_line
                &&& final(self).store@ == old(self).store.base()
                &&& final(self).store.base() == old(self).store.base()
                &&& final(self).store.settled()
            },
            !(a == Action::Progress && old(self).scene.scene is None) ==> State::progresses(
                *old(self),
                *cfg,
                Pending::Decide(a),
                step,
                *final(self),
            ),
            step == Step::Done(Ok(RenderMode::Render(DisplayData { error_text: None })))
                ==> final(self).on_line(),
    {
        match a {
            Action::Progress => {
                if !self.scene.is_loaded() {
                    self.store.rollback();
                    return Step::Load(Pending::Here(self.curr_line));
                }
            },
            _ => {},
        }
        self.progress(cfg, Pending::Decide(a))
    }
}

/// Selecting a choice that is not on offer tells the player so and leaves
/// the position and the settled values as they were.
pub proof fn lemma_selection_beyond_visible(pre: State, cfg: Cfg, n: usize, step: Step, post: State)
    requires
        State::progresses(pre, cfg, Pending::Decide(Action::Select(n)), step, post),
        pre.scene.scene matches Some(scene) && scene.line_at(pre.curr_line as int) matches Some(l)
            && n >= visible_choices::<Store>(pre.store.base(), l.authored()).len(),
    ensures
        step matches Step::Done(Ok(RenderMode::Render(d))) && d.error_text matches Some(text)
            && text@ == no_option_text(),
        post.scene == pre.scene,
        post.curr_line == pre.curr_line,
        post.store@ == pre.store.base(),
        post.store.base() == pre.store.base(),
        post.store.settled(),
{
}

/// A position on a line stays on a line: where an action is taken at a
/// position that is on a line that is there to be shown, with nothing
/// staged, every step that ends in success leaves the position on such a
/// line. A cursor on its way ends in success only by coming to rest on
/// one.
pub proof fn lemma_success_rests_on_line(
    pre: State,
    cfg: Cfg,
    pending: Pending,
    step: Step,
    post: State,
)
    requires
        State::progresses(pre, cfg, pending, step, post),
        pending is Decide ==> pre.on_line() && pre.store.settled(),
    ensures
        step matches Step::Done(Ok(_)) ==> post.on_line(),
{
    match pending {
        Pending::Decide(action) => {
            pre.store.lemma_settled_shows_base();
            let scene = pre.scene.scene->0;
            lemma_turn_rests_on_line(
                pre.scene.name,
                scene,
                pre.store.base(),
                pre.curr_line,
                cfg,
                action,
            );
        },
        Pending::Here(from) => {
            if let Some(scene) = pre.scene.scene {
                lemma_scan_rests_on_line(scene, pre.store@, from as int);
            }
        },
        Pending::There(handle, from) => {
            if let Some(scene) = handle.scene {
                lemma_scan_rests_on_line(scene, pre.store@, from as int);
            }
        },
    }
}

/// Only coming to rest moves the position: a step that does not end with
/// a plain `Render` leaves the scene, the line and the settled values as
/// they were, and where such a step ends the action, nothing stays staged.
/// So an action that fails, or that is ignored, leaves the position as it
/// was before the action.
pub proof fn lemma_only_rest_moves(pre: State, cfg: Cfg, pending: Pending, step: Step, post: State)
    requires
        State::progresses(pre, cfg, pending, step, post),
        step != Step::Done(Ok(RenderMode::Render(DisplayData { error_text: None }))),
    ensures
        post.scene == pre.scene,
        post.curr_line == pre.curr_line,
        post.store.base() == pre.store.base(),
        step is Done ==> post.store@ == pre.store.base() && post.store.settled(),
{
}

} // verus!

//! The data of a narrative: guards, triggers, choices, lines and scenes.

use vstd::prelude::*;

pub mod guard;
pub mod trigger;
pub mod choice;
pub mod line;
pub mod state;
pub mod cfg;

pub use cfg::Cfg;
pub use state::KeyedStore;

use choice::{is_visible, visible_choices, Choice};
use line::{GuardedLineOrTrigger, Line, LineOrTrigger};
use trigger::SceneChange;

verus! {

/// Why a configuration could not be had.
#[derive(Debug, Clone, PartialEq, Eq)]
pub enum InitErr {
    /// The file could not be read, for the reason given.
    IOErr(String),
    /// The file makes no sense, for the reason given.
    ParseErr(String),
}

/// Why a scene could not be had.
#[derive(Debug, Clone, PartialEq, Eq)]
pub enum LoadErr {
    /// The file could not be read, for the reason given.
    IOErr(String),
    /// The file makes no sense, for the reason given.
    ParseErr(String),
}

impl From<LoadErr> for InitErr {
    fn from(e: LoadErr) -> (r: Self) {
        match e {
            LoadErr::IOErr(e) => InitErr::IOErr(e),
            LoadErr::ParseErr(e) => InitErr::ParseErr(e),
        }
    }
}

impl vstd::std_specs::convert::FromSpecImpl<LoadErr> for InitErr {
    open spec fn obeys_from_spec() -> bool {
        true
    }

    open spec fn from_spec(e: LoadErr) -> Self {
        match e {
            LoadErr::IOErr(e) => InitErr::IOErr(e),
            LoadErr::ParseErr(e) => InitErr::ParseErr(e),
        }
    }
}

impl From<InitErr> for LoadErr {
    fn from(e: InitErr) -> (r: Self) {
        match e {
            InitErr::IOErr(e) => LoadErr::IOErr(e),
            InitErr::ParseErr(e) => LoadErr::ParseErr(e),
        }
    }
}

impl vstd::std_specs::convert::FromSpecImpl<InitErr> for LoadErr {
    open spec fn obeys_from_spec() -> bool {
        true
    }

    open spec fn from_spec(e: InitErr) -> Self {
        match e {
            InitErr::IOErr(e) => LoadErr::IOErr(e),
            InitErr::ParseErr(e) => LoadErr::ParseErr(e),
        }
    }
}

/// Why a choice cannot be had from a line.
#[derive(Debug, Clone, Copy, PartialEq, Eq)]
pub enum AbsenceError {
    NotEnough,
    NotPresentAfterScan,
}

/// Why a choice cannot be had from a line of a scene.
#[derive(Debug, Clone, Copy, PartialEq, Eq)]
pub enum LineOrChoiceAbsenceError {
    LineDoesNotExist,
    SelectionIsTriggerNotLine,
    Choice(AbsenceError),
}

impl From<AbsenceError> for LineOrChoiceAbsenceError {
    /// The failure of a line to give a choice, as a failure of the scene.
    fn from(e: AbsenceError) -> (r: Self) {
        LineOrChoiceAbsenceError::Choice(e)
    }
}

impl vstd::std_specs::convert::FromSpecImpl<AbsenceError> for LineOrChoiceAbsenceError {
    open spec fn obeys_from_spec() -> bool {
        true
    }

    open spec fn from_spec(e: AbsenceError) -> Self {
        LineOrChoiceAbsenceError::Choice(e)
    }
}

/// Where a scene leads once its lines are used up.
#[derive(Debug, PartialEq, Eq)]
pub enum MainOrSceneChange {
    /// Back to the scene in which the game starts, at the given line or at
    /// its first.
    Main(Option<usize>),
    /// To the scene and line that the change names.
    SceneChange(SceneChange),
}

/// A scene: its entries in order, and where it leads at its end. A scene
/// without `next_scene` is a dead end.
#[derive(Debug, PartialEq, Eq)]
pub struct Scene<K> {
    pub lines: Vec<GuardedLineOrTrigger<K>>,
    pub next_scene: Option<MainOrSceneChange>,
}

impl<K> Scene<K> {
    /// The line at `line`, if the entry there is a line.
    pub open spec fn line_at(&self, line: int) -> Option<Line<K>> {
        if 0 <= line < self.lines@.len() {
            match self.lines@[line].guarded {
                LineOrTrigger::Line(l) => Some(l),
                LineOrTrigger::Trigger(_) => None,
            }
        } else {
            None
        }
    }

    /// The entry at `line_number`.
    pub fn get_line(&self, line_number: usize) -> (r: Option<&GuardedLineOrTrigger<K>>)
        ensures
            match r {
                Some(e) => line_number < self.lines@.len() && *e == self.lines@[line_number as int],
                None => self.lines@.len() <= line_number,
            },
    {
        if line_number < self.lines.len() {
            Some(&self.lines[line_number])
        } else {
            None
        }
    }

    /// The number of entries.
    pub fn line_count(&self) -> (n: usize)
        ensures
            n == self.lines@.len(),
    {
        self.lines.len()
    }

    fn line_or_absence(&self, line: usize) -> (r: Result<&Line<K>, LineOrChoiceAbsenceError>)
        ensures
            match r {
                Ok(l) => self.line_at(line as int) == Some(*l),
                Err(LineOrChoiceAbsenceError::LineDoesNotExist) => self.lines@.len() <= line,
                Err(LineOrChoiceAbsenceError::SelectionIsTriggerNotLine) => {
                    &&& line < self.lines@.len()
                    &&& self.lines@[line as int].guarded is Trigger
                },
                Err(LineOrChoiceAbsenceError::Choice(_)) => false,
            },
    {
        match self.get_line(line) {
            None => Err(LineOrChoiceAbsenceError::LineDoesNotExist),
            Some(entry) => match entry.to_inner().line() {
                None => Err(LineOrChoiceAbsenceError::SelectionIsTriggerNotLine),
                Some(l) => Ok(l),
            },
        }
    }

    /// The `choice`-th of the choices that the player sees at `line`.
    pub fn get_line_and_visible_choice<S: KeyedStore<KeyEnum = K>>(
        &self,
        store: &S,
        line: usize,
        choice: usize,
    ) -> (r: Result<&Choice<K>, LineOrChoiceAbsenceError>)
        ensures
            match r {
                Ok(c) => {
                    &&& self.line_at(line as int) matches Some(l)
                    &&& choice < visible_choices::<S>(store@, l.authored()).len()
                    &&& *c == visible_choices::<S>(store@, l.authored())[choice as int]
                },
                Err(LineOrChoiceAbsenceError::LineDoesNotExist) => self.lines@.len() <= line,
                Err(LineOrChoiceAbsenceError::SelectionIsTriggerNotLine) => {
                    &&& line < self.lines@.len()
                    &&& self.lines@[line as int].guarded is Trigger
                },
                Err(LineOrChoiceAbsenceError::Choice(AbsenceError::NotEnough)) => {
                    &&& self.line_at(line as int) matches Some(l)
                    &&& l.authored().len() <= choice
                },
                Err(LineOrChoiceAbsenceError::Choice(AbsenceError::NotPresentAfterScan)) => {
                    &&& self.line_at(line as int) matches Some(l)
                    &&& choice < l.authored().len()
                    &&& visible_choices::<S>(store@, l.authored()).len() <= choice
                },
            },
    {
        let l = match self.line_or_absence(line) {
            Ok(l) => l,
            Err(e) => {
                return Err(e);
            },
        };
        match l.try_get_visible_choice(store, choice) {
            Ok(c) => Ok(c),
            Err(e) => Err(LineOrChoiceAbsenceError::from(e)),
        }
    }

    /// The choice that is taken at `line` when the player just goes on.
    pub fn get_line_and_default_choice<S: KeyedStore<KeyEnum = K>>(
        &self,
        store: &S,
        line: usize,
    ) -> (r: Result<&Choice<K>, LineOrChoiceAbsenceError>)
        ensures
            match r {
                Ok(c) => {
                    &&& self.line_at(line as int) matches Some(l)
                    &&& l.choices matches Some(cc)
                    &&& cc.default_choice matches Some(d)
                    &&& d < cc.choices@.len()
                    &&& *c == cc.choices@[d as int]
                    &&& is_visible::<S>(store@, *c)
                },
                Err(LineOrChoiceAbsenceError::LineDoesNotExist) => self.lines@.len() <= line,
                Err(LineOrChoiceAbsenceError::SelectionIsTriggerNotLine) => {
                    &&& line < self.lines@.len()
                    &&& self.lines@[line as int].guarded is Trigger
                },
                Err(LineOrChoiceAbsenceError::Choice(AbsenceError::NotEnough)) => {
                    &&& self.line_at(line as int) matches Some(l)
                    &&& match l.choices {
                        Some(cc) => cc.default_choice matches Some(d) && cc.choices@.len() <= d,
                        None => true,
                    }
                },
                Err(LineOrChoiceAbsenceError::Choice(AbsenceError::NotPresentAfterScan)) => {
                    &&& self.line_at(line as int) matches Some(l)
                    &&& l.choices matches Some(cc)
                    &&& match cc.default_choice {
                        Some(d) => d < cc.choices@.len() && !is_visible::<S>(
                            store@,
                            cc.choices@[d as int],
                        ),
                        None => true,
                    }
                },
            },
    {
        let l = match self.line_or_absence(line) {
            Ok(l) => l,
            Err(e) => {
                return Err(e);
            },
        };
        match l.try_get_default_choice(store) {
            Ok(c) => Ok(c),
            Err(e) => Err(LineOrChoiceAbsenceError::from(e)),
        }
    }

    /// Whether the line at `line` offers choices. There is no answer where
    /// `line` holds no line.
    pub fn is_line_choice(&self, line: usize) -> (r: Result<bool, ()>)
        ensures
            match r {
                Ok(b) => self.line_at(line as int) matches Some(l) && b == (l.choices is Some),
                Err(_) => self.line_at(line as int) is None,
            },
    {
        match self.line_or_absence(line) {
            Ok(l) => Ok(l.choices.is_some()),
            Err(_) => Err(()),
        }
    }
}

} // verus!

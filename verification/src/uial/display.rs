//! What the engine hands to a display, and what a display shows of a line.

use vstd::prelude::*;
use vstd::string::StringExecFns;
use crate::exec::{DisplayData, State};
use crate::game::choice::{is_visible, lemma_visible_step, visible_choices, Choice};
use crate::game::line::Line;
use crate::game::state::{check_optional_guard, KeyedStore};
use crate::game::Cfg;
use crate::store::Store;

verus! {

/// What a display should do after an action.
#[derive(Debug, PartialEq, Eq)]
pub enum RenderMode<T> {
    /// Draw again, with the given data.
    Render(T),
    /// Nothing changed.
    Ignore,
}

/// A line as the player sees it: with the choices that the store lets
/// through.
pub struct FilteredStandardLine<'a, S: KeyedStore> {
    pub line: &'a Line<S::KeyEnum>,
    pub store: &'a S,
}

/// The place of the default choice among the visible ones: the number of
/// visible choices before it. A line has none if it names no default, or one
/// that was not written or is hidden.
pub open spec fn shown_default<S: KeyedStore>(values: S::V, line: Line<S::KeyEnum>) -> Option<usize> {
    match line.choices {
        Some(cc) => match cc.default_choice {
            Some(d) => if d < cc.choices@.len() && is_visible::<S>(values, cc.choices@[d as int]) {
                Some(visible_choices::<S>(values, cc.choices@.take(d as int)).len() as usize)
            } else {
                None
            },
            None => None,
        },
        None => None,
    }
}

impl<'a, S: KeyedStore> FilteredStandardLine<'a, S> {
    /// `line` as it is seen with the values of `store`.
    pub fn new(line: &'a Line<S::KeyEnum>, store: &'a S) -> (f: Self)
        ensures
            f.line == line,
            f.store == store,
    {
        FilteredStandardLine { line, store }
    }

    /// The choices that the player sees, in the order in which they were
    /// written.
    pub fn get_filtered_choices(&self) -> (shown: Vec<&'a Choice<S::KeyEnum>>)
        ensures
            shown@.len() == visible_choices::<S>(self.store@, self.line.authored()).len(),
            forall|i: int|
                0 <= i < shown@.len() ==> *#[trigger] shown@[i] == visible_choices::<S>(
                    self.store@,
                    self.line.authored(),
                )[i],
    {
        let mut shown: Vec<&'a Choice<S::KeyEnum>> = Vec::new();
        let line: &'a Line<S::KeyEnum> = self.line;
        if let Some(cc) = &line.choices {
            let mut i: usize = 0;
            while i < cc.choices.len()
                invariant
                    i <= cc.choices.len(),
                    cc.choices@ == self.line.authored(),
                    shown@.len() == visible_choices::<S>(self.store@, cc.choices@.take(i as int)).len(),
                    forall|j: int|
                        0 <= j < shown@.len() ==> *#[trigger] shown@[j] == visible_choices::<S>(
                            self.store@,
                            cc.choices@.take(i as int),
                        )[j],
                decreases cc.choices.len() - i,
            {
                proof {
                    lemma_visible_step::<S>(self.store@, cc.choices@, i as int);
                }
                let c = &cc.choices[i];
                if check_optional_guard(self.store, &c.guard) {
                    shown.push(c);
                }
                i += 1;
            }
            proof {
                assert(cc.choices@.take(cc.choices.len() as int) =~= cc.choices@);
            }
        } else {
            proof {
                reveal(Seq::filter);
            }
        }
        shown
    }

    /// The place of the default choice among the visible ones.
    pub fn get_default_choice_idx(&self) -> (idx: Option<usize>)
        ensures
            idx == shown_default::<S>(self.store@, *self.line),
    {
        let cc = match &self.line.choices {
            Some(cc) => cc,
            None => {
                return None;
            },
        };
        let d = match cc.default_choice {
            Some(d) => d,
            None => {
                return None;
            },
        };
        if d >= cc.choices.len() {
            return None;
        }
        if !check_optional_guard(self.store, &cc.choices[d].guard) {
            return None;
        }
        let mut before: usize = 0;
        let mut i: usize = 0;
        while i < d
            invariant
                i <= d < cc.choices.len(),
                before <= i,
                before == visible_choices::<S>(self.store@, cc.choices@.take(i as int)).len(),
            decreases d - i,
        {
            proof {
                lemma_visible_step::<S>(self.store@, cc.choices@, i as int);
            }
            if check_optional_guard(self.store, &cc.choices[i].guard) {
                before += 1;
            }
            i += 1;
        }
        Some(before)
    }
}

/// The character of a digit.
pub open spec fn digit_char(d: nat) -> char {
    if d == 0 {
        '0'
    } else if d == 1 {
        '1'
    } else if d == 2 {
        '2'
    } else if d == 3 {
        '3'
    } else if d == 4 {
        '4'
    } else if d == 5 {
        '5'
    } else if d == 6 {
        '6'
    } else if d == 7 {
        '7'
    } else if d == 8 {
        '8'
    } else {
        '9'
    }
}

/// A number in decimal digits, without leading zeros.
pub open spec fn decimal(n: nat) -> Seq<char>
    decreases n,
{
    if n < 10 {
        seq![digit_char(n)]
    } else {
        decimal(n / 10).push(digit_char(n % 10))
    }
}

fn digit_text(d: usize) -> (t: &'static str)
    requires
        d < 10,
    ensures
        t@ == seq![digit_char(d as nat)],
{
    proof {
        reveal_strlit("0");
        reveal_strlit("1");
        reveal_strlit("2");
        reveal_strlit("3");
        reveal_strlit("4");
        reveal_strlit("5");
        reveal_strlit("6");
        reveal_strlit("7");
        reveal_strlit("8");
        reveal_strlit("9");
    }
    let t = if d == 0 {
        "0"
    } else if d == 1 {
        "1"
    } else if d == 2 {
        "2"
    } else if d == 3 {
        "3"
    } else if d == 4 {
        "4"
    } else if d == 5 {
        "5"
    } else if d == 6 {
        "6"
    } else if d == 7 {
        "7"
    } else if d == 8 {
        "8"
    } else {
        "9"
    };
    assert(t@ =~= seq![digit_char(d as nat)]);
    t
}

/// Writes a number in decimal digits.
pub fn decimal_string(n: usize) -> (s: String)
    ensures
        s@ == decimal(n as nat),
    decreases n,
{
    if n < 10 {
        String::from_str(digit_text(n))
    } else {
        let mut s = decimal_string(n / 10);
        s.append(digit_text(n % 10));
        assert(s@ =~= decimal(n as nat));
        s
    }
}

/// The head of a line: who speaks, if that is said, and the text.
pub open spec fn heading<K>(line: Line<K>) -> Seq<char> {
    match line.speaker {
        Some(speaker) => speaker@ + ": "@ + line.text@,
        None => line.text@,
    }
}

/// One choice on offer, on a line of its own: its number, its text, and a
/// mark if it is the default.
pub open spec fn option_text<K>(number: nat, choice: Choice<K>, default: bool) -> Seq<char> {
    "\n\t"@ + decimal(number) + ". "@ + choice.text@ + if default {
        " (default)"@
    } else {
        Seq::empty()
    }
}

/// The first `upto` of the choices on offer, numbered from 1.
pub open spec fn options_text<K>(shown: Seq<Choice<K>>, default: Option<usize>, upto: nat) -> Seq<
    char,
>
    decreases upto,
{
    if upto == 0 {
        Seq::empty()
    } else {
        options_text(shown, default, (upto - 1) as nat) + option_text(
            upto,
            shown[upto - 1],
            default == Some((upto - 1) as usize),
        )
    }
}

/// A line as the player reads it: its head and the choices on offer.
pub open spec fn line_text<S: KeyedStore>(values: S::V, line: Line<S::KeyEnum>) -> Seq<char> {
    let shown = visible_choices::<S>(values, line.authored());
    heading(line) + options_text(shown, shown_default::<S>(values, line), shown.len())
}

/// A line with all its choices, as its author reads it.
pub open spec fn full_text<K>(line: Line<K>) -> Seq<char> {
    let default = match line.choices {
        Some(cc) => cc.default_choice,
        None => None,
    };
    heading(line) + options_text(line.authored(), default, line.authored().len())
}

fn append_option<K>(text: &mut String, index: usize, choice: &Choice<K>, default: Option<usize>)
    requires
        index < usize::MAX,
    ensures
        final(text)@ == old(text)@ + option_text((index + 1) as nat, *choice, default == Some(index)),
{
    text.append("\n\t");
    let number = decimal_string(index + 1);
    text.append(number.as_str());
    text.append(". ");
    text.append(choice.text.as_str());
    let marked = match default {
        Some(d) => d == index,
        None => false,
    };
    if marked {
        text.append(" (default)");
    }
    proof {
        assert(text@ =~= old(text)@ + option_text(
            (index + 1) as nat,
            *choice,
            default == Some(index),
        ));
    }
}

fn head_of<K>(line: &Line<K>) -> (text: String)
    ensures
        text@ == heading(*line),
{
    match &line.speaker {
        Some(speaker) => {
            let mut text = speaker.clone();
            text.append(": ");
            text.append(line.text.as_str());
            text
        },
        None => line.text.clone(),
    }
}

impl<K> Line<K> {
    /// The line with all its choices, whatever their guards say.
    pub fn render(&self) -> (text: String)
        ensures
            text@ == full_text(*self),
    {
        let mut text = head_of(self);
        if let Some(cc) = &self.choices {
            let ghost head = heading(*self);
            let mut i: usize = 0;
            while i < cc.choices.len()
                invariant
                    i <= cc.choices@.len(),
                    text@ == head + options_text(cc.choices@, cc.default_choice, i as nat),
                decreases cc.choices.len() - i,
            {
                let ghost before = text@;
                append_option(&mut text, i, &cc.choices[i], cc.default_choice);
                proof {
                    let added = option_text(
                        (i + 1) as nat,
                        cc.choices@[i as int],
                        cc.default_choice == Some(i),
                    );
                    assert(before + added =~= head + (options_text(
                        cc.choices@,
                        cc.default_choice,
                        i as nat,
                    ) + added));
                }
                i += 1;
            }
        } else {
            proof {
                assert(text@ =~= full_text(*self));
            }
        }
        text
    }
}

impl<'a, S: KeyedStore> FilteredStandardLine<'a, S> {
    /// The line as the player reads it.
    pub fn render(&self) -> (text: String)
        ensures
            text@ == line_text::<S>(self.store@, *self.line),
    {
        let mut text = head_of(self.line);
        let shown = self.get_filtered_choices();
        let default = self.get_default_choice_idx();
        let ghost head = heading(*self.line);
        let ghost offered = visible_choices::<S>(self.store@, self.line.authored());
        let mut i: usize = 0;
        while i < shown.len()
            invariant
                i <= shown@.len(),
                shown@.len() == offered.len(),
                forall|j: int| 0 <= j < shown@.len() ==> *#[trigger] shown@[j] == offered[j],
                text@ == head + options_text(offered, default, i as nat),
            decreases shown.len() - i,
        {
            let ghost before = text@;
            append_option(&mut text, i, shown[i], default);
            proof {
                let added = option_text((i + 1) as nat, offered[i as int], default == Some(i));
                assert(before + added =~= head + (options_text(offered, default, i as nat) + added));
            }
            i += 1;
        }
        text
    }
}

/// A position, the configuration of the game, and what to say beside: all
/// that a display needs.
pub struct RenderTup<A, B, C>(pub A, pub B, pub C);

/// What is shown where the position holds no line.
pub open spec fn lost_text() -> Seq<char> {
    "Oops, an error has occurred."@
}

/// What a display shows: the error text, if there is one, after the words
/// `Error encountered: `, and then the line of the position as the player
/// reads it, or an apology where the position holds no line.
pub open spec fn shown_text(state: State, data: DisplayData) -> Seq<char> {
    let told = match data.error_text {
        Some(text) => "Error encountered: "@ + text@,
        None => Seq::empty(),
    };
    told + match state.scene.scene {
        Some(scene) => match scene.line_at(state.curr_line as int) {
            Some(line) => line_text::<Store>(state.store@, line),
            None => lost_text(),
        },
        None => lost_text(),
    }
}

impl<'a> RenderTup<&'a State, &'a Cfg, DisplayData> {
    /// What a display shows of the position.
    pub fn render(&self) -> (text: String)
        ensures
            text@ == shown_text(*self.0, self.2),
    {
        let mut text = match &self.2.error_text {
            Some(told) => {
                let mut text = String::from_str("Error encountered: ");
                text.append(told.as_str());
                text
            },
            None => String::new(),
        };
        let ghost told = text@;
        let state: &State = self.0;
        let line = match &state.scene.scene {
            Some(scene) => match scene.get_line(state.curr_line) {
                Some(entry) => entry.to_inner().line(),
                None => None,
            },
            None => None,
        };
        match line {
            Some(line) => {
                let shown = FilteredStandardLine::new(line, &state.store).render();
                text.append(shown.as_str());
            },
            None => {
                text.append("Oops, an error has occurred.");
            },
        }
        proof {
            assert(text@ =~= shown_text(*self.0, self.2));
        }
        text
    }
}

} // verus!

//! What an input device hands to the engine.
//!
//! A line of text from the player becomes an action: an empty line goes on,
//! `0` asks again, another number picks the choice before it, counted from
//! 1, and anything else goes on.

use vstd::prelude::*;
use vstd::string::is_ascii_spec_bytes;
use super::display::{decimal, digit_char};
use crate::exec::Action;

verus! {

/// What the player asked for: to leave, or an action of the game.
#[derive(Debug, Clone, PartialEq, Eq, Hash)]
pub enum SystemAction<A> {
    Exit,
    Action(A),
}

/// Whether `c` is one of the digits `0` to `9`.
pub open spec fn is_digit(c: char) -> bool {
    '0' <= c <= '9'
}

/// The number that the decimal digits `digits` stand for.
pub open spec fn decimal_value(digits: Seq<char>) -> nat
    decreases digits.len(),
{
    if digits.len() == 0 {
        0
    } else {
        decimal_value(digits.drop_last()) * 10 + (digits.last() as u32 - '0' as u32) as nat
    }
}

/// The digits of a number: the text without a `+` in front.
pub open spec fn unsigned_part(text: Seq<char>) -> Seq<char> {
    if text.len() > 0 && text[0] == '+' {
        text.skip(1)
    } else {
        text
    }
}

/// The number that `text` stands for: decimal digits, at least one, with a
/// `+` before them or nothing, and a value that fits in a `usize`.
pub open spec fn parsed_number(text: Seq<char>) -> Option<usize> {
    let digits = unsigned_part(text);
    if digits.len() > 0 && (forall|i: int| 0 <= i < digits.len() ==> is_digit(#[trigger] digits[i]))
        && decimal_value(digits) <= usize::MAX {
        Some(decimal_value(digits) as usize)
    } else {
        None
    }
}

/// What a line of input asks for; no line means that the input has ended.
pub open spec fn parsed_action(cmd: Option<Seq<char>>) -> SystemAction<Action> {
    match cmd {
        None => SystemAction::Exit,
        Some(text) => SystemAction::Action(
            if text.len() == 0 {
                Action::Progress
            } else {
                match parsed_number(text) {
                    Some(n) => if n == 0 {
                        Action::PromptRetry
                    } else {
                        Action::Select((n - 1) as usize)
                    },
                    None => Action::Progress,
                }
            },
        ),
    }
}

/// More digits never make a smaller number.
pub proof fn lemma_decimal_value_grows(digits: Seq<char>, n: int)
    requires
        0 <= n <= digits.len(),
        forall|i: int| 0 <= i < digits.len() ==> is_digit(#[trigger] digits[i]),
    ensures
        decimal_value(digits.take(n)) <= decimal_value(digits),
    decreases digits.len() - n,
{
    if n == digits.len() {
        assert(digits.take(n) =~= digits);
    } else {
        lemma_decimal_value_grows(digits, n + 1);
        assert(digits.take(n + 1).drop_last() =~= digits.take(n));
        assert(digits.take(n + 1).last() == digits[n]);
    }
}

/// Reads a number: see [`parsed_number`].
pub fn parse_number(text: &str) -> (r: Option<usize>)
    ensures
        r == parsed_number(text@),
{
    if !text.is_ascii() {
        proof {
            let digits = unsigned_part(text@);
            let i = choose|i: int|
                0 <= i < text@.len() && !('\0' <= #[trigger] text@[i] <= '\u{7f}');
            if text@.len() > 0 && text@[0] == '+' {
                assert(digits[i - 1] == text@[i]);
            } else {
                assert(digits[i] == text@[i]);
            }
        }
        return None;
    }
    let bytes = text.as_bytes();
    proof {
        is_ascii_spec_bytes(text);
        assert('+' as u32 == 43 && '0' as u32 == 48 && '9' as u32 == 57 && '\u{7f}' as u32 == 127);
    }
    let ghost digits = unsigned_part(text@);
    let start: usize = if bytes.len() > 0 && bytes[0] == 43 {
        1
    } else {
        0
    };
    assert(digits =~= text@.skip(start as int));
    if start == bytes.len() {
        return None;
    }
    let mut value: usize = 0;
    let mut i: usize = start;
    while i < bytes.len()
        invariant
            start <= i <= bytes.len(),
            bytes@.len() == text@.len(),
            forall|j: int|
                0 <= j < bytes@.len() ==> bytes@[j] == #[trigger] text@[j] as u8 && '\0' <= text@[j]
                    <= '\u{7f}',
            digits == text@.skip(start as int),
            digits == unsigned_part(text@),
            forall|j: int| 0 <= j < i - start ==> is_digit(#[trigger] digits[j]),
            value == decimal_value(digits.take(i - start)),
        decreases bytes.len() - i,
    {
        let b = bytes[i];
        proof {
            assert(digits[i - start] == text@[i as int]);
            assert(digits.take(i - start + 1).drop_last() =~= digits.take(i - start));
            assert(digits.take(i - start + 1).last() == digits[i - start]);
        }
        assert(b == text@[i as int] as u32);
        if b < 48 || b > 57 {
            assert(!is_digit(digits[i - start]));
            return None;
        }
        assert(decimal_value(digits.take(i - start + 1)) == value * 10 + (b - 48));
        let next = match value.checked_mul(10) {
            Some(tens) => tens.checked_add((b - 48) as usize),
            None => None,
        };
        match next {
            Some(v) => {
                value = v;
            },
            None => {
                proof {
                    if forall|j: int| 0 <= j < digits.len() ==> is_digit(#[trigger] digits[j]) {
                        lemma_decimal_value_grows(digits, i - start + 1);
                    }
                }
                return None;
            },
        }
        i += 1;
    }
    proof {
        assert(digits.take(i - start) =~= digits);
    }
    Some(value)
}

impl Action {
    /// Reads what a line of input asks for; no line means that the input
    /// has ended. Every line asks for something: the result is never `Err`.
    pub fn parse_input(cmd: Option<String>) -> (r: Result<SystemAction<Action>, String>)
        ensures
            r == Ok::<SystemAction<Action>, String>(
                parsed_action(
                    match cmd {
                        Some(text) => Some(text@),
                        None => None,
                    },
                ),
            ),
    {
        let action = match cmd {
            None => SystemAction::Exit,
            Some(text) => {
                let text = text.as_str();
                let action = if text.is_empty() {
                    Action::Progress
                } else {
                    match parse_number(text) {
                        Some(n) => if n == 0 {
                            Action::PromptRetry
                        } else {
                            Action::Select(n - 1)
                        },
                        None => Action::Progress,
                    }
                };
                SystemAction::Action(action)
            },
        };
        Ok(action)
    }
}

/// A number written in decimal digits is made of digits and stands for
/// itself.
pub proof fn lemma_decimal_stands_for_itself(n: nat)
    ensures
        decimal(n).len() > 0,
        forall|i: int| 0 <= i < decimal(n).len() ==> is_digit(#[trigger] decimal(n)[i]),
        decimal_value(decimal(n)) == n,
    decreases n,
{
    assert(forall|d: nat|
        d < 10 ==> is_digit(digit_char(d)) && digit_char(d) as u32 - '0' as u32 == d);
    let digits = decimal(n);
    if n < 10 {
        assert(digits.drop_last().len() == 0);
        assert(decimal_value(digits.drop_last()) == 0);
        assert(digits.last() == digit_char(n));
        assert(decimal_value(digits) == 0 * 10 + (digit_char(n) as u32 - '0' as u32));
    } else {
        lemma_decimal_stands_for_itself(n / 10);
        assert(digits.drop_last() =~= decimal(n / 10));
        assert(digits.last() == digit_char(n % 10));
        assert(decimal_value(digits) == decimal_value(decimal(n / 10)) * 10 + (digit_char(n % 10) as u32
            - '0' as u32));
        assert forall|i: int| 0 <= i < digits.len() implies is_digit(#[trigger] digits[i]) by {
            if i < digits.len() - 1 {
                assert(digits[i] == decimal(n / 10)[i]);
            }
        }
    }
}

/// The number that is shown before a choice selects that choice: the
/// choices on offer are numbered from 1, and the number `i + 1`, typed as it
/// is shown, asks for the selection of choice `i`.
pub proof fn lemma_shown_number_selects(i: usize)
    requires
        i < usize::MAX,
    ensures
        parsed_action(Some(decimal((i + 1) as nat))) == SystemAction::Action(Action::Select(i)),
{
    let text = decimal((i + 1) as nat);
    lemma_decimal_stands_for_itself((i + 1) as nat);
    assert(is_digit(text[0]));
    assert(unsigned_part(text) == text);
}

} // verus!

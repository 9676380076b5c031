//! Validated interactive input: the numeric menu choice and the yes/no
//! confirmation. Each parser is total over one input line; the readers take
//! the line stream as a value (one string per prompt) and name the first
//! accepted line, so that re-prompting is the caller's only loop.

use vstd::prelude::*;
use crate::text::{parse_u32, parse_u32_spec, trim, trim_spec};

verus! {

/// What one input line yields for a menu prompt with inclusive bounds
/// `[min, max]`: the line trimmed and parsed as a decimal integer, accepted
/// only within the bounds.
pub open spec fn menu_choice_spec(input: Seq<char>, min: u32, max: u32) -> Option<u32> {
    match parse_u32_spec(trim_spec(input)) {
        Some(v) => if min <= v && v <= max {
            Some(v)
        } else {
            None
        },
        None => None,
    }
}

/// Parses one line of menu input; `None` asks for a re-prompt.
pub fn parse_menu_choice(input: &str, min: u32, max: u32) -> (r: Option<u32>)
    ensures
        r == menu_choice_spec(input@, min, max),
{
    let t = trim(input);
    match parse_u32(t) {
        Some(v) => if min <= v && v <= max {
            Some(v)
        } else {
            None
        },
        None => None,
    }
}

/// The word yes, case-insensitively: `y` or `yes`.
pub open spec fn is_yes_word(t: Seq<char>) -> bool {
    ||| (t.len() == 1 && (t[0] == 'y' || t[0] == 'Y'))
    ||| (t.len() == 3 && (t[0] == 'y' || t[0] == 'Y') && (t[1] == 'e' || t[1] == 'E') && (t[2]
        == 's' || t[2] == 'S'))
}

/// The word no, case-insensitively: `n` or `no`.
pub open spec fn is_no_word(t: Seq<char>) -> bool {
    ||| (t.len() == 1 && (t[0] == 'n' || t[0] == 'N'))
    ||| (t.len() == 2 && (t[0] == 'n' || t[0] == 'N') && (t[1] == 'o' || t[1] == 'O'))
}

/// What one input line yields for a yes/no prompt: the line trimmed,
/// accepted only as one of the fixed tokens, never defaulted.
pub open spec fn yes_no_spec(input: Seq<char>) -> Option<bool> {
    let t = trim_spec(input);
    if is_yes_word(t) {
        Some(true)
    } else if is_no_word(t) {
        Some(false)
    } else {
        None
    }
}

/// Parses one line of yes/no input; `None` asks for a re-prompt.
pub fn parse_yes_no(input: &str) -> (r: Option<bool>)
    ensures
        r == yes_no_spec(input@),
{
    let t = trim(input);
    let len = t.unicode_len();
    if len == 1 {
        let c0 = t.get_char(0);
        if c0 == 'y' || c0 == 'Y' {
            return Some(true);
        }
        if c0 == 'n' || c0 == 'N' {
            return Some(false);
        }
        return None;
    }
    if len == 2 {
        let c0 = t.get_char(0);
        let c1 = t.get_char(1);
        if (c0 == 'n' || c0 == 'N') && (c1 == 'o' || c1 == 'O') {
            return Some(false);
        }
        return None;
    }
    if len == 3 {
        let c0 = t.get_char(0);
        let c1 = t.get_char(1);
        let c2 = t.get_char(2);
        if (c0 == 'y' || c0 == 'Y') && (c1 == 'e' || c1 == 'E') && (c2 == 's' || c2 == 'S') {
            return Some(true);
        }
        return None;
    }
    None
}

/// Normalizes an entered project name: trimmed, and refused when nothing
/// is left — an empty name is a fatal startup condition.
pub fn normalize_project_name(input: &str) -> (r: Option<String>)
    ensures
        match r {
            Some(name) => name@ == trim_spec(input@) && name@.len() > 0,
            None => trim_spec(input@).len() == 0,
        },
{
    let t = trim(input);
    if t.unicode_len() == 0 {
        None
    } else {
        Some(t.to_owned())
    }
}

/// Reads a menu choice from the line stream `inputs`: each line before the
/// accepted one is rejected with exactly one re-prompt. `Some((i, c))` names
/// the first accepted line `i` and its value `c`; `None` means the stream
/// ran out with every line rejected.
pub fn get_menu_choice(inputs: &Vec<String>, min: u32, max: u32) -> (r: Option<(usize, u32)>)
    ensures
        match r {
            Some(p) => p.0 < inputs@.len() && menu_choice_spec(inputs@[p.0 as int]@, min, max)
                == Some(p.1) && forall|j: int|
                0 <= j < p.0 ==> menu_choice_spec(inputs@[j]@, min, max) is None,
            None => forall|j: int|
                0 <= j < inputs@.len() ==> menu_choice_spec(inputs@[j]@, min, max) is None,
        },
{
    let n = inputs.len();
    let mut i: usize = 0;
    while i < n
        invariant
            n == inputs@.len(),
            0 <= i <= n,
            forall|j: int| 0 <= j < i ==> menu_choice_spec(inputs@[j]@, min, max) is None,
        decreases n - i,
    {
        match parse_menu_choice(inputs[i].as_str(), min, max) {
            Some(c) => {
                return Some((i, c));
            },
            None => {
                i = i + 1;
            },
        }
    }
    None
}

/// Reads a yes/no confirmation from the line stream `inputs`, rejecting
/// each line before the accepted one with exactly one re-prompt.
pub fn get_yes_no(inputs: &Vec<String>) -> (r: Option<(usize, bool)>)
    ensures
        match r {
            Some(p) => p.0 < inputs@.len() && yes_no_spec(inputs@[p.0 as int]@) == Some(p.1)
                && forall|j: int| 0 <= j < p.0 ==> yes_no_spec(inputs@[j]@) is None,
            None => forall|j: int| 0 <= j < inputs@.len() ==> yes_no_spec(inputs@[j]@) is None,
        },
{
    let n = inputs.len();
    let mut i: usize = 0;
    while i < n
        invariant
            n == inputs@.len(),
            0 <= i <= n,
            forall|j: int| 0 <= j < i ==> yes_no_spec(inputs@[j]@) is None,
        decreases n - i,
    {
        match parse_yes_no(inputs[i].as_str()) {
            Some(b) => {
                return Some((i, b));
            },
            None => {
                i = i + 1;
            },
        }
    }
    None
}

} // verus!

//! Interpreting the operator's console answers.  The blocking reads
//! themselves live outside the library; this module decides what a line
//! of input means.
use vstd::prelude::*;
use crate::strutil::{lower_of, str_eq, to_lower};

verus! {

/// Whitespace as trimmed from prompt answers.
pub open spec fn is_space(c: char) -> bool {
    c == ' ' || c == '\t' || c == '\n' || c == '\r'
}

/// `s` without its leading whitespace.
pub open spec fn trim_front_spec(s: Seq<char>) -> Seq<char>
    decreases s.len(),
{
    if s.len() > 0 && is_space(s[0]) {
        trim_front_spec(s.drop_first())
    } else {
        s
    }
}

/// `s` without its trailing whitespace.
pub open spec fn trim_back_spec(s: Seq<char>) -> Seq<char>
    decreases s.len(),
{
    if s.len() > 0 && is_space(s.last()) {
        trim_back_spec(s.drop_last())
    } else {
        s
    }
}

/// `s` without leading and trailing whitespace.
pub open spec fn trimmed(s: Seq<char>) -> Seq<char> {
    trim_back_spec(trim_front_spec(s))
}

/// The yes/no meaning of a lowercased, trimmed answer: `y`/`yes` and
/// `n`/`no` decide; anything else is invalid and must be asked again.
pub open spec fn answer_of(t: Seq<char>) -> Option<bool> {
    if t == "y"@ || t == "yes"@ {
        Some(true)
    } else if t == "n"@ || t == "no"@ {
        Some(false)
    } else {
        None
    }
}

/// `c` is whitespace (executable form).
fn is_space_char(c: char) -> (r: bool)
    ensures
        r == is_space(c),
{
    c == ' ' || c == '\t' || c == '\n' || c == '\r'
}

/// Drop leading whitespace.
fn trim_front_exec(s: &str) -> (r: String)
    ensures
        r@ == trim_front_spec(s@),
    decreases s@.len(),
{
    let n = s.unicode_len();
    if n > 0 && is_space_char(s.get_char(0)) {
        let rest = s.substring_char(1, n);
        proof {
            assert(rest@ =~= s@.drop_first());
        }
        trim_front_exec(rest)
    } else {
        s.to_owned()
    }
}

/// Drop trailing whitespace.
fn trim_back_exec(s: &str) -> (r: String)
    ensures
        r@ == trim_back_spec(s@),
    decreases s@.len(),
{
    let n = s.unicode_len();
    if n > 0 && is_space_char(s.get_char(n - 1)) {
        let rest = s.substring_char(0, n - 1);
        proof {
            assert(rest@ =~= s@.drop_last());
        }
        trim_back_exec(rest)
    } else {
        s.to_owned()
    }
}

/// The yes/no meaning of an already-lowercased answer line, after
/// trimming surrounding whitespace; `None` asks the caller to re-prompt.
pub fn interpret_answer(lowered: &str) -> (r: Option<bool>)
    ensures
        r == answer_of(trimmed(lowered@)),
{
    let front = trim_front_exec(lowered);
    let t = trim_back_exec(front.as_str());
    if str_eq(t.as_str(), "y") || str_eq(t.as_str(), "yes") {
        Some(true)
    } else if str_eq(t.as_str(), "n") || str_eq(t.as_str(), "no") {
        Some(false)
    } else {
        None
    }
}

/// Interpret one raw line of a yes/no prompt: a bare newline picks the
/// prompt's stated default; otherwise the line is folded to lowercase
/// and trimmed, and `y`/`yes`/`n`/`no` decide.  `None` means the input
/// was invalid and the prompt is to be repeated.
pub fn parse_answer(line: &str, default_yes: bool) -> (r: Option<bool>)
    ensures
        line@ == "\n"@ ==> r == Some(default_yes),
        line@ != "\n"@ ==> r == answer_of(trimmed(lower_of(line@))),
{
    if str_eq(line, "\n") {
        return Some(default_yes);
    }
    let lowered = to_lower(line);
    interpret_answer(lowered.as_str())
}

} // verus!

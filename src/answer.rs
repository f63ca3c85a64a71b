//! Yes/no questions: reading an answer, and what to do before and after
//! asking.

use vstd::prelude::*;
use vstd::string::*;
use crate::matcher::MainMatcher;
use crate::text::{has_prefix, lower_of, lowercase, owned, same_text, starts_with, trim, trimmed};

verus! {

/// What a trimmed, lower-case answer means: the short forms `y`, `ye`, `t`
/// and `1` and anything that begins with `yes` or `true` mean yes; `n`, `f`
/// and `0` and anything that begins with `no` or `false` mean no; the rest
/// means nothing.
pub open spec fn answer_of(l: Seq<char>) -> Option<bool> {
    if l == "y"@ || l == "ye"@ || l == "t"@ || l == "1"@ {
        Some(true)
    } else if l == "n"@ || l == "f"@ || l == "0"@ {
        Some(false)
    } else if has_prefix(l, "yes"@) || has_prefix(l, "true"@) {
        Some(true)
    } else if has_prefix(l, "no"@) || has_prefix(l, "false"@) {
        Some(false)
    } else {
        None
    }
}

/// What a raw answer means: it is trimmed and lower-cased first.
pub open spec fn derived_answer(input: Seq<char>) -> Option<bool> {
    answer_of(lower_of(trimmed(input)))
}

/// Reads a yes or a no from an answer that is already trimmed and in lower
/// case; `None` where it is neither.
pub fn classify_answer(l: &str) -> (r: Option<bool>)
    ensures
        r == answer_of(l@),
{
    if same_text(l, "y") || same_text(l, "ye") || same_text(l, "t") || same_text(l, "1") {
        Some(true)
    } else if same_text(l, "n") || same_text(l, "f") || same_text(l, "0") {
        Some(false)
    } else if starts_with(l, "yes") || starts_with(l, "true") {
        Some(true)
    } else if starts_with(l, "no") || starts_with(l, "false") {
        Some(false)
    } else {
        None
    }
}

/// Reads a yes or a no from what the user typed, ignoring surrounding white
/// space and case; `None` where no answer can be told.
pub fn derive_bool(input: &str) -> (r: Option<bool>)
    ensures
        r == derived_answer(input@),
{
    let t = trim(input);
    let l = lowercase(t);
    classify_answer(l.as_str())
}

/// The choices shown after a question, the default in capitals:
/// `[Y/n]`, `[y/N]` or `[y/n]`.
pub open spec fn options_text(def: Option<bool>) -> Seq<char> {
    "["@ + (if def == Some(true) {
        "Y"@
    } else {
        "y"@
    }) + "/"@ + (if def == Some(false) {
        "N"@
    } else {
        "n"@
    }) + "]"@
}

/// The choices shown after a question, the default in capitals.
pub fn yes_options(def: Option<bool>) -> (r: String)
    ensures
        r@ == options_text(def),
{
    let mut s = owned("[");
    if def == Some(true) {
        s.append("Y");
    } else {
        s.append("y");
    }
    s.append("/");
    if def == Some(false) {
        s.append("N");
    } else {
        s.append("n");
    }
    s.append("]");
    s
}

/// What happens to a yes/no question before anything is read.
#[derive(Clone, Copy, Debug, PartialEq, Eq, Structural)]
pub enum YesStart {
    /// The answer is known without asking; it is echoed, then returned.
    Answer(bool),
    /// The user must be asked.
    Ask,
    /// Asking is forbidden and there is no default: the program fails.
    Refuse,
}

/// What happens to a question with default `def` under `m` before anything
/// is read: yes when all questions are answered yes, the default when
/// prompting is forbidden, a refusal when it is forbidden and there is no
/// default, else a prompt.
pub open spec fn yes_start_of(def: Option<bool>, m: MainMatcher) -> YesStart {
    if m.assume_yes {
        YesStart::Answer(true)
    } else if m.no_interact {
        match def {
            Some(d) => YesStart::Answer(d),
            None => YesStart::Refuse,
        }
    } else {
        YesStart::Ask
    }
}

/// Decides how a yes/no question with default `def` is answered before
/// anything is read.
pub fn prompt_yes_start(def: Option<bool>, m: &MainMatcher) -> (r: YesStart)
    ensures
        r == yes_start_of(def, *m),
{
    if m.assume_yes {
        YesStart::Answer(true)
    } else if m.no_interact {
        match def {
            Some(d) => YesStart::Answer(d),
            None => YesStart::Refuse,
        }
    } else {
        YesStart::Ask
    }
}

/// What a typed (already trimmed) reply to a question with default `def`
/// decides: the default for an empty reply where there is one, else the
/// answer that the reply gives; `None` means ask again.
pub open spec fn yes_reply_of(answer: Seq<char>, def: Option<bool>) -> Option<bool> {
    if answer.len() == 0 && def is Some {
        def
    } else {
        derived_answer(answer)
    }
}

/// Decides what a typed reply to a yes/no question means; `None` asks for
/// the question to be put again.
pub fn prompt_yes_reply(answer: &str, def: Option<bool>) -> (r: Option<bool>)
    ensures
        r == yes_reply_of(answer@, def),
{
    if answer.unicode_len() == 0 && def.is_some() {
        def
    } else {
        derive_bool(answer)
    }
}

} // verus!

//! The confirmation gate: per-step approval with a sticky "approve all" mode.
use vstd::prelude::*;
use crate::text::{lowercased, same_text, to_lower, trim, trimmed};

verus! {

/// The user's answer to "execute this step?".
#[derive(Clone, Copy, Debug, PartialEq, Eq, Structural)]
pub enum Choice {
    /// Run this step.
    Yes,
    /// Run this step and every later one without asking.
    All,
    /// Skip this step.
    No,
}

/// The choice a normalized answer stands for: `y`/`yes`, `a`/`all`, and
/// anything else declines.
pub open spec fn choice_of(s: Seq<char>) -> Choice {
    if s == "y"@ || s == "yes"@ {
        Choice::Yes
    } else if s == "a"@ || s == "all"@ {
        Choice::All
    } else {
        Choice::No
    }
}

/// The choice of an answer that is already trimmed and in lower case.
pub fn choice_from_normalized(s: &str) -> (r: Choice)
    ensures
        r == choice_of(s@),
{
    if same_text(s, "y") || same_text(s, "yes") {
        Choice::Yes
    } else if same_text(s, "a") || same_text(s, "all") {
        Choice::All
    } else {
        Choice::No
    }
}

/// The choice of a raw answer line, read without regard to case or to
/// surrounding whitespace.
pub fn read_choice(answer: &str) -> (r: Choice)
    ensures
        r == choice_of(lowercased(trimmed(answer@))),
{
    let t = trim(answer);
    let lower = to_lower(t);
    choice_from_normalized(lower.as_str())
}

/// What the answer decides: whether later steps run without asking, and whether this step runs.
pub open spec fn gate(current_auto_confirm: bool, answer: Choice) -> (bool, bool) {
    if current_auto_confirm {
        (true, true)
    } else {
        match answer {
            Choice::Yes => (false, true),
            Choice::All => (true, true),
            Choice::No => (false, false),
        }
    }
}

/// Decides whether a step runs. With auto-confirm on, the step is approved
/// and the answer is not consulted (no prompt is owed); otherwise `Yes`
/// approves, `All` approves and turns auto-confirm on, and `No` skips.
pub fn confirm_action(current_auto_confirm: bool, answer: Choice) -> (r: (bool, bool))
    ensures
        r == gate(current_auto_confirm, answer),
        current_auto_confirm ==> r == (true, true),
        r.0 ==> r.1,
{
    if current_auto_confirm {
        (true, true)
    } else {
        match answer {
            Choice::Yes => (false, true),
            Choice::All => (true, true),
            Choice::No => (false, false),
        }
    }
}

} // verus!

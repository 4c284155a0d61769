//! Unwrapping planner replies that come inside a fenced `json` code block.
use vstd::prelude::*;
use vstd::string::StrSliceExecFns;
use crate::text::{same_text, trim, trimmed};

verus! {

/// What lies between a leading "```json" and a trailing "```" of `t`, if
/// `t` has both.
pub open spec fn fence_body(t: Seq<char>) -> Option<Seq<char>> {
    if t.len() >= 10 && t.take(7) == "```json"@ && t.skip(t.len() - 3) == "```"@ {
        Some(t.subrange(7, t.len() - 3))
    } else {
        None
    }
}

/// The text between a leading "```json" and a trailing "```" of `t`, if it
/// has both.
pub fn fence_contents(t: &str) -> (r: Option<&str>)
    ensures
        match fence_body(t@) {
            Some(b) => r is Some && r->Some_0@ == b,
            None => r is None,
        },
{
    let n = t.unicode_len();
    if n < 10 {
        return None;
    }
    let head = t.substring_char(0, 7);
    let tail = t.substring_char(n - 3, n);
    if same_text(head, "```json") && same_text(tail, "```") {
        assert(t@.take(7) =~= head@);
        assert(t@.skip(t@.len() - 3) =~= tail@);
        Some(t.substring_char(7, n - 3))
    } else {
        assert(head@ =~= t@.take(7));
        assert(tail@ =~= t@.skip(t@.len() - 3));
        None
    }
}

/// The reply with a surrounding ```json fence removed: after trimming, if it
/// starts with "```json" and ends with "```", the trimmed text between;
/// otherwise the reply as it came.
pub fn strip_json_fence(s: &str) -> (r: &str)
    ensures
        r@ == match fence_body(trimmed(s@)) {
            Some(b) => trimmed(b),
            None => s@,
        },
{
    let t = trim(s);
    match fence_contents(t) {
        Some(b) => trim(b),
        None => s,
    }
}

} // verus!

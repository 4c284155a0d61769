//! Reading the planner's answer out of the JSON response of its API: the
//! response is parsed, the configured JSONPath selects within it, and the
//! first value selected must be a JSON string.
use vstd::prelude::*;
use crate::text::chars_of;

verus! {

#[verifier::external_type_specification]
#[verifier::external_body]
pub struct ExJsonValue(serde_json::Value);

#[verifier::external_type_specification]
#[verifier::external_body]
pub struct ExJsonPathError(jsonpath_lib::JsonPathError);

/// Whether `serde_json::from_str` reads a text as a JSON value.
pub uninterp spec fn is_json(text: Seq<char>) -> bool;

/// Relies on `serde_json::from_str`: the text read as a JSON value, where
/// it is one.
#[verifier::external_body]
fn parse_json(text: &str) -> (r: Option<serde_json::Value>)
    ensures
        r is Some == is_json(text@),
{
    serde_json::from_str::<serde_json::Value>(text).ok()
}

/// Whether `c` may stand in a key of a response path.
pub open spec fn key_char(c: char) -> bool {
    ('a' <= c && c <= 'z') || ('A' <= c && c <= 'Z') || ('0' <= c && c <= '9') || c == '_'
}

/// One character of a response path read after `$`. The states: 0 after a
/// complete step, 1 after `.`, 2 inside a key, 3 after `[`, 4 inside an
/// index, 5 after `[*`, 6 rejected, 7 after `..`, 8 inside a key in single
/// quotes, 9 inside a key in double quotes, 10 after the closing quote.
pub open spec fn path_step(state: int, c: char) -> int {
    if state == 0 || state == 2 {
        if c == '.' {
            1
        } else if c == '[' {
            3
        } else if state == 2 && key_char(c) {
            2
        } else {
            6
        }
    } else if state == 1 {
        if c == '.' {
            7
        } else if c == '*' {
            0
        } else if key_char(c) {
            2
        } else {
            6
        }
    } else if state == 7 {
        if c == '*' {
            0
        } else if key_char(c) {
            2
        } else {
            6
        }
    } else if state == 3 {
        if c == '*' {
            5
        } else if '0' <= c && c <= '9' {
            4
        } else if c == '\'' {
            8
        } else if c == '"' {
            9
        } else {
            6
        }
    } else if state == 4 {
        if '0' <= c && c <= '9' {
            4
        } else if c == ']' {
            0
        } else {
            6
        }
    } else if state == 5 || state == 10 {
        if c == ']' {
            0
        } else {
            6
        }
    } else if state == 8 || state == 9 {
        if (state == 8 && c == '\'') || (state == 9 && c == '"') {
            10
        } else if c == '\\' {
            6
        } else {
            state
        }
    } else {
        6
    }
}

pub open spec fn path_state(s: Seq<char>) -> int
    decreases s.len(),
{
    if s.len() == 0 {
        0
    } else {
        path_step(path_state(s.drop_last()), s.last())
    }
}

/// A response path of the supported form: `$` followed by steps `.key`
/// (letters, digits, `_`), `..key`, `.*`, `..*`, `[index]` (decimal
/// digits), `[*]`, or a key in quotes, `['key']` or `["key"]`, holding
/// neither its quote nor a backslash.
pub open spec fn is_simple_path(p: Seq<char>) -> bool {
    p.len() >= 1 && p[0] == '$' && (path_state(p.skip(1)) == 0 || path_state(p.skip(1)) == 2)
}

fn is_key_char(c: char) -> (r: bool)
    ensures
        r == key_char(c),
{
    ('a' <= c && c <= 'z') || ('A' <= c && c <= 'Z') || ('0' <= c && c <= '9') || c == '_'
}

fn next_state(state: u8, c: char) -> (r: u8)
    requires
        state <= 10,
    ensures
        r <= 10,
        r as int == path_step(state as int, c),
{
    if state == 0 || state == 2 {
        if c == '.' {
            1
        } else if c == '[' {
            3
        } else if state == 2 && is_key_char(c) {
            2
        } else {
            6
        }
    } else if state == 1 {
        if c == '.' {
            7
        } else if c == '*' {
            0
        } else if is_key_char(c) {
            2
        } else {
            6
        }
    } else if state == 7 {
        if c == '*' {
            0
        } else if is_key_char(c) {
            2
        } else {
            6
        }
    } else if state == 3 {
        if c == '*' {
            5
        } else if '0' <= c && c <= '9' {
            4
        } else if c == '\'' {
            8
        } else if c == '"' {
            9
        } else {
            6
        }
    } else if state == 4 {
        if '0' <= c && c <= '9' {
            4
        } else if c == ']' {
            0
        } else {
            6
        }
    } else if state == 5 || state == 10 {
        if c == ']' {
            0
        } else {
            6
        }
    } else if state == 8 || state == 9 {
        if (state == 8 && c == '\'') || (state == 9 && c == '"') {
            10
        } else if c == '\\' {
            6
        } else {
            state
        }
    } else {
        6
    }
}

/// Whether a response path has the supported form.
pub fn simple_path(path: &str) -> (r: bool)
    ensures
        r == is_simple_path(path@),
{
    let cs = chars_of(path);
    if cs.len() == 0 || cs[0] != '$' {
        return false;
    }
    let mut state: u8 = 0;
    let mut i: usize = 1;
    while i < cs.len()
        invariant
            1 <= i <= cs.len(),
            cs@ == path@,
            state <= 10,
            state as int == path_state(cs@.subrange(1, i as int)),
        decreases cs.len() - i,
    {
        assert(cs@.subrange(1, i as int + 1).drop_last() =~= cs@.subrange(1, i as int));
        state = next_state(state, cs[i]);
        i = i + 1;
    }
    assert(cs@.subrange(1, cs.len() as int) =~= path@.skip(1));
    state == 0 || state == 2
}

/// Relies on `jsonpath_lib::select`: the values that `path` selects in `v`,
/// or why the path could not be applied. Only paths of the simple form are
/// handed over: they hold no range, union, list of keys or filter, which is
/// where the crate's selector panics (a range step of 0) or is unfinished
/// (keys, ranges and unions inside a filter).
#[verifier::external_body]
fn select_values<'a>(v: &'a serde_json::Value, path: &str) -> (r: Result<
    Vec<&'a serde_json::Value>,
    jsonpath_lib::JsonPathError,
>)
    requires
        is_simple_path(path@),
{
    jsonpath_lib::select(v, path)
}

/// Relies on `serde_json::Value::as_str`: the text of a JSON string, `None`
/// for any other value.
#[verifier::external_body]
fn string_value(v: &serde_json::Value) -> (r: Option<String>) {
    v.as_str().map(String::from)
}

/// Relies on the `Display` of `jsonpath_lib::JsonPathError`: its message.
#[verifier::external_body]
fn path_error_text(e: &jsonpath_lib::JsonPathError) -> (r: String) {
    format!("{}", e)
}

/// Relies on the `Display` of `serde_json::Value`: the value as JSON text.
#[verifier::external_body]
fn json_text(v: &serde_json::Value) -> (r: String) {
    format!("{}", v)
}

/// Relies on the `Debug` of `serde_json::Value`: the value as Rust data.
#[verifier::external_body]
fn value_debug_text(v: &serde_json::Value) -> (r: String) {
    format!("{:?}", v)
}

/// The failure message for a response that is not JSON.
pub open spec fn not_json_message(response_text: Seq<char>) -> Seq<char> {
    "Failed to parse LLM response as JSON. Raw response:\\n"@ + response_text
}

/// The failure message for a response path outside the supported form.
pub open spec fn unsupported_path_message(path: Seq<char>) -> Seq<char> {
    "Unsupported JSONPath '"@ + path
        + "': use $ followed by .key, ..key, .*, ..*, [index], [*] or ['key'] steps"@
}

/// What a response path selected first.
#[derive(Clone, Debug, PartialEq, Eq)]
pub enum FirstSelected {
    /// Nothing was selected.
    Nothing,
    /// A JSON string, with this text.
    Text(String),
    /// Another JSON value, written as Rust data.
    Other(String),
}

/// The answer for what the path selected first: the text of a JSON string,
/// else a failure naming the path and, when nothing was selected, the
/// response (`response_json`, as JSON text).
pub fn answer_of(first: FirstSelected, json_path: &str, response_json: &str) -> (r: Result<
    String,
    String,
>)
    ensures
        match first {
            FirstSelected::Text(x) => r == Ok::<String, String>(x),
            FirstSelected::Other(d) => r is Err && r->Err_0@ == "Expected a string at JSONPath '"@
                + json_path@ + "', but found: "@ + d@,
            FirstSelected::Nothing => r is Err && r->Err_0@
                == "Could not extract the value using the defined path, response='"@
                + response_json@ + "', path = '"@ + json_path@ + "'"@,
        },
{
    match first {
        FirstSelected::Text(x) => Ok(x),
        FirstSelected::Other(d) => {
            let mut m = "Expected a string at JSONPath '".to_owned();
            m.append(json_path);
            m.append("', but found: ");
            m.append(d.as_str());
            Err(m)
        },
        FirstSelected::Nothing => {
            let mut m = "Could not extract the value using the defined path, response='".to_owned();
            m.append(response_json);
            m.append("', path = '");
            m.append(json_path);
            m.append("'");
            Err(m)
        },
    }
}

/// Reads the answer out of the API's response: the text of the first value
/// that `json_path` selects, which must be a JSON string (see `answer_of`).
/// Fails where the response is not JSON, where the path is not of the
/// simple form or cannot be applied, where it selects nothing, or where the
/// first value selected is not a string.
pub fn extract_answer(response_text: &str, json_path: &str) -> (r: Result<String, String>)
    ensures
        !is_json(response_text@) ==> r is Err && r->Err_0@ == not_json_message(response_text@),
        is_json(response_text@) && !is_simple_path(json_path@) ==> r is Err && r->Err_0@
            == unsupported_path_message(json_path@),
{
    let value = match parse_json(response_text) {
        Some(v) => v,
        None => {
            let mut m = "Failed to parse LLM response as JSON. Raw response:\\n".to_owned();
            m.append(response_text);
            return Err(m);
        },
    };
    if !simple_path(json_path) {
        let mut m = "Unsupported JSONPath '".to_owned();
        m.append(json_path);
        m.append("': use $ followed by .key, ..key, .*, ..*, [index], [*] or ['key'] steps");
        return Err(m);
    }
    let selected = match select_values(&value, json_path) {
        Ok(s) => s,
        Err(e) => {
            let mut m = "JSONPath selection error: ".to_owned();
            let t = path_error_text(&e);
            m.append(t.as_str());
            return Err(m);
        },
    };
    let first = if selected.len() == 0 {
        FirstSelected::Nothing
    } else {
        match string_value(selected[0]) {
            Some(x) => FirstSelected::Text(x),
            None => FirstSelected::Other(value_debug_text(selected[0])),
        }
    };
    let response_json = json_text(&value);
    answer_of(first, json_path, response_json.as_str())
}

} // verus!

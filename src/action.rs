//! The action protocol: the closed set of operations a plan can request, the
//! plan itself, and how both are rendered as text.
use vstd::prelude::*;
use vstd::string::StrSliceExecFns;
use crate::text::{chars_of, decimal, decimal_of, join_with, joined_with, string_of};

verus! {

/// One typed unit of work. Every variant carries `action_idx`, an advisory
/// label of the step in its plan (not necessarily unique or contiguous).
#[derive(Clone, Debug, PartialEq)]
pub enum Action {
    /// Create a file with `content`, used literally.
    CreateFile { action_idx: u32, path: String, content: String },
    /// Ask the planner for a `CreateFile` action for `path`, then perform it.
    AskLlmToCreateFile { action_idx: u32, path: String },
    /// Search the web for `query`.
    SearchWeb { action_idx: u32, query: String },
    /// Read the web page at `url`.
    ReadWebPage { action_idx: u32, url: String },
    /// Run `command` in a shell.
    RunCommand { action_idx: u32, command: String },
    /// Ask the user `question` and take the answer as output.
    AskUser { action_idx: u32, question: String },
    /// Delete the file at `path`; a missing file is no failure.
    DeleteFile { action_idx: u32, path: String },
    /// Overwrite the file at `path` with `content`, used literally.
    OverwriteFileContents { action_idx: u32, path: String, content: String },
    /// Ask the planner for an `OverwriteFileContents` action for `path`, then perform it.
    AskLlmToOverwriteFileContents { action_idx: u32, path: String },
    /// Ask the planner `prompt`, with the execution history as context.
    AskLlm { action_idx: u32, prompt: String },
    /// Ask the planner for a sub-plan for `instruction`, using the files or
    /// URLs in `context_sources`, and execute it in place.
    AskLlmForPlan { action_idx: u32, instruction: String, context_sources: Vec<String> },
    /// Read the file at `path`.
    ReadFile { action_idx: u32, path: String },
    /// List the paths matching the glob `pattern`.
    FindFiles { action_idx: u32, pattern: String },
    /// Replace lines `from_line_idx..=until_line_idx` of the file at `path`
    /// with `replacement_lines`, used literally.
    ReplaceFileLines {
        action_idx: u32,
        path: String,
        from_line_idx: usize,
        until_line_idx: usize,
        replacement_lines: String,
    },
    /// Ask the planner for a `ReplaceFileLines` action for `path`, then perform it.
    AskLlmToReplaceFileLines { action_idx: u32, path: String },
    /// Append `content` and a newline to the file at `path`.
    AppendToFile { action_idx: u32, path: String, content: String },
    /// Move the file at `source` to `destination`.
    MoveFile { action_idx: u32, source: String, destination: String },
    /// Copy the file at `source` to `destination`.
    CopyFile { action_idx: u32, source: String, destination: String },
    /// List the entries of the directory at `path`.
    ListDirectory { action_idx: u32, path: String },
    /// Tell whether `path` exists, as `"true"` or `"false"`.
    CheckPathExists { action_idx: u32, path: String },
}

pub(crate) fn clone_strings(v: &Vec<String>) -> (r: Vec<String>)
    ensures
        r@ == v@,
{
    let mut r: Vec<String> = Vec::new();
    let mut i: usize = 0;
    while i < v.len()
        invariant
            i <= v.len(),
            r@ == v@.take(i as int),
        decreases v.len() - i,
    {
        r.push(v[i].clone());
        assert(r@ =~= v@.take(i as int + 1));
        i = i + 1;
    }
    assert(v@.take(v.len() as int) =~= v@);
    r
}

/// The number of bytes that UTF-8 takes for `c`.
pub open spec fn utf8_width(c: char) -> nat {
    if c <= '\u{7F}' {
        1
    } else if c <= '\u{7FF}' {
        2
    } else if c <= '\u{FFFF}' {
        3
    } else {
        4
    }
}

/// How many leading characters of `s` fit, whole, in `budget` bytes of UTF-8.
pub open spec fn fitting(s: Seq<char>, budget: nat) -> nat
    decreases s.len(),
{
    if s.len() == 0 || utf8_width(s[0]) > budget {
        0
    } else {
        1 + fitting(s.skip(1), (budget - utf8_width(s[0])) as nat)
    }
}

/// The text as shown in a plan: when its UTF-8 form is longer than fifty
/// bytes, the characters within its first fifty bytes followed by `...`
/// (a character that straddles byte fifty is left out whole); otherwise the
/// whole text.
pub open spec fn snippet_of(s: Seq<char>) -> Seq<char> {
    let k = fitting(s, 50);
    if k < s.len() {
        s.take(k as int) + "..."@
    } else {
        s
    }
}

/// One line (or, for file contents, several) describing the action.
pub open spec fn description(a: Action) -> Seq<char> {
    match a {
        Action::CreateFile { action_idx, path, content } => decimal_of(action_idx as nat)
            + ". Create file '"@ + path@ + "' with content:\n"@ + content@,
        Action::AskLlmToCreateFile { action_idx, path } => decimal_of(action_idx as nat)
            + ". Ask LLM to generate CreateFile action for path: '"@ + path@ + "'"@,
        Action::SearchWeb { action_idx, query } => decimal_of(action_idx as nat)
            + ". Search web for: '"@ + query@ + "'"@,
        Action::ReadWebPage { action_idx, url } => decimal_of(action_idx as nat)
            + ". Read web page: '"@ + url@ + "'"@,
        Action::RunCommand { action_idx, command } => decimal_of(action_idx as nat)
            + ". Run command: `"@ + command@ + "`"@,
        Action::AskUser { action_idx, question } => decimal_of(action_idx as nat)
            + ". Ask user: '"@ + question@ + "'"@,
        Action::DeleteFile { action_idx, path } => decimal_of(action_idx as nat)
            + ". Delete file: '"@ + path@ + "'"@,
        Action::OverwriteFileContents { action_idx, path, content } => decimal_of(
            action_idx as nat,
        ) + ". Edit file '"@ + path@ + "' with content:\n"@ + content@,
        Action::AskLlmToOverwriteFileContents { action_idx, path } => decimal_of(
            action_idx as nat,
        ) + ". Ask LLM to generate OverwriteFileContents action for path: '"@ + path@ + "'"@,
        Action::AskLlm { action_idx, prompt } => decimal_of(action_idx as nat)
            + ". Ask LLM with prompt: '"@ + prompt@ + "'"@,
        Action::AskLlmForPlan { action_idx, instruction, context_sources } => decimal_of(
            action_idx as nat,
        ) + ". Ask LLM for sub-plan:\n  Instruction: "@ + instruction@ + "\n  Context Sources: "@
            + quoted_list(crate::text::views_of(context_sources@)),
        Action::ReadFile { action_idx, path } => decimal_of(action_idx as nat)
            + ". Read file: '"@ + path@ + "'"@,
        Action::FindFiles { action_idx, pattern } => decimal_of(action_idx as nat)
            + ". Find files matching pattern: '"@ + pattern@ + "'"@,
        Action::ReplaceFileLines {
            action_idx,
            path,
            from_line_idx,
            until_line_idx,
            replacement_lines,
        } => decimal_of(action_idx as nat) + ". Replace lines "@ + decimal_of(
            from_line_idx as nat,
        ) + " to "@ + decimal_of(until_line_idx as nat) + " in file '"@ + path@
            + "' with content: '"@ + snippet_of(replacement_lines@) + "'"@,
        Action::AskLlmToReplaceFileLines { action_idx, path } => decimal_of(action_idx as nat)
            + ". Ask LLM to generate ReplaceFileLines action for path: '"@ + path@ + "'"@,
        Action::AppendToFile { action_idx, path, content } => decimal_of(action_idx as nat)
            + ". Append to file '"@ + path@ + "' with content: '"@ + snippet_of(content@) + "'"@,
        Action::MoveFile { action_idx, source, destination } => decimal_of(action_idx as nat)
            + ". Move file from '"@ + source@ + "' to '"@ + destination@ + "'"@,
        Action::CopyFile { action_idx, source, destination } => decimal_of(action_idx as nat)
            + ". Copy file from '"@ + source@ + "' to '"@ + destination@ + "'"@,
        Action::ListDirectory { action_idx, path } => decimal_of(action_idx as nat)
            + ". List directory '"@ + path@ + "'"@,
        Action::CheckPathExists { action_idx, path } => decimal_of(action_idx as nat)
            + ". Check if path exists '"@ + path@ + "'"@,
    }
}

fn width(c: char) -> (r: usize)
    ensures
        r as nat == utf8_width(c),
{
    if c <= '\u{7F}' {
        1
    } else if c <= '\u{7FF}' {
        2
    } else if c <= '\u{FFFF}' {
        3
    } else {
        4
    }
}

fn snippet(s: &String) -> (r: String)
    ensures
        r@ == snippet_of(s@),
{
    let cs = chars_of(s.as_str());
    let mut k: usize = 0;
    let mut used: usize = 0;
    let mut full = false;
    assert(cs@.skip(0) =~= cs@);
    while !full && k < cs.len()
        invariant
            k <= cs.len(),
            used <= 50,
            cs@ == s@,
            fitting(cs@, 50) == k + fitting(cs@.skip(k as int), (50 - used) as nat),
            full ==> k < cs.len() && utf8_width(cs@[k as int]) > 50 - used,
        decreases cs.len() - k, if full { 0int } else { 1int },
    {
        let w = width(cs[k]);
        assert(cs@.skip(k as int)[0] == cs[k as int]);
        if w > 50 - used {
            full = true;
        } else {
            assert(cs@.skip(k as int).skip(1) =~= cs@.skip(k as int + 1));
            used = used + w;
            k = k + 1;
        }
    }
    if full {
        assert(cs@.skip(k as int)[0] == cs[k as int]);
    }
    assert(fitting(cs@, 50) == k);
    if k < cs.len() {
        let mut r = s.as_str().substring_char(0, k).to_owned();
        r.append("...");
        r
    } else {
        s.clone()
    }
}

impl Action {
    /// The action's description, as shown when a plan is displayed.
    pub fn describe(&self) -> (r: String)
        ensures
            r@ == description(*self),
    {
        match self {
            Action::CreateFile { action_idx, path, content } => {
                let mut r = decimal(*action_idx as u64);
                r.append(". Create file '");
                r.append(path.as_str());
                r.append("' with content:\n");
                r.append(content.as_str());
                r
            },
            Action::AskLlmToCreateFile { action_idx, path } => {
                let mut r = decimal(*action_idx as u64);
                r.append(". Ask LLM to generate CreateFile action for path: '");
                r.append(path.as_str());
                r.append("'");
                r
            },
            Action::SearchWeb { action_idx, query } => {
                let mut r = decimal(*action_idx as u64);
                r.append(". Search web for: '");
                r.append(query.as_str());
                r.append("'");
                r
            },
            Action::ReadWebPage { action_idx, url } => {
                let mut r = decimal(*action_idx as u64);
                r.append(". Read web page: '");
                r.append(url.as_str());
                r.append("'");
                r
            },
            Action::RunCommand { action_idx, command } => {
                let mut r = decimal(*action_idx as u64);
                r.append(". Run command: `");
                r.append(command.as_str());
                r.append("`");
                r
            },
            Action::AskUser { action_idx, question } => {
                let mut r = decimal(*action_idx as u64);
                r.append(". Ask user: '");
                r.append(question.as_str());
                r.append("'");
                r
            },
            Action::DeleteFile { action_idx, path } => {
                let mut r = decimal(*action_idx as u64);
                r.append(". Delete file: '");
                r.append(path.as_str());
                r.append("'");
                r
            },
            Action::OverwriteFileContents { action_idx, path, content } => {
                let mut r = decimal(*action_idx as u64);
                r.append(". Edit file '");
                r.append(path.as_str());
                r.append("' with content:\n");
                r.append(content.as_str());
                r
            },
            Action::AskLlmToOverwriteFileContents { action_idx, path } => {
                let mut r = decimal(*action_idx as u64);
                r.append(". Ask LLM to generate OverwriteFileContents action for path: '");
                r.append(path.as_str());
                r.append("'");
                r
            },
            Action::AskLlm { action_idx, prompt } => {
                let mut r = decimal(*action_idx as u64);
                r.append(". Ask LLM with prompt: '");
                r.append(prompt.as_str());
                r.append("'");
                r
            },
            Action::AskLlmForPlan { action_idx, instruction, context_sources } => {
                let mut r = decimal(*action_idx as u64);
                r.append(". Ask LLM for sub-plan:\n  Instruction: ");
                r.append(instruction.as_str());
                r.append("\n  Context Sources: ");
                let items = quote_list(context_sources);
                r.append(items.as_str());
                r
            },
            Action::ReadFile { action_idx, path } => {
                let mut r = decimal(*action_idx as u64);
                r.append(". Read file: '");
                r.append(path.as_str());
                r.append("'");
                r
            },
            Action::FindFiles { action_idx, pattern } => {
                let mut r = decimal(*action_idx as u64);
                r.append(". Find files matching pattern: '");
                r.append(pattern.as_str());
                r.append("'");
                r
            },
            Action::ReplaceFileLines {
                action_idx,
                path,
                from_line_idx,
                until_line_idx,
                replacement_lines,
            } => {
                let mut r = decimal(*action_idx as u64);
                r.append(". Replace lines ");
                let from = decimal(*from_line_idx as u64);
                r.append(from.as_str());
                r.append(" to ");
                let until = decimal(*until_line_idx as u64);
                r.append(until.as_str());
                r.append(" in file '");
                r.append(path.as_str());
                r.append("' with content: '");
                let cut = snippet(replacement_lines);
                r.append(cut.as_str());
                r.append("'");
                r
            },
            Action::AskLlmToReplaceFileLines { action_idx, path } => {
                let mut r = decimal(*action_idx as u64);
                r.append(". Ask LLM to generate ReplaceFileLines action for path: '");
                r.append(path.as_str());
                r.append("'");
                r
            },
            Action::AppendToFile { action_idx, path, content } => {
                let mut r = decimal(*action_idx as u64);
                r.append(". Append to file '");
                r.append(path.as_str());
                r.append("' with content: '");
                let cut = snippet(content);
                r.append(cut.as_str());
                r.append("'");
                r
            },
            Action::MoveFile { action_idx, source, destination } => {
                let mut r = decimal(*action_idx as u64);
                r.append(". Move file from '");
                r.append(source.as_str());
                r.append("' to '");
                r.append(destination.as_str());
                r.append("'");
                r
            },
            Action::CopyFile { action_idx, source, destination } => {
                let mut r = decimal(*action_idx as u64);
                r.append(". Copy file from '");
                r.append(source.as_str());
                r.append("' to '");
                r.append(destination.as_str());
                r.append("'");
                r
            },
            Action::ListDirectory { action_idx, path } => {
                let mut r = decimal(*action_idx as u64);
                r.append(". List directory '");
                r.append(path.as_str());
                r.append("'");
                r
            },
            Action::CheckPathExists { action_idx, path } => {
                let mut r = decimal(*action_idx as u64);
                r.append(". Check if path exists '");
                r.append(path.as_str());
                r.append("'");
                r
            },
        }
    }
}

/// An ordered sequence of actions, executed in order, with an optional
/// rationale from the planner.
#[derive(Clone, Debug, PartialEq)]
pub struct Plan {
    pub thought: Option<String>,
    pub steps: Vec<Action>,
}

/// A character as it is written inside a quoted field of an action's full
/// text: backslash, double quote, newline, carriage return, tab and NUL are
/// written with a backslash.
pub open spec fn field_char(c: char) -> Seq<char> {
    if c == '\\' {
        seq!['\\', '\\']
    } else if c == '"' {
        seq!['\\', '"']
    } else if c == '\n' {
        seq!['\\', 'n']
    } else if c == '\r' {
        seq!['\\', 'r']
    } else if c == '\t' {
        seq!['\\', 't']
    } else if c == '\0' {
        seq!['\\', '0']
    } else {
        seq![c]
    }
}

pub open spec fn field_escaped(s: Seq<char>) -> Seq<char>
    decreases s.len(),
{
    if s.len() == 0 {
        Seq::empty()
    } else {
        field_escaped(s.drop_last()) + field_char(s.last())
    }
}

/// A text field, escaped and in double quotes.
pub open spec fn quoted_text(s: Seq<char>) -> Seq<char> {
    "\""@ + field_escaped(s) + "\""@
}

/// A list of text fields, each quoted, separated by `, `, in brackets.
pub open spec fn quoted_list(v: Seq<Seq<char>>) -> Seq<char> {
    "["@ + joined_with(v.map_values(|x: Seq<char>| quoted_text(x)), ", "@) + "]"@
}

fn quote_text(s: &str) -> (r: String)
    ensures
        r@ == quoted_text(s@),
{
    let cs = chars_of(s);
    let mut out: Vec<char> = Vec::new();
    out.push('"');
    let mut i: usize = 0;
    while i < cs.len()
        invariant
            i <= cs.len(),
            cs@ == s@,
            out@ == seq!['"'] + field_escaped(cs@.take(i as int)),
        decreases cs.len() - i,
    {
        let c = cs[i];
        assert(cs@.take(i as int + 1).drop_last() =~= cs@.take(i as int));
        if c == '\\' {
            out.push('\\');
            out.push('\\');
        } else if c == '"' {
            out.push('\\');
            out.push('"');
        } else if c == '\n' {
            out.push('\\');
            out.push('n');
        } else if c == '\r' {
            out.push('\\');
            out.push('r');
        } else if c == '\t' {
            out.push('\\');
            out.push('t');
        } else if c == '\0' {
            out.push('\\');
            out.push('0');
        } else {
            out.push(c);
        }
        assert(out@ =~= seq!['"'] + field_escaped(cs@.take(i as int)) + field_char(c));
        i = i + 1;
    }
    assert(cs@.take(cs.len() as int) =~= cs@);
    out.push('"');
    let r = string_of(out.as_slice());
    proof {
        reveal_strlit("\"");
        assert(r@ =~= quoted_text(s@));
    }
    r
}

fn quote_list(v: &Vec<String>) -> (r: String)
    ensures
        r@ == quoted_list(crate::text::views_of(v@)),
{
    let ghost vs = crate::text::views_of(v@);
    let mut items: Vec<String> = Vec::new();
    let mut i: usize = 0;
    while i < v.len()
        invariant
            i <= v.len(),
            vs == crate::text::views_of(v@),
            crate::text::views_of(items@) == vs.take(i as int).map_values(
                |x: Seq<char>| quoted_text(x),
            ),
        decreases v.len() - i,
    {
        let q = quote_text(v[i].as_str());
        let ghost prev = items@;
        items.push(q);
        assert(crate::text::views_of(items@) =~= crate::text::views_of(prev).push(q@));
        assert(crate::text::views_of(items@) =~= vs.take(i as int + 1).map_values(
            |x: Seq<char>| quoted_text(x),
        ));
        i = i + 1;
    }
    assert(vs.take(v.len() as int) =~= vs);
    let mut r = "[".to_owned();
    let j = join_with(&items, ", ");
    r.append(j.as_str());
    r.append("]");
    r
}

/// The action in full: its variant name and every field, text fields
/// quoted and escaped.
pub open spec fn full_text(a: Action) -> Seq<char> {
    match a {
        Action::CreateFile { action_idx, path, content } => "CreateFile { action_idx: "@ + decimal_of(action_idx as nat) + ", path: "@ + quoted_text(path@) + ", content: "@ + quoted_text(content@) + " }"@,
        Action::AskLlmToCreateFile { action_idx, path } => "AskLlmToCreateFile { action_idx: "@ + decimal_of(action_idx as nat) + ", path: "@ + quoted_text(path@) + " }"@,
        Action::SearchWeb { action_idx, query } => "SearchWeb { action_idx: "@ + decimal_of(action_idx as nat) + ", query: "@ + quoted_text(query@) + " }"@,
        Action::ReadWebPage { action_idx, url } => "ReadWebPage { action_idx: "@ + decimal_of(action_idx as nat) + ", url: "@ + quoted_text(url@) + " }"@,
        Action::RunCommand { action_idx, command } => "RunCommand { action_idx: "@ + decimal_of(action_idx as nat) + ", command: "@ + quoted_text(command@) + " }"@,
        Action::AskUser { action_idx, question } => "AskUser { action_idx: "@ + decimal_of(action_idx as nat) + ", question: "@ + quoted_text(question@) + " }"@,
        Action::DeleteFile { action_idx, path } => "DeleteFile { action_idx: "@ + decimal_of(action_idx as nat) + ", path: "@ + quoted_text(path@) + " }"@,
        Action::OverwriteFileContents { action_idx, path, content } => "OverwriteFileContents { action_idx: "@ + decimal_of(action_idx as nat) + ", path: "@ + quoted_text(path@) + ", content: "@ + quoted_text(content@) + " }"@,
        Action::AskLlmToOverwriteFileContents { action_idx, path } => "AskLlmToOverwriteFileContents { action_idx: "@ + decimal_of(action_idx as nat) + ", path: "@ + quoted_text(path@) + " }"@,
        Action::AskLlm { action_idx, prompt } => "AskLlm { action_idx: "@ + decimal_of(action_idx as nat) + ", prompt: "@ + quoted_text(prompt@) + " }"@,
        Action::AskLlmForPlan { action_idx, instruction, context_sources } => "AskLlmForPlan { action_idx: "@ + decimal_of(action_idx as nat) + ", instruction: "@ + quoted_text(instruction@) + ", context_sources: "@ + quoted_list(crate::text::views_of(context_sources@)) + " }"@,
        Action::ReadFile { action_idx, path } => "ReadFile { action_idx: "@ + decimal_of(action_idx as nat) + ", path: "@ + quoted_text(path@) + " }"@,
        Action::FindFiles { action_idx, pattern } => "FindFiles { action_idx: "@ + decimal_of(action_idx as nat) + ", pattern: "@ + quoted_text(pattern@) + " }"@,
        Action::ReplaceFileLines { action_idx, path, from_line_idx, until_line_idx, replacement_lines } => "ReplaceFileLines { action_idx: "@ + decimal_of(action_idx as nat) + ", path: "@ + quoted_text(path@) + ", from_line_idx: "@ + decimal_of(from_line_idx as nat) + ", until_line_idx: "@ + decimal_of(until_line_idx as nat) + ", replacement_lines: "@ + quoted_text(replacement_lines@) + " }"@,
        Action::AskLlmToReplaceFileLines { action_idx, path } => "AskLlmToReplaceFileLines { action_idx: "@ + decimal_of(action_idx as nat) + ", path: "@ + quoted_text(path@) + " }"@,
        Action::AppendToFile { action_idx, path, content } => "AppendToFile { action_idx: "@ + decimal_of(action_idx as nat) + ", path: "@ + quoted_text(path@) + ", content: "@ + quoted_text(content@) + " }"@,
        Action::MoveFile { action_idx, source, destination } => "MoveFile { action_idx: "@ + decimal_of(action_idx as nat) + ", source: "@ + quoted_text(source@) + ", destination: "@ + quoted_text(destination@) + " }"@,
        Action::CopyFile { action_idx, source, destination } => "CopyFile { action_idx: "@ + decimal_of(action_idx as nat) + ", source: "@ + quoted_text(source@) + ", destination: "@ + quoted_text(destination@) + " }"@,
        Action::ListDirectory { action_idx, path } => "ListDirectory { action_idx: "@ + decimal_of(action_idx as nat) + ", path: "@ + quoted_text(path@) + " }"@,
        Action::CheckPathExists { action_idx, path } => "CheckPathExists { action_idx: "@ + decimal_of(action_idx as nat) + ", path: "@ + quoted_text(path@) + " }"@,
    }
}

impl Action {
    /// The action in full, naming its variant and every field; this is how
    /// actions are shown to the planner.
    pub fn full(&self) -> (r: String)
        ensures
            r@ == full_text(*self),
    {
        match self {
            Action::CreateFile { action_idx, path, content } => {
                let mut r = "CreateFile { action_idx: ".to_owned();
                let t = decimal(*action_idx as u64);
                r.append(t.as_str());
                r.append(", path: ");
                let t = quote_text(path.as_str());
                r.append(t.as_str());
                r.append(", content: ");
                let t = quote_text(content.as_str());
                r.append(t.as_str());
                r.append(" }");
                r
            },
            Action::AskLlmToCreateFile { action_idx, path } => {
                let mut r = "AskLlmToCreateFile { action_idx: ".to_owned();
                let t = decimal(*action_idx as u64);
                r.append(t.as_str());
                r.append(", path: ");
                let t = quote_text(path.as_str());
                r.append(t.as_str());
                r.append(" }");
                r
            },
            Action::SearchWeb { action_idx, query } => {
                let mut r = "SearchWeb { action_idx: ".to_owned();
                let t = decimal(*action_idx as u64);
                r.append(t.as_str());
                r.append(", query: ");
                let t = quote_text(query.as_str());
                r.append(t.as_str());
                r.append(" }");
                r
            },
            Action::ReadWebPage { action_idx, url } => {
                let mut r = "ReadWebPage { action_idx: ".to_owned();
                let t = decimal(*action_idx as u64);
                r.append(t.as_str());
                r.append(", url: ");
                let t = quote_text(url.as_str());
                r.append(t.as_str());
                r.append(" }");
                r
            },
            Action::RunCommand { action_idx, command } => {
                let mut r = "RunCommand { action_idx: ".to_owned();
                let t = decimal(*action_idx as u64);
                r.append(t.as_str());
                r.append(", command: ");
                let t = quote_text(command.as_str());
                r.append(t.as_str());
                r.append(" }");
                r
            },
            Action::AskUser { action_idx, question } => {
                let mut r = "AskUser { action_idx: ".to_owned();
                let t = decimal(*action_idx as u64);
                r.append(t.as_str());
                r.append(", question: ");
                let t = quote_text(question.as_str());
                r.append(t.as_str());
                r.append(" }");
                r
            },
            Action::DeleteFile { action_idx, path } => {
                let mut r = "DeleteFile { action_idx: ".to_owned();
                let t = decimal(*action_idx as u64);
                r.append(t.as_str());
                r.append(", path: ");
                let t = quote_text(path.as_str());
                r.append(t.as_str());
                r.append(" }");
                r
            },
            Action::OverwriteFileContents { action_idx, path, content } => {
                let mut r = "OverwriteFileContents { action_idx: ".to_owned();
                let t = decimal(*action_idx as u64);
                r.append(t.as_str());
                r.append(", path: ");
                let t = quote_text(path.as_str());
                r.append(t.as_str());
                r.append(", content: ");
                let t = quote_text(content.as_str());
                r.append(t.as_str());
                r.append(" }");
                r
            },
            Action::AskLlmToOverwriteFileContents { action_idx, path } => {
                let mut r = "AskLlmToOverwriteFileContents { action_idx: ".to_owned();
                let t = decimal(*action_idx as u64);
                r.append(t.as_str());
                r.append(", path: ");
                let t = quote_text(path.as_str());
                r.append(t.as_str());
                r.append(" }");
                r
            },
            Action::AskLlm { action_idx, prompt } => {
                let mut r = "AskLlm { action_idx: ".to_owned();
                let t = decimal(*action_idx as u64);
                r.append(t.as_str());
                r.append(", prompt: ");
                let t = quote_text(prompt.as_str());
                r.append(t.as_str());
                r.append(" }");
                r
            },
            Action::AskLlmForPlan { action_idx, instruction, context_sources } => {
                let mut r = "AskLlmForPlan { action_idx: ".to_owned();
                let t = decimal(*action_idx as u64);
                r.append(t.as_str());
                r.append(", instruction: ");
                let t = quote_text(instruction.as_str());
                r.append(t.as_str());
                r.append(", context_sources: ");
                let t = quote_list(context_sources);
                r.append(t.as_str());
                r.append(" }");
                r
            },
            Action::ReadFile { action_idx, path } => {
                let mut r = "ReadFile { action_idx: ".to_owned();
                let t = decimal(*action_idx as u64);
                r.append(t.as_str());
                r.append(", path: ");
                let t = quote_text(path.as_str());
                r.append(t.as_str());
                r.append(" }");
                r
            },
            Action::FindFiles { action_idx, pattern } => {
                let mut r = "FindFiles { action_idx: ".to_owned();
                let t = decimal(*action_idx as u64);
                r.append(t.as_str());
                r.append(", pattern: ");
                let t = quote_text(pattern.as_str());
                r.append(t.as_str());
                r.append(" }");
                r
            },
            Action::ReplaceFileLines { action_idx, path, from_line_idx, until_line_idx, replacement_lines } => {
                let mut r = "ReplaceFileLines { action_idx: ".to_owned();
                let t = decimal(*action_idx as u64);
                r.append(t.as_str());
                r.append(", path: ");
                let t = quote_text(path.as_str());
                r.append(t.as_str());
                r.append(", from_line_idx: ");
                let t = decimal(*from_line_idx as u64);
                r.append(t.as_str());
                r.append(", until_line_idx: ");
                let t = decimal(*until_line_idx as u64);
                r.append(t.as_str());
                r.append(", replacement_lines: ");
                let t = quote_text(replacement_lines.as_str());
                r.append(t.as_str());
                r.append(" }");
                r
            },
            Action::AskLlmToReplaceFileLines { action_idx, path } => {
                let mut r = "AskLlmToReplaceFileLines { action_idx: ".to_owned();
                let t = decimal(*action_idx as u64);
                r.append(t.as_str());
                r.append(", path: ");
                let t = quote_text(path.as_str());
                r.append(t.as_str());
                r.append(" }");
                r
            },
            Action::AppendToFile { action_idx, path, content } => {
                let mut r = "AppendToFile { action_idx: ".to_owned();
                let t = decimal(*action_idx as u64);
                r.append(t.as_str());
                r.append(", path: ");
                let t = quote_text(path.as_str());
                r.append(t.as_str());
                r.append(", content: ");
                let t = quote_text(content.as_str());
                r.append(t.as_str());
                r.append(" }");
                r
            },
            Action::MoveFile { action_idx, source, destination } => {
                let mut r = "MoveFile { action_idx: ".to_owned();
                let t = decimal(*action_idx as u64);
                r.append(t.as_str());
                r.append(", source: ");
                let t = quote_text(source.as_str());
                r.append(t.as_str());
                r.append(", destination: ");
                let t = quote_text(destination.as_str());
                r.append(t.as_str());
                r.append(" }");
                r
            },
            Action::CopyFile { action_idx, source, destination } => {
                let mut r = "CopyFile { action_idx: ".to_owned();
                let t = decimal(*action_idx as u64);
                r.append(t.as_str());
                r.append(", source: ");
                let t = quote_text(source.as_str());
                r.append(t.as_str());
                r.append(", destination: ");
                let t = quote_text(destination.as_str());
                r.append(t.as_str());
                r.append(" }");
                r
            },
            Action::ListDirectory { action_idx, path } => {
                let mut r = "ListDirectory { action_idx: ".to_owned();
                let t = decimal(*action_idx as u64);
                r.append(t.as_str());
                r.append(", path: ");
                let t = quote_text(path.as_str());
                r.append(t.as_str());
                r.append(" }");
                r
            },
            Action::CheckPathExists { action_idx, path } => {
                let mut r = "CheckPathExists { action_idx: ".to_owned();
                let t = decimal(*action_idx as u64);
                r.append(t.as_str());
                r.append(", path: ");
                let t = quote_text(path.as_str());
                r.append(t.as_str());
                r.append(" }");
                r
            },
        }
    }
}

/// The descriptions of `steps`, each followed by a newline.
pub open spec fn steps_text(steps: Seq<Action>) -> Seq<char>
    decreases steps.len(),
{
    if steps.len() == 0 {
        Seq::empty()
    } else {
        steps_text(steps.drop_last()) + description(steps.last()) + "\n"@
    }
}

/// The text shown for a plan: a header, the thought if any, then either
/// each step's description and a closing rule, or a note that nothing is
/// planned.
pub open spec fn plan_text(thought: Option<Seq<char>>, steps: Seq<Action>) -> Seq<char> {
    let head = "\n--- Proposed Plan ---\n"@ + match thought {
        Some(t) => "Thought: "@ + t + "\n"@,
        None => Seq::empty(),
    };
    if steps.len() == 0 {
        head + "No actions planned.\n"@
    } else {
        head + steps_text(steps) + "--------------------\n"@
    }
}

impl Plan {
    /// Renders the plan as text, one line per step.
    pub fn display(&self) -> (r: String)
        ensures
            r@ == plan_text(
                match self.thought {
                    Some(t) => Some(t@),
                    None => None,
                },
                self.steps@,
            ),
    {
        let mut r = "\n--- Proposed Plan ---\n".to_owned();
        match &self.thought {
            Some(t) => {
                r.append("Thought: ");
                r.append(t.as_str());
                r.append("\n");
            },
            None => {},
        }
        let ghost head = r@;
        if self.steps.len() == 0 {
            r.append("No actions planned.\n");
            return r;
        }
        let mut i: usize = 0;
        while i < self.steps.len()
            invariant
                i <= self.steps.len(),
                r@ == head + steps_text(self.steps@.take(i as int)),
            decreases self.steps.len() - i,
        {
            assert(self.steps@.take(i as int + 1).drop_last() =~= self.steps@.take(i as int));
            let line = self.steps[i].describe();
            r.append(line.as_str());
            r.append("\n");
            assert(r@ =~= head + steps_text(self.steps@.take(i as int + 1)));
            i = i + 1;
        }
        assert(self.steps@.take(self.steps.len() as int) =~= self.steps@);
        r.append("--------------------\n");
        r
    }
}

/// The actions that a step may ask the planner to produce for a path.
#[derive(Clone, Copy, Debug, PartialEq, Eq, Structural)]
pub enum DelegatedKind {
    CreateFile,
    OverwriteFileContents,
    ReplaceFileLines,
}

/// Whether `a` is an action of the kind `k`.
pub open spec fn is_of_kind(a: Action, k: DelegatedKind) -> bool {
    match k {
        DelegatedKind::CreateFile => a is CreateFile,
        DelegatedKind::OverwriteFileContents => a is OverwriteFileContents,
        DelegatedKind::ReplaceFileLines => a is ReplaceFileLines,
    }
}

/// The name of the action kind, as in the plan's own vocabulary.
pub open spec fn kind_name(k: DelegatedKind) -> Seq<char> {
    match k {
        DelegatedKind::CreateFile => "CreateFile"@,
        DelegatedKind::OverwriteFileContents => "OverwriteFileContents"@,
        DelegatedKind::ReplaceFileLines => "ReplaceFileLines"@,
    }
}

/// The instruction that asks the planner for exactly one action of kind `k`
/// for `path`, to be used literally.
pub open spec fn delegation_prompt(k: DelegatedKind, path: Seq<char>) -> Seq<char> {
    match k {
        DelegatedKind::CreateFile => "Generate a JSON object for a CreateFile action with path: '"@
            + path
            + "'. The JSON object should have 'action' = \"create_file\", 'action_idx', 'path', and 'content' fields. Generated `content` will be used LITERALLY and will not be parsed further."@,
        DelegatedKind::OverwriteFileContents =>
            "Generate a JSON object for an OverwriteFileContents action with path: '"@ + path
            + "'. The JSON object should have 'action' = \"overwrite_file_contents\", 'action_idx', 'path', and 'content' fields. Generated `content` will be used LITERALLY and will not be parsed further."@,
        DelegatedKind::ReplaceFileLines =>
            "Generate a JSON object for a ReplaceFileLines action with path: '"@ + path
            + "'. The JSON object should have 'action' = \"replace_file_lines\", 'action_idx', 'path', 'from_line_idx', 'until_line_idx', and 'replacement_lines' fields. Generated `replacement_lines` will be used LITERALLY and will not be parsed further."@,
    }
}

/// The failure message for a planner reply `got` where kind `k` was asked for.
pub open spec fn mismatch_message(k: DelegatedKind, got: Action) -> Seq<char> {
    "LLM did not return "@ + kind_article(k) + kind_name(k) + " action, but instead: "@ + full_text(got)
}

/// The indefinite article before the kind's name.
pub open spec fn kind_article(k: DelegatedKind) -> Seq<char> {
    match k {
        DelegatedKind::OverwriteFileContents => "an "@,
        _ => "a "@,
    }
}

impl DelegatedKind {
    /// Whether `a` is of this kind.
    pub fn matches(&self, a: &Action) -> (r: bool)
        ensures
            r == is_of_kind(*a, *self),
    {
        match self {
            DelegatedKind::CreateFile => matches!(a, Action::CreateFile { .. }),
            DelegatedKind::OverwriteFileContents => matches!(a, Action::OverwriteFileContents { .. }),
            DelegatedKind::ReplaceFileLines => matches!(a, Action::ReplaceFileLines { .. }),
        }
    }

    /// The instruction asking the planner for one action of this kind for `path`.
    pub fn prompt(&self, path: &str) -> (r: String)
        ensures
            r@ == delegation_prompt(*self, path@),
    {
        match self {
            DelegatedKind::CreateFile => {
                let mut r = "Generate a JSON object for a CreateFile action with path: '".to_owned();
                r.append(path);
                r.append("'. The JSON object should have 'action' = \"create_file\", 'action_idx', 'path', and 'content' fields. Generated `content` will be used LITERALLY and will not be parsed further.");
                r
            },
            DelegatedKind::OverwriteFileContents => {
                let mut r = "Generate a JSON object for an OverwriteFileContents action with path: '".to_owned();
                r.append(path);
                r.append("'. The JSON object should have 'action' = \"overwrite_file_contents\", 'action_idx', 'path', and 'content' fields. Generated `content` will be used LITERALLY and will not be parsed further.");
                r
            },
            DelegatedKind::ReplaceFileLines => {
                let mut r = "Generate a JSON object for a ReplaceFileLines action with path: '".to_owned();
                r.append(path);
                r.append("'. The JSON object should have 'action' = \"replace_file_lines\", 'action_idx', 'path', 'from_line_idx', 'until_line_idx', and 'replacement_lines' fields. Generated `replacement_lines` will be used LITERALLY and will not be parsed further.");
                r
            },
        }
    }

    /// The indefinite article before this kind's name.
    pub fn article(&self) -> (r: &'static str)
        ensures
            r@ == kind_article(*self),
    {
        match self {
            DelegatedKind::OverwriteFileContents => "an ",
            _ => "a ",
        }
    }

    /// The name of this kind.
    pub fn name(&self) -> (r: &'static str)
        ensures
            r@ == kind_name(*self),
    {
        match self {
            DelegatedKind::CreateFile => "CreateFile",
            DelegatedKind::OverwriteFileContents => "OverwriteFileContents",
            DelegatedKind::ReplaceFileLines => "ReplaceFileLines",
        }
    }
}

/// Checks the planner's reply to a request for one action of kind `expected`:
/// the action itself when its kind matches, else the mismatch message naming
/// what came instead.
pub fn check_delegated(expected: DelegatedKind, reply: Action) -> (r: Result<Action, String>)
    ensures
        is_of_kind(reply, expected) ==> r == Ok::<Action, String>(reply),
        !is_of_kind(reply, expected) ==> r is Err && r->Err_0@ == mismatch_message(expected, reply),
{
    if expected.matches(&reply) {
        Ok(reply)
    } else {
        let mut msg = "LLM did not return ".to_owned();
        msg.append(expected.article());
        msg.append(expected.name());
        msg.append(" action, but instead: ");
        let d = reply.full();
        msg.append(d.as_str());
        Err(msg)
    }
}

/// The instruction that asks the planner for a new plan after `failed`
/// failed with `error`.
pub open spec fn recovery_instruction(failed: Action, error: Seq<char>) -> Seq<char> {
    "Action "@ + full_text(failed) + " failed with error: "@ + error
        + ". The history of previous actions is provided. Generate a new plan to achieve the original objective, taking this failure into account."@
}

/// Builds the instruction that asks the planner for a new plan after
/// `failed` failed with `error`.
pub fn recovery_request(failed: &Action, error: &str) -> (r: String)
    ensures
        r@ == recovery_instruction(*failed, error@),
{
    let mut r = "Action ".to_owned();
    let d = failed.full();
    r.append(d.as_str());
    r.append(" failed with error: ");
    r.append(error);
    r.append(". The history of previous actions is provided. Generate a new plan to achieve the original objective, taking this failure into account.");
    r
}

} // verus!

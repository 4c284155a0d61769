//! What is sent to the planner and how its configuration is applied: the
//! prompts built from instructions, context and the execution history, the
//! request body and authentication, and a few small decisions around the
//! requests (context sources, web search address, command outcomes).
use vstd::prelude::*;
use crate::action::full_text;
use crate::executor::{history_view, HistoryEntry};
use crate::text::{
    chars_of, has_prefix, join_with, joined_with, lowercased, same_text, starts_with, string_of,
    to_lower, trim, trimmed, views_of,
};
use vstd::string::StrSliceExecFns;

verus! {

/// The fixed head of the prompt that asks the planner for a plan: the rules
/// and the schema a plan must follow.
pub const PLAN_PROMPT_HEAD: &'static str = "Based on the following instruction and context, create a step-by-step plan to achieve the goal.
        NEVER directly reply with actions CreateFile, OverwriteFileContents, ReplaceFileLines unless asked to.
        Output the plan ONLY as a JSON object matching the following Rust interface (\"action\" tag MUST BE snake_case):

        ```rust
    #[derive(Serialize, Deserialize, Debug, Clone)]
    #[serde(tag = \"action\", rename_all = \"snake_case\")]
    pub enum Action {
        //Ask Llm to reply with a one action subplan consisting of CreateFile action for the file with `path`
        AskLlmToCreateFile { action_idx: u32, path: String },
        //Create file on the machine of the user, `content` WILL NOT BE EXPANDED OR PARSED AND WILL BE TREATED LITERALLY, no output
        CreateFile { action_idx: u32, path: String, content: String },
        //Run command on the machine of the user, `command` is the command to execute, output the result
        RunCommand { action_idx: u32, command: String },
        //Search the web using the provided `query`, output the results
        SearchWeb { action_idx: u32, query: String }, output the results
        //Read the content of the web page at the given `url`, output the result
        ReadWebPage { action_idx: u32, url: String },
        //Ask the user the specified `question`, output the result
        AskUser { action_idx: u32, question: String },
        //Delete the file at the specified `path`, no output
        DeleteFile { action_idx: u32, path: String },
        //Ask Llm to reply with  a one action subplan consisting of a OverwriteFileContents action for the file with `path`, output the result of OverwriteFileContents
        AskLlmToOverwriteFileContents {action_idx: u32, path: String},
        // \"content \" WILL NOT BE EXPANDED OR PARSED AND WILL BE TREATED LITERALLY, no output
        OverwriteFileContents { action_idx: u32, path: String, content: String },
        // Ask LLM to output a response to the user (using the knowledge of previous actions and their outputs)
        AskLlm { action_idx: u32, prompt: String },
        // AskLlmForPlan provides the ability for the LLM to respond with a new subplan
        // 'instruction' guides the sub-plan generation.
        // 'context_sources' provides file paths or URLs for context.
        // the previously executed actions and their outputs are *always* provided to LLM in this action
        AskLlmForPlan {
            action_idx: u32,
            instruction: String,
            context_sources: Vec<String>
        },
        //Read the content of the file at the specified `path`, output the result
        ReadFile { action_idx: u32, path: String },
        //Find files matching the given `pattern`, output the result
        FindFiles { action_idx: u32, pattern: String },
        //Ask LLM to reply with a one action subplan consisting of a ReplaceFileLines action for the file with `path`, , output the result of ReplaceFileLines
        AskLlmToReplaceFileLines {action_idx: u32, path: String},
        //Replace lines from `from_line_idx` to `until_line_idx` in the file at `path` with `replacement_lines`, `replacement_lines` WILL NOT BE EXPANDED OR PARSED AND WILL BE TREATED LITERALLY, no output
        ReplaceFileLines {action_idx: u32, path: String, from_line_idx: u32, until_line_idx: u32, replacement_lines: String},
        // Append content to the file at the specified `path`, no output
        AppendToFile { action_idx: u32, path: String, content: String },
        // Move the file from `source` to `destination`, no output
        MoveFile { action_idx: u32, source: String, destination: String },
        // Copy the file from `source` to `destination`, no output
        CopyFile { action_idx: u32, source: String, destination: String },
        // List the contents of the directory at `path`, output the result
        ListDirectory { action_idx: u32, path: String },
        // Check if the path exists, output \"true\" or \"false\"
        CheckPathExists { action_idx: u32, path: String },
    }

    #[derive(Serialize, Deserialize, Debug, Clone)]
    pub struct Plan {
        pub thought: Option<String>,
        pub steps: Vec<Action>,
    }
        ```

        \"Previous executed actions (action and its output):\" ";

/// One history entry as shown to the planner.
pub open spec fn entry_text(e: (crate::action::Action, Option<Seq<char>>)) -> Seq<char> {
    match e.1 {
        Some(out) => "action: "@ + full_text(e.0) + ", output: "@ + out,
        None => full_text(e.0),
    }
}

/// The history as shown to the planner: the entries, separated by the two
/// characters `\n`.
pub open spec fn history_text(h: Seq<(crate::action::Action, Option<Seq<char>>)>) -> Seq<char> {
    joined_with(h.map_values(|e: (crate::action::Action, Option<Seq<char>>)| entry_text(e)), "\\n"@)
}

fn entry(e: &HistoryEntry) -> (r: String)
    ensures
        r@ == entry_text((e.0, crate::executor::text_opt(e.1))),
{
    let d = e.0.full();
    match &e.1 {
        Some(out) => {
            let mut r = "action: ".to_owned();
            r.append(d.as_str());
            r.append(", output: ");
            r.append(out.as_str());
            r
        },
        None => d,
    }
}

/// Renders the execution history for the planner.
pub fn history_context(history: &Vec<HistoryEntry>) -> (r: String)
    ensures
        r@ == history_text(history_view(history@)),
{
    let ghost hv = history_view(history@);
    let mut entries: Vec<String> = Vec::new();
    let mut i: usize = 0;
    while i < history.len()
        invariant
            i <= history.len(),
            hv == history_view(history@),
            views_of(entries@) == hv.take(i as int).map_values(
                |e: (crate::action::Action, Option<Seq<char>>)| entry_text(e),
            ),
        decreases history.len() - i,
    {
        let t = entry(&history[i]);
        let ghost prev = entries@;
        entries.push(t);
        assert(views_of(entries@) =~= views_of(prev).push(t@));
        assert(views_of(entries@) =~= hv.take(i as int + 1).map_values(
            |e: (crate::action::Action, Option<Seq<char>>)| entry_text(e),
        ));
        i = i + 1;
    }
    assert(hv.take(history.len() as int) =~= hv);
    join_with(&entries, "\\n")
}

/// The prompt for a question answered with the execution history as context.
pub open spec fn history_prompt_text(
    question: Seq<char>,
    h: Seq<(crate::action::Action, Option<Seq<char>>)>,
) -> Seq<char> {
    "\n        Question: "@ + question + "\n\n        Previous executed actions (action and its output): "@
        + history_text(h) + "\n    "@
}

/// Builds the prompt for a question answered with the execution history as
/// context.
pub fn history_prompt(question: &str, history: &Vec<HistoryEntry>) -> (r: String)
    ensures
        r@ == history_prompt_text(question@, history_view(history@)),
{
    let mut r = "\n        Question: ".to_owned();
    r.append(question);
    r.append("\n\n        Previous executed actions (action and its output): ");
    let h = history_context(history);
    r.append(h.as_str());
    r.append("\n    ");
    r
}

/// The prompt for a question with the combined context, if any.
pub open spec fn question_prompt_text(prompt: Seq<char>, context: Option<Seq<char>>) -> Seq<char> {
    "\n    Question: "@ + prompt + "\n\n    Context: "@ + match context {
        Some(c) => c,
        None => Seq::empty(),
    } + "\n"@
}

/// Builds the prompt for a question with the combined context, if any.
pub fn question_prompt(prompt: &str, context: &Option<String>) -> (r: String)
    ensures
        r@ == question_prompt_text(prompt@, crate::executor::text_opt(*context)),
{
    let mut r = "\n    Question: ".to_owned();
    r.append(prompt);
    r.append("\n\n    Context: ");
    match context {
        Some(c) => r.append(c.as_str()),
        None => {},
    }
    r.append("\n");
    r
}

/// The prompt that asks the planner for a plan toward `instruction`, given
/// the history (as JSON text) and the combined context, if any.
pub open spec fn plan_prompt_text(
    history_json: Seq<char>,
    instruction: Seq<char>,
    context: Option<Seq<char>>,
) -> Seq<char> {
    PLAN_PROMPT_HEAD@ + history_json + "\n\n        \"Instruction:\" "@ + instruction
        + "\n\n        \"Context:\" "@ + match context {
        Some(c) => c,
        None => "No context provided."@,
    } + "\n\n        Respond ONLY with a valid JSON object"@
}

/// Builds the prompt that asks the planner for a plan toward `instruction`.
pub fn plan_prompt(history_json: &str, instruction: &str, context: &Option<String>) -> (r: String)
    ensures
        r@ == plan_prompt_text(history_json@, instruction@, crate::executor::text_opt(*context)),
{
    let mut r = PLAN_PROMPT_HEAD.to_owned();
    r.append(history_json);
    r.append("\n\n        \"Instruction:\" ");
    r.append(instruction);
    r.append("\n\n        \"Context:\" ");
    match context {
        Some(c) => r.append(c.as_str()),
        None => r.append("No context provided."),
    }
    r.append("\n\n        Respond ONLY with a valid JSON object");
    r
}

/// The content read from one context source (a file path or a URL).
#[derive(Clone, Debug)]
pub struct ContextContent {
    pub source: String,
    pub content: String,
}

/// One fetched context source as shown to the planner.
pub open spec fn context_block(source: Seq<char>, content: Seq<char>) -> Seq<char> {
    "Context from "@ + source + ":\n"@ + content + "\n"@
}

/// The blocks of the fetched sources, separated by newlines; `None` when
/// nothing was fetched.
pub open spec fn combined_text(fetched: Seq<ContextContent>) -> Option<Seq<char>> {
    if fetched.len() == 0 {
        None
    } else {
        Some(
            joined_with(
                fetched.map_values(|c: ContextContent| context_block(c.source@, c.content@)),
                "\n"@,
            ),
        )
    }
}

/// Combines the fetched context sources into one text for the planner.
pub fn combined_context(fetched: &Vec<ContextContent>) -> (r: Option<String>)
    ensures
        crate::executor::text_opt(r) == combined_text(fetched@),
{
    if fetched.len() == 0 {
        return None;
    }
    let ghost blocks = fetched@.map_values(
        |c: ContextContent| context_block(c.source@, c.content@),
    );
    let mut parts: Vec<String> = Vec::new();
    let mut i: usize = 0;
    while i < fetched.len()
        invariant
            i <= fetched.len(),
            blocks == fetched@.map_values(|c: ContextContent| context_block(c.source@, c.content@)),
            views_of(parts@) == blocks.take(i as int),
        decreases fetched.len() - i,
    {
        let mut b = "Context from ".to_owned();
        b.append(fetched[i].source.as_str());
        b.append(":\n");
        b.append(fetched[i].content.as_str());
        b.append("\n");
        let ghost prev = parts@;
        parts.push(b);
        assert(views_of(parts@) =~= views_of(prev).push(b@));
        assert(views_of(parts@) =~= blocks.take(i as int + 1));
        i = i + 1;
    }
    assert(blocks.take(fetched.len() as int) =~= blocks);
    Some(join_with(&parts, "\n"))
}

/// Whether a context source names a web page rather than a file.
pub open spec fn is_url_text(source: Seq<char>) -> bool {
    has_prefix(source, "http://"@) || has_prefix(source, "https://"@)
}

/// Whether a context source is fetched over HTTP (it starts with `http://`
/// or `https://`) rather than read as a file.
pub fn is_url_source(source: &str) -> (r: bool)
    ensures
        r == is_url_text(source@),
{
    starts_with(source, "http://") || starts_with(source, "https://")
}

/// A character as it stands inside a JSON string literal of the request:
/// backslashes and double quotes get a backslash before them.
pub open spec fn escaped_char(c: char) -> Seq<char> {
    if c == '\\' {
        seq!['\\', '\\']
    } else if c == '"' {
        seq!['\\', '"']
    } else {
        seq![c]
    }
}

pub open spec fn escaped(s: Seq<char>) -> Seq<char>
    decreases s.len(),
{
    if s.len() == 0 {
        Seq::empty()
    } else {
        escaped(s.drop_last()) + escaped_char(s.last())
    }
}

/// Puts a backslash before each backslash and double quote of `s`.
pub fn escape_quotes(s: &str) -> (r: String)
    ensures
        r@ == escaped(s@),
{
    let cs = chars_of(s);
    let mut out: Vec<char> = Vec::new();
    let mut i: usize = 0;
    while i < cs.len()
        invariant
            i <= cs.len(),
            cs@ == s@,
            out@ == escaped(cs@.take(i as int)),
        decreases cs.len() - i,
    {
        let c = cs[i];
        assert(cs@.take(i as int + 1).drop_last() =~= cs@.take(i as int));
        if c == '\\' || c == '"' {
            out.push('\\');
        }
        out.push(c);
        assert(out@ =~= escaped(cs@.take(i as int)) + escaped_char(c));
        i = i + 1;
    }
    assert(cs@.take(cs.len() as int) =~= cs@);
    string_of(out.as_slice())
}

/// What `str::replace` makes of `s` with every `from` replaced by `to`.
pub uninterp spec fn replaced(s: Seq<char>, from: Seq<char>, to: Seq<char>) -> Seq<char>;

/// Relies on `str::replace`: every occurrence of `from` in `s` replaced by `to`.
#[verifier::external_body]
fn replace_all(s: &str, from: &str, to: &str) -> (r: String)
    ensures
        r@ == replaced(s@, from@, to@),
{
    s.replace(from, to)
}

/// The request body: the configured format with `{{prompt}}` replaced by
/// the escaped prompt, then `{{model}}` by the model identifier (`?` when
/// none is set).
pub open spec fn request_body_text(
    format: Seq<char>,
    prompt: Seq<char>,
    model_identifier: Option<Seq<char>>,
) -> Seq<char> {
    replaced(
        replaced(format, "{{prompt}}"@, escaped(prompt)),
        "{{model}}"@,
        match model_identifier {
            Some(m) => m,
            None => "?"@,
        },
    )
}

/// Fills the configured request format with the prompt and model identifier.
pub fn request_body(format: &str, prompt: &str, model_identifier: &Option<String>) -> (r: String)
    ensures
        r@ == request_body_text(format@, prompt@, crate::executor::text_opt(*model_identifier)),
{
    let e = escape_quotes(prompt);
    let with_prompt = replace_all(format, "{{prompt}}", e.as_str());
    match model_identifier {
        Some(m) => replace_all(with_prompt.as_str(), "{{model}}", m.as_str()),
        None => replace_all(with_prompt.as_str(), "{{model}}", "?"),
    }
}

/// Splits `s` at its first `:`.
pub fn split_at_colon(s: &str) -> (r: Option<(&str, &str)>)
    ensures
        match r {
            Some((a, b)) => s@ == a@ + seq![':'] + b@ && !a@.contains(':'),
            None => !s@.contains(':'),
        },
{
    let n = s.unicode_len();
    let mut i: usize = 0;
    while i < n
        invariant
            i <= n,
            n == s@.len(),
            forall|k: int| 0 <= k < i ==> s@[k] != ':',
        decreases n - i,
    {
        if s.get_char(i) == ':' {
            let a = s.substring_char(0, i);
            let b = s.substring_char(i + 1, n);
            assert(s@ =~= a@ + seq![':'] + b@);
            assert(!a@.contains(':'));
            return Some((a, b));
        }
        i = i + 1;
    }
    None
}

/// How a request to the planner is authenticated.
#[derive(Clone, Debug, PartialEq, Eq)]
pub enum Auth {
    /// No API key is configured.
    Anonymous,
    /// The key goes in a bearer `Authorization` header.
    Bearer(String),
    /// The key goes in this header (name, value).
    Header(String, String),
    /// The configured header has no `:`; the key goes in a bearer header,
    /// and the configuration deserves a warning.
    MalformedHeader(String),
}

/// Decides how a request is authenticated. With no key there is none. With
/// a key and no header template, a bearer header. With a template
/// `Name: Value`, the header named by the trimmed part before the first `:`,
/// with `{{api_key}}` in the rest replaced by the key; a template without
/// `:` falls back to a bearer header.
pub fn request_auth(api_key: &Option<String>, api_key_header: &Option<String>) -> (r: Auth)
    ensures
        api_key is None ==> r == Auth::Anonymous,
        api_key is Some && api_key_header is None ==> r is Bearer && r->Bearer_0@
            == api_key->Some_0@,
        api_key is Some && api_key_header is Some && !api_key_header->Some_0@.contains(':')
            ==> r is MalformedHeader && r->MalformedHeader_0@ == api_key->Some_0@,
        forall|a: Seq<char>, b: Seq<char>|
            api_key is Some && api_key_header is Some && api_key_header->Some_0@ == a + seq![':']
                + b && !a.contains(':') ==> r is Header && r->Header_0@ == trimmed(a)
                && r->Header_1@ == replaced(b, "{{api_key}}"@, api_key->Some_0@),
{
    match api_key {
        None => Auth::Anonymous,
        Some(key) => match api_key_header {
            None => Auth::Bearer(key.clone()),
            Some(h) => match split_at_colon(h.as_str()) {
                Some((name, value)) => {
                    let n = trim(name).to_owned();
                    let v = replace_all(value, "{{api_key}}", key.as_str());
                    proof {
                        assert(h@[name@.len() as int] == ':');
                        assert forall|a: Seq<char>, b: Seq<char>|
                            h@ == a + seq![':'] + b && !a.contains(':') implies a == name@ && b
                            == value@ by {
                            lemma_colon_split_unique(h@, a, b, name@, value@);
                        }
                    }
                    Auth::Header(n, v)
                },
                None => {
                    proof {
                        assert forall|a: Seq<char>, b: Seq<char>|
                            !(h@ == a + seq![':'] + b) by {
                            if h@ == a + seq![':'] + b {
                                assert(h@[a.len() as int] == ':');
                            }
                        }
                    }
                    Auth::MalformedHeader(key.clone())
                },
            },
        },
    }
}

proof fn lemma_colon_split_unique(
    s: Seq<char>,
    a: Seq<char>,
    b: Seq<char>,
    a2: Seq<char>,
    b2: Seq<char>,
)
    requires
        s == a + seq![':'] + b,
        !a.contains(':'),
        s == a2 + seq![':'] + b2,
        !a2.contains(':'),
    ensures
        a == a2,
        b == b2,
{
    if a.len() < a2.len() {
        assert(a2[a.len() as int] == s[a.len() as int]);
        assert(a2.contains(':'));
    } else if a2.len() < a.len() {
        assert(a[a2.len() as int] == s[a2.len() as int]);
        assert(a.contains(':'));
    }
    assert(a =~= s.take(a.len() as int));
    assert(a2 =~= s.take(a2.len() as int));
    assert(b =~= s.skip(a.len() as int + 1));
    assert(b2 =~= s.skip(a2.len() as int + 1));
}

/// What `urlencoding::encode` makes of a text.
pub uninterp spec fn url_encoded(s: Seq<char>) -> Seq<char>;

/// Relies on `urlencoding::encode`: the text percent-encoded for use in a
/// URL query.
#[verifier::external_body]
fn url_encode(s: &str) -> (r: String)
    ensures
        r@ == url_encoded(s@),
{
    urlencoding::encode(s).into_owned()
}

/// The web-search address for a query.
pub open spec fn search_url_text(query: Seq<char>) -> Seq<char> {
    "https://api.duckduckgo.com/?q="@ + url_encoded(query) + "&format=json&pretty=1"@
}

/// Builds the web-search address for `query`, with the query percent-encoded.
pub fn search_url(query: &str) -> (r: String)
    ensures
        r@ == search_url_text(query@),
{
    let mut r = "https://api.duckduckgo.com/?q=".to_owned();
    let q = url_encode(query);
    r.append(q.as_str());
    r.append("&format=json&pretty=1");
    r
}

/// The message of a shell command that exited unsuccessfully.
pub open spec fn command_failure_text(status: Seq<char>) -> Seq<char> {
    "Command failed with status: "@ + status
}

/// The outcome of a finished shell command: its trimmed standard output on
/// success, else a failure naming the exit status.
pub fn command_outcome(success: bool, stdout: &str, status: &str) -> (r: Result<
    Option<String>,
    String,
>)
    ensures
        success ==> r is Ok && r->Ok_0 is Some && r->Ok_0->Some_0@ == trimmed(stdout@),
        !success ==> r is Err && r->Err_0@ == command_failure_text(status@),
{
    if success {
        Ok(Some(trim(stdout).to_owned()))
    } else {
        let mut m = "Command failed with status: ".to_owned();
        m.append(status);
        Err(m)
    }
}

/// Whether a line typed in a question session ends it: `exit`, in any case,
/// with any surrounding whitespace.
pub fn is_exit(line: &str) -> (r: bool)
    ensures
        r == (lowercased(trimmed(line@)) == "exit"@),
{
    let t = trim(line);
    let l = to_lower(t);
    same_text(l.as_str(), "exit")
}

/// The prompt of a question session: the question, then the earlier
/// exchanges, separated by the two characters `\n`.
pub open spec fn session_prompt_text(question: Seq<char>, conversation: Seq<Seq<char>>) -> Seq<char> {
    question + "\\nConversation History:\\n"@ + joined_with(conversation, "\\n"@)
}

/// Builds the prompt of a question session.
pub fn session_prompt(question: &str, conversation: &Vec<String>) -> (r: String)
    ensures
        r@ == session_prompt_text(question@, views_of(conversation@)),
{
    let mut r = question.to_owned();
    r.append("\\nConversation History:\\n");
    let c = join_with(conversation, "\\n");
    r.append(c.as_str());
    r
}

/// One exchange of a question session, as kept for later questions.
pub fn session_entry(question: &str, answer: &str) -> (r: String)
    ensures
        r@ == "User: "@ + question@ + "\\nLLM: "@ + answer@,
{
    let mut r = "User: ".to_owned();
    r.append(question);
    r.append("\\nLLM: ");
    r.append(answer);
    r
}

/// What `Path::join` makes of a base directory and a relative path.
pub uninterp spec fn path_joined(base: Seq<char>, rest: Seq<char>) -> Seq<char>;

/// Relies on `Path::join`: `rest` under the directory `base`.
#[verifier::external_body]
fn join_path(base: &str, rest: &str) -> (r: String)
    ensures
        r@ == path_joined(base@, rest@),
{
    std::path::Path::new(base).join(rest).to_string_lossy().into_owned()
}

/// A path with a leading `~/` taken under the home directory `home`; other
/// paths stay as they are. A `~/` path with no home directory known fails.
pub fn expand_home(path: &str, home: Option<&str>) -> (r: Result<String, String>)
    ensures
        !has_prefix(path@, "~/"@) ==> r is Ok && r->Ok_0@ == path@,
        has_prefix(path@, "~/"@) && home is None ==> r is Err && r->Err_0@
            == "environment variable not found"@,
        has_prefix(path@, "~/"@) && home is Some ==> r is Ok && r->Ok_0@ == path_joined(
            home->Some_0@,
            path@.skip(2),
        ),
{
    proof {
        reveal_strlit("~/");
    }
    if starts_with(path, "~/") {
        match home {
            Some(h) => {
                let n = path.unicode_len();
                let rest = path.substring_char(2, n);
                assert(rest@ =~= path@.skip(2));
                Ok(join_path(h, rest))
            },
            None => Err("environment variable not found".to_owned()),
        }
    } else {
        Ok(path.to_owned())
    }
}

} // verus!

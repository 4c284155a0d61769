//! An action-execution engine for a planner-driven task agent: the typed
//! action protocol, line-range file edits, the confirmation gate, and the
//! plan executor with its append-only execution history and recovery loop.

pub mod action;
pub mod answer;
pub mod confirm;
pub mod edit;
pub mod executor;
pub mod json;
pub mod planner;
pub mod text;

pub use answer::{answer_of, extract_answer, simple_path, FirstSelected};
pub use action::{check_delegated, recovery_request, Action, DelegatedKind, Plan};
pub use confirm::{choice_from_normalized, confirm_action, read_choice, Choice};
pub use edit::replace_lines;
pub use executor::{Command, Event, Executor, Frame, HistoryEntry, Stage};
pub use json::{fence_contents, strip_json_fence};
pub use planner::{
    combined_context, command_outcome, escape_quotes, expand_home, history_context, history_prompt,
    is_exit, is_url_source, plan_prompt, question_prompt, request_auth, request_body, search_url,
    session_entry, session_prompt, split_at_colon, Auth, ContextContent,
};
pub use text::{decimal, join_lines, split_lines};

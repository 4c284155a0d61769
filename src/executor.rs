//! The plan executor as a state machine. Each call of [`Executor::step`]
//! takes one event (the user's answer, an action's outcome, a planner reply)
//! and returns the next command for the caller to carry out. Sub-plans and
//! recovery plans are frames on a stack that share one execution history.
use vstd::prelude::*;
use crate::action::{
    clone_strings, delegation_prompt, is_of_kind, mismatch_message, recovery_instruction,
    recovery_request, check_delegated, Action, DelegatedKind, Plan,
};
use crate::confirm::{confirm_action, gate, Choice};
use crate::text::{has_prefix, views_of};

verus! {

/// One entry of the execution history: an action and its output, if any.
pub type HistoryEntry = (Action, Option<String>);

/// The steps of one plan that are still to run.
#[derive(Debug)]
pub struct Frame {
    /// The remaining steps, in execution order.
    pub steps: Vec<Action>,
    /// The sub-plan step whose plan this is; `None` for the top-level plan.
    pub origin: Option<Action>,
}

/// Where the executor stands; a stage that waits on the caller holds the
/// step it is about.
#[derive(Debug)]
pub enum Stage {
    /// Ready to take the next step (after a skip, or before the first).
    Idle,
    /// Waiting for the user's answer on `step`.
    Confirming { step: Action },
    /// Waiting for the outcome of performing `step`.
    Running { step: Action },
    /// Waiting for the outcome of performing `delegated`, which the planner
    /// produced for `step`.
    RunningDelegated { step: Action, delegated: Action },
    /// Waiting for the planner's single action of `kind` for `step`.
    Delegating { step: Action, kind: DelegatedKind },
    /// Waiting for the sub-plan that `step` asks for.
    Planning { step: Action },
    /// Waiting for a recovery plan after a step failed; without one the
    /// whole run ends, however deep the failed step was.
    Recovering,
    /// Every step of every plan has been dealt with.
    Done,
    /// A recovery plan could not be had; the run is over.
    Aborted,
}

/// The state of one run.
#[derive(Debug)]
pub struct Executor {
    /// Every performed step with its output, in order; only ever appended to.
    pub history: Vec<HistoryEntry>,
    /// Whether steps run without asking; once on, it stays on.
    pub auto_confirm: bool,
    /// The plans in progress, the innermost last.
    pub frames: Vec<Frame>,
    pub stage: Stage,
}

/// What the caller hands to the executor.
#[derive(Debug)]
pub enum Event {
    /// Go on: at the start, and after a skipped step.
    Proceed,
    /// The user's answer to `Command::Confirm`.
    Answer(Choice),
    /// The outcome of `Command::Perform`: the output, or the failure message.
    Outcome(Result<Option<String>, String>),
    /// The planner's reply to `Command::RequestAction`, already parsed.
    ActionReply(Result<Action, String>),
    /// The planner's reply to `Command::RequestPlan`, already parsed.
    PlanReply(Result<Plan, String>),
}

/// What the executor asks the caller to do next.
#[derive(Debug)]
pub enum Command {
    /// Ask the user whether to run the step in `Executor::current_action`.
    Confirm,
    /// Perform the action in `Executor::current_action` and report its outcome.
    Perform,
    /// Ask the planner, with the history as context, for one action; the
    /// text is the instruction.
    RequestAction(String),
    /// Ask the planner, with the history as context, for a plan for this
    /// instruction, using these context sources.
    RequestPlan(String, Vec<String>),
    /// The user declined the step; report `Proceed` to go on.
    Skipped,
    /// The run is over.
    Finished,
    /// The run ended with this error.
    Failed(String),
    /// The event does not fit the current stage; nothing changed.
    Ignored,
}

pub struct FrameView {
    pub steps: Seq<Action>,
    pub origin: Option<Action>,
}

pub struct ExecutorView {
    pub history: Seq<(Action, Option<Seq<char>>)>,
    pub auto_confirm: bool,
    pub frames: Seq<FrameView>,
    pub stage: Stage,
}

pub enum EventView {
    Proceed,
    Answer(Choice),
    Outcome(Result<Option<Seq<char>>, Seq<char>>),
    ActionReply(Result<Action, Seq<char>>),
    PlanReply(Result<Seq<Action>, Seq<char>>),
}

pub enum CommandView {
    Confirm,
    Perform,
    RequestAction(Seq<char>),
    RequestPlan(Seq<char>, Seq<Seq<char>>),
    Skipped,
    Finished,
    Failed(Seq<char>),
    Ignored,
}

pub open spec fn text_opt(o: Option<String>) -> Option<Seq<char>> {
    match o {
        Some(s) => Some(s@),
        None => None,
    }
}

pub open spec fn history_view(h: Seq<HistoryEntry>) -> Seq<(Action, Option<Seq<char>>)> {
    h.map_values(|e: HistoryEntry| (e.0, text_opt(e.1)))
}

impl View for Frame {
    type V = FrameView;

    open spec fn view(&self) -> FrameView {
        FrameView { steps: self.steps@, origin: self.origin }
    }
}

impl View for Executor {
    type V = ExecutorView;

    open spec fn view(&self) -> ExecutorView {
        ExecutorView {
            history: history_view(self.history@),
            auto_confirm: self.auto_confirm,
            frames: self.frames@.map_values(|f: Frame| f@),
            stage: self.stage,
        }
    }
}

impl View for Event {
    type V = EventView;

    open spec fn view(&self) -> EventView {
        match self {
            Event::Proceed => EventView::Proceed,
            Event::Answer(c) => EventView::Answer(*c),
            Event::Outcome(Ok(o)) => EventView::Outcome(Ok(text_opt(*o))),
            Event::Outcome(Err(e)) => EventView::Outcome(Err(e@)),
            Event::ActionReply(Ok(a)) => EventView::ActionReply(Ok(*a)),
            Event::ActionReply(Err(e)) => EventView::ActionReply(Err(e@)),
            Event::PlanReply(Ok(p)) => EventView::PlanReply(Ok(p.steps@)),
            Event::PlanReply(Err(e)) => EventView::PlanReply(Err(e@)),
        }
    }
}

impl View for Command {
    type V = CommandView;

    open spec fn view(&self) -> CommandView {
        match self {
            Command::Confirm => CommandView::Confirm,
            Command::Perform => CommandView::Perform,
            Command::RequestAction(s) => CommandView::RequestAction(s@),
            Command::RequestPlan(s, v) => CommandView::RequestPlan(s@, views_of(v@)),
            Command::Skipped => CommandView::Skipped,
            Command::Finished => CommandView::Finished,
            Command::Failed(s) => CommandView::Failed(s@),
            Command::Ignored => CommandView::Ignored,
        }
    }
}

/// Starts work on an approved step: a sub-plan step asks for its plan, a
/// delegating step asks for its single action, and any other is performed.
pub open spec fn begin(m: ExecutorView, a: Action) -> (ExecutorView, CommandView) {
    match a {
        Action::AskLlmForPlan { instruction, context_sources, .. } => (
            ExecutorView { stage: Stage::Planning { step: a }, ..m },
            CommandView::RequestPlan(instruction@, views_of(context_sources@)),
        ),
        Action::AskLlmToCreateFile { path, .. } => (
            ExecutorView {
                stage: Stage::Delegating { step: a, kind: DelegatedKind::CreateFile },
                ..m
            },
            CommandView::RequestAction(delegation_prompt(DelegatedKind::CreateFile, path@)),
        ),
        Action::AskLlmToOverwriteFileContents { path, .. } => (
            ExecutorView {
                stage: Stage::Delegating { step: a, kind: DelegatedKind::OverwriteFileContents },
                ..m
            },
            CommandView::RequestAction(
                delegation_prompt(DelegatedKind::OverwriteFileContents, path@),
            ),
        ),
        Action::AskLlmToReplaceFileLines { path, .. } => (
            ExecutorView {
                stage: Stage::Delegating { step: a, kind: DelegatedKind::ReplaceFileLines },
                ..m
            },
            CommandView::RequestAction(delegation_prompt(DelegatedKind::ReplaceFileLines, path@)),
        ),
        _ => (ExecutorView { stage: Stage::Running { step: a }, ..m }, CommandView::Perform),
    }
}

/// Moves to the next step: finished plans are closed (recording the
/// sub-plan step that opened them), then the next step is confirmed, or
/// begun at once under auto-confirm; with no plan left the run is done.
pub open spec fn advance(m: ExecutorView) -> (ExecutorView, CommandView)
    decreases m.frames.len(),
{
    if m.frames.len() == 0 {
        (ExecutorView { stage: Stage::Done, ..m }, CommandView::Finished)
    } else {
        let top = m.frames.last();
        if top.steps.len() == 0 {
            let history = match top.origin {
                Some(o) => m.history.push((o, None)),
                None => m.history,
            };
            advance(ExecutorView { history, frames: m.frames.drop_last(), ..m })
        } else {
            let a = top.steps[0];
            let rest = FrameView { steps: top.steps.skip(1), origin: top.origin };
            let m2 = ExecutorView { frames: m.frames.update(m.frames.len() - 1, rest), ..m };
            if m.auto_confirm {
                begin(m2, a)
            } else {
                (ExecutorView { stage: Stage::Confirming { step: a }, ..m2 }, CommandView::Confirm)
            }
        }
    }
}

/// The history entry recorded for a step that failed with `msg`.
pub open spec fn error_text(msg: Seq<char>) -> Seq<char> {
    "ERROR: "@ + msg
}

/// Records the failure of `a` and asks for a recovery plan.
pub open spec fn fail(m: ExecutorView, a: Action, msg: Seq<char>) -> (ExecutorView, CommandView) {
    (
        ExecutorView {
            history: m.history.push((a, Some(error_text(msg)))),
            stage: Stage::Recovering,
            ..m
        },
        CommandView::RequestPlan(recovery_instruction(a, msg), Seq::empty()),
    )
}

pub open spec fn sub_plan_failure(msg: Seq<char>) -> Seq<char> {
    "Failed to get sub-plan from LLM: "@ + msg
}

pub open spec fn recovery_failure(msg: Seq<char>) -> Seq<char> {
    "Failed to get recovery plan from LLM after action failure: "@ + msg
}

/// The frames once a recovery plan of `steps` replaces the innermost plan,
/// which keeps its origin.
pub open spec fn replaced_top(frames: Seq<FrameView>, steps: Seq<Action>) -> Seq<FrameView> {
    if frames.len() > 0 {
        frames.drop_last().push(FrameView { steps, origin: frames.last().origin })
    } else {
        seq![FrameView { steps, origin: None }]
    }
}

/// The executor's response to one event: its next state and command.
pub open spec fn next(m: ExecutorView, e: EventView) -> (ExecutorView, CommandView) {
    match (m.stage, e) {
        (Stage::Idle, EventView::Proceed) => advance(m),
        (Stage::Confirming { step }, EventView::Answer(c)) => {
            let (auto, approved) = gate(m.auto_confirm, c);
            let m2 = ExecutorView { auto_confirm: auto, ..m };
            if approved {
                begin(m2, step)
            } else {
                (ExecutorView { stage: Stage::Idle, ..m2 }, CommandView::Skipped)
            }
        },
        (Stage::Running { step }, EventView::Outcome(Ok(out))) => advance(
            ExecutorView { history: m.history.push((step, out)), stage: Stage::Idle, ..m },
        ),
        (Stage::Running { step }, EventView::Outcome(Err(msg))) => fail(m, step, msg),
        (Stage::RunningDelegated { step, .. }, EventView::Outcome(Ok(out))) => advance(
            ExecutorView { history: m.history.push((step, out)), stage: Stage::Idle, ..m },
        ),
        (Stage::RunningDelegated { step, .. }, EventView::Outcome(Err(msg))) => fail(m, step, msg),
        (Stage::Delegating { step, kind }, EventView::ActionReply(Ok(b))) => {
            if is_of_kind(b, kind) {
                (
                    ExecutorView { stage: Stage::RunningDelegated { step, delegated: b }, ..m },
                    CommandView::Perform,
                )
            } else {
                fail(m, step, mismatch_message(kind, b))
            }
        },
        (Stage::Delegating { step, .. }, EventView::ActionReply(Err(msg))) => fail(m, step, msg),
        (Stage::Planning { step }, EventView::PlanReply(Ok(steps))) => advance(
            ExecutorView {
                frames: m.frames.push(FrameView { steps, origin: Some(step) }),
                stage: Stage::Idle,
                ..m
            },
        ),
        (Stage::Planning { step }, EventView::PlanReply(Err(msg))) => fail(
            m,
            step,
            sub_plan_failure(msg),
        ),
        (Stage::Recovering, EventView::PlanReply(Ok(steps))) => advance(
            ExecutorView { frames: replaced_top(m.frames, steps), stage: Stage::Idle, ..m },
        ),
        (Stage::Recovering, EventView::PlanReply(Err(msg))) => (
            ExecutorView { stage: Stage::Aborted, ..m },
            CommandView::Failed(recovery_failure(msg)),
        ),
        _ => (m, CommandView::Ignored),
    }
}

/// The action the current stage is about: the step to confirm or perform,
/// or, once the planner produced one for a delegating step, that action.
pub open spec fn action_in_hand(s: Stage) -> Option<Action> {
    match s {
        Stage::Confirming { step } => Some(step),
        Stage::Running { step } => Some(step),
        Stage::RunningDelegated { delegated, .. } => Some(delegated),
        Stage::Delegating { step, .. } => Some(step),
        Stage::Planning { step } => Some(step),
        _ => None,
    }
}

impl Executor {
    /// Starts a run of `plan`, appending to `history`.
    pub fn new(plan: Plan, history: Vec<HistoryEntry>, auto_confirm: bool) -> (r: Executor)
        ensures
            r@ == (ExecutorView {
                history: history_view(history@),
                auto_confirm,
                frames: seq![FrameView { steps: plan.steps@, origin: None }],
                stage: Stage::Idle,
            }),
    {
        let mut frames: Vec<Frame> = Vec::new();
        frames.push(Frame { steps: plan.steps, origin: None });
        let r = Executor { history, auto_confirm, frames, stage: Stage::Idle };
        assert(r@.frames =~= seq![FrameView { steps: plan.steps@, origin: None }]);
        r
    }

    /// The action the current stage is about, if any.
    pub fn current_action(&self) -> (r: Option<&Action>)
        ensures
            match r {
                Some(a) => action_in_hand(self.stage) == Some(*a),
                None => action_in_hand(self.stage) is None,
            },
    {
        match &self.stage {
            Stage::Confirming { step } => Some(step),
            Stage::Running { step } => Some(step),
            Stage::RunningDelegated { delegated, .. } => Some(delegated),
            Stage::Delegating { step, .. } => Some(step),
            Stage::Planning { step } => Some(step),
            _ => None,
        }
    }

    fn push_history(&mut self, a: Action, out: Option<String>)
        ensures
            final(self)@ == (ExecutorView {
                history: old(self)@.history.push((a, text_opt(out))),
                ..old(self)@
            }),
    {
        self.history.push((a, out));
        assert(history_view(self.history@) =~= old(self)@.history.push((a, text_opt(out))));
    }

    fn begin(&mut self, a: Action) -> (r: Command)
        ensures
            (final(self)@, r@) == begin(old(self)@, a),
    {
        match &a {
            Action::AskLlmForPlan { instruction, context_sources, .. } => {
                let i = instruction.clone();
                let c = clone_strings(context_sources);
                self.stage = Stage::Planning { step: a };
                Command::RequestPlan(i, c)
            },
            Action::AskLlmToCreateFile { path, .. } => {
                let k = DelegatedKind::CreateFile;
                let p = k.prompt(path.as_str());
                self.stage = Stage::Delegating { step: a, kind: k };
                Command::RequestAction(p)
            },
            Action::AskLlmToOverwriteFileContents { path, .. } => {
                let k = DelegatedKind::OverwriteFileContents;
                let p = k.prompt(path.as_str());
                self.stage = Stage::Delegating { step: a, kind: k };
                Command::RequestAction(p)
            },
            Action::AskLlmToReplaceFileLines { path, .. } => {
                let k = DelegatedKind::ReplaceFileLines;
                let p = k.prompt(path.as_str());
                self.stage = Stage::Delegating { step: a, kind: k };
                Command::RequestAction(p)
            },
            _ => {
                self.stage = Stage::Running { step: a };
                Command::Perform
            },
        }
    }

    fn advance(&mut self) -> (r: Command)
        ensures
            (final(self)@, r@) == advance(old(self)@),
    {
        let ghost target = advance(self@);
        loop
            invariant
                target == advance(old(self)@),
                advance(self@) == target,
            decreases self.frames.len(),
        {
            if self.frames.len() == 0 {
                self.stage = Stage::Done;
                return Command::Finished;
            }
            let last = self.frames.len() - 1;
            if self.frames[last].steps.len() == 0 {
                let ghost before = self@;
                let f = self.frames.pop().unwrap();
                assert(self@.frames =~= before.frames.drop_last());
                match f.origin {
                    Some(o) => {
                        self.push_history(o, None);
                    },
                    None => {},
                }
            } else {
                let ghost before = self@;
                let mut f = self.frames.pop().unwrap();
                let a = f.steps.remove(0);
                let ghost top = before.frames.last();
                assert(f@ == FrameView { steps: top.steps.skip(1), origin: top.origin }) by {
                    assert(f.steps@ =~= top.steps.skip(1));
                }
                self.frames.push(f);
                assert(self@.frames =~= before.frames.update(
                    before.frames.len() - 1,
                    FrameView { steps: top.steps.skip(1), origin: top.origin },
                ));
                if self.auto_confirm {
                    return self.begin(a);
                }
                self.stage = Stage::Confirming { step: a };
                return Command::Confirm;
            }
        }
    }

    fn fail(&mut self, a: Action, msg: String) -> (r: Command)
        ensures
            (final(self)@, r@) == fail(old(self)@, a, msg@),
    {
        let instruction = recovery_request(&a, msg.as_str());
        let mut entry = "ERROR: ".to_owned();
        entry.append(msg.as_str());
        self.push_history(a, Some(entry));
        self.stage = Stage::Recovering;
        let none: Vec<String> = Vec::new();
        assert(views_of(none@) =~= Seq::<Seq<char>>::empty());
        Command::RequestPlan(instruction, none)
    }

    /// Takes one event and returns the next command, as `next` states.
    pub fn step(&mut self, event: Event) -> (r: Command)
        ensures
            (final(self)@, r@) == next(old(self)@, event@),
    {
        let mut stage = Stage::Idle;
        std::mem::swap(&mut stage, &mut self.stage);
        match (stage, event) {
            (Stage::Idle, Event::Proceed) => self.advance(),
            (Stage::Confirming { step }, Event::Answer(c)) => {
                let (auto, approved) = confirm_action(self.auto_confirm, c);
                self.auto_confirm = auto;
                if approved {
                    self.begin(step)
                } else {
                    Command::Skipped
                }
            },
            (Stage::Running { step }, Event::Outcome(Ok(out))) => {
                self.push_history(step, out);
                self.advance()
            },
            (Stage::Running { step }, Event::Outcome(Err(msg))) => self.fail(step, msg),
            (Stage::RunningDelegated { step, .. }, Event::Outcome(Ok(out))) => {
                self.push_history(step, out);
                self.advance()
            },
            (Stage::RunningDelegated { step, .. }, Event::Outcome(Err(msg))) => self.fail(
                step,
                msg,
            ),
            (Stage::Delegating { step, kind }, Event::ActionReply(Ok(b))) => {
                match check_delegated(kind, b) {
                    Ok(b) => {
                        self.stage = Stage::RunningDelegated { step, delegated: b };
                        Command::Perform
                    },
                    Err(msg) => self.fail(step, msg),
                }
            },
            (Stage::Delegating { step, .. }, Event::ActionReply(Err(msg))) => self.fail(step, msg),
            (Stage::Planning { step }, Event::PlanReply(Ok(plan))) => {
                let ghost before = self@;
                self.frames.push(Frame { steps: plan.steps, origin: Some(step) });
                assert(self@.frames =~= before.frames.push(
                    FrameView { steps: plan.steps@, origin: Some(step) },
                ));
                self.advance()
            },
            (Stage::Planning { step }, Event::PlanReply(Err(msg))) => {
                let mut m = "Failed to get sub-plan from LLM: ".to_owned();
                m.append(msg.as_str());
                self.fail(step, m)
            },
            (Stage::Recovering, Event::PlanReply(Ok(plan))) => {
                let ghost before = self@;
                let origin = if self.frames.len() > 0 {
                    let f = self.frames.pop().unwrap();
                    f.origin
                } else {
                    None
                };
                self.frames.push(Frame { steps: plan.steps, origin });
                assert(self@.frames =~= replaced_top(before.frames, plan.steps@));
                self.advance()
            },
            (Stage::Recovering, Event::PlanReply(Err(msg))) => {
                let mut m = "Failed to get recovery plan from LLM after action failure: ".to_owned();
                m.append(msg.as_str());
                self.stage = Stage::Aborted;
                Command::Failed(m)
            },
            (s, _) => {
                self.stage = s;
                Command::Ignored
            },
        }
    }
}

/// The state after handing the events, in order, to an executor in state `m`.
pub open spec fn run(m: ExecutorView, events: Seq<EventView>) -> ExecutorView
    decreases events.len(),
{
    if events.len() == 0 {
        m
    } else {
        run(next(m, events[0]).0, events.skip(1))
    }
}

/// The commands that those events get, in order.
pub open spec fn run_commands(m: ExecutorView, events: Seq<EventView>) -> Seq<CommandView>
    decreases events.len(),
{
    if events.len() == 0 {
        Seq::empty()
    } else {
        seq![next(m, events[0]).1] + run_commands(next(m, events[0]).0, events.skip(1))
    }
}

/// `later` is `earlier` with entries appended (possibly none).
pub open spec fn extends<T>(earlier: Seq<T>, later: Seq<T>) -> bool {
    later.len() >= earlier.len() && later.take(earlier.len() as int) == earlier
}

proof fn lemma_extends_push<T>(a: Seq<T>, b: Seq<T>, x: T)
    requires
        extends(a, b),
    ensures
        extends(a, b.push(x)),
{
    assert(b.push(x).take(a.len() as int) =~= b.take(a.len() as int));
}

proof fn lemma_extends_trans<T>(a: Seq<T>, b: Seq<T>, c: Seq<T>)
    requires
        extends(a, b),
        extends(b, c),
    ensures
        extends(a, c),
{
    assert(c.take(a.len() as int) =~= c.take(b.len() as int).take(a.len() as int));
}

proof fn lemma_advance_extends(m: ExecutorView)
    ensures
        extends(m.history, advance(m).0.history),
        m.auto_confirm == advance(m).0.auto_confirm,
        m.auto_confirm ==> advance(m).1 != CommandView::Confirm,
        advance(m).1 != CommandView::Skipped,
        !(advance(m).0.stage is Recovering),
    decreases m.frames.len(),
{
    assert(m.history.take(m.history.len() as int) =~= m.history);
    if m.frames.len() > 0 {
        let top = m.frames.last();
        if top.steps.len() == 0 {
            let history = match top.origin {
                Some(o) => m.history.push((o, None)),
                None => m.history,
            };
            let m2 = ExecutorView { history, frames: m.frames.drop_last(), ..m };
            lemma_advance_extends(m2);
            if let Some(o) = top.origin {
                lemma_extends_push(m.history, m.history, (o, None));
            }
            lemma_extends_trans(m.history, history, advance(m2).0.history);
        }
    }
}

proof fn lemma_error_text_prefix()
    ensures
        forall|msg: Seq<char>| has_prefix(#[trigger] error_text(msg), "ERROR: "@),
{
    assert forall|msg: Seq<char>| has_prefix(#[trigger] error_text(msg), "ERROR: "@) by {
        reveal_strlit("ERROR: ");
        assert(error_text(msg).take(7) =~= "ERROR: "@);
    }
}

/// The history only grows: every event leaves the earlier entries as they
/// were, in their order. A skipped step adds no entry, and a step that fails
/// (so that a recovery plan is asked for) adds exactly one, whose text
/// starts with `ERROR: `.
pub proof fn lemma_history_grows(m: ExecutorView, e: EventView)
    ensures
        extends(m.history, next(m, e).0.history),
        next(m, e).1 == CommandView::Skipped ==> next(m, e).0.history == m.history,
        !(m.stage is Recovering) && next(m, e).0.stage is Recovering ==> {
            let h = next(m, e).0.history;
            &&& h.len() == m.history.len() + 1
            &&& h.last().1 is Some
            &&& has_prefix(h.last().1->Some_0, "ERROR: "@)
        },
{
    assert(m.history.take(m.history.len() as int) =~= m.history);
    match (m.stage, e) {
        (Stage::Idle, EventView::Proceed) => {
            lemma_advance_extends(m);
        },
        (Stage::Running { step }, EventView::Outcome(Ok(out))) => {
            let h = m.history.push((step, out));
            lemma_extends_push(m.history, m.history, (step, out));
            lemma_advance_extends(ExecutorView { history: h, stage: Stage::Idle, ..m });
            lemma_extends_trans(m.history, h, next(m, e).0.history);
        },
        (Stage::RunningDelegated { step, .. }, EventView::Outcome(Ok(out))) => {
            let h = m.history.push((step, out));
            lemma_extends_push(m.history, m.history, (step, out));
            lemma_advance_extends(ExecutorView { history: h, stage: Stage::Idle, ..m });
            lemma_extends_trans(m.history, h, next(m, e).0.history);
        },
        (Stage::Planning { step }, EventView::PlanReply(Ok(steps))) => {
            lemma_advance_extends(
                ExecutorView {
                    frames: m.frames.push(FrameView { steps, origin: Some(step) }),
                    stage: Stage::Idle,
                    ..m
                },
            );
        },
        (Stage::Recovering, EventView::PlanReply(Ok(steps))) => {
            lemma_advance_extends(
                ExecutorView { frames: replaced_top(m.frames, steps), stage: Stage::Idle, ..m },
            );
        },
        (Stage::Confirming { step }, EventView::Answer(c)) => {
            let (auto, approved) = gate(m.auto_confirm, c);
            if approved {
                assert(begin(ExecutorView { auto_confirm: auto, ..m }, step).1 != CommandView::Skipped);
            }
        },
        _ => {
            let (m2, c) = next(m, e);
            if m2.history.len() > m.history.len() {
                assert(m2.history.take(m.history.len() as int) =~= m.history);
                lemma_error_text_prefix();
            }
        },
    }
}

/// Over any sequence of events the history only grows.
pub proof fn lemma_run_history_grows(m: ExecutorView, events: Seq<EventView>)
    ensures
        extends(m.history, run(m, events).history),
    decreases events.len(),
{
    assert(m.history.take(m.history.len() as int) =~= m.history);
    if events.len() > 0 {
        let m2 = next(m, events[0]).0;
        lemma_history_grows(m, events[0]);
        lemma_run_history_grows(m2, events.skip(1));
        lemma_extends_trans(m.history, m2.history, run(m2, events.skip(1)).history);
    }
}

/// Once auto-confirm is on it stays on, and no step is put to the user.
pub proof fn lemma_auto_confirm_sticky(m: ExecutorView, e: EventView)
    requires
        m.auto_confirm,
    ensures
        next(m, e).0.auto_confirm,
        next(m, e).1 != CommandView::Confirm,
{
    match (m.stage, e) {
        (Stage::Idle, EventView::Proceed) => {
            lemma_advance_extends(m);
        },
        (Stage::Running { step }, EventView::Outcome(Ok(out))) => {
            lemma_advance_extends(
                ExecutorView { history: m.history.push((step, out)), stage: Stage::Idle, ..m },
            );
        },
        (Stage::RunningDelegated { step, .. }, EventView::Outcome(Ok(out))) => {
            lemma_advance_extends(
                ExecutorView { history: m.history.push((step, out)), stage: Stage::Idle, ..m },
            );
        },
        (Stage::Planning { step }, EventView::PlanReply(Ok(steps))) => {
            lemma_advance_extends(
                ExecutorView {
                    frames: m.frames.push(FrameView { steps, origin: Some(step) }),
                    stage: Stage::Idle,
                    ..m
                },
            );
        },
        (Stage::Recovering, EventView::PlanReply(Ok(steps))) => {
            lemma_advance_extends(
                ExecutorView { frames: replaced_top(m.frames, steps), stage: Stage::Idle, ..m },
            );
        },
        _ => {},
    }
}

/// Once auto-confirm is on, whatever events follow, in this plan and in
/// every sub-plan or recovery plan, no step is put to the user and
/// auto-confirm stays on.
pub proof fn lemma_run_auto_confirm_sticky(m: ExecutorView, events: Seq<EventView>)
    requires
        m.auto_confirm,
    ensures
        run(m, events).auto_confirm,
        run_commands(m, events).len() == events.len(),
        forall|i: int|
            0 <= i < events.len() ==> #[trigger] run_commands(m, events)[i]
                != CommandView::Confirm,
    decreases events.len(),
{
    if events.len() > 0 {
        let m2 = next(m, events[0]).0;
        lemma_auto_confirm_sticky(m, events[0]);
        lemma_run_auto_confirm_sticky(m2, events.skip(1));
        let cs = run_commands(m, events);
        assert forall|i: int| 0 <= i < events.len() implies #[trigger] cs[i]
            != CommandView::Confirm by {
            if i > 0 {
                assert(cs[i] == run_commands(m2, events.skip(1))[i - 1]);
            }
        }
    }
}

/// A planner reply of another kind than a delegating step asked for fails
/// that step with the mismatch message, and is never performed: the
/// executor records the failure and asks for a recovery plan instead.
pub proof fn lemma_delegation_checked(
    m: ExecutorView,
    step: Action,
    kind: DelegatedKind,
    reply: Action,
)
    requires
        m.stage == (Stage::Delegating { step, kind }),
        !is_of_kind(reply, kind),
    ensures
        next(m, EventView::ActionReply(Ok(reply))).1 == CommandView::RequestPlan(
            recovery_instruction(step, mismatch_message(kind, reply)),
            Seq::empty(),
        ),
        next(m, EventView::ActionReply(Ok(reply))).0.stage == Stage::Recovering,
        next(m, EventView::ActionReply(Ok(reply))).0.history == m.history.push(
            (step, Some(error_text(mismatch_message(kind, reply)))),
        ),
{
}

/// A finished or aborted run stays as it is: every later event is ignored.
pub proof fn lemma_end_is_final(m: ExecutorView, e: EventView)
    requires
        m.stage is Done || m.stage is Aborted,
    ensures
        next(m, e) == (m, CommandView::Ignored),
{
}

} // verus!

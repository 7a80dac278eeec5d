//! One turn: from the words of the user to the finished blackboard. The
//! functions here take what the outside world returned and decide how the
//! turn goes on.

use crate::agents::{same_but_history, AgentContext};
use crate::chat::{recorded, ChatHistory};
use crate::document::DocumentService;
use crate::events::{AgentStatusPayload, DocumentUpdate, ToastPayload};
use crate::intent::{
    effective_plan, effective_plan_spec, parse_plan_response, parse_rag_need_response,
    parse_tool_intent_response, parsed_plan, plan_view, rag_need_of, step_intent, tool_intent_of,
    tool_view, DocIntent, PlanStep, ToolIntent,
};
use crate::prompts::intent_router::{
    build_doc_intent_query, build_rag_need_query, build_tool_intent_query, doc_intent_query,
    rag_need_query, tool_intent_query,
};
use crate::rewrite::{has_tab, normalize_tabs, normalize_tabs_str};
use crate::state::{todo_views, StateSnapshot, TodoItem, TodoModel};
use crate::text::{is_blank, join_lines, join_strings, str_to_chars, trim, views};
use crate::unicode::{lower, upper};
use vstd::prelude::*;

verus! {

// ---------------------------------------------------------------------------
// The document at the start of a turn
// ---------------------------------------------------------------------------

/// Makes the document free of tabs before the turn reads it. Returns the
/// event to emit where the document had a tab; a document without one is
/// left alone.
pub fn begin_turn(doc: &mut DocumentService) -> (update: Option<DocumentUpdate>)
    requires
        old(doc)@.version < u64::MAX,
    ensures
        final(doc)@.content == normalize_tabs(old(doc)@.content),
        !has_tab(final(doc)@.content),
        match update {
            Some(u) => has_tab(old(doc)@.content) && final(doc)@.version == old(doc)@.version + 1
                && u.content@ == final(doc)@.content && u.version == final(doc)@.version,
            None => !has_tab(old(doc)@.content) && final(doc)@ == old(doc)@,
        },
{
    let snap = doc.get_snapshot();
    let v = str_to_chars(snap.content.as_str());
    if crate::rewrite::chars_have_tab(&v) {
        let normal = normalize_tabs_str(snap.content.as_str());
        doc.reset(normal);
        let after = doc.get_snapshot();
        Some(DocumentUpdate { content: after.content, version: after.version })
    } else {
        proof {
            crate::rewrite::lemma_normalize_tabs_fixed(doc@.content);
        }
        None
    }
}

// ---------------------------------------------------------------------------
// The routers
// ---------------------------------------------------------------------------

/// The tasks as the retrieval router reads them: one to a line, each with a
/// dash before its description.
pub open spec fn todo_summary_lines(todos: Seq<TodoModel>) -> Seq<Seq<char>> {
    Seq::new(todos.len(), |i: int| "- "@ + todos[i].desc)
}

pub open spec fn todo_summary(todos: Seq<TodoModel>) -> Seq<char> {
    join_lines(todo_summary_lines(todos))
}

/// The tasks as the retrieval router reads them.
pub fn summarize_todos(todos: &Vec<TodoItem>) -> (r: String)
    ensures
        r@ == todo_summary(todo_views(todos@)),
{
    let mut items: Vec<String> = Vec::new();
    let mut i: usize = 0;
    while i < todos.len()
        invariant
            i <= todos.len(),
            items@.len() == i,
            forall|j: int| 0 <= j < i ==> (#[trigger] items@[j])@ == "- "@ + todos@[j].desc@,
        decreases todos.len() - i,
    {
        let mut line = "- ".to_string();
        line.append(todos[i].desc.as_str());
        items.push(line);
        i += 1;
    }
    assert(views(items@) =~= todo_summary_lines(todo_views(todos@)));
    join_strings(&items)
}

/// The three questions of a turn, one for each router.
pub struct RouterQueries {
    pub plan: String,
    pub rag_need: String,
    pub tool: String,
}

/// Builds the questions for the three routers from the document, the state
/// and what the user said.
pub fn build_router_queries(full_doc: &str, state: &StateSnapshot, transcript: &str) -> (q:
    RouterQueries)
    ensures
        q.plan@ == doc_intent_query(full_doc@, transcript@),
        q.rag_need@ == rag_need_query(
            full_doc@,
            state.focus@,
            views(state.git_history@),
            todo_summary(todo_views(state.todo_list@)),
            transcript@,
        ),
        q.tool@ == tool_intent_query(full_doc@, transcript@),
{
    let todos = summarize_todos(&state.todo_list);
    RouterQueries {
        plan: build_doc_intent_query(full_doc, transcript),
        rag_need: build_rag_need_query(
            full_doc,
            state.focus.as_str(),
            state.git_history.as_slice(),
            todos.as_str(),
            transcript,
        ),
        tool: build_tool_intent_query(full_doc, transcript),
    }
}

/// What the three routers answered; `None` where a call failed.
pub struct RouterAnswers {
    pub plan: Option<String>,
    pub rag_need: Option<String>,
    pub tool: Option<String>,
}

/// What the routers decided for a turn.
pub struct Routing {
    pub plan: Vec<PlanStep>,
    pub need_rag: bool,
    pub tool_intent: ToolIntent,
}

pub open spec fn answer_view(a: Option<String>) -> Option<Seq<char>> {
    match a {
        Some(s) => Some(s@),
        None => None,
    }
}

/// The plan that the plan router's answer leaves to the plan rule: `None`
/// where the call failed or the answer holds no plan.
pub open spec fn routed_plan(answer: Option<Seq<char>>) -> Option<Seq<(Seq<char>, Seq<char>)>> {
    match answer {
        Some(a) => match parsed_plan(a) {
            Ok(p) => Some(p),
            Err(_) => None,
        },
        None => None,
    }
}

/// Whether the turn retrieves: only where the retrieval router said `true`.
pub open spec fn routed_rag_need(answer: Option<Seq<char>>) -> bool {
    match answer {
        Some(a) => rag_need_of(lower(trim(a))) == Ok::<bool, Seq<char>>(true),
        None => false,
    }
}

/// The tool of the turn: a search for the turn text where the tool router
/// said `SEARCH`, else none.
pub open spec fn routed_tool(answer: Option<Seq<char>>, transcript: Seq<char>) -> Option<
    Seq<char>,
> {
    match answer {
        Some(a) => match tool_intent_of(upper(trim(a)), transcript) {
            Ok(t) => t,
            Err(_) => None,
        },
        None => None,
    }
}

/// Reads the answers of the three routers. A router that failed, or whose
/// answer cannot be read, falls back: the plan to a single APPEND, the
/// retrieval to `false`, the tool to none. A blank document forces the plan
/// to a single APPEND whatever the plan router said.
pub fn decide_routing(full_doc: &str, answers: RouterAnswers, transcript: &str) -> (r: Routing)
    ensures
        plan_view(r.plan@) == effective_plan_spec(
            full_doc@,
            routed_plan(answer_view(answers.plan)),
        ),
        is_blank(full_doc@) ==> plan_view(r.plan@) == crate::intent::empty_document_plan(),
        r.need_rag == routed_rag_need(answer_view(answers.rag_need)),
        tool_view(r.tool_intent) == routed_tool(answer_view(answers.tool), transcript@),
        r.plan@.len() >= 1,
{
    let routed = match answers.plan {
        Some(a) => match parse_plan_response(a.as_str()) {
            Ok(p) => Some(p),
            Err(_) => None,
        },
        None => None,
    };
    let plan = effective_plan(full_doc, routed);
    assert(plan_view(plan@).len() >= 1);
    let need_rag = match answers.rag_need {
        Some(a) => match parse_rag_need_response(a.as_str()) {
            Ok(b) => b,
            Err(_) => false,
        },
        None => false,
    };
    let tool_intent = match answers.tool {
        Some(a) => match parse_tool_intent_response(a.as_str(), transcript) {
            Ok(t) => t,
            Err(_) => ToolIntent::NoTool,
        },
        None => ToolIntent::NoTool,
    };
    Routing { plan, need_rag, tool_intent }
}

// ---------------------------------------------------------------------------
// The blackboard and the loop over the plan
// ---------------------------------------------------------------------------

/// The intent of the first step of a plan, or NO-OP where the plan is empty.
pub open spec fn initial_intent(plan: Seq<(Seq<char>, Seq<char>)>) -> DocIntent {
    if plan.len() > 0 {
        step_intent(plan[0])
    } else {
        DocIntent::NoOp
    }
}

/// Opens the blackboard of a turn from what the routers decided and what the
/// retrieval and the search gathered.
pub fn open_blackboard(
    transcript: String,
    recording_id: Option<String>,
    recording_path: Option<String>,
    history: ChatHistory,
    routing: Routing,
    retrieved_context: String,
    search_results: String,
) -> (ctx: AgentContext)
    ensures
        ctx.transcript == transcript,
        ctx.recording_id == recording_id,
        ctx.recording_path == recording_path,
        ctx.chat_history == history,
        ctx.plan == routing.plan,
        ctx.need_rag == routing.need_rag,
        ctx.tool_intent == routing.tool_intent,
        ctx.retrieved_context == retrieved_context,
        ctx.search_results == search_results,
        ctx.current_step == 0,
        ctx.doc_intent == initial_intent(plan_view(routing.plan@)),
{
    let first = if routing.plan.len() > 0 {
        assert(plan_view(routing.plan@)[0] == routing.plan@[0]@);
        routing.plan[0].effective_intent()
    } else {
        DocIntent::NoOp
    };
    let mut ctx = AgentContext::new(
        transcript,
        recording_id,
        recording_path,
        history,
        first,
        routing.need_rag,
        routing.tool_intent,
    );
    ctx.plan = routing.plan;
    ctx.retrieved_context = retrieved_context;
    ctx.search_results = search_results;
    ctx
}

/// Where the loop over the plan stands.
pub struct TurnDriver {
    /// The step to run next, counted from 0.
    next: usize,
    /// A step has failed: no further step is run.
    stopped: bool,
}

pub struct TurnDriverModel {
    pub next: nat,
    pub stopped: bool,
}

impl View for TurnDriver {
    type V = TurnDriverModel;

    closed spec fn view(&self) -> TurnDriverModel {
        TurnDriverModel { next: self.next as nat, stopped: self.stopped }
    }
}

/// What the loop does next.
#[derive(Debug, Clone, Copy, PartialEq, Eq, Structural)]
pub enum NextStep {
    /// Run the agent of this intent on the blackboard.
    Run(DocIntent),
    /// The turn has no further step.
    Finish,
}

pub open spec fn agent_error_text(error: Seq<char>) -> Seq<char> {
    "Agent Error: "@ + error
}

impl TurnDriver {
    pub fn new() -> (d: Self)
        ensures
            d@.next == 0,
            !d@.stopped,
    {
        TurnDriver { next: 0, stopped: false }
    }

    /// Moves to the next step of the plan, strictly in order: the
    /// blackboard is told which step runs and with what intent. After a step
    /// has failed, and at the end of the plan, the turn finishes.
    pub fn next_step(&mut self, ctx: &mut AgentContext) -> (r: NextStep)
        ensures
            final(ctx).chat_history == old(ctx).chat_history,
            final(ctx).transcript == old(ctx).transcript,
            final(ctx).plan == old(ctx).plan,
            final(ctx).retrieved_context == old(ctx).retrieved_context,
            final(ctx).search_results == old(ctx).search_results,
            final(ctx).recording_id == old(ctx).recording_id,
            final(ctx).recording_path == old(ctx).recording_path,
            final(ctx).need_rag == old(ctx).need_rag,
            final(ctx).tool_intent == old(ctx).tool_intent,
            final(self)@.stopped == old(self)@.stopped,
            if !old(self)@.stopped && old(self)@.next < old(ctx).plan@.len() {
                &&& r == NextStep::Run(
                    step_intent(plan_view(old(ctx).plan@)[old(self)@.next as int]),
                )
                &&& final(ctx).current_step == old(self)@.next
                &&& final(ctx).current_step < final(ctx).plan@.len()
                &&& final(ctx).doc_intent == step_intent(
                    plan_view(old(ctx).plan@)[old(self)@.next as int],
                )
                &&& final(self)@.next == old(self)@.next + 1
            } else {
                &&& r == NextStep::Finish
                &&& final(self)@ == old(self)@
                &&& final(ctx).current_step == old(ctx).current_step
                &&& final(ctx).doc_intent == old(ctx).doc_intent
            },
    {
        if self.stopped || self.next >= ctx.plan.len() {
            return NextStep::Finish;
        }
        assert(plan_view(ctx.plan@)[self.next as int] == ctx.plan@[self.next as int]@);
        let intent = ctx.plan[self.next].effective_intent();
        ctx.current_step = self.next;
        ctx.doc_intent = intent;
        self.next = self.next + 1;
        NextStep::Run(intent)
    }

    /// Notes that the step that ran has failed: no step after it is run.
    /// Returns the warning to show.
    pub fn step_failed(&mut self, error: &str) -> (toast: ToastPayload)
        ensures
            final(self)@.stopped,
            final(self)@.next == old(self)@.next,
            toast.message@ == agent_error_text(error@),
            toast.toast_type@ == "warning"@,
    {
        self.stopped = true;
        let mut msg = "Agent Error: ".to_string();
        msg.append(error);
        ToastPayload::warning(msg)
    }
}

/// Runs a step that does nothing. The document is not touched. Where the
/// step is the whole plan, the turn is recorded with an empty reply and the
/// front end is told that the agents are idle.
pub fn run_noop(ctx: &mut AgentContext) -> (idle: Option<AgentStatusPayload>)
    ensures
        same_but_history(*final(ctx), *old(ctx)),
        match idle {
            Some(p) => old(ctx).plan@.len() == 1 && p.status@ == "idle"@ && final(ctx).chat_history@ == recorded(
                old(ctx).chat_history@,
                old(ctx).transcript@,
                Seq::empty(),
            ),
            None => old(ctx).plan@.len() != 1 && final(ctx).chat_history@ == old(ctx).chat_history@,
        },
{
    if ctx.plan.len() == 1 {
        let said = ctx.transcript.clone();
        ctx.chat_history.record_exchange(said, String::new());
        Some(AgentStatusPayload::idle())
    } else {
        None
    }
}

/// Ends a turn: the chat history of the blackboard becomes the chat history
/// that the next turn starts from.
pub fn close_turn(ctx: AgentContext, history: &mut ChatHistory)
    ensures
        final(history)@ == ctx.chat_history@,
        final(history)@.len() <= crate::speech::MAX_HISTORY,
{
    let kept = ctx.chat_history.len();
    assert(kept <= crate::speech::MAX_HISTORY);
    *history = ctx.chat_history;
}

} // verus!

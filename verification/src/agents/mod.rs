//! The agents and the blackboard they work on. Each agent is given what the
//! outside world returned and decides what to do with it.

pub mod append_agent;
pub mod clear_agent;
pub mod edit_agent;
pub mod grep_agent;
pub mod rag_agent;
pub mod search_agent;
pub mod undo_agent;

use crate::chat::ChatHistory;
use crate::intent::{plan_view, DocIntent, PlanStep, ToolIntent};
use crate::numfmt::{append_decimal, decimal};
use crate::state::{todo_views, TodoItem, TodoModel};
use crate::text::{join_lines, join_strings, views};
use vstd::prelude::*;

verus! {

/// The blackboard of one turn: what the user said, what the routers decided
/// and what the agents have gathered so far.
pub struct AgentContext {
    pub transcript: String,
    pub recording_id: Option<String>,
    pub recording_path: Option<String>,
    pub chat_history: ChatHistory,
    /// The intent of the step that is running.
    pub doc_intent: DocIntent,
    pub plan: Vec<PlanStep>,
    /// The step that is running, counted from 0.
    pub current_step: usize,
    pub need_rag: bool,
    pub tool_intent: ToolIntent,
    pub retrieved_context: String,
    pub search_results: String,
}

impl AgentContext {
    pub fn new(
        transcript: String,
        recording_id: Option<String>,
        recording_path: Option<String>,
        chat_history: ChatHistory,
        doc_intent: DocIntent,
        need_rag: bool,
        tool_intent: ToolIntent,
    ) -> (ctx: Self)
        ensures
            ctx.transcript == transcript,
            ctx.recording_id == recording_id,
            ctx.recording_path == recording_path,
            ctx.chat_history == chat_history,
            ctx.doc_intent == doc_intent,
            ctx.plan@.len() == 0,
            ctx.current_step == 0,
            ctx.need_rag == need_rag,
            ctx.tool_intent == tool_intent,
            ctx.retrieved_context@.len() == 0,
            ctx.search_results@.len() == 0,
    {
        AgentContext {
            transcript,
            recording_id,
            recording_path,
            chat_history,
            doc_intent,
            plan: Vec::new(),
            current_step: 0,
            need_rag,
            tool_intent,
            retrieved_context: String::new(),
            search_results: String::new(),
        }
    }

    /// What the step that is running is to do, in plain words, or `fallback`
    /// where the plan has no such step.
    pub fn current_instruction(&self, fallback: &str) -> (r: String)
        ensures
            r@ == instruction_of(plan_view(self.plan@), self.current_step as int, fallback@),
    {
        if self.current_step < self.plan.len() {
            assert(plan_view(self.plan@)[self.current_step as int]
                == self.plan@[self.current_step as int]@);
            self.plan[self.current_step].instruction.clone()
        } else {
            fallback.to_string()
        }
    }
}

/// The instruction of step `step` of the plan, or `fallback` where the plan
/// has no such step.
pub open spec fn instruction_of(
    plan: Seq<(Seq<char>, Seq<char>)>,
    step: int,
    fallback: Seq<char>,
) -> Seq<char> {
    if 0 <= step < plan.len() {
        plan[step].1
    } else {
        fallback
    }
}

/// The line that shows step `i` of a plan: its number from 1, its intent
/// word in brackets and its instruction.
pub open spec fn plan_line(plan: Seq<(Seq<char>, Seq<char>)>, i: int) -> Seq<char> {
    decimal((i + 1) as nat) + ". ["@ + plan[i].0 + "] "@ + plan[i].1
}

pub open spec fn plan_lines(plan: Seq<(Seq<char>, Seq<char>)>) -> Seq<Seq<char>> {
    Seq::new(plan.len(), |i: int| plan_line(plan, i))
}

/// The plan, one step to a line.
pub open spec fn plan_context(plan: Seq<(Seq<char>, Seq<char>)>) -> Seq<char> {
    join_lines(plan_lines(plan))
}

/// The plan, one step to a line.
pub fn render_plan(plan: &Vec<PlanStep>) -> (r: String)
    ensures
        r@ == plan_context(plan_view(plan@)),
{
    let mut items: Vec<String> = Vec::new();
    let mut i: usize = 0;
    while i < plan.len()
        invariant
            i <= plan.len(),
            items@.len() == i,
            forall|j: int| 0 <= j < i ==> (#[trigger] items@[j])@ == plan_line(plan_view(plan@), j),
        decreases plan.len() - i,
    {
        let mut line = String::new();
        append_decimal(&mut line, (i + 1) as u64);
        line.append(". [");
        line.append(plan[i].intent.as_str());
        line.append("] ");
        line.append(plan[i].instruction.as_str());
        proof {
            assert(plan_view(plan@)[i as int] == plan@[i as int]@);
            assert(Seq::<char>::empty() + decimal((i + 1) as nat) == decimal((i + 1) as nat));
        }
        items.push(line);
        i += 1;
    }
    assert(views(items@) =~= plan_lines(plan_view(plan@)));
    join_strings(&items)
}

/// The message that gives an agent its assignment: what the user said, the
/// whole plan, and the step that is the agent's own.
pub open spec fn assignment(
    transcript: Seq<char>,
    plan: Seq<(Seq<char>, Seq<char>)>,
    step: int,
    tag: Seq<char>,
    closing: Seq<char>,
) -> Seq<char> {
    "User's Full Request: \""@ + transcript + "\"\n\n>>> EXECUTION PLAN:\n"@ + plan_context(plan)
        + "\n\n>>> YOUR CURRENT ASSIGNMENT (Step "@ + decimal((step + 1) as nat) + "/"@ + decimal(
        plan.len(),
    ) + "):\n["@ + tag + "] \""@ + instruction_of(plan, step, "Process the user request"@)
        + "\"\n\n("@ + closing + ")"@
}

pub open spec fn focus_closing() -> Seq<char> {
    "Focus ONLY on this assigned task. Ignore other parts of the request if they don't relate to this step."@
}

pub open spec fn extract_closing() -> Seq<char> {
    "Extract proper FIND/REPLACE values for THIS"@
        + " task. Ignore other parts of the request if they don't relate to this step."@
}

/// The closing words of the assignment of a global replacement.
pub fn extract_closing_text() -> (r: String)
    ensures
        r@ == extract_closing(),
{
    let mut r = "Extract proper FIND/REPLACE values for THIS".to_string();
    r.append(" task. Ignore other parts of the request if they don't relate to this step.");
    r
}

/// Builds the message that gives an agent its assignment.
pub fn build_assignment(ctx: &AgentContext, tag: &str, closing: &str) -> (r: String)
    requires
        ctx.current_step < usize::MAX,
    ensures
        r@ == assignment(
            ctx.transcript@,
            plan_view(ctx.plan@),
            ctx.current_step as int,
            tag@,
            closing@,
        ),
{
    let plan_text = render_plan(&ctx.plan);
    let instruction = ctx.current_instruction("Process the user request");
    let mut msg = "User's Full Request: \"".to_string();
    msg.append(ctx.transcript.as_str());
    msg.append("\"\n\n>>> EXECUTION PLAN:\n");
    msg.append(plan_text.as_str());
    msg.append("\n\n>>> YOUR CURRENT ASSIGNMENT (Step ");
    append_decimal(&mut msg, (ctx.current_step + 1) as u64);
    msg.append("/");
    append_decimal(&mut msg, ctx.plan.len() as u64);
    msg.append("):\n[");
    msg.append(tag);
    msg.append("] \"");
    msg.append(instruction.as_str());
    msg.append("\"\n\n(");
    msg.append(closing);
    msg.append(")");
    msg
}

/// The `(id, description)` pairs of the tasks that are not completed.
pub open spec fn active_pairs(todos: Seq<TodoModel>) -> Seq<(Seq<char>, Seq<char>)>
    decreases todos.len(),
{
    if todos.len() == 0 {
        seq![]
    } else if todos.last().completed {
        active_pairs(todos.drop_last())
    } else {
        active_pairs(todos.drop_last()).push((todos.last().id, todos.last().desc))
    }
}

/// The `(id, description)` pairs of the tasks that are not completed.
pub fn active_todo_pairs(todos: &Vec<TodoItem>) -> (r: Vec<(String, String)>)
    ensures
        crate::prompts::document_editing::pair_views(r@) == active_pairs(todo_views(todos@)),
        r@.len() <= todos@.len(),
{
    let mut out: Vec<(String, String)> = Vec::new();
    let mut i: usize = 0;
    let ghost all = todo_views(todos@);
    assert(all.take(0) == Seq::<TodoModel>::empty());
    assert(crate::prompts::document_editing::pair_views(out@) =~= active_pairs(all.take(0)));
    while i < todos.len()
        invariant
            i <= todos.len(),
            out@.len() <= i,
            all == todo_views(todos@),
            crate::prompts::document_editing::pair_views(out@) == active_pairs(
                all.take(i as int),
            ),
        decreases todos.len() - i,
    {
        let ghost before = crate::prompts::document_editing::pair_views(out@);
        proof {
            let next = all.take(i + 1);
            assert(next.drop_last() == all.take(i as int));
            assert(next.last() == todos@[i as int]@);
        }
        if !todos[i].completed {
            out.push((todos[i].id.clone(), todos[i].desc.clone()));
            assert(crate::prompts::document_editing::pair_views(out@) =~= before.push(
                (todos@[i as int].id@, todos@[i as int].desc@),
            ));
        }
        i += 1;
    }
    assert(all.take(todos.len() as int) == all);
    out
}


/// The two blackboards differ in nothing but, perhaps, the chat history.
pub open spec fn same_but_history(a: AgentContext, b: AgentContext) -> bool {
    &&& a.transcript == b.transcript
    &&& a.plan == b.plan
    &&& a.current_step == b.current_step
    &&& a.doc_intent == b.doc_intent
    &&& a.retrieved_context == b.retrieved_context
    &&& a.search_results == b.search_results
    &&& a.recording_id == b.recording_id
    &&& a.recording_path == b.recording_path
    &&& a.need_rag == b.need_rag
    &&& a.tool_intent == b.tool_intent
}

} // verus!

//! The intent router: what a turn asks for, read from the classifier's
//! answers.

use crate::patterns::{capture_groups, captured_groups};
use crate::lines::{lines, split_lines};
use crate::text::{
    chars_to_string, is_blank, is_blank_str, str_eq, str_to_chars, trim, trim_chars, trim_str,
};
use crate::unicode::{lower, lower_text, upper, upper_text};
use vstd::prelude::*;

verus! {

/// What a step of a plan does to the document.
#[derive(Debug, Clone, Copy, PartialEq, Eq, Structural)]
pub enum DocIntent {
    NoOp,
    Append,
    Edit,
    Grep,
    Undo,
    Clear,
}

/// The intent that an upper-case intent word stands for.
pub open spec fn intent_of(code: Seq<char>) -> Option<DocIntent> {
    if code == "NO-OP"@ || code == "NOOP"@ || code == "NO_OP"@ {
        Some(DocIntent::NoOp)
    } else if code == "APPEND"@ {
        Some(DocIntent::Append)
    } else if code == "EDIT"@ {
        Some(DocIntent::Edit)
    } else if code == "GREP"@ {
        Some(DocIntent::Grep)
    } else if code == "UNDO"@ {
        Some(DocIntent::Undo)
    } else if code == "CLEAR"@ {
        Some(DocIntent::Clear)
    } else {
        None
    }
}

impl DocIntent {
    /// The intent that the word `code` stands for, where `code` is already
    /// trimmed and in upper case.
    pub fn from_normalized(code: &str) -> (r: Option<DocIntent>)
        ensures
            r == intent_of(code@),
    {
        if str_eq(code, "NO-OP") || str_eq(code, "NOOP") || str_eq(code, "NO_OP") {
            Some(DocIntent::NoOp)
        } else if str_eq(code, "APPEND") {
            Some(DocIntent::Append)
        } else if str_eq(code, "EDIT") {
            Some(DocIntent::Edit)
        } else if str_eq(code, "GREP") {
            Some(DocIntent::Grep)
        } else if str_eq(code, "UNDO") {
            Some(DocIntent::Undo)
        } else if str_eq(code, "CLEAR") {
            Some(DocIntent::Clear)
        } else {
            None
        }
    }

    /// The intent that a word of the classifier stands for, white space
    /// around it and case aside. A word outside the known set is refused.
    pub fn from_str(s: &str) -> (r: Option<DocIntent>)
        ensures
            r == intent_of(upper(trim(s@))),
    {
        let t = trim_str(s);
        let u = upper_text(t.as_str());
        DocIntent::from_normalized(u.as_str())
    }

}

/// Whether the turn needs an outside tool, and for a search its query.
#[derive(Debug, Clone, PartialEq)]
pub enum ToolIntent {
    NoTool,
    Search(String),
}

/// One step of a plan: an intent word as the classifier wrote it, and what
/// to do, in plain words.
#[derive(Debug, Clone)]
pub struct PlanStep {
    pub intent: String,
    pub instruction: String,
}

impl View for PlanStep {
    type V = (Seq<char>, Seq<char>);

    open spec fn view(&self) -> (Seq<char>, Seq<char>) {
        (self.intent@, self.instruction@)
    }
}

/// The models of a list of plan steps.
pub open spec fn plan_view(plan: Seq<PlanStep>) -> Seq<(Seq<char>, Seq<char>)> {
    Seq::new(plan.len(), |i: int| plan[i]@)
}

impl PlanStep {
    pub fn to_doc_intent(&self) -> (r: Option<DocIntent>)
        ensures
            r == intent_of(upper(trim(self.intent@))),
    {
        DocIntent::from_str(self.intent.as_str())
    }

    /// The intent that the agent loop runs for this step: a step whose word
    /// is outside the known set does nothing.
    pub fn effective_intent(&self) -> (r: DocIntent)
        ensures
            r == step_intent(self@),
    {
        match self.to_doc_intent() {
            Some(i) => i,
            None => DocIntent::NoOp,
        }
    }
}

/// The intent that the agent loop runs for a step.
pub open spec fn step_intent(step: (Seq<char>, Seq<char>)) -> DocIntent {
    match intent_of(upper(trim(step.0))) {
        Some(i) => i,
        None => DocIntent::NoOp,
    }
}

// ---------------------------------------------------------------------------
// Router 1: the plan
// ---------------------------------------------------------------------------

/// The pattern of one line of a plan: a number and a dot, then the intent
/// word, in square brackets or without, then the instruction.
pub const PLAN_LINE_PATTERN: &'static str = "(?m)^\\s*(\\d+)\\.\\s*\\[?([A-Za-z-_]+)\\]?\\s*(.*)$";

/// What the plan-line pattern captures in a line: the intent word and the
/// instruction, its second and third group, or nothing where the line does
/// not match.
pub open spec fn plan_line_match(line: Seq<char>) -> Option<(Seq<char>, Seq<char>)> {
    captured_groups(PLAN_LINE_PATTERN@, line, 2, 3)
}

/// The steps that the lines of an answer hold: one for each line that is not
/// blank and that the plan-line pattern matches, after trimming.
pub open spec fn plan_steps(ls: Seq<Seq<char>>) -> Seq<(Seq<char>, Seq<char>)>
    decreases ls.len(),
{
    if ls.len() == 0 {
        seq![]
    } else {
        let rest = plan_steps(ls.drop_first());
        let l = trim(ls[0]);
        if l.len() > 0 && plan_line_match(l) is Some {
            seq![plan_line_match(l)->0] + rest
        } else {
            rest
        }
    }
}

pub open spec fn single_word_instruction() -> Seq<char> {
    "Execute user request based on transcript"@
}

/// The error for an answer that holds no plan.
pub open spec fn plan_error(answer: Seq<char>) -> Seq<char> {
    "Failed to parse intent plan from: '"@ + answer + "'"@
}

/// The plan that an answer gives, from the steps found in its lines and the
/// intent that the whole trimmed answer stands for as a single word: the
/// steps where there are any, else one step for the single word, else an
/// error.
pub open spec fn plan_outcome(
    steps: Seq<(Seq<char>, Seq<char>)>,
    answer: Seq<char>,
    whole: Option<DocIntent>,
) -> Result<Seq<(Seq<char>, Seq<char>)>, Seq<char>> {
    if steps.len() > 0 {
        Ok(steps)
    } else if whole is Some {
        Ok(seq![(answer, single_word_instruction())])
    } else {
        Err(plan_error(answer))
    }
}

/// The plan that the classifier's answer gives.
pub open spec fn parsed_plan(response: Seq<char>) -> Result<
    Seq<(Seq<char>, Seq<char>)>,
    Seq<char>,
> {
    plan_outcome(
        plan_steps(lines(trim(response))),
        trim(response),
        intent_of(upper(trim(trim(response)))),
    )
}

/// Decides what plan an answer gives, once its lines have been matched.
pub fn plan_from_steps(steps: Vec<PlanStep>, answer: &str, whole: Option<DocIntent>) -> (r: Result<
    Vec<PlanStep>,
    String,
>)
    ensures
        match plan_outcome(plan_view(steps@), answer@, whole) {
            Ok(p) => r is Ok && plan_view(r->Ok_0@) == p,
            Err(e) => r is Err && r->Err_0@ == e,
        },
{
    if steps.len() > 0 {
        return Ok(steps);
    }
    if whole.is_some() {
        let mut plan: Vec<PlanStep> = Vec::new();
        plan.push(
            PlanStep {
                intent: answer.to_string(),
                instruction: "Execute user request based on transcript".to_string(),
            },
        );
        assert(plan_view(plan@) =~= seq![(answer@, single_word_instruction())]);
        return Ok(plan);
    }
    let mut msg = "Failed to parse intent plan from: '".to_string();
    msg.append(answer);
    msg.append("'");
    Err(msg)
}

/// Reads the plan from the answer of the plan classifier: a numbered list of
/// `N. [INTENT] instruction` lines, or a single intent word.
pub fn parse_plan_response(response: &str) -> (r: Result<Vec<PlanStep>, String>)
    ensures
        match parsed_plan(response@) {
            Ok(p) => r is Ok && plan_view(r->Ok_0@) == p,
            Err(e) => r is Err && r->Err_0@ == e,
        },
{
    let answer = trim_str(response);
    let av = str_to_chars(answer.as_str());
    let ls = split_lines(&av);
    let ghost all = lines(av@);
    let mut steps: Vec<PlanStep> = Vec::new();
    let mut i: usize = 0;
    let ghost mut done: Seq<(Seq<char>, Seq<char>)> = Seq::empty();
    assert(all.skip(0) == all);
    assert(plan_view(steps@) =~= done);
    assert(done + plan_steps(all) == plan_steps(all));
    while i < ls.len()
        invariant
            i <= ls.len(),
            ls@.len() == all.len(),
            forall|j: int| 0 <= j < ls@.len() ==> (#[trigger] ls@[j])@ == all[j],
            plan_view(steps@) == done,
            plan_steps(all) == done + plan_steps(all.skip(i as int)),
        decreases ls.len() - i,
    {
        let ghost rest = all.skip(i as int);
        proof {
            assert(rest[0] == all[i as int]);
            assert(rest.drop_first() == all.skip(i + 1));
        }
        let l = trim_chars(&ls[i]);
        if l.len() > 0 {
            let line = chars_to_string(&l);
            match capture_groups(PLAN_LINE_PATTERN, line.as_str(), 2, 3) {
                Some((intent, instruction)) => {
                    let step = PlanStep { intent, instruction };
                    proof {
                        let tail = plan_steps(all.skip(i + 1));
                        assert(done + (seq![step@] + tail) == done.push(step@) + tail);
                        done = done.push(step@);
                    }
                    steps.push(step);
                    assert(plan_view(steps@) =~= done);
                },
                None => {},
            }
        }
        i += 1;
    }
    proof {
        assert(all.skip(ls.len() as int) == Seq::<Seq<char>>::empty());
        assert(done + Seq::<(Seq<char>, Seq<char>)>::empty() == done);
    }
    let whole = DocIntent::from_str(answer.as_str());
    plan_from_steps(steps, answer.as_str(), whole)
}

pub open spec fn fallback_plan() -> Seq<(Seq<char>, Seq<char>)> {
    seq![("APPEND"@, "Process transcript"@)]
}

pub open spec fn empty_document_plan() -> Seq<(Seq<char>, Seq<char>)> {
    seq![("APPEND"@, "Initial document content"@)]
}

/// The plan that a turn runs: for a blank document a single APPEND, whatever
/// the classifier said; else the classifier's plan, or a single APPEND where
/// it gave none.
pub open spec fn effective_plan_spec(
    doc: Seq<char>,
    routed: Option<Seq<(Seq<char>, Seq<char>)>>,
) -> Seq<(Seq<char>, Seq<char>)> {
    if is_blank(doc) {
        empty_document_plan()
    } else {
        match routed {
            Some(p) => p,
            None => fallback_plan(),
        }
    }
}

fn single_append(instruction: &str) -> (plan: Vec<PlanStep>)
    ensures
        plan_view(plan@) == seq![("APPEND"@, instruction@)],
{
    let mut plan: Vec<PlanStep> = Vec::new();
    plan.push(PlanStep { intent: "APPEND".to_string(), instruction: instruction.to_string() });
    assert(plan_view(plan@) =~= seq![("APPEND"@, instruction@)]);
    plan
}

/// The plan that a turn runs on the document `doc`, given what the plan
/// classifier returned (`None` where it failed).
pub fn effective_plan(doc: &str, routed: Option<Vec<PlanStep>>) -> (plan: Vec<PlanStep>)
    ensures
        plan_view(plan@) == effective_plan_spec(
            doc@,
            match routed {
                Some(p) => Some(plan_view(p@)),
                None => None,
            },
        ),
        is_blank(doc@) ==> plan_view(plan@) == empty_document_plan(),
{
    if is_blank_str(doc) {
        return single_append("Initial document content");
    }
    match routed {
        Some(p) => p,
        None => single_append("Process transcript"),
    }
}

// ---------------------------------------------------------------------------
// Router 2: retrieval needed
// ---------------------------------------------------------------------------

pub open spec fn rag_need_error(code: Seq<char>) -> Seq<char> {
    "Failed to parse RAG need from response: '"@ + code + "'"@
}

/// What a trimmed, lower-case answer of the retrieval classifier says.
pub open spec fn rag_need_of(code: Seq<char>) -> Result<bool, Seq<char>> {
    if code == "true"@ {
        Ok(true)
    } else if code == "false"@ {
        Ok(false)
    } else {
        Err(rag_need_error(code))
    }
}

pub fn rag_need_from_normalized(code: &str) -> (r: Result<bool, String>)
    ensures
        match rag_need_of(code@) {
            Ok(b) => r == Ok::<bool, String>(b),
            Err(e) => r is Err && r->Err_0@ == e,
        },
{
    if str_eq(code, "true") {
        Ok(true)
    } else if str_eq(code, "false") {
        Ok(false)
    } else {
        let mut msg = "Failed to parse RAG need from response: '".to_string();
        msg.append(code);
        msg.append("'");
        Err(msg)
    }
}

/// Reads the answer of the retrieval classifier: `true` or `false`, white
/// space and case aside.
pub fn parse_rag_need_response(response: &str) -> (r: Result<bool, String>)
    ensures
        match rag_need_of(lower(trim(response@))) {
            Ok(b) => r == Ok::<bool, String>(b),
            Err(e) => r is Err && r->Err_0@ == e,
        },
{
    let t = trim_str(response);
    let l = lower_text(t.as_str());
    rag_need_from_normalized(l.as_str())
}

/// Whether a turn retrieves, given what the classifier returned: where it
/// failed, it does not.
pub fn rag_need_or_default(routed: Result<bool, String>) -> (need: bool)
    ensures
        need == match routed {
            Ok(b) => b,
            Err(_) => false,
        },
{
    match routed {
        Ok(b) => b,
        Err(_) => false,
    }
}

// ---------------------------------------------------------------------------
// Router 3: the tool
// ---------------------------------------------------------------------------

pub open spec fn tool_intent_error(code: Seq<char>) -> Seq<char> {
    "Failed to parse tool intent from response: '"@ + code + "'"@
}

/// What a tool intent is, as plain values: `None`, or the query of a search.
pub open spec fn tool_view(t: ToolIntent) -> Option<Seq<char>> {
    match t {
        ToolIntent::NoTool => None,
        ToolIntent::Search(q) => Some(q@),
    }
}

/// What a trimmed, upper-case answer of the tool classifier says: for a
/// search the query is the turn text as it is.
pub open spec fn tool_intent_of(code: Seq<char>, turn: Seq<char>) -> Result<
    Option<Seq<char>>,
    Seq<char>,
> {
    if code == "NONE"@ {
        Ok(None)
    } else if code == "SEARCH"@ {
        Ok(Some(turn))
    } else {
        Err(tool_intent_error(code))
    }
}

pub fn tool_intent_from_normalized(code: &str, user_input: &str) -> (r: Result<ToolIntent, String>)
    ensures
        match tool_intent_of(code@, user_input@) {
            Ok(t) => r is Ok && tool_view(r->Ok_0) == t,
            Err(e) => r is Err && r->Err_0@ == e,
        },
{
    if str_eq(code, "NONE") {
        Ok(ToolIntent::NoTool)
    } else if str_eq(code, "SEARCH") {
        Ok(ToolIntent::Search(user_input.to_string()))
    } else {
        let mut msg = "Failed to parse tool intent from response: '".to_string();
        msg.append(code);
        msg.append("'");
        Err(msg)
    }
}

/// Reads the answer of the tool classifier: `NONE` or `SEARCH`, white space
/// and case aside.
pub fn parse_tool_intent_response(response: &str, user_input: &str) -> (r: Result<
    ToolIntent,
    String,
>)
    ensures
        match tool_intent_of(upper(trim(response@)), user_input@) {
            Ok(t) => r is Ok && tool_view(r->Ok_0) == t,
            Err(e) => r is Err && r->Err_0@ == e,
        },
{
    let t = trim_str(response);
    let u = upper_text(t.as_str());
    tool_intent_from_normalized(u.as_str(), user_input)
}

/// The tool intent of a turn, given what the classifier returned: where it
/// failed, none.
pub fn tool_intent_or_default(routed: Result<ToolIntent, String>) -> (t: ToolIntent)
    ensures
        tool_view(t) == match routed {
            Ok(i) => tool_view(i),
            Err(_) => None,
        },
{
    match routed {
        Ok(i) => i,
        Err(_) => ToolIntent::NoTool,
    }
}

} // verus!

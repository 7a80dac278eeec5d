//! The prompts of the three classifiers.

use crate::text::{join_lines, join_strings, or_placeholder, shown, views};
use vstd::prelude::*;

verus! {

pub const DOC_INTENT_ROUTER_PROMPT: &'static str = r#"You are an intent classifier that determines the user's document operation intent from their voice input.

**Core Principle**: Creek is a voice note tool; user input should be recorded by default. Only explicitly meaningless content should be NO-OP.

**Task**: Choose 1 of the following 5 intents:

1. **NO-OP** - No operation (Strictly limited to the following cases)
   - **Only** meaningless fillers: "um", "ah", "uh", "that" (when appearing alone without substance)
   - Pure noise or misrecognized audio
   - Note: **Any statement with substance should NOT be NO-OP**

2. **EDIT** - Modify existing content (Most flexible, most common, default choice)
   - "Now let's write the XXX part..."
   - "Change the previous XXX to YYY"
   - "Modify that previous paragraph..."
   - "Delete what I just said..." "Delete..."
   - "Insert at... position"
   - Note: **As long as the user input has differences or increments compared to the current document, always choose EDIT.**

3. **GREP** - Global find and replace (Requires batch keyword operations)
   - "Change **all** XXX to YYY"
   - "**Unify** replacement of terms"
   - "**Rename all**..."
   - "**Batch** correct..."
   - Note: **Must** contain keywords like "all", "every", "unify", "batch", etc.

4. **UNDO** - Undo operation (Rollback version)
   - "Undo", "Withdraw"
   - "That's wrong, undo it"
   - "Back to the previous version"
   - "Go back to when we were talking about XXX"

5. **CLEAR** - Clear document (Requires explicit clearing command)
   - "Clear", "Delete all", "Delete everything"
   - "Start over", "Reset document"

**Decision Process**:
1. Is there substantive content? No → NO-OP, Yes → Continue
2. Does it require multi-step operations?
3. Determine single-step operation:
   - Clear document? → CLEAR
   - Undo last step? → UNDO
   - Batch replace (contains "all"/"every"/"unify"/"batch")? → GREP
   - Modify existing content? → EDIT
4. Default → EDIT

**Output Format**:
Output a numbered list of planned steps.
Each step must follow this format:
<Index>. [<Intent>] <Natural Language Instruction>

Example:
1. [EDIT] Fix the typo in the first paragraph
2. [GREP] Change all "Creek" to "River"
3. [EDIT] Add a summary at the end

Output ONLY the plan list, no markdown code blocks.
"#;

pub const RAG_NEED_ROUTER_PROMPT: &'static str = r#"You are a context missing detector that determines if historical conversations need to be retrieved.

**Current Context Includes**:
- Full current document
- Current focus
- Git history (last 10 commits)
- Todo list (todo_list)

**Task**: Determine if the information mentioned by the user is missing from the current context.

**Cases requiring retrieval (Output true)**:
- User says "that previous segment" but it cannot be found in the current document
- User mentions a concept that hasn't appeared in the current context
- User explicitly refers to a time range ("what I said 10 minutes ago")
- User says "the XXX we discussed before" but it's not in the current context

**Cases NOT requiring retrieval (Output false)**:
- User says "Add a new section" (Does not involve history)
- Information mentioned by the user is already in the current document
- Purely new content that doesn't depend on historical information

**Output Format**: Output ONLY true or false
"#;

pub const TOOL_INTENT_ROUTER_PROMPT: &'static str = r#"You are a tool requirement detector that determines if the user needs external tools (web search).

**Task**: Determine if the user's intent requires external information.

**Cases requiring search (Output SEARCH)**:
- "Check the latest news about XXX"
- "Search for materials related to XXX"
- "Help me find XXX"
- "What is the definition of XXX" (Requires authoritative source)
- Real-time data or statistical information required

**Cases NOT requiring tools (Output NONE)**:
- Editing operations based on the existing document
- Information provided by the user themselves
- Common knowledge
- Purely creative content

**Output Format**: Output ONLY NONE or SEARCH
"#;

pub const DOC_INTENT_QUERY_PART_1: &'static str = "\n\n## Current Document\n```md\n";

pub const DOC_INTENT_QUERY_PART_2: &'static str = "\n```\n\n## User Input\n";

pub const DOC_INTENT_QUERY_PART_3: &'static str = "\n\n## Intent Planning (Output single word or JSON array):";

/// The question put to the plan classifier.
pub open spec fn doc_intent_query(current_doc: Seq<char>, user_input: Seq<char>) -> Seq<char> {
    DOC_INTENT_ROUTER_PROMPT@
        + DOC_INTENT_QUERY_PART_1@
        + or_placeholder(current_doc, "[Empty Document]"@)
        + DOC_INTENT_QUERY_PART_2@
        + user_input
        + DOC_INTENT_QUERY_PART_3@
}

/// The question put to the plan classifier.
pub fn build_doc_intent_query(current_doc: &str, user_input: &str) -> (r: String)
    ensures
        r@ == doc_intent_query(current_doc@, user_input@),
{
    let mut msg = String::new();
    msg.append(DOC_INTENT_ROUTER_PROMPT);
    msg.append(DOC_INTENT_QUERY_PART_1);
    msg.append(shown(current_doc, "[Empty Document]"));
    msg.append(DOC_INTENT_QUERY_PART_2);
    msg.append(user_input);
    msg.append(DOC_INTENT_QUERY_PART_3);
    msg
}

/// The commit messages, one to a line, or a placeholder where there are none.
pub open spec fn history_text(history: Seq<Seq<char>>) -> Seq<char> {
    if history.len() == 0 {
        "[No history]"@
    } else {
        join_lines(history)
    }
}

fn join_history(git_history: &[String]) -> (r: String)
    ensures
        r@ == history_text(views(git_history@)),
{
    if git_history.len() == 0 {
        return "[No history]".to_string();
    }
    let mut items: Vec<String> = Vec::new();
    let mut i: usize = 0;
    while i < git_history.len()
        invariant
            i <= git_history.len(),
            items@.len() == i,
            forall|j: int| 0 <= j < i ==> (#[trigger] items@[j])@ == git_history@[j]@,
        decreases git_history.len() - i,
    {
        items.push(git_history[i].clone());
        i += 1;
    }
    assert(views(items@) =~= views(git_history@));
    join_strings(&items)
}

pub const RAG_NEED_QUERY_PART_1: &'static str = "\n\n## Current Context\n\n### Document Content\n```md\n";

pub const RAG_NEED_QUERY_PART_2: &'static str = "\n```\n\n### Current Focus\n";

pub const RAG_NEED_QUERY_PART_3: &'static str = "\n\n### Git History\n";

pub const RAG_NEED_QUERY_PART_4: &'static str = "\n\n### Todo List\n";

pub const RAG_NEED_QUERY_PART_5: &'static str = "\n\n## User Input\n";

pub const RAG_NEED_QUERY_PART_6: &'static str = "\n\n## Need to retrieve history (Output ONLY true or false):";

/// The question put to the retrieval classifier.
pub open spec fn rag_need_query(
    current_doc: Seq<char>,
    focus: Seq<char>,
    git_history: Seq<Seq<char>>,
    todo_list: Seq<char>,
    user_input: Seq<char>,
) -> Seq<char> {
    RAG_NEED_ROUTER_PROMPT@
        + RAG_NEED_QUERY_PART_1@
        + or_placeholder(current_doc, "[Empty Document]"@)
        + RAG_NEED_QUERY_PART_2@
        + or_placeholder(focus, "[None]"@)
        + RAG_NEED_QUERY_PART_3@
        + history_text(git_history)
        + RAG_NEED_QUERY_PART_4@
        + or_placeholder(todo_list, "[None]"@)
        + RAG_NEED_QUERY_PART_5@
        + user_input
        + RAG_NEED_QUERY_PART_6@
}

/// The question put to the retrieval classifier.
pub fn build_rag_need_query(
    current_doc: &str,
    focus: &str,
    git_history: &[String],
    todo_list: &str,
    user_input: &str,
) -> (r: String)
    ensures
        r@ == rag_need_query(current_doc@, focus@, views(git_history@), todo_list@, user_input@),
{
    let history = join_history(git_history);
    let mut msg = String::new();
    msg.append(RAG_NEED_ROUTER_PROMPT);
    msg.append(RAG_NEED_QUERY_PART_1);
    msg.append(shown(current_doc, "[Empty Document]"));
    msg.append(RAG_NEED_QUERY_PART_2);
    msg.append(shown(focus, "[None]"));
    msg.append(RAG_NEED_QUERY_PART_3);
    msg.append(history.as_str());
    msg.append(RAG_NEED_QUERY_PART_4);
    msg.append(shown(todo_list, "[None]"));
    msg.append(RAG_NEED_QUERY_PART_5);
    msg.append(user_input);
    msg.append(RAG_NEED_QUERY_PART_6);
    msg
}

pub const TOOL_INTENT_QUERY_PART_1: &'static str = "\n\n## Current Document\n```md\n";

pub const TOOL_INTENT_QUERY_PART_2: &'static str = "\n```\n\n## User Input\n";

pub const TOOL_INTENT_QUERY_PART_3: &'static str = "\n\n## Tool Requirement (Output ONLY NONE or SEARCH):";

/// The question put to the tool classifier.
pub open spec fn tool_intent_query(current_doc: Seq<char>, user_input: Seq<char>) -> Seq<char> {
    TOOL_INTENT_ROUTER_PROMPT@
        + TOOL_INTENT_QUERY_PART_1@
        + or_placeholder(current_doc, "[Empty Document]"@)
        + TOOL_INTENT_QUERY_PART_2@
        + user_input
        + TOOL_INTENT_QUERY_PART_3@
}

/// The question put to the tool classifier.
pub fn build_tool_intent_query(current_doc: &str, user_input: &str) -> (r: String)
    ensures
        r@ == tool_intent_query(current_doc@, user_input@),
{
    let mut msg = String::new();
    msg.append(TOOL_INTENT_ROUTER_PROMPT);
    msg.append(TOOL_INTENT_QUERY_PART_1);
    msg.append(shown(current_doc, "[Empty Document]"));
    msg.append(TOOL_INTENT_QUERY_PART_2);
    msg.append(user_input);
    msg.append(TOOL_INTENT_QUERY_PART_3);
    msg
}

} // verus!

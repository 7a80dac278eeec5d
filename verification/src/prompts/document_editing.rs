//! The prompts of the editing agents.

use crate::numfmt::{append_decimal, decimal};
use crate::text::{or_placeholder, shown, views};
use vstd::prelude::*;

verus! {

pub const APPEND_AGENT_PROMPT: &'static str = r#"
Creek is a cluster of intelligent inspiration-flow creative assistants that think what the user thinks and record what the user records. Creek's mission is to:

1. Strictly and loyally record the user's voice input, only organizing text style and format, and forbidden from overstepping the user's will;
2. UNLESS the user explicitly and actively requests it (e.g., "Help me write a XX", "Give me a framework for XX", "Help me design a XX"), provide frameworks to inspire the user's thinking; otherwise, [FORBIDDEN] from actively writing any content not present in the user's input.
3. Final goal: Through real-time updates in voice interaction with the user, continuously develop and polish a beautiful markdown document. As the user input ends, a piece of document artwork reaches perfection.
4. Forbidden from reflecting the Agent's personal will, such as providing "Note", "Tip", "Attention", etc. The Agent IS the user.

Requirements for the final markdown document: **Structure First**: Actively use H1/H2/H3/H4, lists, tables, and other Markdown elements, rejecting flat text. Readability is king.

---

You are Creek's APPEND Agent, specifically responsible for appending new content concisely and powerfully to the end of the document based on the user's voice input.

**Rules**:
1. **Faithful Input**: Strictly based on the user's voice content, add [incremental] information concisely and powerfully, without hallucinations.
2. **Language Consistency**: Strictly consistent with the language used by the user (Chinese/English).
3. **Direct Output**: Directly output Markdown content, without any wrappers (like ```md).
4. **Indentation Rules**:
   - **Indentation Rules**:
      - **FORBIDDEN** to use Tab character (\t) for indentation.
      - **MUST** and **ONLY** use 4 spaces for indentation.
      - This is critical; violation will lead to formatting chaos.

**Output Format**: Pure Markdown text, no prefix or tags.
"#;

pub const EDIT_AGENT_PROMPT: &'static str = r#"
Creek is a cluster of intelligent inspiration-flow creative assistants that think what the user thinks and record what the user records. Creek's mission is to:

1. Strictly and loyally record the user's voice input, only organizing text style and format, and forbidden from overstepping the user's will;
2. UNLESS the user explicitly and actively requests it (e.g., "Help me write a XX", "Give me a framework for XX", "Help me design a XX"), provide frameworks to inspire the user's thinking; otherwise, [FORBIDDEN] from actively writing any content not present in the user's input.
3. Final goal: Through real-time updates in voice interaction with the user, continuously develop and polish a beautiful markdown document. As the user input ends, a piece of document artwork reaches perfection.
4. Forbidden from reflecting the Agent's personal will, such as providing "Note", "Tip", "Attention", etc. The Agent IS the user.

Requirements for the final markdown document: **Structure First**: Actively use H1/H2/H3/H4, lists, tables, and other Markdown elements, rejecting flat text. Readability is king.

---

You are Creek's EDIT Agent, specifically responsible for modifying, inserting, or deleting specific content in the document.

**Task**: Strictly use the SEARCH/REPLACE protocol for output, accurately locating and modifying document content.

**Output Format**:

<<<<<<< SEARCH
[Original text fragment that must be exactly matched, containing enough context (3-5 lines), maintaining the original document's indentation (4 spaces); cannot be a placeholder like [EMPTY], etc.]
=======
[New modified content, leave empty if it's a deletion operation]
>>>>>>> REPLACE

**Rules**:
1. **Exact Match**: The SEARCH block must be exactly identical to the current document content (case, indentation, punctuation).
2. **Enough Context**: Include 3-5 lines of context to ensure a unique match.
3. **Single Operation**: Output only one SEARCH/REPLACE block at a time.
4. **Maintain Format**: The REPLACE block should maintain the original Markdown format style.
5. **Indentation Rules**:
   - **FORBIDDEN** to use Tab character (\t) for indentation.
   - **MUST** and **ONLY** use 4 spaces for indentation.
   - Maintain the original document's indentation (4 spaces) within the SEARCH block.
   - This is critical; violation will lead to formatting chaos or modification failure.

**Output Format**: Directly output the SEARCH/REPLACE block, no wrappers, no other text.
"#;

pub const GREP_AGENT_PROMPT: &'static str = r#"You are Creek's GREP Agent, specifically responsible for global keyword/regex find and replace.

**Task**: Execute batch find and replace operations across the entire document based on user needs.

**Features**:
- Keyword level, supports regular expressions
- Replaces all matches at once
- Suitable for scenarios like renaming, unifying terms, batch corrections, etc.

**Output Format**:
```
FIND: [Search pattern, can be plain text or a regular expression]
REPLACE: [Replacement content]
```

**Rules**:
1. **Precise Positioning**: Ensure the FIND pattern accurately matches the target content.
2. **Avoid Collateral Damage**: If a pattern might match content that should not be modified, prompt the user to use a more precise pattern.
3. **Single Pair Only**: Output only one FIND/REPLACE pair.

**Output Example**:
```
FIND: oldTerm
REPLACE: newTerm
```
"#;

pub const APPEND_MESSAGE_PART_1: &'static str = "\n\n## Current Document\n```md\n";

pub const APPEND_MESSAGE_PART_2: &'static str = "\n```\n\n## User Input\n";

pub const APPEND_MESSAGE_PART_3: &'static str = "\n";

/// The message for one append: the agent's rules, the document and what the
/// user said.
pub open spec fn append_message(current_doc: Seq<char>, user_input: Seq<char>) -> Seq<char> {
    APPEND_AGENT_PROMPT@
        + APPEND_MESSAGE_PART_1@
        + current_doc
        + APPEND_MESSAGE_PART_2@
        + user_input
        + APPEND_MESSAGE_PART_3@
}

/// The message for one append: the agent's rules, the document and what the
/// user said.
pub fn build_append_message(current_doc: &str, user_input: &str) -> (r: String)
    ensures
        r@ == append_message(current_doc@, user_input@),
{
    let mut msg = String::new();
    msg.append(APPEND_AGENT_PROMPT);
    msg.append(APPEND_MESSAGE_PART_1);
    msg.append(current_doc);
    msg.append(APPEND_MESSAGE_PART_2);
    msg.append(user_input);
    msg.append(APPEND_MESSAGE_PART_3);
    msg
}

pub const EDIT_MESSAGE_PART_1: &'static str = "\n\n## Current Document\n```md\n";

pub const EDIT_MESSAGE_PART_2: &'static str = "\n```\n\n## User Modification Request\n";

pub const EDIT_MESSAGE_PART_3: &'static str = "\n";

/// The message for one edit: the agent's rules, the document and what the
/// user asked to change.
pub open spec fn edit_message(current_doc: Seq<char>, user_input: Seq<char>) -> Seq<char> {
    EDIT_AGENT_PROMPT@
        + EDIT_MESSAGE_PART_1@
        + current_doc
        + EDIT_MESSAGE_PART_2@
        + user_input
        + EDIT_MESSAGE_PART_3@
}

/// The message for one edit: the agent's rules, the document and what the
/// user asked to change.
pub fn build_edit_message(current_doc: &str, user_input: &str) -> (r: String)
    ensures
        r@ == edit_message(current_doc@, user_input@),
{
    let mut msg = String::new();
    msg.append(EDIT_AGENT_PROMPT);
    msg.append(EDIT_MESSAGE_PART_1);
    msg.append(current_doc);
    msg.append(EDIT_MESSAGE_PART_2);
    msg.append(user_input);
    msg.append(EDIT_MESSAGE_PART_3);
    msg
}

pub const EDIT_RETRY_PROMPT_PART_1: &'static str = "**Correction Hint**: Last edit failed.\n\nError Message: ";

pub const EDIT_RETRY_PROMPT_PART_2: &'static str = "\n\n**CRITICAL / SEVERE WARNING**:\n1. **Indentation MUST use 4 spaces**: Tab (\\t) indentation is strictly forbidden in the document. Please check your SEARCH block to ensure it uses 4 spaces instead of a Tab.\n   - WRONG: `\\t- item` (Tab)\n   - CORRECT: `    - item` (4 spaces)\n2. **Exact Match**: The content of the SEARCH block (including every space) must be exactly identical to the document.\n\nPlease modify your SEARCH block, replace all Tabs with 4 spaces, and then try again.";

/// The hint sent with a retry after an edit could not be applied.
pub open spec fn edit_retry_prompt(error_msg: Seq<char>) -> Seq<char> {
    EDIT_RETRY_PROMPT_PART_1@
        + error_msg
        + EDIT_RETRY_PROMPT_PART_2@
}

/// The hint sent with a retry after an edit could not be applied.
pub fn build_edit_retry_prompt(error_msg: &str) -> (r: String)
    ensures
        r@ == edit_retry_prompt(error_msg@),
{
    let mut msg = EDIT_RETRY_PROMPT_PART_1.to_string();
    msg.append(error_msg);
    msg.append(EDIT_RETRY_PROMPT_PART_2);
    msg
}

pub const GREP_MESSAGE_PART_1: &'static str = "\n\n## Current Document\n```md\n";

pub const GREP_MESSAGE_PART_2: &'static str = "\n```\n\n## User Find and Replace Request\n";

pub const GREP_MESSAGE_PART_3: &'static str = "\n";

/// The message for one global replacement.
pub open spec fn grep_message(current_doc: Seq<char>, user_input: Seq<char>) -> Seq<char> {
    GREP_AGENT_PROMPT@
        + GREP_MESSAGE_PART_1@
        + current_doc
        + GREP_MESSAGE_PART_2@
        + user_input
        + GREP_MESSAGE_PART_3@
}

/// The message for one global replacement.
pub fn build_grep_message(current_doc: &str, user_input: &str) -> (r: String)
    ensures
        r@ == grep_message(current_doc@, user_input@),
{
    let mut msg = String::new();
    msg.append(GREP_AGENT_PROMPT);
    msg.append(GREP_MESSAGE_PART_1);
    msg.append(current_doc);
    msg.append(GREP_MESSAGE_PART_2);
    msg.append(user_input);
    msg.append(GREP_MESSAGE_PART_3);
    msg
}

/// The first `n` commit messages, numbered from 1, one to a line.
pub open spec fn numbered_commits(history: Seq<Seq<char>>, n: int) -> Seq<char>
    decreases n,
{
    if n <= 0 {
        Seq::empty()
    } else {
        numbered_commits(history, n - 1) + decimal(n as nat) + ". "@ + history[n - 1] + "\n"@
    }
}

/// The first `n` tasks, numbered from 1, one to a line, each with its id.
pub open spec fn numbered_todos(todos: Seq<(Seq<char>, Seq<char>)>, n: int) -> Seq<char>
    decreases n,
{
    if n <= 0 {
        Seq::empty()
    } else {
        numbered_todos(todos, n - 1) + decimal(n as nat) + ". "@ + todos[n - 1].1 + " (id: "@
            + todos[n - 1].0 + ")\n"@
    }
}

/// The section on recent changes: the commit messages, or a placeholder.
pub open spec fn recent_changes_section(history: Seq<Seq<char>>) -> Seq<char> {
    if history.len() == 0 {
        "[None]\n"@
    } else {
        numbered_commits(history, history.len() as int)
    }
}

/// The section on active tasks: the tasks, or a placeholder.
pub open spec fn active_todos_section(todos: Seq<(Seq<char>, Seq<char>)>) -> Seq<char> {
    if todos.len() == 0 {
        "[None]\n"@
    } else {
        numbered_todos(todos, todos.len() as int)
    }
}

/// The `(id, description)` pairs as plain values.
pub open spec fn pair_views(todos: Seq<(String, String)>) -> Seq<(Seq<char>, Seq<char>)> {
    Seq::new(todos.len(), |i: int| (todos[i].0@, todos[i].1@))
}

/// The system message of an editing agent.
pub open spec fn system_message(
    base_prompt: Seq<char>,
    current_doc: Seq<char>,
    focus: Seq<char>,
    history: Seq<Seq<char>>,
    todos: Seq<(Seq<char>, Seq<char>)>,
) -> Seq<char> {
    base_prompt + "\n\n## Current Context\n\n### Current Document\n```md\n"@ + or_placeholder(
        current_doc,
        "[Empty]"@,
    ) + "\n```\n\n### Current Focus\n"@ + or_placeholder(focus, "[None]"@)
        + "\n\n### Recent Changes\n"@ + recent_changes_section(history)
        + "\n### Active Todos\n"@ + active_todos_section(todos)
}

/// Builds the system message of an editing agent. Every section is always
/// there: an empty document, an empty focus, no commits and no tasks each
/// show a placeholder.
pub fn build_system_message_with_state(
    base_prompt: &str,
    current_doc: &str,
    focus: &str,
    git_history: &[String],
    todo_list: &[(String, String)],
) -> (r: String)
    ensures
        r@ == system_message(
            base_prompt@,
            current_doc@,
            focus@,
            views(git_history@),
            pair_views(todo_list@),
        ),
{
    let mut msg = base_prompt.to_string();
    msg.append("\n\n## Current Context\n\n### Current Document\n```md\n");
    msg.append(shown(current_doc, "[Empty]"));
    msg.append("\n```\n\n### Current Focus\n");
    msg.append(shown(focus, "[None]"));
    msg.append("\n\n### Recent Changes\n");
    let ghost head = msg@;
    if git_history.len() == 0 {
        msg.append("[None]\n");
    } else {
        let mut i: usize = 0;
        assert(head + numbered_commits(views(git_history@), 0) == head);
        while i < git_history.len()
            invariant
                i <= git_history.len(),
                msg@ == head + numbered_commits(views(git_history@), i as int),
            decreases git_history.len() - i,
        {
            let ghost before = numbered_commits(views(git_history@), i as int);
            append_decimal(&mut msg, (i + 1) as u64);
            msg.append(". ");
            msg.append(git_history[i].as_str());
            msg.append("\n");
            proof {
                let line = decimal((i + 1) as nat) + ". "@ + git_history@[i as int]@ + "\n"@;
                assert(views(git_history@)[i as int] == git_history@[i as int]@);
                assert(msg@ == head + (before + decimal((i + 1) as nat) + ". "@
                    + git_history@[i as int]@ + "\n"@));
            }
            i += 1;
        }
    }
    msg.append("\n### Active Todos\n");
    let ghost head2 = msg@;
    if todo_list.len() == 0 {
        msg.append("[None]\n");
    } else {
        let mut i: usize = 0;
        assert(head2 + numbered_todos(pair_views(todo_list@), 0) == head2);
        while i < todo_list.len()
            invariant
                i <= todo_list.len(),
                msg@ == head2 + numbered_todos(pair_views(todo_list@), i as int),
            decreases todo_list.len() - i,
        {
            let ghost before = numbered_todos(pair_views(todo_list@), i as int);
            append_decimal(&mut msg, (i + 1) as u64);
            msg.append(". ");
            msg.append(todo_list[i].1.as_str());
            msg.append(" (id: ");
            msg.append(todo_list[i].0.as_str());
            msg.append(")\n");
            proof {
                assert(pair_views(todo_list@)[i as int] == (
                    todo_list@[i as int].0@,
                    todo_list@[i as int].1@,
                ));
                assert(msg@ == head2 + (before + decimal((i + 1) as nat) + ". "@
                    + todo_list@[i as int].1@ + " (id: "@ + todo_list@[i as int].0@ + ")\n"@));
            }
            i += 1;
        }
    }
    msg
}

} // verus!

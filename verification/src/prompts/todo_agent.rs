//! The prompt of the task-list agent.

use crate::numfmt::{append_decimal, decimal};
use crate::state::{active_count, count_active, todo_views, TodoItem, TodoModel};
use crate::text::{is_blank, is_blank_str, join_lines, join_strings, views};
use crate::truncate::{safe_truncate, truncated};
use vstd::prelude::*;

verus! {

/// How long ago a completed task was completed, where that is known.
pub open spec fn turns_info(turns: Option<u32>) -> Seq<char> {
    match turns {
        Some(n) => " - "@ + decimal(n as nat) + " turns ago"@,
        None => Seq::empty(),
    }
}

/// The line that shows one task.
pub open spec fn todo_line(t: TodoModel) -> Seq<char> {
    if t.completed {
        "- ["@ + t.id + "] "@ + t.desc + " (completed"@ + turns_info(t.completed_turns_ago) + ")"@
    } else {
        "- ["@ + t.id + "] "@ + t.desc + " (pending)"@
    }
}

pub open spec fn todo_lines(todos: Seq<TodoModel>) -> Seq<Seq<char>> {
    Seq::new(todos.len(), |i: int| todo_line(todos[i]))
}

/// The tasks, one to a line, or a placeholder where there are none.
pub open spec fn todos_text(todos: Seq<TodoModel>) -> Seq<char> {
    if todos.len() == 0 {
        "[None]"@
    } else {
        join_lines(todo_lines(todos))
    }
}

/// The line that says how full the list is: over ten active tasks exceed the
/// limit, over eight come close to it.
pub open spec fn status_line(active: nat) -> Seq<char> {
    if active > 10 {
        "STATUS: "@ + decimal(active) + " active items - EXCEEDS LIMIT, delete at least "@
            + decimal((active - 8) as nat) + " immediately"@
    } else if active > 8 {
        "STATUS: "@ + decimal(active) + " active items - approaching limit, consider cleanup"@
    } else {
        "STATUS: "@ + decimal(active) + " active items - within limit"@
    }
}

/// The recent changes, or a placeholder where they are blank.
pub open spec fn recent_changes_shown(recent: Seq<char>) -> Seq<char> {
    if is_blank(recent) {
        "[None]"@
    } else {
        recent
    }
}

fn render_todo(t: &TodoItem) -> (r: String)
    ensures
        r@ == todo_line(t@),
{
    let mut line = "- [".to_string();
    line.append(t.id.as_str());
    line.append("] ");
    line.append(t.desc.as_str());
    if t.completed {
        line.append(" (completed");
        let ghost before = line@;
        match t.completed_turns_ago {
            Some(n) => {
                line.append(" - ");
                append_decimal(&mut line, n as u64);
                line.append(" turns ago");
                assert(line@ == before + (" - "@ + decimal(n as nat) + " turns ago"@));
            },
            None => {
                assert(line@ == before + Seq::<char>::empty());
            },
        }
        line.append(")");
    } else {
        line.append(" (pending)");
    }
    line
}

fn render_todos(todos: &[TodoItem]) -> (r: String)
    ensures
        r@ == todos_text(todo_views(todos@)),
{
    if todos.len() == 0 {
        return "[None]".to_string();
    }
    let mut items: Vec<String> = Vec::new();
    let mut i: usize = 0;
    while i < todos.len()
        invariant
            i <= todos.len(),
            items@.len() == i,
            forall|j: int| 0 <= j < i ==> (#[trigger] items@[j])@ == todo_line(todos@[j]@),
        decreases todos.len() - i,
    {
        items.push(render_todo(&todos[i]));
        i += 1;
    }
    assert(views(items@) =~= todo_lines(todo_views(todos@)));
    join_strings(&items)
}

fn render_status(active: usize) -> (r: String)
    ensures
        r@ == status_line(active as nat),
{
    let mut line = "STATUS: ".to_string();
    append_decimal(&mut line, active as u64);
    if active > 10 {
        line.append(" active items - EXCEEDS LIMIT, delete at least ");
        append_decimal(&mut line, (active - 8) as u64);
        line.append(" immediately");
    } else if active > 8 {
        line.append(" active items - approaching limit, consider cleanup");
    } else {
        line.append(" active items - within limit");
    }
    line
}

pub const TODO_MAINTENANCE_PROMPT_PART_1: &'static str = r#"You are a Todo Agent that maintains a todo list for document writing.

## Current Document
```
"#;

pub const TODO_MAINTENANCE_PROMPT_PART_2: &'static str = r#"
```

## Current Todos
"#;

pub const TODO_MAINTENANCE_PROMPT_PART_3: &'static str = r#"

"#;

pub const TODO_MAINTENANCE_PROMPT_PART_4: &'static str = r#"

## Recent Changes
"#;

pub const TODO_MAINTENANCE_PROMPT_PART_5: &'static str = r#"

## User Input
"#;

pub const TODO_MAINTENANCE_PROMPT_PART_6: &'static str = r#"

## Your Task
Analyze the user input and document state, then decide what todo operations to perform:
1. If user input completes a todo, mark it as complete
2. If a todo description needs updating, update it
3. If a todo is no longer relevant, delete it
4. If new tasks emerge from the document, add new todos
5. **CRITICAL**: If document is empty or very short (< 50 chars), DELETE ALL todos
6. **CRITICAL**: If todo list exceeds 10 items, aggressively delete less important ones
7. **IMPORTANT**: Todos marked as "completed" are tasks ALREADY DONE - do NOT add similar tasks again

## Important Rules
- Keep the todo list concise (max 5-10 items, STRICTLY enforce)
- Only track actionable, document-related tasks
- Be conservative: don't add todos unless clearly needed
- Use clear, concise descriptions (max 50 characters)
- When document is cleared/empty, clear all todos
- When list is too long (>10), prioritize and delete low-priority items

## Output Format
Output ONLY a valid JSON object (no markdown, no explanation):
{
  "operations": [
    {"action": "complete", "todo_id": "existing-id"},
    {"action": "update", "todo_id": "existing-id", "new_desc": "new description"},
    {"action": "delete", "todo_id": "existing-id"},
    {"action": "add", "desc": "new todo description"}
  ]
}

If no operations needed, output: {"operations": []}
"#;

/// The prompt that asks the model to maintain the task list: the first 500
/// bytes of the document, the tasks, how full the list is, the recent focus
/// and what the user said.
pub open spec fn todo_maintenance_prompt(
    current_doc: Seq<char>,
    current_todos: Seq<TodoModel>,
    user_input: Seq<char>,
    recent_changes: Seq<char>,
) -> Seq<char> {
    TODO_MAINTENANCE_PROMPT_PART_1@
        + truncated(current_doc, 500)
        + TODO_MAINTENANCE_PROMPT_PART_2@
        + todos_text(current_todos)
        + TODO_MAINTENANCE_PROMPT_PART_3@
        + status_line(active_count(current_todos))
        + TODO_MAINTENANCE_PROMPT_PART_4@
        + recent_changes_shown(recent_changes)
        + TODO_MAINTENANCE_PROMPT_PART_5@
        + user_input
        + TODO_MAINTENANCE_PROMPT_PART_6@
}

/// The prompt that asks the model to maintain the task list: the first 500
/// bytes of the document, the tasks, how full the list is, the recent focus
/// and what the user said.
pub fn build_todo_maintenance_prompt(
    current_doc: &str,
    current_todos: &[TodoItem],
    user_input: &str,
    recent_changes: &str,
) -> (r: String)
    ensures
        r@ == todo_maintenance_prompt(current_doc@, todo_views(current_todos@), user_input@, recent_changes@),
{
    let preview = safe_truncate(current_doc, 500);
    let todos = render_todos(current_todos);
    let status = render_status(count_active(current_todos));
    let changes = if is_blank_str(recent_changes) {
        "[None]"
    } else {
        recent_changes
    };
    let mut msg = TODO_MAINTENANCE_PROMPT_PART_1.to_string();
    msg.append(preview);
    msg.append(TODO_MAINTENANCE_PROMPT_PART_2);
    msg.append(todos.as_str());
    msg.append(TODO_MAINTENANCE_PROMPT_PART_3);
    msg.append(status.as_str());
    msg.append(TODO_MAINTENANCE_PROMPT_PART_4);
    msg.append(changes);
    msg.append(TODO_MAINTENANCE_PROMPT_PART_5);
    msg.append(user_input);
    msg.append(TODO_MAINTENANCE_PROMPT_PART_6);
    msg
}

} // verus!

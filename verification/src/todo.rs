//! The task-list agent: it reads the operations that the model asks for and
//! applies them to the task list.

use crate::chat::{message_views, user_message, ChatMessage};
use crate::events::TodoUpdate;
use crate::prompts::todo_agent::{build_todo_maintenance_prompt, todo_maintenance_prompt};
use crate::identity::fresh_id;
use crate::state::{
    active_todos, completed_todo, new_todo, todo_index, todo_views, StateModel, StateStore,
    TodoItem, TodoModel,
};
use crate::text::{
    chars_to_string, ends_with, ends_with_chars, is_blank, is_blank_str, starts_with,
    starts_with_chars, str_to_chars, subvec, trim, trim_chars,
};
use vstd::prelude::*;

verus! {

/// One change of the task list that the model asks for.
#[derive(Debug, Clone)]
pub enum TodoOperation {
    Complete { todo_id: String },
    Update { todo_id: String, new_desc: String },
    Delete { todo_id: String },
    Add { desc: String },
}

/// The changes of one answer of the model.
#[derive(Debug, Clone)]
pub struct TodoOperations {
    pub operations: Vec<TodoOperation>,
}

/// An operation as plain values.
pub enum OperationModel {
    Complete { todo_id: Seq<char> },
    Update { todo_id: Seq<char>, new_desc: Seq<char> },
    Delete { todo_id: Seq<char> },
    Add { desc: Seq<char> },
}

impl View for TodoOperation {
    type V = OperationModel;

    open spec fn view(&self) -> OperationModel {
        match self {
            TodoOperation::Complete { todo_id } => OperationModel::Complete { todo_id: todo_id@ },
            TodoOperation::Update { todo_id, new_desc } => OperationModel::Update {
                todo_id: todo_id@,
                new_desc: new_desc@,
            },
            TodoOperation::Delete { todo_id } => OperationModel::Delete { todo_id: todo_id@ },
            TodoOperation::Add { desc } => OperationModel::Add { desc: desc@ },
        }
    }
}

pub open spec fn operation_views(ops: Seq<TodoOperation>) -> Seq<OperationModel> {
    Seq::new(ops.len(), |i: int| ops[i]@)
}

/// The task list after one operation. An operation on an id that the list
/// does not hold changes nothing; a new task takes the id `new_id`.
pub open spec fn applied_operation(
    todos: Seq<TodoModel>,
    op: OperationModel,
    new_id: Seq<char>,
) -> Seq<TodoModel> {
    match op {
        OperationModel::Complete { todo_id } => match todo_index(todos, todo_id) {
            Some(i) => todos.update(i, completed_todo(todos[i])),
            None => todos,
        },
        OperationModel::Update { todo_id, new_desc } => match todo_index(todos, todo_id) {
            Some(i) => todos.update(i, TodoModel { desc: new_desc, ..todos[i] }),
            None => todos,
        },
        OperationModel::Delete { todo_id } => match todo_index(todos, todo_id) {
            Some(i) => todos.remove(i),
            None => todos,
        },
        OperationModel::Add { desc } => todos.push(new_todo(new_id, desc)),
    }
}

/// The task list after the first `n` operations, where operation `k` takes
/// the id `ids[k]` if it adds a task.
pub open spec fn applied_operations(
    todos: Seq<TodoModel>,
    ops: Seq<OperationModel>,
    ids: Seq<Seq<char>>,
    n: int,
) -> Seq<TodoModel>
    decreases n,
{
    if n <= 0 {
        todos
    } else {
        applied_operation(applied_operations(todos, ops, ids, n - 1), ops[n - 1], ids[n - 1])
    }
}

/// The task list after a maintenance: the operations are applied in order
/// and the completed tasks are then taken off. Without operations nothing
/// changes.
pub open spec fn maintained(
    todos: Seq<TodoModel>,
    ops: Seq<OperationModel>,
    ids: Seq<Seq<char>>,
) -> Seq<TodoModel> {
    if ops.len() == 0 {
        todos
    } else {
        active_todos(applied_operations(todos, ops, ids, ops.len() as int))
    }
}

/// `after` is the task list that a maintenance of `before` leaves when the
/// tasks it adds take the ids `ids`, one for each operation.
pub open spec fn maintained_with(
    before: Seq<TodoModel>,
    ops: Seq<OperationModel>,
    ids: Seq<Seq<char>>,
    after: Seq<TodoModel>,
) -> bool {
    ids.len() == ops.len() && after == maintained(before, ops, ids)
}

/// The text between the fences of `r`, which begins with the fence `open`:
/// `r` itself where it does not end with a fence behind the opening one.
pub open spec fn unfenced(r: Seq<char>, open: Seq<char>) -> Seq<char> {
    if ends_with(r.skip(open.len() as int), "```"@) {
        trim(r.skip(open.len() as int).take(r.len() - open.len() - "```"@.len()))
    } else {
        trim(r)
    }
}

/// The JSON text of the model's answer: the answer trimmed, and taken out of
/// its markdown fences where it is wrapped in them.
pub open spec fn json_payload(response: Seq<char>) -> Seq<char> {
    let r = trim(response);
    if starts_with(r, "```json"@) && ends_with(r, "```"@) {
        unfenced(r, "```json"@)
    } else if starts_with(r, "```"@) && ends_with(r, "```"@) {
        unfenced(r, "```"@)
    } else {
        r
    }
}

/// The agent that keeps the task list.
pub struct TodoAgent;

fn unfence(r: &Vec<char>, open: &Vec<char>, fence: &Vec<char>) -> (out: Vec<char>)
    requires
        starts_with(r@, open@),
        fence@ == "```"@,
    ensures
        out@ == unfenced(r@, open@),
{
    let inner = subvec(r, open.len(), r.len());
    assert(inner@ == r@.skip(open.len() as int));
    if ends_with_chars(&inner, fence) {
        let body = subvec(&inner, 0, inner.len() - fence.len());
        assert(body@ == inner@.take(r.len() - open.len() - fence.len()));
        trim_chars(&body)
    } else {
        trim_chars(r)
    }
}

impl TodoAgent {
    pub fn new() -> Self {
        TodoAgent
    }

    /// Whether a maintenance is worth a call of the model: not when the
    /// document is blank and there are no tasks.
    pub fn should_maintain(current_doc: &str, current_todos: &[TodoItem]) -> (b: bool)
        ensures
            b == !(is_blank(current_doc@) && current_todos@.len() == 0),
    {
        !(is_blank_str(current_doc) && current_todos.len() == 0)
    }

    /// The request of a maintenance.
    pub fn build_messages(
        current_doc: &str,
        current_todos: &[TodoItem],
        user_input: &str,
        recent_changes: &str,
    ) -> (r: Vec<ChatMessage>)
        ensures
            message_views(r@) == seq![
                user_message(
                    todo_maintenance_prompt(
                        current_doc@,
                        todo_views(current_todos@),
                        user_input@,
                        recent_changes@,
                    ),
                ),
            ],
    {
        let prompt = build_todo_maintenance_prompt(
            current_doc,
            current_todos,
            user_input,
            recent_changes,
        );
        let mut messages: Vec<ChatMessage> = Vec::new();
        messages.push(ChatMessage::user(prompt));
        assert(message_views(messages@) =~= seq![messages@[0]@]);
        messages
    }

    /// The JSON text in the model's answer.
    pub fn extract_json(response: &str) -> (r: String)
        ensures
            r@ == json_payload(response@),
    {
        let v = str_to_chars(response);
        let r = trim_chars(&v);
        let json_fence = str_to_chars("```json");
        let fence = str_to_chars("```");
        let out = if starts_with_chars(&r, &json_fence) && ends_with_chars(&r, &fence) {
            unfence(&r, &json_fence, &fence)
        } else if starts_with_chars(&r, &fence) && ends_with_chars(&r, &fence) {
            unfence(&r, &fence, &fence)
        } else {
            r
        };
        chars_to_string(&out)
    }

    /// Applies one operation to the task list. An operation on an id that the
    /// list does not hold is passed over. A task that is added takes the id
    /// `new_id`.
    pub fn apply_operation(state: &mut StateStore, op: TodoOperation, new_id: String)
        ensures
            final(state)@ == (StateModel {
                todos: applied_operation(old(state)@.todos, op@, new_id@),
                ..old(state)@
            }),
    {
        match op {
            TodoOperation::Complete { todo_id } => {
                let _ = state.complete_todo(todo_id.as_str());
            },
            TodoOperation::Update { todo_id, new_desc } => {
                let _ = state.update_todo(todo_id.as_str(), new_desc);
            },
            TodoOperation::Delete { todo_id } => {
                let _ = state.delete_todo(todo_id.as_str());
            },
            TodoOperation::Add { desc } => {
                state.add_todo(new_id, desc);
            },
        }
    }

    /// The id that an operation brings to the list: a new random one for a
    /// task that is added, and none to speak of for the others.
    fn id_for(op: &TodoOperation) -> String {
        match op {
            TodoOperation::Add { desc: _ } => fresh_id(),
            _ => String::new(),
        }
    }

    /// Applies the operations of one answer, in order, and then takes the
    /// completed tasks off the list. Each task that is added gets a new
    /// random id. Returns the event that tells of the new list; without
    /// operations nothing changes and nothing is told.
    pub fn apply_operations(state: &mut StateStore, ops: Vec<TodoOperation>) -> (r: Option<
        TodoUpdate,
    >)
        ensures
            exists|ids: Seq<Seq<char>>| #[trigger]
                maintained_with(
                    old(state)@.todos,
                    operation_views(ops@),
                    ids,
                    final(state)@.todos,
                ),
            final(state)@ == (StateModel { todos: final(state)@.todos, ..old(state)@ }),
            match r {
                Some(u) => ops@.len() > 0 && todo_views(u.todos@) == final(state)@.todos,
                None => ops@.len() == 0,
            },
    {
        let n = ops.len();
        if n == 0 {
            assert(maintained_with(
                state@.todos,
                operation_views(ops@),
                Seq::empty(),
                state@.todos,
            ));
            return None;
        }
        let ghost all = operation_views(ops@);
        let ghost mut ids: Seq<Seq<char>> = Seq::empty();
        let mut ops = ops;
        let mut k: usize = 0;
        while k < n
            invariant
                k <= n,
                n == all.len(),
                ops@.len() == n - k,
                forall|j: int| 0 <= j < ops@.len() ==> (#[trigger] ops@[j])@ == all[k + j],
                ids.len() == k,
                state@ == (StateModel {
                    todos: applied_operations(old(state)@.todos, all, ids, k as int),
                    ..old(state)@
                }),
            decreases n - k,
        {
            let op = ops.remove(0);
            let id = TodoAgent::id_for(&op);
            proof {
                let next = ids.push(id@);
                lemma_applied_operations_prefix(old(state)@.todos, all, ids, next, k as int);
                ids = next;
            }
            TodoAgent::apply_operation(state, op, id);
            k += 1;
        }
        state.remove_completed_todos();
        assert(maintained_with(old(state)@.todos, all, ids, state@.todos));
        Some(TodoUpdate { todos: state.get_todos() })
    }
}

/// The first `n` operations do not look at the ids of those that follow.
pub proof fn lemma_applied_operations_prefix(
    todos: Seq<TodoModel>,
    ops: Seq<OperationModel>,
    a: Seq<Seq<char>>,
    b: Seq<Seq<char>>,
    n: int,
)
    requires
        0 <= n <= a.len(),
        n <= b.len(),
        forall|i: int| 0 <= i < n ==> a[i] == b[i],
    ensures
        applied_operations(todos, ops, a, n) == applied_operations(todos, ops, b, n),
    decreases n,
{
    if n > 0 {
        lemma_applied_operations_prefix(todos, ops, a, b, n - 1);
    }
}

impl Default for TodoAgent {
    fn default() -> Self {
        TodoAgent::new()
    }
}

} // verus!

//! The state store: focus, recent commit messages, the task list and the
//! recording that is active.

use vstd::prelude::*;

verus! {

/// One task of the short-horizon task list.
#[derive(Debug, Clone)]
pub struct TodoItem {
    pub id: String,
    pub desc: String,
    pub completed: bool,
    pub completed_turns_ago: Option<u32>,
}

/// A task as plain values.
pub struct TodoModel {
    pub id: Seq<char>,
    pub desc: Seq<char>,
    pub completed: bool,
    pub completed_turns_ago: Option<u32>,
}

impl View for TodoItem {
    type V = TodoModel;

    open spec fn view(&self) -> TodoModel {
        TodoModel {
            id: self.id@,
            desc: self.desc@,
            completed: self.completed,
            completed_turns_ago: self.completed_turns_ago,
        }
    }
}

/// The tasks of a list as plain values.
pub open spec fn todo_views(todos: Seq<TodoItem>) -> Seq<TodoModel> {
    Seq::new(todos.len(), |i: int| todos[i]@)
}

/// How many of the first `n` tasks are not completed.
pub open spec fn active_upto(todos: Seq<TodoModel>, n: int) -> nat
    decreases n,
{
    if n <= 0 {
        0
    } else {
        active_upto(todos, n - 1) + if todos[n - 1].completed {
            0nat
        } else {
            1nat
        }
    }
}

/// How many tasks are not completed.
pub open spec fn active_count(todos: Seq<TodoModel>) -> nat {
    active_upto(todos, todos.len() as int)
}

/// How many of `todos` are not completed.
pub fn count_active(todos: &[TodoItem]) -> (n: usize)
    ensures
        n == active_count(todo_views(todos@)),
{
    let mut n: usize = 0;
    let mut i: usize = 0;
    while i < todos.len()
        invariant
            i <= todos.len(),
            n == active_upto(todo_views(todos@), i as int),
            n <= i,
        decreases todos.len() - i,
    {
        if !todos[i].completed {
            n += 1;
        }
        i += 1;
    }
    n
}


/// How many commit messages the ring keeps.
pub const MAX_COMMIT_MESSAGES: usize = 10;

/// How many active tasks the list is meant to hold at most.
pub const MAX_ACTIVE_TODOS: usize = 10;

/// Why a change of the task list was refused.
#[derive(Debug)]
pub enum StateError {
    TodoNotFound(String),
}

impl StateError {
    pub open spec fn message_spec(self) -> Seq<char> {
        match self {
            StateError::TodoNotFound(id) => "Todo not found: "@ + id@,
        }
    }

    pub fn message(&self) -> (r: String)
        ensures
            r@ == self.message_spec(),
    {
        match self {
            StateError::TodoNotFound(id) => {
                let mut out = "Todo not found: ".to_string();
                out.append(id.as_str());
                out
            },
        }
    }
}

/// A copy of what the state store holds.
#[derive(Debug, Clone)]
pub struct StateSnapshot {
    pub current_doc: String,
    pub focus: String,
    pub git_history: Vec<String>,
    pub todo_list: Vec<TodoItem>,
}

/// What the state store holds, as plain values.
pub struct StateModel {
    pub current_doc: Seq<char>,
    pub focus: Seq<char>,
    /// The last commit messages, oldest first.
    pub git_history: Seq<Seq<char>>,
    pub todos: Seq<TodoModel>,
    pub current_recording: Option<Seq<char>>,
}

/// The ring of commit messages: the last ten, oldest first.
pub struct CommitRing {
    items: Vec<String>,
}

impl View for CommitRing {
    type V = Seq<Seq<char>>;

    closed spec fn view(&self) -> Seq<Seq<char>> {
        crate::text::views(self.items@)
    }
}

impl CommitRing {
    #[verifier::type_invariant]
    spec fn bounded(self) -> bool {
        self.items@.len() <= MAX_COMMIT_MESSAGES
    }

    pub fn new() -> (r: Self)
        ensures
            r@.len() == 0,
    {
        CommitRing { items: Vec::new() }
    }

    /// How many messages the ring holds: never more than ten.
    pub fn len(&self) -> (n: usize)
        ensures
            n == self@.len(),
            n <= MAX_COMMIT_MESSAGES,
    {
        proof {
            use_type_invariant(self);
        }
        self.items.len()
    }

    /// A copy of the messages, oldest first.
    pub fn to_vec(&self) -> (r: Vec<String>)
        ensures
            crate::text::views(r@) == self@,
            r@.len() <= MAX_COMMIT_MESSAGES,
    {
        proof {
            use_type_invariant(self);
        }
        let mut out: Vec<String> = Vec::new();
        let mut i: usize = 0;
        while i < self.items.len()
            invariant
                i <= self.items.len(),
                out@.len() == i,
                forall|j: int| 0 <= j < i ==> (#[trigger] out@[j])@ == self.items@[j]@,
            decreases self.items.len() - i,
        {
            out.push(self.items[i].clone());
            i += 1;
        }
        assert(crate::text::views(out@) =~= crate::text::views(self.items@));
        out
    }

    /// Puts `message` on the ring, which keeps the newest ten.
    pub fn push(&mut self, message: String)
        ensures
            final(self)@ == ring_push(old(self)@, message@),
            final(self)@.len() <= MAX_COMMIT_MESSAGES,
            final(self)@.last() == message@,
    {
        proof {
            use_type_invariant(&*self);
        }
        let ghost before = crate::text::views(self.items@);
        let drop: usize = if self.items.len() >= MAX_COMMIT_MESSAGES {
            self.items.len() + 1 - MAX_COMMIT_MESSAGES
        } else {
            0
        };
        let mut kept: Vec<String> = Vec::new();
        let mut i: usize = drop;
        while i < self.items.len()
            invariant
                drop <= i <= self.items.len(),
                kept@.len() == i - drop,
                forall|j: int|
                    0 <= j < kept@.len() ==> (#[trigger] kept@[j])@ == self.items@[drop + j]@,
            decreases self.items.len() - i,
        {
            kept.push(self.items[i].clone());
            i += 1;
        }
        kept.push(message);
        assert(crate::text::views(kept@) =~= ring_push(before, message@));
        self.items = kept;
    }

    /// Fills the ring from the messages given, oldest first: the newest ten
    /// are kept.
    pub fn refill(&mut self, messages: Vec<String>)
        ensures
            final(self)@ == ring_of(crate::text::views(messages@)),
    {
        let ghost all = crate::text::views(messages@);
        if messages.len() > MAX_COMMIT_MESSAGES {
            let drop: usize = messages.len() - MAX_COMMIT_MESSAGES;
            let mut kept: Vec<String> = Vec::new();
            let mut i: usize = drop;
            while i < messages.len()
                invariant
                    drop <= i <= messages.len(),
                    drop == messages.len() - MAX_COMMIT_MESSAGES,
                    kept@.len() == i - drop,
                    forall|j: int|
                        0 <= j < kept@.len() ==> (#[trigger] kept@[j])@ == messages@[drop + j]@,
                decreases messages.len() - i,
            {
                kept.push(messages[i].clone());
                i += 1;
            }
            assert(crate::text::views(kept@) =~= ring_of(all));
            self.items = kept;
        } else {
            self.items = messages;
        }
    }
}

/// The state store. It is the only writer of the focus, the task list and
/// the ring of commit messages, which never holds more than ten.
pub struct StateStore {
    current_doc: String,
    focus: String,
    git_history: CommitRing,
    todo_list: Vec<TodoItem>,
    current_recording: Option<String>,
}

pub open spec fn option_view(o: Option<String>) -> Option<Seq<char>> {
    match o {
        Some(s) => Some(s@),
        None => None,
    }
}

/// The ring after `message` was added: the newest ten are kept.
pub open spec fn ring_push(ring: Seq<Seq<char>>, message: Seq<char>) -> Seq<Seq<char>> {
    if ring.len() >= MAX_COMMIT_MESSAGES {
        ring.skip(ring.len() + 1 - MAX_COMMIT_MESSAGES).push(message)
    } else {
        ring.push(message)
    }
}

/// The newest ten of `messages`, which are listed oldest first.
pub open spec fn ring_of(messages: Seq<Seq<char>>) -> Seq<Seq<char>> {
    if messages.len() > MAX_COMMIT_MESSAGES {
        messages.skip(messages.len() - MAX_COMMIT_MESSAGES)
    } else {
        messages
    }
}

/// The index of the first task with this id.
pub open spec fn todo_index(todos: Seq<TodoModel>, id: Seq<char>) -> Option<int>
    decreases todos.len(),
{
    if todos.len() == 0 {
        None
    } else if todos[0].id == id {
        Some(0)
    } else {
        match todo_index(todos.drop_first(), id) {
            Some(i) => Some(i + 1),
            None => None,
        }
    }
}

/// A new task: active, with this id and description.
pub open spec fn new_todo(id: Seq<char>, desc: Seq<char>) -> TodoModel {
    TodoModel { id, desc, completed: false, completed_turns_ago: None }
}

/// The task marked as completed in this turn.
pub open spec fn completed_todo(t: TodoModel) -> TodoModel {
    TodoModel { completed: true, completed_turns_ago: Some(0u32), ..t }
}

/// The task with its completion switched.
pub open spec fn toggled_todo(t: TodoModel) -> TodoModel {
    if t.completed {
        TodoModel { completed: false, completed_turns_ago: None, ..t }
    } else {
        completed_todo(t)
    }
}

/// The tasks that are not completed, in order.
pub open spec fn active_todos(todos: Seq<TodoModel>) -> Seq<TodoModel> {
    todos.filter(|t: TodoModel| !t.completed)
}

impl View for StateStore {
    type V = StateModel;

    closed spec fn view(&self) -> StateModel {
        StateModel {
            current_doc: self.current_doc@,
            focus: self.focus@,
            git_history: self.git_history@,
            todos: todo_views(self.todo_list@),
            current_recording: option_view(self.current_recording),
        }
    }
}

impl StateStore {
    /// How many commit messages the ring holds: never more than ten.
    pub fn commit_message_count(&self) -> (n: usize)
        ensures
            n == self@.git_history.len(),
            n <= MAX_COMMIT_MESSAGES,
    {
        self.git_history.len()
    }

    /// An empty store.
    pub fn new() -> (s: Self)
        ensures
            s@.current_doc.len() == 0,
            s@.focus.len() == 0,
            s@.git_history.len() == 0,
            s@.todos.len() == 0,
            s@.current_recording is None,
    {
        StateStore {
            current_doc: String::new(),
            focus: String::new(),
            git_history: CommitRing::new(),
            todo_list: Vec::new(),
            current_recording: None,
        }
    }

    fn clone_todos(&self) -> (r: Vec<TodoItem>)
        ensures
            todo_views(r@) == self@.todos,
    {
        let mut out: Vec<TodoItem> = Vec::new();
        let mut i: usize = 0;
        while i < self.todo_list.len()
            invariant
                i <= self.todo_list.len(),
                out@.len() == i,
                forall|j: int| 0 <= j < i ==> (#[trigger] out@[j])@ == self.todo_list@[j]@,
            decreases self.todo_list.len() - i,
        {
            let t = &self.todo_list[i];
            out.push(
                TodoItem {
                    id: t.id.clone(),
                    desc: t.desc.clone(),
                    completed: t.completed,
                    completed_turns_ago: t.completed_turns_ago,
                },
            );
            i += 1;
        }
        assert(todo_views(out@) =~= todo_views(self.todo_list@));
        out
    }

    /// A copy of the document, the focus, the ring and the task list.
    pub fn get_state(&self) -> (s: StateSnapshot)
        ensures
            s.current_doc@ == self@.current_doc,
            s.focus@ == self@.focus,
            crate::text::views(s.git_history@) == self@.git_history,
            todo_views(s.todo_list@) == self@.todos,
            s.git_history@.len() <= MAX_COMMIT_MESSAGES,
    {
        StateSnapshot {
            current_doc: self.current_doc.clone(),
            focus: self.focus.clone(),
            git_history: self.git_history.to_vec(),
            todo_list: self.clone_todos(),
        }
    }

    /// A copy of the task list.
    pub fn get_todos(&self) -> (r: Vec<TodoItem>)
        ensures
            todo_views(r@) == self@.todos,
    {
        self.clone_todos()
    }

    /// The recording that is active, if one is.
    pub fn current_recording(&self) -> (r: Option<String>)
        ensures
            option_view(r) == self@.current_recording,
    {
        match &self.current_recording {
            Some(id) => Some(id.clone()),
            None => None,
        }
    }

    pub fn update_document(&mut self, content: String)
        ensures
            final(self)@ == (StateModel { current_doc: content@, ..old(self)@ }),
    {
        self.current_doc = content;
    }

    /// Swaps in a new focus sentence.
    pub fn set_focus(&mut self, focus: String)
        ensures
            final(self)@ == (StateModel { focus: focus@, ..old(self)@ }),
    {
        self.focus = focus;
    }

    pub fn set_current_recording(&mut self, recording_id: String)
        ensures
            final(self)@ == (StateModel {
                current_recording: Some(recording_id@),
                ..old(self)@
            }),
    {
        self.current_recording = Some(recording_id);
    }

    pub fn clear_current_recording(&mut self)
        ensures
            final(self)@ == (StateModel { current_recording: None, ..old(self)@ }),
    {
        self.current_recording = None;
    }

    /// Forgets what was kept for a recording that is reset: the focus, the
    /// ring and the task list become empty.
    pub fn reset_recording_state(&mut self)
        ensures
            final(self)@ == (StateModel {
                focus: Seq::empty(),
                git_history: Seq::empty(),
                todos: Seq::empty(),
                ..old(self)@
            }),
    {
        self.focus = String::new();
        self.git_history = CommitRing::new();
        self.todo_list = Vec::new();
        assert(self.git_history@ =~= Seq::<Seq<char>>::empty());
        assert(todo_views(self.todo_list@) =~= Seq::<TodoModel>::empty());
    }

    /// Puts `message` on the ring of commit messages, which keeps the newest
    /// ten.
    pub fn add_git_history(&mut self, message: String)
        ensures
            final(self)@ == (StateModel {
                git_history: ring_push(old(self)@.git_history, message@),
                ..old(self)@
            }),
            final(self)@.git_history.len() <= MAX_COMMIT_MESSAGES,
            final(self)@.git_history.last() == message@,
    {
        self.git_history.push(message);
    }

    /// Fills the ring from the commit messages of a recording, given oldest
    /// first: the newest ten are kept.
    pub fn refresh_git_history(&mut self, messages: Vec<String>)
        ensures
            final(self)@ == (StateModel {
                git_history: ring_of(crate::text::views(messages@)),
                ..old(self)@
            }),
    {
        self.git_history.refill(messages);
    }

    fn find_todo(&self, id: &str) -> (r: Option<usize>)
        ensures
            match r {
                Some(k) => todo_index(self@.todos, id@) == Some(k as int) && k
                    < self.todo_list@.len(),
                None => todo_index(self@.todos, id@) is None,
            },
    {
        let mut i: usize = 0;
        let ghost all = todo_views(self.todo_list@);
        assert(all.skip(0) == all);
        while i < self.todo_list.len()
            invariant
                i <= self.todo_list.len(),
                all == todo_views(self.todo_list@),
                todo_index(all, id@) == match todo_index(all.skip(i as int), id@) {
                    Some(k) => Some(k + i),
                    None => None,
                },
            decreases self.todo_list.len() - i,
        {
            proof {
                let rest = all.skip(i as int);
                assert(rest[0] == self.todo_list@[i as int]@);
                assert(rest.drop_first() == all.skip(i + 1));
            }
            if crate::text::str_eq(self.todo_list[i].id.as_str(), id) {
                return Some(i);
            }
            i += 1;
        }
        None
    }

    /// Adds an active task at the end of the list.
    pub fn add_todo(&mut self, id: String, desc: String)
        ensures
            final(self)@ == (StateModel {
                todos: old(self)@.todos.push(new_todo(id@, desc@)),
                ..old(self)@
            }),
    {
        let ghost before = todo_views(self.todo_list@);
        self.todo_list.push(TodoItem { id, desc, completed: false, completed_turns_ago: None });
        assert(todo_views(self.todo_list@) =~= before.push(new_todo(id@, desc@)));
    }

    fn replace_todo(&mut self, i: usize, item: TodoItem)
        requires
            i < old(self).todo_list@.len(),
        ensures
            final(self)@ == (StateModel {
                todos: old(self)@.todos.update(i as int, item@),
                ..old(self)@
            }),
    {
        let ghost before = todo_views(self.todo_list@);
        self.todo_list.set(i, item);
        assert(todo_views(self.todo_list@) =~= before.update(i as int, item@));
    }

    /// Gives the first task with this id a new description.
    pub fn update_todo(&mut self, id: &str, desc: String) -> (r: Result<(), StateError>)
        ensures
            match todo_index(old(self)@.todos, id@) {
                Some(i) => r is Ok && final(self)@ == (StateModel {
                    todos: old(self)@.todos.update(
                        i,
                        TodoModel { desc: desc@, ..old(self)@.todos[i] },
                    ),
                    ..old(self)@
                }),
                None => r is Err && r->Err_0.message_spec() == "Todo not found: "@ + id@
                    && final(self)@ == old(self)@,
            },
    {
        match self.find_todo(id) {
            Some(i) => {
                assert(todo_views(self.todo_list@)[i as int] == self.todo_list@[i as int]@);
                let t = &self.todo_list[i];
                let item = TodoItem {
                    id: t.id.clone(),
                    desc,
                    completed: t.completed,
                    completed_turns_ago: t.completed_turns_ago,
                };
                self.replace_todo(i, item);
                Ok(())
            },
            None => Err(StateError::TodoNotFound(id.to_string())),
        }
    }

    /// Marks the first task with this id as completed.
    pub fn complete_todo(&mut self, id: &str) -> (r: Result<(), StateError>)
        ensures
            match todo_index(old(self)@.todos, id@) {
                Some(i) => r is Ok && final(self)@ == (StateModel {
                    todos: old(self)@.todos.update(i, completed_todo(old(self)@.todos[i])),
                    ..old(self)@
                }),
                None => r is Err && r->Err_0.message_spec() == "Todo not found: "@ + id@
                    && final(self)@ == old(self)@,
            },
    {
        match self.find_todo(id) {
            Some(i) => {
                assert(todo_views(self.todo_list@)[i as int] == self.todo_list@[i as int]@);
                let t = &self.todo_list[i];
                let item = TodoItem {
                    id: t.id.clone(),
                    desc: t.desc.clone(),
                    completed: true,
                    completed_turns_ago: Some(0),
                };
                self.replace_todo(i, item);
                Ok(())
            },
            None => Err(StateError::TodoNotFound(id.to_string())),
        }
    }

    /// Switches the first task with this id between active and completed.
    pub fn toggle_todo(&mut self, id: &str) -> (r: Result<(), StateError>)
        ensures
            match todo_index(old(self)@.todos, id@) {
                Some(i) => r is Ok && final(self)@ == (StateModel {
                    todos: old(self)@.todos.update(i, toggled_todo(old(self)@.todos[i])),
                    ..old(self)@
                }),
                None => r is Err && r->Err_0.message_spec() == "Todo not found: "@ + id@
                    && final(self)@ == old(self)@,
            },
    {
        match self.find_todo(id) {
            Some(i) => {
                assert(todo_views(self.todo_list@)[i as int] == self.todo_list@[i as int]@);
                let t = &self.todo_list[i];
                let item = if t.completed {
                    TodoItem {
                        id: t.id.clone(),
                        desc: t.desc.clone(),
                        completed: false,
                        completed_turns_ago: None,
                    }
                } else {
                    TodoItem {
                        id: t.id.clone(),
                        desc: t.desc.clone(),
                        completed: true,
                        completed_turns_ago: Some(0),
                    }
                };
                self.replace_todo(i, item);
                Ok(())
            },
            None => Err(StateError::TodoNotFound(id.to_string())),
        }
    }

    /// Takes the first task with this id off the list.
    pub fn delete_todo(&mut self, id: &str) -> (r: Result<(), StateError>)
        ensures
            match todo_index(old(self)@.todos, id@) {
                Some(i) => r is Ok && final(self)@ == (StateModel {
                    todos: old(self)@.todos.remove(i),
                    ..old(self)@
                }),
                None => r is Err && r->Err_0.message_spec() == "Todo not found: "@ + id@
                    && final(self)@ == old(self)@,
            },
    {
        match self.find_todo(id) {
            Some(i) => {
                let ghost before = todo_views(self.todo_list@);
                self.todo_list.remove(i);
                assert(todo_views(self.todo_list@) =~= before.remove(i as int));
                Ok(())
            },
            None => Err(StateError::TodoNotFound(id.to_string())),
        }
    }

    /// Takes `todos` as the task list, as they were kept for a recording.
    pub fn replace_todos(&mut self, todos: Vec<TodoItem>)
        ensures
            final(self)@ == (StateModel { todos: todo_views(todos@), ..old(self)@ }),
    {
        self.todo_list = todos;
    }

    /// Takes every task off the list.
    pub fn clear_todos(&mut self)
        ensures
            final(self)@ == (StateModel { todos: Seq::empty(), ..old(self)@ }),
    {
        self.todo_list = Vec::new();
        assert(todo_views(self.todo_list@) =~= Seq::<TodoModel>::empty());
    }

    /// Takes the completed tasks off the list; the active ones keep their
    /// order.
    pub fn remove_completed_todos(&mut self)
        ensures
            final(self)@ == (StateModel {
                todos: active_todos(old(self)@.todos),
                ..old(self)@
            }),
    {
        let ghost all = todo_views(self.todo_list@);
        let mut kept: Vec<TodoItem> = Vec::new();
        let mut i: usize = 0;
        assert(all.take(0) == Seq::<TodoModel>::empty());
        assert(todo_views(kept@) =~= active_todos(all.take(0))) by {
            reveal(Seq::filter);
        }
        while i < self.todo_list.len()
            invariant
                i <= self.todo_list.len(),
                all == todo_views(self.todo_list@),
                todo_views(kept@) == active_todos(all.take(i as int)),
            decreases self.todo_list.len() - i,
        {
            let t = &self.todo_list[i];
            let ghost before = todo_views(kept@);
            proof {
                let next = all.take(i + 1);
                assert(next.drop_last() == all.take(i as int));
                assert(next.last() == t@);
                reveal(Seq::filter);
            }
            if !t.completed {
                kept.push(
                    TodoItem {
                        id: t.id.clone(),
                        desc: t.desc.clone(),
                        completed: false,
                        completed_turns_ago: t.completed_turns_ago,
                    },
                );
                assert(todo_views(kept@) =~= before.push(t@));
            }
            i += 1;
        }
        assert(all.take(self.todo_list.len() as int) == all);
        self.todo_list = kept;
    }
}

} // verus!

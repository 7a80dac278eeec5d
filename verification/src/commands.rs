//! What the commands of the user do to the document, the state store and
//! the chat history. The scheduler says when each of these is due.

use crate::chat::ChatHistory;
use crate::document::DocumentService;
use crate::events::{DocumentUpdate, ToastPayload};
use crate::history::{restored, HistoryLog};
use crate::identity::fresh_id;
use crate::rewrite::{has_tab, normalize_tabs, normalize_tabs_str};
use crate::state::{todo_index, toggled_todo, StateModel, StateStore, TodoModel};
use vstd::prelude::*;

verus! {

/// What a command on the task list leaves to do: the notice to show, and
/// whether the state is to be persisted.
pub struct TodoCommandOutcome {
    pub toast: Option<ToastPayload>,
    pub persist: bool,
}

/// The event that tells the front end of the document as it stands: it
/// carries the text and the version that the document has at this moment.
/// The document is only read.
pub fn snapshot_event(doc: &DocumentService) -> (u: DocumentUpdate)
    ensures
        u.content@ == doc@.content,
        u.version == doc@.version,
{
    let snap = doc.get_snapshot();
    DocumentUpdate { content: snap.content, version: snap.version }
}

/// Takes the text of a recording that was read from disk as the document.
/// Returns the event to emit.
pub fn load_document(doc: &mut DocumentService, state: &mut StateStore, content: String) -> (update:
    DocumentUpdate)
    requires
        old(doc)@.version < u64::MAX,
    ensures
        final(doc)@.content == content@,
        final(doc)@.version == old(doc)@.version + 1,
        final(state)@ == (StateModel { current_doc: content@, ..old(state)@ }),
        update.content@ == content@,
        update.version == final(doc)@.version,
{
    doc.reset(content.clone());
    state.update_document(content);
    snapshot_event(doc)
}

/// Resets the document: it becomes empty, and the chat history with it.
/// Returns the event to emit.
pub fn reset_document(doc: &mut DocumentService, state: &mut StateStore, history: &mut ChatHistory) -> (update:
    DocumentUpdate)
    requires
        old(doc)@.version < u64::MAX,
    ensures
        final(doc)@.content.len() == 0,
        final(doc)@.version == old(doc)@.version + 1,
        final(state)@ == (StateModel { current_doc: Seq::empty(), ..old(state)@ }),
        final(history)@.len() == 0,
        update.content@.len() == 0,
        update.version == final(doc)@.version,
{
    history.clear();
    doc.reset(String::new());
    state.update_document(String::new());
    snapshot_event(doc)
}

/// Takes an edit that the user made by hand: the text becomes the document,
/// tabs made four spaces. Returns the text as it is to be saved.
pub fn manual_edit(doc: &mut DocumentService, state: &mut StateStore, content: &str) -> (saved:
    String)
    requires
        old(doc)@.version < u64::MAX,
    ensures
        saved@ == normalize_tabs(content@),
        !has_tab(saved@),
        final(doc)@.content == saved@,
        final(doc)@.version == old(doc)@.version + 1,
        final(state)@ == (StateModel { current_doc: saved@, ..old(state)@ }),
{
    let normal = normalize_tabs_str(content);
    state.update_document(normal.clone());
    doc.reset(normal.clone());
    normal
}

/// The message of the commit of a manual edit: the model's answer, or a
/// fixed message where the model failed.
pub fn manual_commit_message(answer: Option<String>) -> (r: String)
    ensures
        r@ == match answer {
            Some(a) => a@,
            None => "Manual edit by user"@,
        },
{
    match answer {
        Some(a) => a,
        None => "Manual edit by user".to_string(),
    }
}

/// Empties the document without telling the front end, as the deletion of
/// the active recording does.
pub fn clear_document(doc: &mut DocumentService, state: &mut StateStore)
    requires
        old(doc)@.version < u64::MAX,
    ensures
        final(doc)@.content.len() == 0,
        final(doc)@.version == old(doc)@.version + 1,
        final(state)@ == (StateModel { current_doc: Seq::empty(), ..old(state)@ }),
{
    doc.reset(String::new());
    state.update_document(String::new());
}

/// What a rollback hands out: the event to emit where the document was
/// rolled back, and the notice to show.
pub struct RollbackOutcome {
    pub update: Option<DocumentUpdate>,
    pub toast: ToastPayload,
}

fn rollback_with(
    doc: &mut DocumentService,
    state: &mut StateStore,
    log: &HistoryLog,
    name: &str,
    done: &str,
    failed: &str,
) -> (r: RollbackOutcome)
    requires
        old(doc)@.version < u64::MAX,
    ensures
        match restored(log@, name@) {
            Some(text) => {
                &&& final(doc)@.content == text
                &&& final(doc)@.version == old(doc)@.version + 1
                &&& final(state)@ == (StateModel { current_doc: text, ..old(state)@ })
                &&& r.update matches Some(u)
                &&& u.content@ == text
                &&& u.version == final(doc)@.version
                &&& r.toast.message@ == done@
                &&& r.toast.toast_type@ == "success"@
            },
            None => {
                &&& final(doc)@ == old(doc)@
                &&& final(state)@ == old(state)@
                &&& r.update is None
                &&& r.toast.message@ == failed@ + "Commit not found: "@ + name@
                &&& r.toast.toast_type@ == "error"@
            },
        },
{
    match log.rollback(doc, name) {
        Ok(text) => {
            let update = snapshot_event(doc);
            state.update_document(text);
            RollbackOutcome {
                update: Some(update),
                toast: ToastPayload::success(done.to_string()),
            }
        },
        Err(e) => {
            let mut msg = failed.to_string();
            let why = e.message();
            msg.append(why.as_str());
            assert(msg@ == failed@ + ("Commit not found: "@ + name@));
            RollbackOutcome { update: None, toast: ToastPayload::error(msg) }
        },
    }
}

/// Rolls the document back to the commit that `name` names. The text of the
/// commit is read from the log; the version goes up by one. A commit that
/// the log does not hold leaves everything as it was.
pub fn rollback_to_commit(
    doc: &mut DocumentService,
    state: &mut StateStore,
    log: &HistoryLog,
    name: &str,
) -> (r: RollbackOutcome)
    requires
        old(doc)@.version < u64::MAX,
    ensures
        match restored(log@, name@) {
            Some(text) => {
                &&& final(doc)@.content == text
                &&& final(doc)@.version == old(doc)@.version + 1
                &&& final(state)@ == (StateModel { current_doc: text, ..old(state)@ })
                &&& r.update matches Some(u)
                &&& u.content@ == text
                &&& u.version == final(doc)@.version
                &&& r.toast.message@ == "Rollback successful"@
                &&& r.toast.toast_type@ == "success"@
            },
            None => {
                &&& final(doc)@ == old(doc)@
                &&& final(state)@ == old(state)@
                &&& r.update is None
                &&& r.toast.message@ == "Rollback failed: "@ + "Commit not found: "@ + name@
                &&& r.toast.toast_type@ == "error"@
            },
        },
{
    rollback_with(doc, state, log, name, "Rollback successful", "Rollback failed: ")
}

/// Undoes the last change: the document is rolled back to the commit just
/// before the head. Where the log holds fewer than two commits there is
/// nothing to undo, and nothing happens.
pub fn undo_last_change(doc: &mut DocumentService, state: &mut StateStore, log: &HistoryLog) -> (r:
    Option<RollbackOutcome>)
    requires
        old(doc)@.version < u64::MAX,
    ensures
        log@.len() < 2 ==> r is None && final(doc)@ == old(doc)@ && final(state)@ == old(state)@,
        log@.len() >= 2 ==> r is Some && match restored(log@, log@[log@.len() - 2].hash) {
            Some(text) => {
                &&& final(doc)@.content == text
                &&& final(doc)@.version == old(doc)@.version + 1
                &&& final(state)@ == (StateModel { current_doc: text, ..old(state)@ })
                &&& r->0.update matches Some(u)
                &&& u.content@ == text
                &&& u.version == final(doc)@.version
                &&& r->0.toast.message@ == "Undo successful"@
                &&& r->0.toast.toast_type@ == "success"@
            },
            None => {
                &&& final(doc)@ == old(doc)@
                &&& final(state)@ == old(state)@
                &&& r->0.update is None
                &&& r->0.toast.toast_type@ == "error"@
            },
        },
{
    match log.previous_hash() {
        Some(hash) => Some(
            rollback_with(doc, state, log, hash.as_str(), "Undo successful", "Undo failed: "),
        ),
        None => None,
    }
}

/// Adds a task that the user wrote, under a new random id.
pub fn add_todo(state: &mut StateStore, desc: String) -> (r: TodoCommandOutcome)
    ensures
        final(state)@.todos.len() == old(state)@.todos.len() + 1,
        final(state)@.todos.drop_last() == old(state)@.todos,
        final(state)@.todos.last().desc == desc@,
        !final(state)@.todos.last().completed,
        final(state)@.todos.last().completed_turns_ago is None,
        final(state)@ == (StateModel { todos: final(state)@.todos, ..old(state)@ }),
        r.persist,
        r.toast matches Some(t) && t.message@ == "Todo added"@ && t.toast_type@ == "success"@,
{
    let id = fresh_id();
    state.add_todo(id, desc);
    assert(state@.todos.drop_last() == old(state)@.todos);
    TodoCommandOutcome {
        toast: Some(ToastPayload::success("Todo added".to_string())),
        persist: true,
    }
}

fn failure(prefix: &str, why: &str) -> (r: TodoCommandOutcome)
    ensures
        !r.persist,
        r.toast matches Some(t) && t.message@ == prefix@ + why@ && t.toast_type@ == "error"@,
{
    let mut msg = prefix.to_string();
    msg.append(why);
    TodoCommandOutcome { toast: Some(ToastPayload::error(msg)), persist: false }
}

/// Gives a task a new description.
pub fn update_todo(state: &mut StateStore, id: &str, desc: String) -> (r: TodoCommandOutcome)
    ensures
        match todo_index(old(state)@.todos, id@) {
            Some(i) => {
                &&& final(state)@ == (StateModel {
                    todos: old(state)@.todos.update(
                        i,
                        TodoModel { desc: desc@, ..old(state)@.todos[i] },
                    ),
                    ..old(state)@
                })
                &&& r.persist
                &&& r.toast matches Some(t)
                &&& t.message@ == "Todo updated"@
                &&& t.toast_type@ == "success"@
            },
            None => {
                &&& final(state)@ == old(state)@
                &&& !r.persist
                &&& r.toast matches Some(t)
                &&& t.message@ == "Failed to update todo: "@ + ("Todo not found: "@ + id@)
                &&& t.toast_type@ == "error"@
            },
        },
{
    match state.update_todo(id, desc) {
        Ok(()) => TodoCommandOutcome {
            toast: Some(ToastPayload::success("Todo updated".to_string())),
            persist: true,
        },
        Err(e) => {
            let why = e.message();
            failure("Failed to update todo: ", why.as_str())
        },
    }
}

/// Switches a task between active and completed.
pub fn toggle_todo(state: &mut StateStore, id: &str) -> (r: TodoCommandOutcome)
    ensures
        match todo_index(old(state)@.todos, id@) {
            Some(i) => {
                &&& final(state)@ == (StateModel {
                    todos: old(state)@.todos.update(i, toggled_todo(old(state)@.todos[i])),
                    ..old(state)@
                })
                &&& r.persist
                &&& r.toast is None
            },
            None => {
                &&& final(state)@ == old(state)@
                &&& !r.persist
                &&& r.toast matches Some(t)
                &&& t.message@ == "Failed to toggle todo: "@ + ("Todo not found: "@ + id@)
                &&& t.toast_type@ == "error"@
            },
        },
{
    match state.toggle_todo(id) {
        Ok(()) => TodoCommandOutcome { toast: None, persist: true },
        Err(e) => {
            let why = e.message();
            failure("Failed to toggle todo: ", why.as_str())
        },
    }
}

/// Takes a task off the list.
pub fn delete_todo(state: &mut StateStore, id: &str) -> (r: TodoCommandOutcome)
    ensures
        match todo_index(old(state)@.todos, id@) {
            Some(i) => {
                &&& final(state)@ == (StateModel {
                    todos: old(state)@.todos.remove(i),
                    ..old(state)@
                })
                &&& r.persist
                &&& r.toast matches Some(t)
                &&& t.message@ == "Todo deleted"@
                &&& t.toast_type@ == "success"@
            },
            None => {
                &&& final(state)@ == old(state)@
                &&& !r.persist
                &&& r.toast matches Some(t)
                &&& t.message@ == "Failed to delete todo: "@ + ("Todo not found: "@ + id@)
                &&& t.toast_type@ == "error"@
            },
        },
{
    match state.delete_todo(id) {
        Ok(()) => TodoCommandOutcome {
            toast: Some(ToastPayload::success("Todo deleted".to_string())),
            persist: true,
        },
        Err(e) => {
            let why = e.message();
            failure("Failed to delete todo: ", why.as_str())
        },
    }
}

} // verus!

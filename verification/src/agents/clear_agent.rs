//! The agent that clears: the document becomes empty and the task list with
//! it.

use crate::agents::{same_but_history, AgentContext};
use crate::chat::recorded;
use crate::document::DocumentService;
use crate::events::{DocumentUpdate, TodoUpdate};
use crate::state::{StateModel, StateStore};
use vstd::prelude::*;

verus! {

/// The agent that empties the document.
pub struct ClearAgent;

/// What clearing hands out: the event that tells of the empty document, and
/// the event that tells of the empty task list where there were tasks.
pub struct ClearStep {
    pub update: DocumentUpdate,
    pub todo_update: Option<TodoUpdate>,
}

impl ClearAgent {
    pub fn name(&self) -> (r: &'static str)
        ensures
            r@ == "ClearAgent"@,
    {
        "ClearAgent"
    }

    /// Empties the document and the task list and records the exchange. The
    /// state updater is due.
    pub fn execute(doc: &mut DocumentService, state: &mut StateStore, ctx: &mut AgentContext) -> (step:
        ClearStep)
        requires
            old(doc)@.version < u64::MAX,
        ensures
            same_but_history(*final(ctx), *old(ctx)),
            final(doc)@.content.len() == 0,
            final(doc)@.version == old(doc)@.version + 1,
            step.update.content@ == final(doc)@.content,
            step.update.version == final(doc)@.version,
            final(state)@ == (StateModel { todos: Seq::empty(), ..old(state)@ }),
            match step.todo_update {
                Some(u) => old(state)@.todos.len() > 0 && u.todos@.len() == 0,
                None => old(state)@.todos.len() == 0,
            },
            final(ctx).chat_history@ == recorded(
                old(ctx).chat_history@,
                old(ctx).transcript@,
                "ACTION: CLEAR"@,
            ),
    {
        doc.reset(String::new());
        let snap = doc.get_snapshot();
        let had_todos = state.get_todos().len() > 0;
        state.clear_todos();
        let todo_update = if had_todos {
            Some(TodoUpdate { todos: Vec::new() })
        } else {
            None
        };
        let said = ctx.transcript.clone();
        ctx.chat_history.record_exchange(said, "ACTION: CLEAR".to_string());
        ClearStep {
            update: DocumentUpdate { content: snap.content, version: snap.version },
            todo_update,
        }
    }
}

} // verus!

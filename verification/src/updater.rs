//! The state updater: what follows every step that changed the document.
//! The focus is refreshed, the task list maintained and the document
//! committed; each of the three asks a model and takes its answer here.

use crate::chat::{message_views, user_message, ChatMessage};
use crate::concise::{clean_concise_output, concise};
use crate::document::DocumentService;
use crate::history::{CommitModel, HistoryLog};
use crate::prompts::state_manager::{
    commit_message_prompt, focus_prompt, generate_commit_message_prompt, generate_focus_prompt,
};
use crate::prompts::todo_agent::todo_maintenance_prompt;
use crate::state::{ring_push, todo_views, StateModel, StateStore, MAX_COMMIT_MESSAGES};
use crate::text::is_blank;
use crate::todo::TodoAgent;
use vstd::prelude::*;

verus! {

/// The commit message used where the model gives none.
pub const DEFAULT_COMMIT_MESSAGE: &'static str = "Document updated";

/// Starts a state update: the state store takes the document as it stands.
/// Returns that document, for the three tasks that follow.
pub fn begin_state_update(doc: &DocumentService, state: &mut StateStore) -> (content: String)
    ensures
        content@ == doc@.content,
        final(state)@ == (StateModel { current_doc: doc@.content, ..old(state)@ }),
{
    let snap = doc.get_snapshot();
    state.update_document(snap.content.clone());
    snap.content
}

/// The request that asks the model what the user is working on.
pub fn focus_request(content: &str) -> (r: Vec<ChatMessage>)
    ensures
        message_views(r@) == seq![user_message(focus_prompt(content@))],
{
    let mut messages: Vec<ChatMessage> = Vec::new();
    messages.push(ChatMessage::user(generate_focus_prompt(content)));
    assert(message_views(messages@) =~= seq![messages@[0]@]);
    messages
}

/// The focus that the model's answer gives: the answer without wrappers, or
/// nothing where the model failed or left nothing.
pub open spec fn focus_of(answer: Option<Seq<char>>) -> Option<Seq<char>> {
    match answer {
        Some(a) => if concise(a).len() > 0 {
            Some(concise(a))
        } else {
            None
        },
        None => None,
    }
}

/// Swaps in the focus that the model answered with (`None` where the model
/// failed). An answer that leaves nothing keeps the focus as it was.
pub fn accept_focus(state: &mut StateStore, answer: Option<&str>) -> (changed: bool)
    ensures
        match focus_of(
            match answer {
                Some(a) => Some(a@),
                None => None,
            },
        ) {
            Some(f) => changed && final(state)@ == (StateModel { focus: f, ..old(state)@ }),
            None => !changed && final(state)@ == old(state)@,
        },
{
    match answer {
        Some(a) => {
            let focus = clean_concise_output(a);
            if focus.as_str().is_empty() {
                false
            } else {
                state.set_focus(focus);
                true
            }
        },
        None => false,
    }
}

/// The request of a maintenance of the task list, from the tasks and the
/// focus as the state store holds them. `None` where the document is blank
/// and there are no tasks: then nothing is maintained.
pub fn todo_request(state: &StateStore, content: &str, user_input: &str) -> (r: Option<
    Vec<ChatMessage>,
>)
    ensures
        match r {
            Some(m) => !(is_blank(content@) && state@.todos.len() == 0) && message_views(m@)
                == seq![
                user_message(
                    todo_maintenance_prompt(content@, state@.todos, user_input@, state@.focus),
                ),
            ],
            None => is_blank(content@) && state@.todos.len() == 0,
        },
{
    let snap = state.get_state();
    assert(todo_views(snap.todo_list@).len() == snap.todo_list@.len());
    if TodoAgent::should_maintain(content, snap.todo_list.as_slice()) {
        Some(
            TodoAgent::build_messages(
                content,
                snap.todo_list.as_slice(),
                user_input,
                snap.focus.as_str(),
            ),
        )
    } else {
        None
    }
}

/// The request that asks the model for a commit message.
pub fn commit_request(diff: &str) -> (r: Vec<ChatMessage>)
    ensures
        message_views(r@) == seq![user_message(commit_message_prompt(diff@))],
{
    let mut messages: Vec<ChatMessage> = Vec::new();
    messages.push(ChatMessage::user(generate_commit_message_prompt(diff)));
    assert(message_views(messages@) =~= seq![messages@[0]@]);
    messages
}

/// The message of a commit: the model's answer without wrappers, or the
/// default where the model failed or left nothing.
pub open spec fn commit_message_of(answer: Option<Seq<char>>) -> Seq<char> {
    match answer {
        Some(a) => if concise(a).len() > 0 {
            concise(a)
        } else {
            DEFAULT_COMMIT_MESSAGE@
        },
        None => DEFAULT_COMMIT_MESSAGE@,
    }
}

/// The message of a commit, given the model's answer (`None` where the model
/// failed).
pub fn commit_message(answer: Option<&str>) -> (r: String)
    ensures
        r@ == commit_message_of(
            match answer {
                Some(a) => Some(a@),
                None => None,
            },
        ),
{
    match answer {
        Some(a) => {
            let m = clean_concise_output(a);
            if m.as_str().is_empty() {
                DEFAULT_COMMIT_MESSAGE.to_string()
            } else {
                m
            }
        },
        None => DEFAULT_COMMIT_MESSAGE.to_string(),
    }
}

/// The name of the markdown file of a recording.
pub fn document_file_name(recording_id: &str) -> (r: String)
    ensures
        r@ == recording_id@ + ".md"@,
{
    let mut name = recording_id.to_string();
    name.append(".md");
    name
}

/// Notes a commit that the history store has made: the log gets the commit
/// as its new head and the ring its message. A commit that failed is not
/// noted, so that neither advances.
pub fn record_commit(
    state: &mut StateStore,
    log: &mut HistoryLog,
    hash: String,
    message: String,
    content: String,
)
    ensures
        final(log)@ == old(log)@.push(
            CommitModel { hash: hash@, message: message@, content: content@ },
        ),
        final(state)@ == (StateModel {
            git_history: ring_push(old(state)@.git_history, message@),
            ..old(state)@
        }),
        final(state)@.git_history.len() <= MAX_COMMIT_MESSAGES,
{
    state.add_git_history(message.clone());
    log.commit(hash, message, content);
}

/// Settles a commit that the history store was asked to make. One that was
/// made is noted as by `record_commit`: the log gets it as its new head and
/// the ring its message. One that failed changes nothing: the ring and the
/// log stay as they were.
pub fn settle_commit(
    state: &mut StateStore,
    log: &mut HistoryLog,
    outcome: Result<String, String>,
    message: String,
    content: String,
) -> (noted: bool)
    ensures
        match outcome {
            Ok(hash) => {
                &&& noted
                &&& final(log)@ == old(log)@.push(
                    CommitModel { hash: hash@, message: message@, content: content@ },
                )
                &&& final(state)@ == (StateModel {
                    git_history: ring_push(old(state)@.git_history, message@),
                    ..old(state)@
                })
                &&& final(state)@.git_history.len() <= MAX_COMMIT_MESSAGES
            },
            Err(_) => !noted && final(log)@ == old(log)@ && final(state)@ == old(state)@,
        },
{
    match outcome {
        Ok(hash) => {
            record_commit(state, log, hash, message, content);
            true
        },
        Err(_) => false,
    }
}

} // verus!

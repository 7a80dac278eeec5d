//! What the engine tells the front end.

use crate::state::TodoItem;
use vstd::prelude::*;

verus! {

/// The names under which the events go to the front end.
pub const DOCUMENT_UPDATE: &'static str = "document-update";

pub const TRANSCRIPT_UPDATE: &'static str = "transcript-update";

pub const TODO_UPDATE: &'static str = "todo-update";

pub const AGENT_STATUS: &'static str = "agent-status";

pub const MIC_VOLUME: &'static str = "mic-volume";

pub const SHOW_TOAST: &'static str = "show-toast";

pub const RECORDING_STARTED: &'static str = "recording-started";

pub const RECORDING_RENAMED: &'static str = "recording-renamed";

pub const RECORDINGS_UPDATED: &'static str = "recordings-updated";

pub const SEARCH_RESULTS: &'static str = "search-results";

/// A recognised piece of speech.
#[derive(Debug, Clone)]
pub struct TranscriptUpdate {
    pub text: String,
    pub is_final: bool,
}

/// The document after a change.
#[derive(Debug, Clone)]
pub struct DocumentUpdate {
    pub content: String,
    pub version: u64,
}

/// The task list after a change.
#[derive(Debug, Clone)]
pub struct TodoUpdate {
    pub todos: Vec<TodoItem>,
}

#[derive(Debug, Clone)]
pub struct RecordingStarted {
    pub recording_id: String,
}

/// A short notice shown to the user.
#[derive(Debug, Clone)]
pub struct ToastPayload {
    pub message: String,
    /// One of `"info"`, `"success"`, `"warning"`, `"error"`.
    pub toast_type: String,
    /// How long the notice stays, in milliseconds.
    pub duration: Option<u32>,
}

impl ToastPayload {
    pub fn error(message: String) -> (t: Self)
        ensures
            t.message@ == message@,
            t.toast_type@ == "error"@,
            t.duration == Some(5000u32),
    {
        ToastPayload { message, toast_type: "error".to_string(), duration: Some(5000) }
    }

    pub fn warning(message: String) -> (t: Self)
        ensures
            t.message@ == message@,
            t.toast_type@ == "warning"@,
            t.duration == Some(4000u32),
    {
        ToastPayload { message, toast_type: "warning".to_string(), duration: Some(4000) }
    }

    pub fn success(message: String) -> (t: Self)
        ensures
            t.message@ == message@,
            t.toast_type@ == "success"@,
            t.duration == Some(3000u32),
    {
        ToastPayload { message, toast_type: "success".to_string(), duration: Some(3000) }
    }

    pub fn info(message: String) -> (t: Self)
        ensures
            t.message@ == message@,
            t.toast_type@ == "info"@,
            t.duration == Some(3000u32),
    {
        ToastPayload { message, toast_type: "info".to_string(), duration: Some(3000) }
    }
}

/// What a web search has found.
#[derive(Debug, Clone)]
pub struct SearchResultsPayload {
    pub query: String,
    pub content: String,
}

/// Whether the agents are at work: `"thinking"` or `"idle"`.
#[derive(Debug, Clone)]
pub struct AgentStatusPayload {
    pub status: String,
}


impl AgentStatusPayload {
    pub fn thinking() -> (p: Self)
        ensures
            p.status@ == "thinking"@,
    {
        AgentStatusPayload { status: "thinking".to_string() }
    }

    pub fn idle() -> (p: Self)
        ensures
            p.status@ == "idle"@,
    {
        AgentStatusPayload { status: "idle".to_string() }
    }
}

} // verus!

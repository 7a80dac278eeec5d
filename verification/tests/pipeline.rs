use creek::commands::{
    add_todo, clear_document, delete_todo, load_document, manual_commit_message, manual_edit,
    reset_document, rollback_to_commit, toggle_todo, undo_last_change, update_todo,
};
use creek::chat::ChatHistory;
use creek::document::DocumentService;
use creek::history::HistoryLog;
use creek::pipeline::{Directive, PipelineCommand, Scheduler, SessionPhase, HOLDBACK_MS};
use creek::state::StateStore;

fn names(ds: &[Directive]) -> Vec<String> {
    ds.iter()
        .map(|d| {
            let text = format!("{:?}", d);
            let end = text.find(|c: char| c == ' ' || c == '(' || c == '{').unwrap_or(text.len());
            text[..end].to_string()
        })
        .collect()
}

fn start(s: &mut Scheduler, id: &str) -> Vec<Directive> {
    s.on_command(PipelineCommand::StartRecording { recording_id: id.to_string() }, true)
}

#[test]
fn session_moves_through_its_phases() {
    let mut s = Scheduler::new();
    assert_eq!(s.session_phase(), SessionPhase::Idle);
    assert_eq!(s.active_recording(), None);
    let ds = start(&mut s, "rec-1");
    assert_eq!(
        names(&ds),
        vec![
            "ClearChatHistory",
            "LoadDocumentIfPresent",
            "ActivateRecording",
            "InitRetrieval",
            "PrepareHistory",
            "StartAsr"
        ]
    );
    assert_eq!(s.session_phase(), SessionPhase::Recording);
    assert_eq!(s.active_recording(), Some("rec-1".to_string()));
    assert!(s.on_command(PipelineCommand::PauseRecording, true).is_empty());
    assert_eq!(s.session_phase(), SessionPhase::Paused);
    assert!(s.on_command(PipelineCommand::ResumeRecording, true).is_empty());
    assert_eq!(s.session_phase(), SessionPhase::Recording);
    let ds = s.on_command(PipelineCommand::StopRecording, true);
    assert_eq!(names(&ds), vec!["SaveDocument", "CancelAsr", "PersistState", "DeactivateRecording"]);
    assert_eq!(s.session_phase(), SessionPhase::Idle);
    assert_eq!(s.active_recording(), None);
}

#[test]
fn start_without_workspace_is_refused() {
    let mut s = Scheduler::new();
    let ds = s.on_command(PipelineCommand::StartRecording { recording_id: "r".to_string() }, false);
    assert_eq!(ds.len(), 1);
    match &ds[0] {
        Directive::Toast(t) => {
            assert_eq!(t.message, "Cannot start recording: No active workspace found");
            assert_eq!(t.toast_type, "error");
        }
        other => panic!("unexpected {:?}", other),
    }
    assert_eq!(s.session_phase(), SessionPhase::Idle);
    start(&mut s, "a");
    assert!(start(&mut s, "b").is_empty());
    assert_eq!(s.active_recording(), Some("a".to_string()));
}

#[test]
fn fragments_coalesce_until_the_holdback_fires() {
    let mut s = Scheduler::new();
    assert!(!s.on_fragment("ignored", 0));
    start(&mut s, "rec");
    assert_eq!(s.next_deadline(), None);
    assert!(s.on_fragment("Change Tuesday ", 1000));
    assert_eq!(s.next_deadline(), Some(1000 + HOLDBACK_MS));
    assert!(s.on_fragment("to Wednesday.", 1200));
    assert_eq!(s.next_deadline(), Some(1650));
    assert!(s.on_timer(1649).is_empty());
    let ds = s.on_timer(1650);
    assert_eq!(ds.len(), 1);
    match &ds[0] {
        Directive::SpawnTurn { text, recording_id } => {
            assert_eq!(text, "Change Tuesday to Wednesday.");
            assert_eq!(recording_id.as_deref(), Some("rec"));
        }
        other => panic!("unexpected {:?}", other),
    }
    assert!(s.is_processing());
    assert_eq!(s.next_deadline(), None);
    assert!(s.on_timer(5000).is_empty());
}

#[test]
fn next_trigger_and_pause_cancel_the_running_turn() {
    let mut s = Scheduler::new();
    start(&mut s, "rec");
    s.on_fragment("first", 0);
    s.on_timer(450);
    s.on_fragment("second", 500);
    let ds = s.on_timer(950);
    assert_eq!(names(&ds), vec!["CancelProcessing", "SpawnTurn"]);
    let ds = s.on_command(PipelineCommand::PauseRecording, true);
    assert_eq!(names(&ds), vec!["CancelProcessing"]);
    assert!(!s.is_processing());
    assert!(!s.on_fragment("while paused", 1000));
    assert!(s.on_timer(10_000).is_empty());
}

#[test]
fn blank_turn_fires_nothing() {
    let mut s = Scheduler::new();
    start(&mut s, "rec");
    s.on_fragment("  \n", 0);
    assert!(s.on_timer(450).is_empty());
    assert!(!s.is_processing());
    assert_eq!(s.next_deadline(), None);
}

#[test]
fn slow_buffer_is_flushed_by_its_deadline() {
    let mut s = Scheduler::new();
    start(&mut s, "rec");
    assert!(s.on_partial("half a", 0));
    assert!(s.on_partial("phrase", 100));
    assert_eq!(s.next_deadline(), Some(2100));
    assert!(s.on_timer(2099).is_empty());
    let ds = s.on_timer(2100);
    match &ds[0] {
        Directive::SpawnTurn { text, .. } => assert_eq!(text, "half a phrase"),
        other => panic!("unexpected {:?}", other),
    }
    assert!(s.on_partial("this sentence is certainly long enough to leave at once.", 3000));
    assert_eq!(s.next_deadline(), Some(3000 + HOLDBACK_MS));
    let ds = s.on_timer(3450);
    assert_eq!(names(&ds), vec!["CancelProcessing", "SpawnTurn"]);
}

#[test]
fn commands_depend_on_the_active_recording() {
    let mut s = Scheduler::new();
    let ds = s.on_command(PipelineCommand::AddTodo("x".to_string()), true);
    match &ds[0] {
        Directive::Toast(t) => assert_eq!(t.message, "No active recording to add todo to"),
        other => panic!("unexpected {:?}", other),
    }
    let ds = s.on_command(
        PipelineCommand::IngestDocument { filename: "a.md".to_string(), content: "c".to_string() },
        true,
    );
    match &ds[0] {
        Directive::Toast(t) => {
            assert_eq!(t.message, "Cannot ingest document: No active recording session")
        }
        other => panic!("unexpected {:?}", other),
    }
    assert!(s.on_command(PipelineCommand::RollbackToCommit("h".to_string()), true).is_empty());
    assert!(s.on_command(PipelineCommand::UndoLastChange, true).is_empty());
    assert_eq!(names(&s.on_command(PipelineCommand::ResetDocument, true)), vec!["ResetDocument"]);

    let ds = s.on_command(PipelineCommand::LoadRecording { recording_id: "r2".to_string() }, true);
    assert_eq!(
        names(&ds),
        vec![
            "ClearChatHistory",
            "ActivateRecording",
            "LoadDocument",
            "EmitRecordingStarted",
            "InitRetrieval"
        ]
    );
    assert_eq!(names(&s.on_command(PipelineCommand::AddTodo("x".to_string()), true)), vec!["AddTodo"]);
    assert_eq!(names(&s.on_command(PipelineCommand::UndoLastChange, true)), vec!["UndoLast"]);
    assert!(s.on_command(PipelineCommand::UndoLastChange, false).is_empty());
    assert_eq!(
        names(&s.on_command(PipelineCommand::ResetDocument, true)),
        vec!["ResetDocument", "ClearRecordingData", "Toast"]
    );
    let ds = s.on_command(PipelineCommand::UpdateDocument("text".to_string()), true);
    match &ds[0] {
        Directive::ApplyManualEdit { content, recording_id } => {
            assert_eq!(content, "text");
            assert_eq!(recording_id.as_deref(), Some("r2"));
        }
        other => panic!("unexpected {:?}", other),
    }
    let ds = s.on_command(PipelineCommand::DeleteRecording { recording_id: "other".to_string() }, true);
    assert_eq!(names(&ds), vec!["DeleteRetrieval"]);
    assert_eq!(s.active_recording(), Some("r2".to_string()));
    let ds = s.on_command(PipelineCommand::DeleteRecording { recording_id: "r2".to_string() }, true);
    assert_eq!(names(&ds), vec!["DeleteRetrieval", "ClearDocument"]);
    assert_eq!(s.session_phase(), SessionPhase::Idle);
    assert_eq!(
        names(&s.on_command(
            PipelineCommand::UpdateTodo { id: "i".to_string(), description: "d".to_string() },
            true
        )),
        vec!["UpdateTodo"]
    );
    assert_eq!(names(&s.on_command(PipelineCommand::ToggleTodo("i".to_string()), true)), vec!["ToggleTodo"]);
    assert_eq!(names(&s.on_command(PipelineCommand::DeleteTodo("i".to_string()), true)), vec!["DeleteTodo"]);
}

#[test]
fn document_commands() {
    let mut doc = DocumentService::new(String::new());
    let mut state = StateStore::new();
    let mut history = ChatHistory::new();
    history.record_exchange("u".to_string(), "a".to_string());
    let u = load_document(&mut doc, &mut state, "loaded".to_string());
    assert_eq!((u.content.as_str(), u.version), ("loaded", 1));
    assert_eq!(state.get_state().current_doc, "loaded");
    let saved = manual_edit(&mut doc, &mut state, "\t- by hand");
    assert_eq!(saved, "    - by hand");
    assert_eq!(doc.get_snapshot().content, "    - by hand");
    assert_eq!(doc.version(), 2);
    let u = reset_document(&mut doc, &mut state, &mut history);
    assert_eq!((u.content.as_str(), u.version), ("", 3));
    assert_eq!(history.len(), 0);
    doc.reset("x".to_string());
    clear_document(&mut doc, &mut state);
    assert_eq!(doc.get_snapshot().content, "");
    assert_eq!(doc.version(), 5);
    assert_eq!(manual_commit_message(None), "Manual edit by user");
    assert_eq!(manual_commit_message(Some("Tidy list".to_string())), "Tidy list");
}

#[test]
fn rollback_commands() {
    let mut doc = DocumentService::new("two".to_string());
    let mut state = StateStore::new();
    let mut log = HistoryLog::new();
    assert!(undo_last_change(&mut doc, &mut state, &log).is_none());
    log.commit("h1".to_string(), "first".to_string(), "one".to_string());
    assert!(undo_last_change(&mut doc, &mut state, &log).is_none());
    log.commit("h2".to_string(), "second".to_string(), "two".to_string());
    let out = undo_last_change(&mut doc, &mut state, &log).unwrap();
    assert_eq!(out.toast.message, "Undo successful");
    let update = out.update.unwrap();
    assert_eq!((update.content.as_str(), update.version), ("one", 1));
    let out = rollback_to_commit(&mut doc, &mut state, &log, "h2");
    assert_eq!(out.toast.message, "Rollback successful");
    assert_eq!(doc.get_snapshot().content, "two");
    assert_eq!(doc.version(), 2);
    let out = rollback_to_commit(&mut doc, &mut state, &log, "missing");
    assert!(out.update.is_none());
    assert_eq!(out.toast.message, "Rollback failed: Commit not found: missing");
    assert_eq!(out.toast.toast_type, "error");
    assert_eq!(doc.version(), 2);
}

#[test]
fn todo_commands() {
    let mut state = StateStore::new();
    let out = add_todo(&mut state, "write".to_string());
    assert_eq!(out.toast.unwrap().message, "Todo added");
    assert!(out.persist);
    let id = state.get_todos()[0].id.clone();
    assert_eq!(id.len(), 36);
    assert_eq!(state.get_todos()[0].completed_turns_ago, None);
    assert!(!state.get_todos()[0].completed);
    let out = update_todo(&mut state, &id, "rewrite".to_string());
    assert_eq!(out.toast.unwrap().message, "Todo updated");
    assert_eq!(state.get_todos()[0].desc, "rewrite");
    let out = toggle_todo(&mut state, &id);
    assert!(out.toast.is_none() && out.persist);
    assert!(state.get_todos()[0].completed);
    let out = toggle_todo(&mut state, "nope");
    assert_eq!(out.toast.unwrap().message, "Failed to toggle todo: Todo not found: nope");
    assert!(!out.persist);
    let out = update_todo(&mut state, "nope", "x".to_string());
    assert_eq!(out.toast.unwrap().message, "Failed to update todo: Todo not found: nope");
    let out = delete_todo(&mut state, "nope");
    assert_eq!(out.toast.unwrap().message, "Failed to delete todo: Todo not found: nope");
    let out = delete_todo(&mut state, &id);
    assert_eq!(out.toast.unwrap().message, "Todo deleted");
    assert!(state.get_todos().is_empty());
}

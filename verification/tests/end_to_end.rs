use creek::agents::append_agent::AppendStream;
use creek::agents::edit_agent::{EditAgent, EditStep};
use creek::agents::undo_agent::{UndoAgent, UndoStep};
use creek::agents::AgentContext;
use creek::chat::ChatHistory;
use creek::document::DocumentService;
use creek::history::HistoryLog;
use creek::intent::{DocIntent, PlanStep, ToolIntent};
use creek::pipeline::{Directive, PipelineCommand, Scheduler};
use creek::prompts::document_editing::build_edit_retry_prompt;
use creek::state::{StateSnapshot, StateStore};
use creek::updater::{begin_state_update, commit_message, record_commit};

fn context(transcript: &str, intent: &str) -> AgentContext {
    let mut ctx = AgentContext::new(
        transcript.to_string(),
        Some("rec".to_string()),
        Some("/data/rec".to_string()),
        ChatHistory::new(),
        DocIntent::NoOp,
        false,
        ToolIntent::NoTool,
    );
    ctx.plan = vec![PlanStep { intent: intent.to_string(), instruction: transcript.to_string() }];
    ctx
}

fn empty_snapshot() -> StateSnapshot {
    StateSnapshot {
        current_doc: String::new(),
        focus: String::new(),
        git_history: vec![],
        todo_list: vec![],
    }
}

fn commit(doc: &DocumentService, state: &mut StateStore, log: &mut HistoryLog, hash: &str, answer: &str) {
    let content = begin_state_update(doc, state);
    record_commit(state, log, hash.to_string(), commit_message(Some(answer)), content);
}

#[test]
fn append_edit_and_undo() {
    let mut doc = DocumentService::new(String::new());
    let mut state = StateStore::new();
    let mut log = HistoryLog::new();

    // A cold append.
    let mut ctx = context("Write the plan for the week.", "APPEND");
    let mut stream = AppendStream::new();
    let update = stream.on_chunk(&mut doc, "- Visit the market on Tuesday");
    assert_eq!(update.version, 1);
    assert!(stream.finish(&mut ctx));
    commit(&doc, &mut state, &mut log, "c1aaaaaa", "Add market visit");
    assert_eq!(log.len(), 1);
    let after_append = doc.get_snapshot();

    // A targeted edit.
    let mut ctx = context("Change Tuesday to Wednesday.", "EDIT");
    let answer = "<<<<<<< SEARCH\n- Visit the market on Tuesday\n=======\n- Visit the market on Wednesday\n>>>>>>> REPLACE";
    match EditAgent::apply_response(1, &mut doc, &mut ctx, &empty_snapshot(), answer) {
        EditStep::Applied(update) => {
            assert!(update.content.contains("- Visit the market on Wednesday"));
            assert_eq!(update.version, after_append.version + 1);
        }
        _ => panic!("expected the edit to apply"),
    }
    commit(&doc, &mut state, &mut log, "c2bbbbbb", "Move market visit to Wednesday");
    assert!(state.get_state().git_history.last().unwrap().contains("Wednesday"));
    let after_edit = doc.get_snapshot();

    // An undo.
    let mut ctx = context("Undo.", "UNDO");
    let commits = log.get_history_with_hashes(10);
    assert!(UndoAgent::can_undo(&commits));
    let target = UndoAgent::choose_target(None, &commits[1].hash);
    assert_eq!(target, "c1aaaaaa");
    let restored = log.content_at(&target);
    match UndoAgent::complete(&mut doc, &mut state, &mut ctx, &target, restored) {
        UndoStep::Restored(update, _) => {
            assert_eq!(update.content, after_append.content);
            assert_eq!(update.version, after_edit.version + 1);
        }
        _ => panic!("expected the undo to succeed"),
    }
    assert_eq!(doc.get_snapshot().content, after_append.content);
}

#[test]
fn tab_in_search_block_misses_and_the_retry_applies() {
    let mut doc = DocumentService::new("# Stock\ntotal:    12 apples".to_string());
    let mut ctx = context("make it thirteen", "EDIT");
    let snap = empty_snapshot();

    // The model wrote a tab where the document has four spaces.
    let first = "<<<<<<< SEARCH\ntotal:\t12 apples\n=======\ntotal:\t13 apples\n>>>>>>> REPLACE\n";
    let retry = match EditAgent::apply_response(1, &mut doc, &mut ctx, &snap, first) {
        EditStep::Retry(messages) => messages,
        _ => panic!("expected the first answer to miss"),
    };
    assert_eq!(doc.get_snapshot().content, "# Stock\ntotal:    12 apples");
    assert_eq!(doc.version(), 0);
    assert_eq!(ctx.chat_history.len(), 0);
    let original = EditAgent::build_messages(&ctx, "# Stock\ntotal:    12 apples", &snap);
    let n = retry.len();
    assert_eq!(n, original.len() + 2);
    for i in 1..original.len() {
        assert_eq!(retry[i].role, original[i].role);
        assert_eq!(retry[i].content, original[i].content);
    }
    assert_eq!((retry[n - 2].role.as_str(), retry[n - 2].content.as_str()), ("assistant", first));
    assert_eq!(retry[n - 1].role, "user");
    assert_eq!(retry[n - 1].content, build_edit_retry_prompt("Search block not found in document"));

    // The answer to the retry quotes the document as it is.
    let second =
        "<<<<<<< SEARCH\ntotal:    12 apples\n=======\ntotal:\t13 apples\n>>>>>>> REPLACE\n";
    match EditAgent::apply_response(2, &mut doc, &mut ctx, &snap, second) {
        EditStep::Applied(update) => {
            assert_eq!(update.content, "# Stock\ntotal:    13 apples");
            assert_eq!(update.version, 1);
        }
        _ => panic!("expected the retry to apply"),
    }
    assert_eq!(doc.version(), 1);
    assert_eq!(ctx.chat_history.len(), 2);
}

#[test]
fn pause_keeps_what_was_streamed_and_commits_nothing() {
    let mut scheduler = Scheduler::new();
    scheduler.on_command(PipelineCommand::StartRecording { recording_id: "rec".to_string() }, true);
    scheduler.on_fragment("Write about rivers.", 0);
    let fired = scheduler.on_timer(450);
    assert!(matches!(fired[0], Directive::SpawnTurn { .. }));

    let mut doc = DocumentService::new(String::new());
    let state = StateStore::new();
    let log = HistoryLog::new();
    let ctx = context("Write about rivers.", "APPEND");
    let mut stream = AppendStream::new();
    stream.on_chunk(&mut doc, "Rivers carry ");
    stream.on_chunk(&mut doc, "water");

    let paused = scheduler.on_command(PipelineCommand::PauseRecording, true);
    assert!(matches!(paused[0], Directive::CancelProcessing));
    assert!(!scheduler.is_processing());

    // The stream is dropped with the cancelled task: nothing is finished.
    drop(stream);
    assert_eq!(doc.get_snapshot().content, "Rivers carry water");
    assert_eq!(doc.version(), 2);
    assert_eq!(log.len(), 0);
    assert_eq!(state.commit_message_count(), 0);
    assert_eq!(state.get_state().focus, "");
    assert_eq!(ctx.chat_history.len(), 0);
}

fn widened(text: &str) -> String {
    let chars: Vec<char> = text.chars().collect();
    let mut out = String::new();
    let mut i = 0;
    while i < chars.len() {
        let at_start = i == 0 || chars[i - 1] == '\n';
        if at_start && i + 1 < chars.len() && chars[i] == ' ' && chars[i + 1] == ' ' {
            out.push_str("    ");
            i += 2;
        } else {
            out.push(chars[i]);
            i += 1;
        }
    }
    out
}

#[test]
fn finished_append_widens_line_indentation() {
    let texts = [
        "x\n  a\n   b\n    c\n d\ne  f  g\n\n  \n  h",
        "  first line\r\n  second\r  third\n",
        "no indent at all",
        "    ",
        "a\n \n  ",
        "$1 \\ \n  $0",
    ];
    for text in texts {
        let mut doc = DocumentService::new(String::new());
        let mut ctx = context("said", "APPEND");
        let mut stream = AppendStream::new();
        stream.on_chunk(&mut doc, text);
        let want = widened(text).trim().to_string();
        let finished = stream.finish(&mut ctx);
        assert_eq!(finished, !want.is_empty(), "{:?}", text);
        if finished {
            assert_eq!(ctx.chat_history.to_vec()[1].content, want, "{:?}", text);
        }
    }
}

use creek::asr::{completed_transcript, connect_url};
use creek::chat::ChatHistory;
use creek::document::DocumentService;
use creek::events::{AgentStatusPayload, ToastPayload};
use creek::history::HistoryLog;
use creek::intent::{DocIntent, ToolIntent};
use creek::llm::{bearer, completions_url};
use creek::naming::{build_naming_messages, clean_title, should_auto_name};
use creek::recordings::{ensure_unique_name, is_hidden_entry, recording_display_name};
use creek::sse::SseParser;
use creek::state::StateStore;
use creek::todo::{TodoAgent, TodoOperation};
use creek::turn::{
    begin_turn, build_router_queries, close_turn, decide_routing, open_blackboard, run_noop,
    summarize_todos, NextStep, RouterAnswers, TurnDriver,
};
use creek::updater::{
    accept_focus, begin_state_update, commit_message, commit_request, document_file_name,
    focus_request, record_commit, settle_commit, todo_request,
};
use creek::workspace::WorkspaceConfig;

#[test]
fn turn_start_normalises_tabs() {
    let mut doc = DocumentService::new("a\tb".to_string());
    let update = begin_turn(&mut doc).unwrap();
    assert_eq!((update.content.as_str(), update.version), ("a    b", 1));
    assert!(begin_turn(&mut doc).is_none());
    assert_eq!(doc.version(), 1);
}

fn answers(plan: Option<&str>, rag: Option<&str>, tool: Option<&str>) -> RouterAnswers {
    RouterAnswers {
        plan: plan.map(|s| s.to_string()),
        rag_need: rag.map(|s| s.to_string()),
        tool: tool.map(|s| s.to_string()),
    }
}

#[test]
fn routing_reads_the_three_answers() {
    let r = decide_routing("# Doc", answers(Some("1. [EDIT] fix\n2. [APPEND] add"), Some("true"), Some("SEARCH")), "turn");
    assert_eq!(r.plan.len(), 2);
    assert_eq!(r.plan[1].intent, "APPEND");
    assert!(r.need_rag);
    assert_eq!(r.tool_intent, ToolIntent::Search("turn".to_string()));

    let r = decide_routing("# Doc", answers(None, Some("garbage"), None), "turn");
    assert_eq!((r.plan[0].intent.as_str(), r.plan[0].instruction.as_str()), ("APPEND", "Process transcript"));
    assert!(!r.need_rag);
    assert_eq!(r.tool_intent, ToolIntent::NoTool);

    let r = decide_routing(" \n", answers(Some("1. [CLEAR] wipe"), Some("false"), Some("NONE")), "turn");
    assert_eq!(r.plan.len(), 1);
    assert_eq!((r.plan[0].intent.as_str(), r.plan[0].instruction.as_str()), ("APPEND", "Initial document content"));
}

#[test]
fn router_queries_are_built_from_state() {
    let mut state = StateStore::new();
    state.add_todo("a".to_string(), "one".to_string());
    state.add_todo("b".to_string(), "two".to_string());
    let snap = state.get_state();
    assert_eq!(summarize_todos(&snap.todo_list), "- one\n- two");
    let q = build_router_queries("doc", &snap, "said");
    assert!(q.plan.ends_with("## User Input\nsaid\n\n## Intent Planning (Output single word or JSON array):"));
    assert!(q.rag_need.contains("### Todo List\n- one\n- two\n\n## User Input\nsaid"));
    assert!(q.tool.ends_with("## Tool Requirement (Output ONLY NONE or SEARCH):"));
}

#[test]
fn plan_steps_run_in_order_and_stop_on_failure() {
    let routing = decide_routing("# Doc", answers(Some("1. [EDIT] a\n2. [BOGUS] b\n3. [CLEAR] c"), None, None), "turn");
    let mut ctx = open_blackboard(
        "turn".to_string(),
        None,
        None,
        ChatHistory::new(),
        routing,
        "ctx".to_string(),
        "found".to_string(),
    );
    assert_eq!(ctx.doc_intent, DocIntent::Edit);
    assert_eq!(ctx.retrieved_context, "ctx");
    let mut driver = TurnDriver::new();
    assert_eq!(driver.next_step(&mut ctx), NextStep::Run(DocIntent::Edit));
    assert_eq!(ctx.current_step, 0);
    assert_eq!(driver.next_step(&mut ctx), NextStep::Run(DocIntent::NoOp));
    assert_eq!(ctx.current_step, 1);
    assert!(run_noop(&mut ctx).is_none());
    assert_eq!(ctx.chat_history.len(), 0);
    assert_eq!(driver.next_step(&mut ctx), NextStep::Run(DocIntent::Clear));
    assert_eq!(ctx.doc_intent, DocIntent::Clear);
    assert_eq!(driver.next_step(&mut ctx), NextStep::Finish);

    let mut driver = TurnDriver::new();
    driver.next_step(&mut ctx);
    let toast = driver.step_failed("model unreachable");
    assert_eq!(toast.message, "Agent Error: model unreachable");
    assert_eq!(toast.toast_type, "warning");
    assert_eq!(driver.next_step(&mut ctx), NextStep::Finish);
}

#[test]
fn single_noop_is_recorded_and_history_handed_on() {
    let routing = decide_routing("# Doc", answers(Some("NO-OP"), None, None), "um");
    let mut ctx = open_blackboard("um".to_string(), None, None, ChatHistory::new(), routing, String::new(), String::new());
    let idle = run_noop(&mut ctx).unwrap();
    assert_eq!(idle.status, "idle");
    let mut history = ChatHistory::new();
    close_turn(ctx, &mut history);
    let msgs = history.to_vec();
    assert_eq!(msgs.len(), 2);
    assert_eq!((msgs[0].role.as_str(), msgs[0].content.as_str()), ("user", "um"));
    assert_eq!((msgs[1].role.as_str(), msgs[1].content.as_str()), ("assistant", ""));
}

#[test]
fn state_update_takes_focus_todos_and_commit() {
    let doc = DocumentService::new("# Market\n- Visit on Wednesday".to_string());
    let mut state = StateStore::new();
    let mut log = HistoryLog::new();
    let content = begin_state_update(&doc, &mut state);
    assert_eq!(content, "# Market\n- Visit on Wednesday");
    assert_eq!(state.get_state().current_doc, content);
    assert_eq!(focus_request(&content).len(), 1);
    assert!(accept_focus(&mut state, Some("```\nPlanning the market visit\n```")));
    assert_eq!(state.get_state().focus, "Planning the market visit");
    assert!(!accept_focus(&mut state, Some("   ")));
    assert!(!accept_focus(&mut state, None));
    assert_eq!(state.get_state().focus, "Planning the market visit");

    let request = todo_request(&state, &content, "Change Tuesday to Wednesday").unwrap();
    assert!(request[0].content.contains("## Recent Changes\nPlanning the market visit\n"));
    assert!(todo_request(&StateStore::new(), "  ", "x").is_none());

    assert!(commit_request("+ Wednesday")[0].content.contains("Diff:\n+ Wednesday\n"));
    assert_eq!(commit_message(Some("  Change market day to Wednesday \n")), "Change market day to Wednesday");
    assert_eq!(commit_message(Some("")), "Document updated");
    assert_eq!(commit_message(None), "Document updated");
    assert_eq!(document_file_name("rec-1"), "rec-1.md");
    for i in 0..12 {
        record_commit(&mut state, &mut log, format!("h{}", i), format!("m{}", i), content.clone());
    }
    assert_eq!(log.len(), 12);
    assert_eq!(state.commit_message_count(), 10);
    assert_eq!(state.get_state().git_history[9], "m11");
}

#[test]
fn todo_maintenance_applies_operations() {
    assert_eq!(TodoAgent::extract_json("  {\"operations\": []} "), "{\"operations\": []}");
    assert_eq!(TodoAgent::extract_json("```json\n{\"a\": 1}\n```"), "{\"a\": 1}");
    assert_eq!(TodoAgent::extract_json("```\n{\"a\": 1}\n```\n"), "{\"a\": 1}");
    assert_eq!(TodoAgent::extract_json("```"), "```");
    assert_eq!(TodoAgent::extract_json("```json```"), "");
    assert!(TodoAgent::should_maintain("doc", &[]));
    assert!(!TodoAgent::should_maintain(" ", &[]));

    let mut state = StateStore::new();
    state.add_todo("a".to_string(), "one".to_string());
    state.add_todo("b".to_string(), "two".to_string());
    state.add_todo("c".to_string(), "three".to_string());
    assert!(TodoAgent::apply_operations(&mut state, vec![]).is_none());
    let ops = vec![
        TodoOperation::Complete { todo_id: "a".to_string() },
        TodoOperation::Update { todo_id: "b".to_string(), new_desc: "TWO".to_string() },
        TodoOperation::Delete { todo_id: "c".to_string() },
        TodoOperation::Delete { todo_id: "missing".to_string() },
        TodoOperation::Add { desc: "four".to_string() },
    ];
    let update = TodoAgent::apply_operations(&mut state, ops).unwrap();
    let shown: Vec<(String, bool)> = update.todos.iter().map(|t| (t.desc.clone(), t.completed)).collect();
    assert_eq!(shown, vec![("TWO".to_string(), false), ("four".to_string(), false)]);
    assert_eq!(update.todos[1].id.len(), 36);
    assert_eq!(state.get_todos().len(), 2);
    let _ = TodoAgent::new();
}

#[test]
fn deleting_restores_the_todo_limit() {
    let mut state = StateStore::new();
    for i in 0..12 {
        state.add_todo(format!("t{}", i), format!("task {}", i));
    }
    let ops: Vec<TodoOperation> =
        (0..4).map(|i| TodoOperation::Delete { todo_id: format!("t{}", i) }).collect();
    let update = TodoAgent::apply_operations(&mut state, ops).unwrap();
    assert!(update.todos.iter().filter(|t| !t.completed).count() <= 10);
}

#[test]
fn sse_lines_may_be_split_over_chunks() {
    let mut p = SseParser::new();
    assert_eq!(p.feed("data: {\"choices\":[{\"delta\":{\"content\":\"Hel"), "");
    assert_eq!(p.feed("lo\"}}]}\r\n\r\ndata:{\"choices\":[{\"delta\":{\"content\":\" world\"}}]}\n"), "Hello world");
    assert_eq!(p.feed(": comment\nevent: x\n  data: {\"choices\":[{\"delta\":{}}]}\ndata: not json\ndata: [DONE]\n"), "");
    assert_eq!(p.feed("data: {\"choices\":[{\"delta\":{\"content\":\"!\"}}]}"), "");
    assert_eq!(p.feed("\n"), "!");
}

#[test]
fn asr_messages() {
    let done = "{\"type\":\"conversation.item.input_audio_transcription.completed\",\"transcript\":\"hello there\"}";
    assert_eq!(completed_transcript(done), Some("hello there".to_string()));
    assert_eq!(completed_transcript("{\"type\":\"session.updated\",\"transcript\":\"x\"}"), None);
    assert_eq!(completed_transcript("{\"type\":\"conversation.item.input_audio_transcription.completed\"}"), None);
    assert_eq!(completed_transcript("not json"), None);
    assert_eq!(connect_url(), "wss://dashscope.aliyuncs.com/api-ws/v1/realtime?model=qwen3-asr-flash-realtime");
    assert_eq!(completions_url("https://x/v1"), "https://x/v1/chat/completions");
    assert_eq!(bearer("sk-1"), "Bearer sk-1");
}

#[test]
fn auto_naming() {
    let long = "x".repeat(151);
    assert!(should_auto_name(&long, "New Recording", "id"));
    assert!(should_auto_name(&long, "New Recording (2)", "id"));
    assert!(should_auto_name(&long, "id", "id"));
    assert!(!should_auto_name(&long, "My notes", "id"));
    assert!(!should_auto_name(&"x".repeat(150), "New Recording", "id"));
    let msgs = build_naming_messages("short doc");
    assert_eq!(msgs.len(), 2);
    assert_eq!(msgs[1].content, "Generate a title for the following document content:\n---\nshort doc\n---");
    let msgs = build_naming_messages(&"y".repeat(1500));
    assert_eq!(msgs[1].content.matches('y').count(), 1000);
    assert_eq!(clean_title("  \"## River Ecology\" \n"), Ok("River Ecology".to_string()));
    assert_eq!(clean_title("# Title #"), Ok("Title".to_string()));
    assert_eq!(clean_title("\"Quoted\""), Ok("Quoted".to_string()));
    assert_eq!(clean_title(" \"\" "), Err("Generated title is empty".to_string()));
}

#[test]
fn recording_names_are_made_unique() {
    let existing: Vec<String> =
        ["New Recording", "New Recording (1)", "Notes", "New Recording (3)"].iter().map(|s| s.to_string()).collect();
    assert_eq!(ensure_unique_name("New Recording", &existing), "New Recording (2)");
    assert_eq!(ensure_unique_name("Notes", &existing), "Notes (1)");
    assert_eq!(ensure_unique_name("Fresh", &existing), "Fresh");
    assert_eq!(ensure_unique_name("Fresh", &[]), "Fresh");
    assert_eq!(recording_display_name("  "), "New Recording");
    assert_eq!(recording_display_name(" Mine "), " Mine ");
    assert!(is_hidden_entry(".git"));
    assert!(!is_hidden_entry("rec"));
    assert!(!is_hidden_entry(""));
}

#[test]
fn workspaces() {
    let mut config = WorkspaceConfig::new();
    assert!(config.get_current_workspace().is_none());
    let w = config.add_workspace("w1".to_string(), String::new(), 10, "/data/w1".to_string());
    assert_eq!(w.name, "New Workspace");
    config.add_workspace("w2".to_string(), "Second".to_string(), 20, "/data/w2".to_string());
    assert_eq!(config.get_current_workspace().unwrap().id, "w1");
    assert_eq!(config.list_workspaces().len(), 2);
    assert_eq!(config.rename_workspace("w2", "Renamed".to_string()), Ok(()));
    assert_eq!(config.list_workspaces()[1].name, "Renamed");
    assert_eq!(config.rename_workspace("zz", "x".to_string()), Err("Workspace not found".to_string()));
    assert_eq!(config.set_current_workspace("zz".to_string()), Err("Workspace not found".to_string()));
    assert_eq!(config.set_current_workspace("w2".to_string()), Ok(()));
    assert_eq!(config.get_workspace_uploads_path("w2"), Ok("creek/workspaces/w2/uploads".to_string()));
    assert!(config.get_workspace_uploads_path("zz").is_err());
    let removed = config.delete_workspace("w2").unwrap();
    assert_eq!(removed.path, "/data/w2");
    assert!(config.current_workspace_id.is_none());
    assert_eq!(config.list_workspaces().len(), 1);
    assert!(config.delete_workspace("w2").is_err());
}

#[test]
fn toasts_and_status() {
    let t = ToastPayload::error("e".to_string());
    assert_eq!((t.message.as_str(), t.toast_type.as_str(), t.duration), ("e", "error", Some(5000)));
    let t = ToastPayload::warning("w".to_string());
    assert_eq!((t.toast_type.as_str(), t.duration), ("warning", Some(4000)));
    let t = ToastPayload::success("s".to_string());
    assert_eq!((t.toast_type.as_str(), t.duration), ("success", Some(3000)));
    let t = ToastPayload::info("i".to_string());
    assert_eq!((t.toast_type.as_str(), t.duration), ("info", Some(3000)));
    assert_eq!(AgentStatusPayload::thinking().status, "thinking");
    assert_eq!(AgentStatusPayload::idle().status, "idle");
}

#[test]
fn failed_commit_advances_neither_ring_nor_log() {
    let mut state = StateStore::new();
    let mut log = HistoryLog::new();
    let made = settle_commit(
        &mut state,
        &mut log,
        Ok("c1".to_string()),
        "Add intro".to_string(),
        "# Intro".to_string(),
    );
    assert!(made);
    assert_eq!(state.get_state().git_history, vec!["Add intro".to_string()]);
    assert_eq!(log.len(), 1);
    assert_eq!(log.content_at("c1"), Some("# Intro".to_string()));

    let made = settle_commit(
        &mut state,
        &mut log,
        Err("index is locked".to_string()),
        "Add more".to_string(),
        "# Intro\nmore".to_string(),
    );
    assert!(!made);
    assert_eq!(state.get_state().git_history, vec!["Add intro".to_string()]);
    assert_eq!(log.len(), 1);
    assert_eq!(log.get_history_with_hashes(10)[0].hash, "c1");
}

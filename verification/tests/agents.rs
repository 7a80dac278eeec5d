use creek::agents::append_agent::{AppendAgent, AppendStream};
use creek::agents::clear_agent::ClearAgent;
use creek::agents::edit_agent::{EditAgent, EditStep};
use creek::agents::grep_agent::{GrepAgent, GrepStep};
use creek::agents::undo_agent::{UndoAgent, UndoStep};
use creek::agents::{active_todo_pairs, build_assignment, render_plan, AgentContext};
use creek::chat::ChatHistory;
use creek::document::DocumentService;
use creek::history::CommitInfo;
use creek::intent::{DocIntent, PlanStep, ToolIntent};
use creek::prompts::document_editing::{
    build_edit_retry_prompt, build_system_message_with_state, APPEND_AGENT_PROMPT,
    EDIT_AGENT_PROMPT, GREP_AGENT_PROMPT,
};
use creek::state::{StateSnapshot, StateStore, TodoItem};
use creek::todo::{TodoAgent, TodoOperation};

fn step(intent: &str, instruction: &str) -> PlanStep {
    PlanStep { intent: intent.to_string(), instruction: instruction.to_string() }
}

fn context(transcript: &str, plan: Vec<PlanStep>) -> AgentContext {
    let mut ctx = AgentContext::new(
        transcript.to_string(),
        Some("rec".to_string()),
        Some("/tmp/rec".to_string()),
        ChatHistory::new(),
        DocIntent::NoOp,
        false,
        ToolIntent::NoTool,
    );
    ctx.plan = plan;
    ctx
}

fn snapshot() -> StateSnapshot {
    StateSnapshot {
        current_doc: String::new(),
        focus: "Planning the week".to_string(),
        git_history: vec!["Add list".to_string()],
        todo_list: vec![
            TodoItem {
                id: "t1".to_string(),
                desc: "Buy fruit".to_string(),
                completed: false,
                completed_turns_ago: None,
            },
            TodoItem {
                id: "t2".to_string(),
                desc: "Done thing".to_string(),
                completed: true,
                completed_turns_ago: Some(1),
            },
        ],
    }
}

fn history_pairs(ctx: &AgentContext) -> Vec<(String, String)> {
    ctx.chat_history.to_vec().into_iter().map(|m| (m.role, m.content)).collect()
}

#[test]
fn blackboard_starts_empty() {
    let ctx = context("hello", vec![]);
    assert_eq!(ctx.current_step, 0);
    assert!(ctx.plan.is_empty());
    assert_eq!(ctx.retrieved_context, "");
    assert_eq!(ctx.search_results, "");
    assert_eq!(ctx.current_instruction("fallback"), "fallback");
    let ctx = context("hello", vec![step("EDIT", "fix it")]);
    assert_eq!(ctx.current_instruction("fallback"), "fix it");
}

#[test]
fn assignment_shows_plan_and_step() {
    let mut ctx = context("Change Tuesday", vec![step("EDIT", "a"), step("GREP", "b")]);
    ctx.current_step = 1;
    assert_eq!(render_plan(&ctx.plan), "1. [EDIT] a\n2. [GREP] b");
    assert_eq!(
        build_assignment(&ctx, "GREP", "closing"),
        "User's Full Request: \"Change Tuesday\"\n\n>>> EXECUTION PLAN:\n1. [EDIT] a\n2. [GREP] b\n\n>>> YOUR CURRENT ASSIGNMENT (Step 2/2):\n[GREP] \"b\"\n\n(closing)"
    );
    let pairs = active_todo_pairs(&snapshot().todo_list);
    assert_eq!(pairs, vec![("t1".to_string(), "Buy fruit".to_string())]);
}

#[test]
fn append_request_has_system_history_and_assignment() {
    let mut ctx = context("Write an introduction", vec![step("APPEND", "Initial document content")]);
    ctx.retrieved_context = "1. [History] rivers\n".to_string();
    ctx.search_results = "facts".to_string();
    ctx.chat_history.record_exchange("earlier".to_string(), "answer".to_string());
    let snap = snapshot();
    let msgs = AppendAgent::build_messages(&ctx, "", &snap);
    assert_eq!(msgs.len(), 4);
    let todos = vec![("t1".to_string(), "Buy fruit".to_string())];
    let mut system = build_system_message_with_state(
        APPEND_AGENT_PROMPT,
        "",
        "Planning the week",
        &snap.git_history,
        &todos,
    );
    system.push_str("\n### Relevant Context (RAG)\n1. [History] rivers\n\n### Search Results\nfacts\n");
    assert_eq!(msgs[0].role, "system");
    assert_eq!(msgs[0].content, system);
    assert_eq!((msgs[1].role.as_str(), msgs[1].content.as_str()), ("user", "earlier"));
    assert_eq!((msgs[2].role.as_str(), msgs[2].content.as_str()), ("assistant", "answer"));
    assert_eq!(msgs[3].role, "user");
    assert!(msgs[3].content.ends_with(
        "(Step 1/1):\n[APPEND] \"Initial document content\"\n\n(Focus ONLY on this assigned task. Ignore other parts of the request if they don't relate to this step.)"
    ));

    let mut plain = String::new();
    ctx.retrieved_context = String::new();
    ctx.search_results = String::new();
    AppendAgent::enrich_system_message(&mut plain, &ctx);
    assert_eq!(plain, "\n### Relevant Context (RAG)\n[None]\n");
    assert_eq!(AppendAgent.name(), "AppendAgent");
}

#[test]
fn append_streams_into_the_document() {
    let mut doc = DocumentService::new("# Title".to_string());
    let mut ctx = context("Write an introduction", vec![step("APPEND", "x")]);
    let mut stream = AppendStream::new();
    let u1 = stream.on_chunk(&mut doc, "Rivers\tflow.\n");
    assert_eq!(u1.content, "# Title\n\nRivers    flow.\n");
    assert_eq!(u1.version, 2);
    let u2 = stream.on_chunk(&mut doc, "  - item\n");
    assert_eq!(u2.content, "# Title\n\nRivers    flow.\n  - item\n");
    assert_eq!(u2.version, 3);
    assert_eq!(u2.version, doc.version());
    assert!(stream.finish(&mut ctx));
    assert_eq!(
        history_pairs(&ctx),
        vec![
            ("user".to_string(), "Write an introduction".to_string()),
            ("assistant".to_string(), "Rivers    flow.\n    - item".to_string()),
        ]
    );
}

#[test]
fn cold_append_gives_version_one() {
    let mut doc = DocumentService::new(String::new());
    let mut ctx = context("Write an introduction about river ecology.", vec![step("APPEND", "x")]);
    let mut stream = AppendStream::new();
    let u = stream.on_chunk(&mut doc, "River ecology studies life in flowing water.");
    assert_eq!(u.version, 1);
    assert!(!doc.get_snapshot().content.is_empty());
    assert!(stream.finish(&mut ctx));

    let mut doc = DocumentService::new(String::new());
    let mut stream = AppendStream::new();
    stream.on_chunk(&mut doc, "  \n");
    let mut ctx = context("hm", vec![]);
    assert!(!stream.finish(&mut ctx));
    assert_eq!(ctx.chat_history.len(), 0);
}

#[test]
fn mend_markers_leaves_tabs_alone() {
    assert_eq!(EditAgent::mend_markers("\tx"), "\tx");
    let answer = "<<<<< SEARCH\n\ta\n=======\nb\n>>>>> REPLACE\n";
    let want = answer
        .replace("<<<<< SEARCH", "<<<<<<< SEARCH")
        .replace("<<<< SEARCH", "<<<<<<< SEARCH")
        .replace(">>>>> REPLACE", ">>>>>>> REPLACE")
        .replace(">>>>>> REPLACE", ">>>>>>> REPLACE");
    let mended = EditAgent::mend_markers(answer);
    assert_eq!(mended, want);
    assert!(mended.contains("\n\ta\n"));
    assert_eq!(EditAgent::cleanup_tags(answer), want.replace('\t', "    "));
}

#[test]
fn cleanup_tags_is_stable() {
    for text in ["a\tb", "\t\t", "plain", "<<<<\tSEARCH", "- item\n\t- nested\n"] {
        let once = EditAgent::cleanup_tags(text);
        assert_eq!(once, text.replace('\t', "    "));
        assert!(!once.contains('\t'));
        assert_eq!(EditAgent::cleanup_tags(&once), once);
    }
}

#[test]
fn cleanup_tags_mends_markers_and_tabs() {
    assert_eq!(EditAgent::cleanup_tags("\tx"), "    x");
    let cleaned = EditAgent::cleanup_tags("<<<<< SEARCH\na\n=======\nb\n>>>>> REPLACE\n");
    let want = "<<<<< SEARCH\na\n=======\nb\n>>>>> REPLACE\n"
        .replace("<<<<< SEARCH", "<<<<<<< SEARCH")
        .replace("<<<< SEARCH", "<<<<<<< SEARCH")
        .replace(">>>>> REPLACE", ">>>>>>> REPLACE")
        .replace(">>>>>> REPLACE", ">>>>>>> REPLACE")
        .replace("\t", "    ");
    assert_eq!(cleaned, want);
}

#[test]
fn targeted_edit_changes_the_line() {
    let mut doc = DocumentService::new("- Visit the market on Tuesday".to_string());
    let mut ctx = context("Change Tuesday to Wednesday.", vec![step("EDIT", "Change Tuesday to Wednesday")]);
    let response = "<<<<<<< SEARCH\n- Visit the market on Tuesday\n=======\n- Visit the market on Wednesday\n>>>>>>> REPLACE\n";
    match EditAgent::apply_response(1, &mut doc, &mut ctx, &snapshot(), response) {
        EditStep::Applied(update) => {
            assert_eq!(update.content, "- Visit the market on Wednesday");
            assert_eq!(update.version, 1);
        }
        _ => panic!("expected the edit to apply"),
    }
    assert_eq!(doc.get_snapshot().content, "- Visit the market on Wednesday");
    assert_eq!(ctx.chat_history.len(), 2);
}

#[test]
fn edit_retries_on_a_miss_and_then_succeeds() {
    let mut doc = DocumentService::new("list:\n    - item".to_string());
    let mut ctx = context("rename item", vec![step("EDIT", "rename")]);
    let snap = snapshot();
    let miss = "<<<<<<< SEARCH\n- thing\n=======\n- renamed\n>>>>>>> REPLACE\n";
    let retry = match EditAgent::apply_response(1, &mut doc, &mut ctx, &snap, miss) {
        EditStep::Retry(messages) => messages,
        _ => panic!("expected a retry"),
    };
    assert_eq!(doc.version(), 0);
    assert_eq!(ctx.chat_history.len(), 0);
    let n = retry.len();
    assert_eq!(n, 4);
    let todos = vec![("t1".to_string(), "Buy fruit".to_string())];
    assert_eq!(
        retry[0].content,
        build_system_message_with_state(
            EDIT_AGENT_PROMPT,
            "list:\n    - item",
            "Planning the week",
            &snap.git_history,
            &todos
        )
    );
    assert_eq!((retry[n - 2].role.as_str(), retry[n - 2].content.as_str()), ("assistant", miss));
    assert_eq!(retry[n - 1].role, "user");
    assert_eq!(retry[n - 1].content, build_edit_retry_prompt("Search block not found in document"));

    let hit = "<<<<<<< SEARCH\n\t- item\n=======\n\t- renamed\n>>>>>>> REPLACE\n";
    match EditAgent::apply_response(2, &mut doc, &mut ctx, &snap, hit) {
        EditStep::Applied(update) => assert_eq!(update.content, "list:\n    - renamed"),
        _ => panic!("expected the retry to apply"),
    }
    assert_eq!(doc.version(), 1);
}

#[test]
fn edit_gives_up_after_the_last_try() {
    let mut doc = DocumentService::new("doc".to_string());
    let mut ctx = context("x", vec![step("EDIT", "x")]);
    let miss = "<<<<<<< SEARCH\nnothing\n=======\ny\n>>>>>>> REPLACE\n";
    // The first answer and the answers to the first two retries lead to
    // another retry; the answer to the third retry is the last.
    for attempt in 1..=3 {
        match EditAgent::apply_response(attempt, &mut doc, &mut ctx, &snapshot(), miss) {
            EditStep::Retry(messages) => assert_eq!(messages[messages.len() - 2].content, miss),
            _ => panic!("expected retry number {}", attempt),
        }
    }
    match EditAgent::apply_response(4, &mut doc, &mut ctx, &snapshot(), miss) {
        EditStep::GaveUp(toast) => {
            assert_eq!(toast.message, "Failed to apply edits after retries");
            assert_eq!(toast.toast_type, "warning");
        }
        _ => panic!("expected to give up"),
    }
    assert_eq!(doc.version(), 0);
    match EditAgent::apply_response(1, &mut doc, &mut ctx, &snapshot(), "no blocks at all") {
        EditStep::Unchanged => {}
        _ => panic!("expected no change"),
    }
    assert_eq!(ctx.chat_history.len(), 2);
    assert_eq!(EditAgent::give_up().duration, Some(4000));
}

#[test]
fn grep_directive_is_read_from_the_answer() {
    assert_eq!(
        GrepAgent::parse_directive("FIND: Creek \nREPLACE: River\n"),
        ("Creek".to_string(), "River".to_string())
    );
    assert_eq!(
        GrepAgent::parse_directive("```\nFIND:FIND: a\nnoise\nREPLACE:\nFIND: b\n```"),
        ("b".to_string(), "".to_string())
    );
    assert_eq!(GrepAgent::parse_directive(" FIND: x"), (String::new(), String::new()));
}

#[test]
fn global_rename_replaces_every_match() {
    let mut doc = DocumentService::new("Creek is Creek, not creek. Creek!".to_string());
    let mut ctx = context("Rename all Creek to River.", vec![step("GREP", "rename")]);
    let response = "FIND: Creek\nREPLACE: River";
    match GrepAgent::apply_response(&mut doc, &mut ctx, response) {
        GrepStep::Replaced(update) => {
            assert_eq!(update.content, "River is River, not creek. River!");
            assert_eq!(update.version, 1);
        }
        _ => panic!("expected a replacement"),
    }
    let content = doc.get_snapshot().content;
    assert_eq!(content.matches("Creek").count(), 0);
    assert_eq!(content.matches("River").count(), 3);
    assert_eq!(history_pairs(&ctx)[1], ("assistant".to_string(), response.to_string()));
}

#[test]
fn grep_takes_regular_expressions_and_falls_back_to_plain_text() {
    let mut doc = DocumentService::new("a1 b22 c333".to_string());
    let mut ctx = context("x", vec![]);
    match GrepAgent::apply_response(&mut doc, &mut ctx, "FIND: ([a-z])\\d+\nREPLACE: $1#") {
        GrepStep::Replaced(update) => assert_eq!(update.content, "a# b# c#"),
        _ => panic!("expected a replacement"),
    }
    let mut doc = DocumentService::new("f(x) and f(x)".to_string());
    match GrepAgent::apply_response(&mut doc, &mut ctx, "FIND: f(x\nREPLACE: g(y") {
        GrepStep::Replaced(update) => assert_eq!(update.content, "g(y) and g(y)"),
        _ => panic!("expected a literal replacement"),
    }
    match GrepAgent::apply_response(&mut doc, &mut ctx, "FIND: zebra\nREPLACE: horse") {
        GrepStep::NotFound(toast) => {
            assert_eq!(toast.message, "Grep: Pattern not found 'zebra'");
            assert_eq!(toast.toast_type, "warning");
        }
        _ => panic!("expected a warning"),
    }
    assert_eq!(doc.version(), 1);
    match GrepAgent::apply_response(&mut doc, &mut ctx, "nothing to do") {
        GrepStep::NoPattern => {}
        _ => panic!("expected no pattern"),
    }
}

#[test]
fn grep_request_has_no_todos_and_no_history() {
    let mut ctx = context("Rename all", vec![step("GREP", "rename")]);
    ctx.chat_history.record_exchange("u".to_string(), "a".to_string());
    let snap = snapshot();
    let msgs = GrepAgent::build_messages(&ctx, "doc", &snap);
    assert_eq!(msgs.len(), 2);
    assert_eq!(
        msgs[0].content,
        build_system_message_with_state(GREP_AGENT_PROMPT, "doc", "Planning the week", &snap.git_history, &[])
    );
    let closing = format!(
        "[GREP] \"rename\"\n\n(Extract proper FIND/REPLACE values for {} task. Ignore other parts of the request if they don't relate to this step.)",
        "THIS"
    );
    assert!(msgs[1].content.ends_with(&closing));
}

fn commit(hash: &str, message: &str) -> CommitInfo {
    CommitInfo { hash: hash.to_string(), message: message.to_string() }
}

#[test]
fn undo_prompt_and_target() {
    let commits = vec![commit("abcdef1234567890", " Add Wednesday \n"), commit("123456", "Add intro")];
    assert!(UndoAgent::can_undo(&commits));
    assert!(!UndoAgent::can_undo(&commits[..1].to_vec()));
    assert_eq!(UndoAgent::history_text(&commits), "0. [abcdef1] Add Wednesday\n1. [123456] Add intro");
    let ctx = context("Undo.", vec![step("UNDO", "go back one")]);
    let msgs = UndoAgent::build_messages(&ctx, &commits);
    assert_eq!(msgs.len(), 1);
    assert!(msgs[0].content.starts_with(
        "User wants to undo/rollback.\n\nGit History (Latest first):\n0. [abcdef1] Add Wednesday\n1. [123456] Add intro\n\nSpecific Instruction: \"go back one\"\n(Original Input: \"Undo.\")\n\nTask:"
    ));
    assert_eq!(UndoAgent::instruction(&context("Undo.", vec![])), "Undo.");
    assert_eq!(UndoAgent::choose_target(Some("  123456 is the one\n"), "fallback"), "123456");
    assert_eq!(UndoAgent::choose_target(Some("   "), "fallback"), "fallback");
    assert_eq!(UndoAgent::choose_target(None, "fallback"), "fallback");
}

#[test]
fn undo_restores_and_moves_the_version_forward() {
    let mut doc = DocumentService::new("after edit".to_string());
    doc.reset("after edit".to_string());
    let mut state = StateStore::new();
    let mut ctx = context("Undo.", vec![step("UNDO", "undo")]);
    match UndoAgent::complete(&mut doc, &mut state, &mut ctx, "123456", Some("before edit".to_string())) {
        UndoStep::Restored(update, toast) => {
            assert_eq!(update.content, "before edit");
            assert_eq!(update.version, 2);
            assert_eq!(toast.message, "Rollback successful");
            assert_eq!(toast.toast_type, "success");
        }
        _ => panic!("expected the rollback to succeed"),
    }
    assert_eq!(state.get_state().current_doc, "before edit");
    assert_eq!(history_pairs(&ctx)[1].1, "ACTION: UNDO (to 123456)");
    match UndoAgent::complete(&mut doc, &mut state, &mut ctx, "zzz", None) {
        UndoStep::Failed(toast) => {
            assert_eq!(toast.message, "Rollback failed");
            assert_eq!(toast.toast_type, "error");
        }
        _ => panic!("expected the rollback to fail"),
    }
    assert_eq!(doc.version(), 2);
}

#[test]
fn clear_empties_document_and_todos() {
    let mut doc = DocumentService::new("text".to_string());
    let mut state = StateStore::new();
    state.add_todo("a".to_string(), "one".to_string());
    let mut ctx = context("Clear everything", vec![step("CLEAR", "clear")]);
    let out = ClearAgent::execute(&mut doc, &mut state, &mut ctx);
    assert_eq!(out.update.content, "");
    assert_eq!(out.update.version, 1);
    assert!(out.todo_update.unwrap().todos.is_empty());
    assert!(state.get_todos().is_empty());
    assert_eq!(history_pairs(&ctx)[1].1, "ACTION: CLEAR");
    let out = ClearAgent::execute(&mut doc, &mut state, &mut ctx);
    assert!(out.todo_update.is_none());
    assert_eq!(doc.version(), 2);
    assert_eq!(ClearAgent.name(), "ClearAgent");
}

#[test]
fn stream_writes_its_chunks_in_order() {
    let chunks = ["# Rivers\n", "\t- carry ", "water\n", "", "\t- shape land"];
    let whole: String = chunks.concat();

    // Into an empty document nothing is put in front.
    let mut doc = DocumentService::new(String::new());
    let mut stream = AppendStream::new();
    let mut versions = Vec::new();
    for c in chunks {
        versions.push(stream.on_chunk(&mut doc, c).version);
    }
    assert_eq!(doc.get_snapshot().content, whole.replace('\t', "    "));
    assert_eq!(versions, vec![1, 2, 3, 4, 5]);

    // A document that is not empty is ended by two newlines first.
    let mut doc = DocumentService::new("intro".to_string());
    let mut stream = AppendStream::new();
    for c in chunks {
        stream.on_chunk(&mut doc, c);
    }
    assert_eq!(
        doc.get_snapshot().content,
        format!("intro\n\n{}", whole.replace('\t', "    "))
    );
    assert_eq!(doc.version(), 6);
}

#[test]
fn maintenance_without_an_added_task_keeps_the_ids() {
    let mut state = StateStore::new();
    state.add_todo("t1".to_string(), "one".to_string());
    state.add_todo("t2".to_string(), "two".to_string());
    let ops = vec![
        TodoOperation::Update { todo_id: "t1".to_string(), new_desc: "uno".to_string() },
        TodoOperation::Complete { todo_id: "t2".to_string() },
        TodoOperation::Add { desc: "three".to_string() },
    ];
    let update = TodoAgent::apply_operations(&mut state, ops).unwrap();
    assert_eq!(update.todos.len(), 2);
    assert_eq!((update.todos[0].id.as_str(), update.todos[0].desc.as_str()), ("t1", "uno"));
    assert_eq!(update.todos[1].desc, "three");
    assert_eq!(update.todos[1].id.len(), 36);
    assert_eq!(update.todos[1].completed_turns_ago, None);
}

use creek::prompts::auto_naming::{AUTO_NAME_SYSTEM_PROMPT, AUTO_NAME_USER_TEMPLATE};
use creek::prompts::document_editing::{
    build_append_message, build_edit_message, build_edit_retry_prompt, build_grep_message,
    build_system_message_with_state, APPEND_AGENT_PROMPT, EDIT_AGENT_PROMPT, GREP_AGENT_PROMPT,
};
use creek::prompts::intent_router::{
    build_doc_intent_query, build_rag_need_query, build_tool_intent_query,
    DOC_INTENT_ROUTER_PROMPT, RAG_NEED_ROUTER_PROMPT, TOOL_INTENT_ROUTER_PROMPT,
};
use creek::prompts::rag::build_query_generation_prompt;
use creek::prompts::state_manager::{generate_commit_message_prompt, generate_focus_prompt};
use creek::prompts::todo_agent::build_todo_maintenance_prompt;
use creek::state::TodoItem;

#[test]
fn editing_messages() {
    assert_eq!(
        build_append_message("DOC", "SAID"),
        format!(
            "{}\n\n## Current Document\n```md\n{}\n```\n\n## User Input\n{}\n",
            APPEND_AGENT_PROMPT, "DOC", "SAID"
        )
    );
    assert_eq!(
        build_edit_message("DOC", "SAID"),
        format!(
            "{}\n\n## Current Document\n```md\n{}\n```\n\n## User Modification Request\n{}\n",
            EDIT_AGENT_PROMPT, "DOC", "SAID"
        )
    );
    assert_eq!(
        build_grep_message("DOC", "SAID"),
        format!(
            "{}\n\n## Current Document\n```md\n{}\n```\n\n## User Find and Replace Request\n{}\n",
            GREP_AGENT_PROMPT, "DOC", "SAID"
        )
    );
    let retry = build_edit_retry_prompt("Search block not found in document");
    assert!(retry.starts_with(
        "**Correction Hint**: Last edit failed.\n\nError Message: Search block not found in document\n\n**CRITICAL"
    ));
    assert!(retry.contains("   - WRONG: `\\t- item` (Tab)\n"));
    assert!(retry.ends_with("replace all Tabs with 4 spaces, and then try again."));
}

#[test]
fn system_message_always_has_every_section() {
    let empty = build_system_message_with_state("BASE", "", "", &[], &[]);
    assert_eq!(
        empty,
        "BASE\n\n## Current Context\n\n### Current Document\n```md\n[Empty]\n```\n\n### Current Focus\n[None]\n\n### Recent Changes\n[None]\n\n### Active Todos\n[None]\n"
    );
    let history = vec!["Add intro".to_string(), "Fix typo".to_string()];
    let todos = vec![
        ("id-1".to_string(), "Write summary".to_string()),
        ("id-2".to_string(), "Check dates".to_string()),
    ];
    let full = build_system_message_with_state("BASE", "# Doc", "Writing", &history, &todos);
    assert_eq!(
        full,
        "BASE\n\n## Current Context\n\n### Current Document\n```md\n# Doc\n```\n\n### Current Focus\nWriting\n\n### Recent Changes\n1. Add intro\n2. Fix typo\n\n### Active Todos\n1. Write summary (id: id-1)\n2. Check dates (id: id-2)\n"
    );
    let many: Vec<String> = (0..12).map(|i| format!("c{}", i)).collect();
    let msg = build_system_message_with_state("B", "d", "f", &many, &[]);
    assert!(msg.contains("\n10. c9\n11. c10\n12. c11\n"));
}

#[test]
fn router_queries() {
    assert_eq!(
        build_doc_intent_query("", "hi"),
        format!(
            "{}\n\n## Current Document\n```md\n{}\n```\n\n## User Input\n{}\n\n## Intent Planning (Output single word or JSON array):",
            DOC_INTENT_ROUTER_PROMPT, "[Empty Document]", "hi"
        )
    );
    assert_eq!(
        build_tool_intent_query("doc", "hi"),
        format!(
            "{}\n\n## Current Document\n```md\n{}\n```\n\n## User Input\n{}\n\n## Tool Requirement (Output ONLY NONE or SEARCH):",
            TOOL_INTENT_ROUTER_PROMPT, "doc", "hi"
        )
    );
    let history = vec!["a".to_string(), "b".to_string()];
    assert_eq!(
        build_rag_need_query("doc", "", &history, "", "hi"),
        format!(
            "{}\n\n## Current Context\n\n### Document Content\n```md\n{}\n```\n\n### Current Focus\n{}\n\n### Git History\n{}\n\n### Todo List\n{}\n\n## User Input\n{}\n\n## Need to retrieve history (Output ONLY true or false):",
            RAG_NEED_ROUTER_PROMPT, "doc", "[None]", "a\nb", "[None]", "hi"
        )
    );
    assert!(build_rag_need_query("", "f", &[], "- t", "hi")
        .contains("```md\n[Empty Document]\n```\n\n### Current Focus\nf\n\n### Git History\n[No history]\n\n### Todo List\n- t\n\n"));
}

#[test]
fn previews_are_cut_to_size() {
    let doc = "\u{6cb3}".repeat(200);
    let p = build_query_generation_prompt("what about it", &doc);
    assert!(p.starts_with("You are a Query Agent in a RAG system.\n"));
    assert!(p.contains(&format!("## Current Document Context\n```\n{}\n```\n\n## User Input\nwhat about it\n\n## Your Task", "\u{6cb3}".repeat(100))));
    assert!(p.ends_with("Output ONLY the search query (no explanation, no preamble):\n"));

    let focus = generate_focus_prompt(&"x".repeat(600));
    assert!(focus.contains(&format!("\nDocument:\n{}\n\nOutput only the focus description", "x".repeat(500))));
    let commit = generate_commit_message_prompt("+ line");
    assert!(commit.starts_with("Generate a concise git commit message"));
    assert!(commit.contains("\nDiff:\n+ line\n\nOutput only the commit message (no preamble, no explanation, no quotes)."));
}

fn todo(id: &str, desc: &str, completed: bool, ago: Option<u32>) -> TodoItem {
    TodoItem { id: id.to_string(), desc: desc.to_string(), completed, completed_turns_ago: ago }
}

#[test]
fn todo_prompt_shows_tasks_and_status() {
    let p = build_todo_maintenance_prompt("doc", &[], "said", "  ");
    assert!(p.contains("## Current Todos\n[None]\n\nSTATUS: 0 active items - within limit\n\n## Recent Changes\n[None]\n\n## User Input\nsaid\n"));
    assert!(p.contains("{\"action\": \"complete\", \"todo_id\": \"existing-id\"},"));
    assert!(p.ends_with("If no operations needed, output: {\"operations\": []}\n"));

    let todos = vec![
        todo("a", "one", false, None),
        todo("b", "two", true, Some(3)),
        todo("c", "three", true, None),
    ];
    let p = build_todo_maintenance_prompt("doc", &todos, "said", "focus");
    assert!(p.contains("## Current Todos\n- [a] one (pending)\n- [b] two (completed - 3 turns ago)\n- [c] three (completed)\n\nSTATUS: 1 active items - within limit\n\n## Recent Changes\nfocus\n"));

    let nine: Vec<TodoItem> = (0..9).map(|i| todo(&i.to_string(), "t", false, None)).collect();
    assert!(build_todo_maintenance_prompt("d", &nine, "s", "f")
        .contains("STATUS: 9 active items - approaching limit, consider cleanup\n"));
    let twelve: Vec<TodoItem> = (0..12).map(|i| todo(&i.to_string(), "t", false, None)).collect();
    assert!(build_todo_maintenance_prompt("d", &twelve, "s", "f")
        .contains("STATUS: 12 active items - EXCEEDS LIMIT, delete at least 4 immediately\n"));
}

#[test]
fn naming_prompts() {
    assert!(AUTO_NAME_SYSTEM_PROMPT.starts_with("You are a concise titling assistant."));
    assert!(AUTO_NAME_USER_TEMPLATE.contains("{content}"));
}

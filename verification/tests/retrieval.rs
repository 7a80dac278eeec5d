use creek::agents::rag_agent::{RagAgent, RetrievalEvent};
use creek::agents::search_agent::SearchAgent;
use creek::intent::ToolIntent;
use creek::rag::{
    chunk_text, get_table_name, hex_string, rank_results, unify_results, ConversationTurn,
    QueryAgent, SearchResult,
};

#[test]
fn table_names() {
    assert_eq!(get_table_name("abc-123_x.y", "recording"), "recording_abc_123_x.y");
    assert_eq!(
        get_table_name("550e8400-e29b-41d4-a716-446655440000", "resources"),
        "resources_550e8400_e29b_41d4_a716_446655440000"
    );
    assert_eq!(
        get_table_name("\u{5f55}\u{97f3}\u{4e00}", "recording"),
        "recording_515cf29b7f52073d8da1114690af6c5bb67fd8be854e7e3b59cf3abc173249f8"
    );
    assert_eq!(
        get_table_name("my recording", "resources"),
        "resources_6976fc09a78ecf685d93f0d4d8b2c527faa788b8351e8fd1a58d2d0270f79b1e"
    );
    assert_eq!(get_table_name("", "recording"), "recording_");
    assert_eq!(hex_string(&vec![0x00, 0x0f, 0xa5, 0xff]), "000fa5ff");
}

#[test]
fn chunks_overlap_by_fifty() {
    assert!(chunk_text("", 500).is_empty());
    assert_eq!(chunk_text("short", 500), vec!["short".to_string()]);
    let text: String = (0..1000).map(|i| char::from(b'a' + (i % 26) as u8)).collect();
    let chunks = chunk_text(&text, 500);
    assert_eq!(chunks.len(), 3);
    assert_eq!(chunks[0], text[0..500]);
    assert_eq!(chunks[1], text[450..950]);
    assert_eq!(chunks[2], text[900..1000]);
    let chunks = chunk_text(&"\u{6cb3}".repeat(460), 500);
    assert_eq!(chunks.len(), 2);
    assert_eq!(chunks[1].chars().count(), 10);
}

fn result(content: &str, source: &str, score_key: u32) -> SearchResult {
    SearchResult {
        content: content.to_string(),
        source: source.to_string(),
        timestamp: 0,
        score_key,
    }
}

#[test]
fn ranking_is_by_falling_score_and_stable() {
    let items = vec![
        result("a", "conversation", 70),
        result("b", "x.md", 90),
        result("c", "conversation", 70),
        result("d", "y.md", 95),
        result("e", "y.md", 90),
    ];
    let ranked = rank_results(&items, 10);
    let order: Vec<&str> = ranked.iter().map(|r| r.content.as_str()).collect();
    assert_eq!(order, vec!["d", "b", "e", "a", "c"]);
    let top = rank_results(&items, 2);
    let order: Vec<&str> = top.iter().map(|r| r.content.as_str()).collect();
    assert_eq!(order, vec!["d", "b"]);
    assert!(rank_results(&items, 0).is_empty());
    let scores: Vec<f32> = vec![0.71, 0.99, 0.7, 0.85];
    let floats: Vec<SearchResult> =
        scores.iter().map(|s| result(&s.to_string(), "conversation", s.to_bits())).collect();
    let order: Vec<String> = rank_results(&floats, 4).into_iter().map(|r| r.content).collect();
    assert_eq!(order, vec!["0.99", "0.85", "0.71", "0.7"]);
}

#[test]
fn unified_results_mix_turns_and_documents() {
    let turns = vec![result("t1", "conversation", 80), result("t2", "conversation", 75)];
    let docs = vec![result("d1", "notes.md", 90), result("d2", "notes.md", 80)];
    let all = unify_results(&turns, &docs, 3);
    let order: Vec<&str> = all.iter().map(|r| r.content.as_str()).collect();
    assert_eq!(order, vec!["d1", "t1", "d2"]);
}

#[test]
fn retrieval_context_is_a_numbered_list() {
    let items = vec![result("we talked about rivers", "conversation", 9), result("chunk", "notes.md", 8)];
    assert_eq!(
        RagAgent::format_results(&items),
        "1. [History] we talked about rivers\n2. [Doc: notes.md] chunk\n"
    );
    assert_eq!(RagAgent::format_results(&vec![]), "");
    assert_eq!(RagAgent::target(true, Some("rec")), Some("rec".to_string()));
    assert_eq!(RagAgent::target(false, Some("rec")), None);
    assert_eq!(RagAgent::target(true, None), None);
}

#[test]
fn retrieval_failures_degrade_to_empty_context() {
    let (ctx, toast) = RagAgent::conclude(RetrievalEvent::Retrieved(vec![result("x", "conversation", 1)]));
    assert_eq!(ctx, "1. [History] x\n");
    assert!(toast.is_none());
    let (ctx, toast) = RagAgent::conclude(RetrievalEvent::QueryFailed("boom".to_string()));
    assert_eq!(ctx, "");
    let toast = toast.unwrap();
    assert_eq!(toast.message, "RAG query generation failed: boom");
    assert_eq!(toast.toast_type, "warning");
    let (_, toast) = RagAgent::conclude(RetrievalEvent::QueryTimedOut);
    assert_eq!(toast.unwrap().message, "RAG query generation timeout");
    let (_, toast) = RagAgent::conclude(RetrievalEvent::RetrievalFailed("io".to_string()));
    assert_eq!(toast.unwrap().message, "RAG retrieval failed: io");
    let (ctx, toast) = RagAgent::conclude(RetrievalEvent::RetrievalTimedOut);
    assert_eq!(ctx, "");
    assert_eq!(toast.unwrap().message, "RAG retrieval timeout");
}

#[test]
fn query_falls_back_to_the_turn() {
    assert_eq!(QueryAgent::choose_query(Some("  river ecology \n"), "turn"), "river ecology");
    assert_eq!(QueryAgent::choose_query(Some("   "), "turn"), "turn");
    assert_eq!(QueryAgent::choose_query(None, "turn"), "turn");
    assert_eq!(QueryAgent::choose_query(Some(&"q".repeat(100)), "turn"), "q".repeat(100));
    assert_eq!(QueryAgent::choose_query(Some(&"q".repeat(101)), "turn"), "turn");
    assert_eq!(QueryAgent::choose_query(Some(&"\u{6cb3}".repeat(34)), "turn"), "turn");
    assert_eq!(
        QueryAgent::choose_query(Some(&"\u{6cb3}".repeat(33)), "turn"),
        "\u{6cb3}".repeat(33)
    );
    let _ = QueryAgent::new();
}

#[test]
fn stored_turns_get_an_identity() {
    let a = ConversationTurn::new("hello".to_string());
    let b = ConversationTurn::new("hello".to_string());
    assert_eq!(a.asr_input, "hello");
    assert_eq!(a.id.len(), 36);
    assert_ne!(a.id, b.id);
    assert!(a.timestamp > 1_600_000_000_000);
    let c = ConversationTurn::with_identity("id".to_string(), 5, "x".to_string());
    assert_eq!((c.id.as_str(), c.timestamp, c.asr_input.as_str()), ("id", 5, "x"));
}

#[test]
fn search_agent_messages_and_results() {
    assert!(SearchAgent::build_messages(&ToolIntent::NoTool).is_none());
    let msgs = SearchAgent::build_messages(&ToolIntent::Search("river news".to_string())).unwrap();
    assert_eq!(msgs.len(), 2);
    assert_eq!(msgs[0].role, "system");
    assert!(msgs[0].content.starts_with("You are a web search assistant."));
    assert_eq!((msgs[1].role.as_str(), msgs[1].content.as_str()), ("user", "river news"));
    let (text, toast) = SearchAgent::conclude(Some("found".to_string()));
    assert_eq!(text, "found");
    assert!(toast.is_none());
    let (text, toast) = SearchAgent::conclude(None);
    assert_eq!(text, "");
    assert_eq!(toast.unwrap().toast_type, "warning");
    let intent = ToolIntent::Search("q".to_string());
    assert!(SearchAgent::results_event(&intent, "").is_none());
    let ev = SearchAgent::results_event(&intent, "facts").unwrap();
    assert_eq!((ev.query.as_str(), ev.content.as_str()), ("q", "facts"));
}

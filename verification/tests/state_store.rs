use creek::chat::{ChatHistory, ChatMessage};
use creek::history::HistoryLog;
use creek::document::DocumentService;
use creek::state::{CommitRing, StateStore};

#[test]
fn commit_ring_keeps_the_newest_ten() {
    let mut ring = CommitRing::new();
    for i in 0..25 {
        ring.push(format!("commit {}", i));
        assert!(ring.len() <= 10);
    }
    let want: Vec<String> = (15..25).map(|i| format!("commit {}", i)).collect();
    assert_eq!(ring.to_vec(), want);
    ring.refill((0..3).map(|i| format!("m{}", i)).collect());
    assert_eq!(ring.to_vec(), vec!["m0", "m1", "m2"]);
    ring.refill((0..13).map(|i| format!("m{}", i)).collect());
    assert_eq!(ring.len(), 10);
    assert_eq!(ring.to_vec()[0], "m3");
}

#[test]
fn state_store_holds_focus_document_and_recording() {
    let mut state = StateStore::new();
    assert_eq!(state.current_recording(), None);
    state.update_document("doc".to_string());
    state.set_focus("Writing the intro".to_string());
    state.set_current_recording("rec-1".to_string());
    for i in 0..11 {
        state.add_git_history(format!("c{}", i));
    }
    let snap = state.get_state();
    assert_eq!(snap.current_doc, "doc");
    assert_eq!(snap.focus, "Writing the intro");
    assert_eq!(snap.git_history.len(), 10);
    assert_eq!(snap.git_history[0], "c1");
    assert_eq!(snap.git_history[9], "c10");
    assert_eq!(state.commit_message_count(), 10);
    assert_eq!(state.current_recording(), Some("rec-1".to_string()));
    state.add_todo("t".to_string(), "task".to_string());
    state.reset_recording_state();
    let snap = state.get_state();
    assert_eq!(snap.current_doc, "doc");
    assert_eq!(snap.focus, "");
    assert!(snap.git_history.is_empty());
    assert!(snap.todo_list.is_empty());
    state.clear_current_recording();
    assert_eq!(state.current_recording(), None);
}

#[test]
fn todo_list_operations() {
    let mut state = StateStore::new();
    state.add_todo("a".to_string(), "one".to_string());
    state.add_todo("b".to_string(), "two".to_string());
    state.add_todo("c".to_string(), "three".to_string());
    assert!(state.update_todo("b", "TWO".to_string()).is_ok());
    assert!(state.complete_todo("a").is_ok());
    assert!(state.toggle_todo("c").is_ok());
    assert!(state.toggle_todo("c").is_ok());
    let err = state.delete_todo("zzz").unwrap_err();
    assert_eq!(err.message(), "Todo not found: zzz");
    assert!(state.update_todo("zzz", "x".to_string()).is_err());
    assert!(state.complete_todo("zzz").is_err());
    assert!(state.toggle_todo("zzz").is_err());
    let todos = state.get_todos();
    assert_eq!(todos.len(), 3);
    assert_eq!((todos[0].completed, todos[0].completed_turns_ago), (true, Some(0)));
    assert_eq!(todos[1].desc, "TWO");
    assert_eq!((todos[2].completed, todos[2].completed_turns_ago), (false, None));
    let kept = state.get_todos();
    state.replace_todos(Vec::new());
    assert!(state.get_todos().is_empty());
    state.replace_todos(kept);
    assert_eq!(state.get_todos().len(), 3);
    state.remove_completed_todos();
    let ids: Vec<String> = state.get_todos().into_iter().map(|t| t.id).collect();
    assert_eq!(ids, vec!["b", "c"]);
    assert!(state.delete_todo("b").is_ok());
    state.clear_todos();
    assert!(state.get_todos().is_empty());
}

#[test]
fn chat_history_never_holds_more_than_six() {
    let mut history = ChatHistory::new();
    for i in 0..5 {
        history.record_exchange(format!("u{}", i), format!("a{}", i));
        assert!(history.len() <= 6);
    }
    let msgs = history.to_vec();
    let flat: Vec<(String, String)> = msgs.into_iter().map(|m| (m.role, m.content)).collect();
    let want: Vec<(String, String)> = [
        ("user", "u2"),
        ("assistant", "a2"),
        ("user", "u3"),
        ("assistant", "a3"),
        ("user", "u4"),
        ("assistant", "a4"),
    ]
    .iter()
    .map(|(r, c)| (r.to_string(), c.to_string()))
    .collect();
    assert_eq!(flat, want);
    let many: Vec<ChatMessage> = (0..9).map(|i| ChatMessage::user(format!("m{}", i))).collect();
    let h = ChatHistory::from_messages(many);
    assert_eq!(h.len(), 6);
    assert_eq!(h.to_vec()[0].content, "m3");
    assert_eq!(h.duplicate().len(), 6);
    history.clear();
    assert_eq!(history.len(), 0);
}

#[test]
fn history_log_rolls_back_and_forth() {
    let mut log = HistoryLog::new();
    log.commit("aaaa1111".to_string(), "first".to_string(), "one".to_string());
    log.commit("bbbb2222".to_string(), "second".to_string(), "one two".to_string());
    log.commit("cccc3333".to_string(), "third".to_string(), "one two three".to_string());
    assert_eq!(log.len(), 3);
    let newest = log.get_history_with_hashes(2);
    assert_eq!(newest.len(), 2);
    assert_eq!((newest[0].hash.as_str(), newest[0].message.as_str()), ("cccc3333", "third"));
    assert_eq!(newest[1].hash, "bbbb2222");
    assert_eq!(log.get_history_with_hashes(10).len(), 3);
    assert_eq!(log.previous_hash(), Some("bbbb2222".to_string()));
    assert_eq!(log.find("bbbb2222"), Some(1));
    assert_eq!(log.find("bbbb"), None);
    assert_eq!(log.find(""), None);
    assert_eq!(log.find("dddd"), None);
    assert_eq!(log.content_at("aaaa1111"), Some("one".to_string()));

    let mut doc = DocumentService::new("one two three".to_string());
    let before = doc.get_snapshot();
    assert_eq!(log.rollback(&mut doc, "aaaa1111").unwrap(), "one");
    assert_eq!(doc.get_snapshot().content, "one");
    assert_eq!(log.rollback(&mut doc, "cccc3333").unwrap(), "one two three");
    let after = doc.get_snapshot();
    assert_eq!(after.content, before.content);
    assert_eq!(after.version, before.version + 2);
    let err = log.rollback(&mut doc, "nope").unwrap_err();
    assert_eq!(err.message(), "Commit not found: nope");
    assert_eq!(doc.version(), before.version + 2);
    log.clear();
    assert_eq!(log.len(), 0);
    assert_eq!(log.previous_hash(), None);
}
